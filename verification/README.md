# doubao_asr

The verified core of a dictation client for the Doubao (Volcano Engine) cloud speech
recogniser, written in Verus.

- `src/cloud_asr/doubao/`: the wire protocol. Frame headers and fields, request frames,
  server frames, the WebSocket handshake, the transcription of a complete recording, and the
  session that uploads while recording.
- `src/streaming_paste.rs`: typing a growing text with as few keys as possible.
- `src/managers/`: the loaded engine with its unloading and idle check; the loading of a model
  and a transcription, each step by step; languages and the options that an engine is run
  with; what is done to a recognised text.
- `src/text.rs`, `src/settings.rs`: text helpers, and the settings that the rest reads.
- `app/`: the application around it: network, keyboard, threads and engines.

Sessions, typing, loading and transcription are state machines: each event goes in, and what is to be sent,
typed or returned comes out. The proofs say, among other things, that no audio is lost,
repeated or moved, that packets are numbered in order with only the last number negated, that
the text returned is the last one the server sent, and that taking back what was typed
restores the input field.

A few calls into other crates are trusted, each behind a small function whose comment says
what is claimed of it: gzip (`flate2`), URIs and header values (`http`), WebSocket keys
(`tungstenite`), request ids (`uuid`), and two functions of the standard library.

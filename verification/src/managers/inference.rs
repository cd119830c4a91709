//! Languages, and the options that an engine is run with.

use crate::managers::model::{EngineType, ModelInfo};
use crate::settings::AppSettings;
use crate::text::{contains_text, join_texts, same_text};
#[allow(unused_imports)]
use crate::text::{joined, joining_adds_a_separator_and_a_part, opt_text, texts};
use vstd::prelude::*;

verus! {

/// Whether a model takes a language. One that is not known, or that lists no languages,
/// takes all.
pub open spec fn supports(info: Option<ModelInfo>, language: Seq<char>) -> bool {
    match info {
        Some(info) => info.supported_languages@.len() == 0 || texts(
            info.supported_languages@,
        ).contains(language),
        None => true,
    }
}

/// The language that the model is asked for: the selected one where it takes it, else
/// none in particular.
pub open spec fn validated(settings: AppSettings, info: Option<ModelInfo>) -> Seq<char> {
    if supports(info, settings.selected_language@) {
        settings.selected_language@
    } else {
        "auto"@
    }
}

/// Picks the language that the model is asked for.
pub fn validate_language(settings: &AppSettings, info: &Option<ModelInfo>) -> (r: String)
    ensures
        r@ == validated(*settings, *info),
        *info is None ==> r@ == settings.selected_language@,
        *info matches Some(info) ==> {
            &&& info.supported_languages@.len() == 0 ==> r@ == settings.selected_language@
            &&& (exists|i: int|
                0 <= i < info.supported_languages@.len() && (
                #[trigger] info.supported_languages@[i])@ == settings.selected_language@) ==> r@
                == settings.selected_language@
        },
{
    if same_text(settings.selected_language.as_str(), "auto") {
        return "auto".to_owned();
    }
    let supported = match info {
        Some(info) => info.supported_languages.len() == 0 || contains_text(
            &info.supported_languages,
            settings.selected_language.as_str(),
        ),
        None => true,
    };
    if supported {
        settings.selected_language.clone()
    } else {
        "auto".to_owned()
    }
}

/// A model is never asked for a language that it does not take.
pub proof fn validated_language_is_supported(settings: AppSettings, info: Option<ModelInfo>)
    ensures
        validated(settings, info) == "auto"@ || supports(info, validated(settings, info)),
{
}

/// Whether a language code stands for written Chinese with a script.
pub open spec fn names_a_script(code: Seq<char>) -> bool {
    code == "zh-Hans"@ || code == "zh-Hant"@
}

/// Whether a language code stands for Chinese.
pub open spec fn is_chinese(code: Seq<char>) -> bool {
    code == "zh"@ || names_a_script(code)
}

fn script(code: &str) -> (r: bool)
    ensures
        r == names_a_script(code@),
{
    same_text(code, "zh-Hans") || same_text(code, "zh-Hant")
}

fn chinese(code: &str) -> (r: bool)
    ensures
        r == is_chinese(code@),
{
    same_text(code, "zh") || script(code)
}

/// A language as an option; `auto` is none.
pub open spec fn plain_language(code: Seq<char>) -> Option<Seq<char>> {
    if code == "auto"@ {
        None
    } else {
        Some(code)
    }
}

fn choose_plain(code: &str) -> (r: Option<String>)
    ensures
        opt_text(r) == plain_language(code@),
{
    if same_text(code, "auto") {
        None
    } else {
        Some(code.to_owned())
    }
}

/// A language as an option, without a script.
pub open spec fn unscripted_language(code: Seq<char>) -> Option<Seq<char>> {
    if code == "auto"@ {
        None
    } else if names_a_script(code) {
        Some("zh"@)
    } else {
        Some(code)
    }
}

fn choose_unscripted(code: &str) -> (r: Option<String>)
    ensures
        opt_text(r) == unscripted_language(code@),
{
    if same_text(code, "auto") {
        None
    } else if script(code) {
        Some("zh".to_owned())
    } else {
        Some(code.to_owned())
    }
}

/// The language for SenseVoice, which knows five.
pub open spec fn sense_voice_language(code: Seq<char>) -> Option<Seq<char>> {
    if is_chinese(code) {
        Some("zh"@)
    } else if code == "en"@ {
        Some("en"@)
    } else if code == "ja"@ {
        Some("ja"@)
    } else if code == "ko"@ {
        Some("ko"@)
    } else if code == "yue"@ {
        Some("yue"@)
    } else {
        None
    }
}

fn choose_sense_voice(code: &str) -> (r: Option<String>)
    ensures
        opt_text(r) == sense_voice_language(code@),
{
    if chinese(code) {
        Some("zh".to_owned())
    } else if same_text(code, "en") {
        Some("en".to_owned())
    } else if same_text(code, "ja") {
        Some("ja".to_owned())
    } else if same_text(code, "ko") {
        Some("ko".to_owned())
    } else if same_text(code, "yue") {
        Some("yue".to_owned())
    } else {
        None
    }
}

/// The BCP-47 tag of a language for the cloud recogniser. A code without an entry of its
/// own is passed on.
pub open spec fn doubao_language(code: Seq<char>) -> Option<Seq<char>> {
    if code == "auto"@ {
        None
    } else if is_chinese(code) {
        Some("zh-CN"@)
    } else if code == "en"@ {
        Some("en-US"@)
    } else if code == "ja"@ {
        Some("ja-JP"@)
    } else if code == "ko"@ {
        Some("ko-KR"@)
    } else if code == "yue"@ {
        Some("yue-CN"@)
    } else if code == "ru"@ {
        Some("ru-RU"@)
    } else if code == "fr"@ {
        Some("fr-FR"@)
    } else if code == "de"@ {
        Some("de-DE"@)
    } else if code == "es"@ {
        Some("es-MX"@)
    } else if code == "pt"@ {
        Some("pt-BR"@)
    } else if code == "id"@ {
        Some("id-ID"@)
    } else if code == "fil"@ {
        Some("fil-PH"@)
    } else if code == "ms"@ {
        Some("ms-MY"@)
    } else if code == "th"@ {
        Some("th-TH"@)
    } else if code == "ar"@ {
        Some("ar-SA"@)
    } else if code == "it"@ {
        Some("it-IT"@)
    } else if code == "bn"@ {
        Some("bn-BD"@)
    } else if code == "el"@ {
        Some("el-GR"@)
    } else if code == "nl"@ {
        Some("nl-NL"@)
    } else if code == "tr"@ {
        Some("tr-TR"@)
    } else if code == "vi"@ {
        Some("vi-VN"@)
    } else if code == "pl"@ {
        Some("pl-PL"@)
    } else if code == "ro"@ {
        Some("ro-RO"@)
    } else if code == "ne"@ {
        Some("ne-NP"@)
    } else if code == "uk"@ {
        Some("uk-UA"@)
    } else {
        Some(code)
    }
}

fn choose_doubao(code: &str) -> (r: Option<String>)
    ensures
        opt_text(r) == doubao_language(code@),
{
    if same_text(code, "auto") {
        None
    } else if chinese(code) {
        Some("zh-CN".to_owned())
    } else if same_text(code, "en") {
        Some("en-US".to_owned())
    } else if same_text(code, "ja") {
        Some("ja-JP".to_owned())
    } else if same_text(code, "ko") {
        Some("ko-KR".to_owned())
    } else if same_text(code, "yue") {
        Some("yue-CN".to_owned())
    } else if same_text(code, "ru") {
        Some("ru-RU".to_owned())
    } else if same_text(code, "fr") {
        Some("fr-FR".to_owned())
    } else if same_text(code, "de") {
        Some("de-DE".to_owned())
    } else if same_text(code, "es") {
        Some("es-MX".to_owned())
    } else if same_text(code, "pt") {
        Some("pt-BR".to_owned())
    } else if same_text(code, "id") {
        Some("id-ID".to_owned())
    } else if same_text(code, "fil") {
        Some("fil-PH".to_owned())
    } else if same_text(code, "ms") {
        Some("ms-MY".to_owned())
    } else if same_text(code, "th") {
        Some("th-TH".to_owned())
    } else if same_text(code, "ar") {
        Some("ar-SA".to_owned())
    } else if same_text(code, "it") {
        Some("it-IT".to_owned())
    } else if same_text(code, "bn") {
        Some("bn-BD".to_owned())
    } else if same_text(code, "el") {
        Some("el-GR".to_owned())
    } else if same_text(code, "nl") {
        Some("nl-NL".to_owned())
    } else if same_text(code, "tr") {
        Some("tr-TR".to_owned())
    } else if same_text(code, "vi") {
        Some("vi-VN".to_owned())
    } else if same_text(code, "pl") {
        Some("pl-PL".to_owned())
    } else if same_text(code, "ro") {
        Some("ro-RO".to_owned())
    } else if same_text(code, "ne") {
        Some("ne-NP".to_owned())
    } else if same_text(code, "uk") {
        Some("uk-UA".to_owned())
    } else {
        Some(code.to_owned())
    }
}

/// The options that an engine is run with.
#[derive(Debug)]
pub enum InferencePlan {
    /// Whisper, which takes the custom words as a prompt.
    Whisper { language: Option<String>, translate: bool, initial_prompt: Option<String> },
    /// Parakeet, with a time stamp for each segment.
    Parakeet,
    /// An engine with its default options.
    Default,
    /// SenseVoice, which also restores numbers and punctuation.
    SenseVoice { language: Option<String> },
    /// Canary or Cohere.
    Options { language: Option<String>, translate: bool },
    /// The cloud recogniser.
    Doubao { language: Option<String> },
}

/// Whether `plan` is the one for an engine, a language and the settings.
pub open spec fn is_plan(
    plan: InferencePlan,
    engine: EngineType,
    code: Seq<char>,
    settings: AppSettings,
) -> bool {
    match engine {
        EngineType::Whisper => {
            &&& plan is Whisper
            &&& opt_text(plan->Whisper_language) == unscripted_language(code)
            &&& plan->Whisper_translate == settings.translate_to_english
            &&& opt_text(plan->initial_prompt) == (if settings.custom_words@.len() == 0 {
                None
            } else {
                Some(joined(texts(settings.custom_words@), ", "@))
            })
        },
        EngineType::Parakeet => plan is Parakeet,
        EngineType::Moonshine | EngineType::MoonshineStreaming | EngineType::GigaAM =>
            plan is Default,
        EngineType::SenseVoice => plan is SenseVoice && opt_text(plan->SenseVoice_language)
            == sense_voice_language(code),
        EngineType::Canary => {
            &&& plan is Options
            &&& opt_text(plan->Options_language) == plain_language(code)
            &&& plan->Options_translate == settings.translate_to_english
        },
        EngineType::Cohere => {
            &&& plan is Options
            &&& opt_text(plan->Options_language) == unscripted_language(code)
            &&& !plan->Options_translate
        },
        EngineType::Doubao => plan is Doubao && opt_text(plan->Doubao_language)
            == doubao_language(code),
    }
}

/// Plans a run of the loaded engine. `code` is the validated language.
pub fn plan_inference(engine: EngineType, code: &str, settings: &AppSettings) -> (r: InferencePlan)
    ensures
        is_plan(r, engine, code@, *settings),
        r matches InferencePlan::Whisper { translate, .. } ==> translate
            == settings.translate_to_english,
        r matches InferencePlan::Options { translate, .. } ==> translate == (
        settings.translate_to_english && engine == EngineType::Canary),
        r matches InferencePlan::Whisper { initial_prompt, .. } ==> (initial_prompt is None
            <==> settings.custom_words@.len() == 0),
        r is Whisper <==> engine == EngineType::Whisper,
        r is Options <==> engine == EngineType::Canary || engine == EngineType::Cohere,
{
    match engine {
        EngineType::Whisper => {
            let initial_prompt: Option<String> = if settings.custom_words.len() == 0 {
                None
            } else {
                Some(join_texts(&settings.custom_words, ", "))
            };
            InferencePlan::Whisper {
                language: choose_unscripted(code),
                translate: settings.translate_to_english,
                initial_prompt,
            }
        },
        EngineType::Parakeet => InferencePlan::Parakeet,
        EngineType::Moonshine | EngineType::MoonshineStreaming | EngineType::GigaAM =>
            InferencePlan::Default,
        EngineType::SenseVoice => InferencePlan::SenseVoice { language: choose_sense_voice(code) },
        EngineType::Canary => InferencePlan::Options {
            language: choose_plain(code),
            translate: settings.translate_to_english,
        },
        EngineType::Cohere => InferencePlan::Options {
            language: choose_unscripted(code),
            translate: false,
        },
        EngineType::Doubao => InferencePlan::Doubao { language: choose_doubao(code) },
    }
}

/// The language that a plan asks for.
pub open spec fn asked_language(plan: InferencePlan) -> Option<String> {
    match plan {
        InferencePlan::Whisper { language, .. } => language,
        InferencePlan::SenseVoice { language } => language,
        InferencePlan::Options { language, .. } => language,
        InferencePlan::Doubao { language } => language,
        _ => None,
    }
}

/// Where the language is left open, no engine is asked for one.
pub proof fn auto_asks_for_no_language(
    plan: InferencePlan,
    engine: EngineType,
    settings: AppSettings,
)
    requires
        is_plan(plan, engine, "auto"@, settings),
    ensures
        asked_language(plan) is None,
{
    reveal_strlit("auto");
    reveal_strlit("zh");
    reveal_strlit("zh-Hans");
    reveal_strlit("zh-Hant");
    reveal_strlit("en");
    reveal_strlit("ja");
    reveal_strlit("ko");
    reveal_strlit("yue");
    assert("auto"@.len() == 4);
    assert("zh"@.len() == 2 && "en"@.len() == 2 && "ja"@.len() == 2 && "ko"@.len() == 2);
    assert("zh-Hans"@.len() == 7 && "zh-Hant"@.len() == 7 && "yue"@.len() == 3);
}

/// The name by which an engine's errors speak of it.
pub open spec fn engine_name(engine: EngineType) -> Seq<char> {
    match engine {
        EngineType::Whisper => "Whisper"@,
        EngineType::Parakeet => "Parakeet"@,
        EngineType::Moonshine => "Moonshine"@,
        EngineType::MoonshineStreaming => "Moonshine streaming"@,
        EngineType::SenseVoice => "SenseVoice"@,
        EngineType::GigaAM => "GigaAM"@,
        EngineType::Canary => "Canary"@,
        EngineType::Cohere => "Cohere"@,
        EngineType::Doubao => "Doubao"@,
    }
}

/// The message for a run that failed.
pub fn inference_failed(engine: EngineType, error: &str) -> (r: String)
    ensures
        r@ == engine_name(engine) + " transcription failed: "@ + error@,
{
    let name = match engine {
        EngineType::Whisper => "Whisper",
        EngineType::Parakeet => "Parakeet",
        EngineType::Moonshine => "Moonshine",
        EngineType::MoonshineStreaming => "Moonshine streaming",
        EngineType::SenseVoice => "SenseVoice",
        EngineType::GigaAM => "GigaAM",
        EngineType::Canary => "Canary",
        EngineType::Cohere => "Cohere",
        EngineType::Doubao => "Doubao",
    };
    name.to_owned().concat(" transcription failed: ").concat(error)
}

/// The selected language is asked for where nothing is known of the model, where the model
/// lists no languages and where it lists this one; where it lists others only, none in
/// particular is.
pub proof fn listed_languages_are_asked_for(settings: AppSettings, info: Option<ModelInfo>)
    ensures
        info is None ==> validated(settings, info) == settings.selected_language@,
        info matches Some(info) ==> {
            let listed = exists|i: int|
                0 <= i < info.supported_languages@.len() && (
                #[trigger] info.supported_languages@[i])@ == settings.selected_language@;
            &&& listed || info.supported_languages@.len() == 0 ==> validated(settings, Some(info))
                == settings.selected_language@
            &&& !listed && info.supported_languages@.len() > 0 ==> validated(settings, Some(info))
                == "auto"@
        },
{
    if let Some(info) = info {
        let list = info.supported_languages@;
        let wanted = settings.selected_language@;
        if texts(list).contains(wanted) {
            let i = choose|i: int| 0 <= i < texts(list).len() && texts(list)[i] == wanted;
            assert(list[i]@ == wanted);
        }
        assert forall|i: int| 0 <= i < list.len() && (#[trigger] list[i])@ == wanted implies texts(
            list,
        ).contains(wanted) by {
            assert(texts(list)[i] == wanted);
        }
    }
}

/// No engine is ever asked to translate where the settings do not ask for it. Whisper and
/// Canary are asked to just where the settings do; Cohere never is.
pub proof fn translation_follows_the_setting(
    plan: InferencePlan,
    engine: EngineType,
    code: Seq<char>,
    settings: AppSettings,
)
    requires
        is_plan(plan, engine, code, settings),
    ensures
        match plan {
            InferencePlan::Whisper { translate, .. } => translate == settings.translate_to_english,
            InferencePlan::Options { translate, .. } => translate ==> settings.translate_to_english,
            _ => true,
        },
        engine == EngineType::Whisper ==> (plan matches InferencePlan::Whisper { translate, .. }
            && translate == settings.translate_to_english),
        engine == EngineType::Canary ==> (plan matches InferencePlan::Options { translate, .. }
            && translate == settings.translate_to_english),
        engine == EngineType::Cohere ==> (plan matches InferencePlan::Options { translate, .. }
            && !translate),
{
}

/// Every engine gets options of its own kind.
pub proof fn engines_get_their_own_options(
    plan: InferencePlan,
    engine: EngineType,
    code: Seq<char>,
    settings: AppSettings,
)
    requires
        is_plan(plan, engine, code, settings),
    ensures
        plan is Whisper <==> engine == EngineType::Whisper,
        plan is Parakeet <==> engine == EngineType::Parakeet,
        plan is SenseVoice <==> engine == EngineType::SenseVoice,
        plan is Doubao <==> engine == EngineType::Doubao,
        plan is Options <==> engine == EngineType::Canary || engine == EngineType::Cohere,
        plan is Default <==> engine == EngineType::Moonshine || engine
            == EngineType::MoonshineStreaming || engine == EngineType::GigaAM,
{
}

/// Whisper, Canary and Cohere are asked for the language as it is, whatever it is, but that
/// Whisper and Cohere are not told the script of Chinese.
pub proof fn languages_are_passed_on(
    plan: InferencePlan,
    engine: EngineType,
    code: Seq<char>,
    settings: AppSettings,
)
    requires
        is_plan(plan, engine, code, settings),
        engine == EngineType::Whisper || engine == EngineType::Canary || engine
            == EngineType::Cohere,
        code != "auto"@,
    ensures
        asked_language(plan) is Some,
        engine == EngineType::Canary || (code != "zh-Hans"@ && code != "zh-Hant"@)
            ==> asked_language(plan)->0@ == code,
        engine != EngineType::Canary && (code == "zh-Hans"@ || code == "zh-Hant"@)
            ==> asked_language(plan)->0@ == "zh"@,
{
}

/// SenseVoice is asked for English, Japanese, Korean and Cantonese as they are, for Chinese
/// without its script, and for no other language.
pub proof fn sense_voice_knows_five_languages(
    plan: InferencePlan,
    code: Seq<char>,
    settings: AppSettings,
)
    requires
        is_plan(plan, EngineType::SenseVoice, code, settings),
    ensures
        asked_language(plan) matches Some(language) ==> {
            ||| language@ == code && (code == "en"@ || code == "ja"@ || code == "ko"@ || code
                == "yue"@)
            ||| language@ == "zh"@ && (code == "zh"@ || code == "zh-Hans"@ || code == "zh-Hant"@)
        },
        asked_language(plan) is None ==> code != "en"@ && code != "ja"@ && code != "ko"@ && code
            != "yue"@ && code != "zh"@ && code != "zh-Hans"@ && code != "zh-Hant"@,
{
}

/// The cloud recogniser is asked for the selected language and no other: Chinese, with or
/// without a script, is simplified Chinese, and for any other code the tag starts with the
/// code, after which at most a hyphen and two letters for a region follow. A code of four
/// characters or more, such as one with a region already, is passed on as it is.
pub proof fn cloud_tags_keep_the_language(
    plan: InferencePlan,
    code: Seq<char>,
    settings: AppSettings,
)
    requires
        is_plan(plan, EngineType::Doubao, code, settings),
        code != "auto"@,
    ensures
        asked_language(plan) matches Some(tag) && {
            let tag = tag@;
            if code == "zh"@ || code == "zh-Hans"@ || code == "zh-Hant"@ {
                tag == "zh-CN"@
            } else {
                &&& tag.len() == code.len() || tag.len() == code.len() + 3
                &&& tag.take(code.len() as int) == code
                &&& tag.len() > code.len() ==> tag[code.len() as int] == '-'
                &&& code.len() >= 4 ==> tag == code
            }
        },
{
    assert(code.take(code.len() as int) =~= code);
    if code == "en"@ {
        reveal_strlit("en");
        reveal_strlit("en-US");
        assert("en-US"@.take(2) =~= "en"@);
    }
    if code == "ja"@ {
        reveal_strlit("ja");
        reveal_strlit("ja-JP");
        assert("ja-JP"@.take(2) =~= "ja"@);
    }
    if code == "ko"@ {
        reveal_strlit("ko");
        reveal_strlit("ko-KR");
        assert("ko-KR"@.take(2) =~= "ko"@);
    }
    if code == "yue"@ {
        reveal_strlit("yue");
        reveal_strlit("yue-CN");
        assert("yue-CN"@.take(3) =~= "yue"@);
    }
    if code == "ru"@ {
        reveal_strlit("ru");
        reveal_strlit("ru-RU");
        assert("ru-RU"@.take(2) =~= "ru"@);
    }
    if code == "fr"@ {
        reveal_strlit("fr");
        reveal_strlit("fr-FR");
        assert("fr-FR"@.take(2) =~= "fr"@);
    }
    if code == "de"@ {
        reveal_strlit("de");
        reveal_strlit("de-DE");
        assert("de-DE"@.take(2) =~= "de"@);
    }
    if code == "es"@ {
        reveal_strlit("es");
        reveal_strlit("es-MX");
        assert("es-MX"@.take(2) =~= "es"@);
    }
    if code == "pt"@ {
        reveal_strlit("pt");
        reveal_strlit("pt-BR");
        assert("pt-BR"@.take(2) =~= "pt"@);
    }
    if code == "id"@ {
        reveal_strlit("id");
        reveal_strlit("id-ID");
        assert("id-ID"@.take(2) =~= "id"@);
    }
    if code == "fil"@ {
        reveal_strlit("fil");
        reveal_strlit("fil-PH");
        assert("fil-PH"@.take(3) =~= "fil"@);
    }
    if code == "ms"@ {
        reveal_strlit("ms");
        reveal_strlit("ms-MY");
        assert("ms-MY"@.take(2) =~= "ms"@);
    }
    if code == "th"@ {
        reveal_strlit("th");
        reveal_strlit("th-TH");
        assert("th-TH"@.take(2) =~= "th"@);
    }
    if code == "ar"@ {
        reveal_strlit("ar");
        reveal_strlit("ar-SA");
        assert("ar-SA"@.take(2) =~= "ar"@);
    }
    if code == "it"@ {
        reveal_strlit("it");
        reveal_strlit("it-IT");
        assert("it-IT"@.take(2) =~= "it"@);
    }
    if code == "bn"@ {
        reveal_strlit("bn");
        reveal_strlit("bn-BD");
        assert("bn-BD"@.take(2) =~= "bn"@);
    }
    if code == "el"@ {
        reveal_strlit("el");
        reveal_strlit("el-GR");
        assert("el-GR"@.take(2) =~= "el"@);
    }
    if code == "nl"@ {
        reveal_strlit("nl");
        reveal_strlit("nl-NL");
        assert("nl-NL"@.take(2) =~= "nl"@);
    }
    if code == "tr"@ {
        reveal_strlit("tr");
        reveal_strlit("tr-TR");
        assert("tr-TR"@.take(2) =~= "tr"@);
    }
    if code == "vi"@ {
        reveal_strlit("vi");
        reveal_strlit("vi-VN");
        assert("vi-VN"@.take(2) =~= "vi"@);
    }
    if code == "pl"@ {
        reveal_strlit("pl");
        reveal_strlit("pl-PL");
        assert("pl-PL"@.take(2) =~= "pl"@);
    }
    if code == "ro"@ {
        reveal_strlit("ro");
        reveal_strlit("ro-RO");
        assert("ro-RO"@.take(2) =~= "ro"@);
    }
    if code == "ne"@ {
        reveal_strlit("ne");
        reveal_strlit("ne-NP");
        assert("ne-NP"@.take(2) =~= "ne"@);
    }
    if code == "uk"@ {
        reveal_strlit("uk");
        reveal_strlit("uk-UA");
        assert("uk-UA"@.take(2) =~= "uk"@);
    }
}

/// Whisper is given a prompt just where there are custom words, and every word is in it: one
/// more word is one more entry after a comma and a space.
pub proof fn prompts_list_the_custom_words(
    plan: InferencePlan,
    more: InferencePlan,
    code: Seq<char>,
    settings: AppSettings,
    extended: AppSettings,
    word: String,
)
    requires
        is_plan(plan, EngineType::Whisper, code, settings),
        is_plan(more, EngineType::Whisper, code, extended),
        extended.custom_words@ == settings.custom_words@.push(word),
    ensures
        plan matches InferencePlan::Whisper { initial_prompt: before, .. }
            && more matches InferencePlan::Whisper { initial_prompt: after, .. } && {
            &&& before is None <==> settings.custom_words@.len() == 0
            &&& after is Some
            &&& after->0@ == match before {
                Some(before) => before@ + ", "@ + word@,
                None => word@,
            }
        },
{
    let words = texts(settings.custom_words@);
    assert(texts(extended.custom_words@) =~= words.push(word@));
    joining_adds_a_separator_and_a_part(words, ", "@, word@);
    if words.len() == 0 {
        assert(words.push(word@) =~= seq![word@]);
    }
}

/// Each engine is spoken of by its own name.
pub proof fn engine_names_are_their_own()
    ensures
        engine_name(EngineType::Whisper) == "Whisper"@,
        engine_name(EngineType::Parakeet) == "Parakeet"@,
        engine_name(EngineType::Moonshine) == "Moonshine"@,
        engine_name(EngineType::MoonshineStreaming) == "Moonshine streaming"@,
        engine_name(EngineType::SenseVoice) == "SenseVoice"@,
        engine_name(EngineType::GigaAM) == "GigaAM"@,
        engine_name(EngineType::Canary) == "Canary"@,
        engine_name(EngineType::Cohere) == "Cohere"@,
        engine_name(EngineType::Doubao) == "Doubao"@,
{
}

} // verus!

//! What is done to a recognised text.

use crate::settings::AppSettings;
use vstd::prelude::*;

verus! {

/// Whether the words of a text are corrected: there is a list of custom words, and the
/// engine has not been given it.
pub open spec fn corrects(settings: AppSettings, skip_custom_words: bool) -> bool {
    settings.custom_words@.len() > 0 && !skip_custom_words
}

/// Whether `corrected` is what correcting the words of `raw` comes to.
pub open spec fn correction<C: Fn(&str, &Vec<String>, u64) -> String>(
    raw: Seq<char>,
    skip_custom_words: bool,
    settings: AppSettings,
    correct: C,
    corrected: String,
) -> bool {
    if corrects(settings, skip_custom_words) {
        exists|t: &str|
            t@ == raw && #[trigger] call_ensures(
                correct,
                (t, &settings.custom_words, settings.word_correction_threshold),
                corrected,
            )
    } else {
        corrected@ == raw
    }
}

/// Whether `r` is what filtering `corrected` comes to.
pub open spec fn filtering<G: Fn(&str, &str, &Option<Vec<String>>) -> String>(
    corrected: Seq<char>,
    settings: AppSettings,
    filter: G,
    r: String,
) -> bool {
    exists|t: &str, language: &str|
        t@ == corrected && language@ == settings.app_language@ && #[trigger] call_ensures(
            filter,
            (t, language, &settings.custom_filler_words),
            r,
        )
}

/// Whether `r` is what a recognised text comes to.
pub open spec fn postprocessing<
    C: Fn(&str, &Vec<String>, u64) -> String,
    G: Fn(&str, &str, &Option<Vec<String>>) -> String,
>(
    raw: Seq<char>,
    skip_custom_words: bool,
    settings: AppSettings,
    correct: C,
    filter: G,
    r: String,
) -> bool {
    exists|corrected: String|
        #![trigger correction(raw, skip_custom_words, settings, correct, corrected)]
        correction(raw, skip_custom_words, settings, correct, corrected) && filtering(
            corrected@,
            settings,
            filter,
            r,
        )
}

/// Corrects the words of a recognised text by the custom words, then filters it.
/// `correct` takes the text, the words and the threshold; it is not called where there are
/// no words or the engine has used them already. `filter` takes the text, the language and
/// the filler words.
pub fn postprocess_transcript_text<
    C: Fn(&str, &Vec<String>, u64) -> String,
    G: Fn(&str, &str, &Option<Vec<String>>) -> String,
>(
    raw_text: &str,
    skip_custom_words: bool,
    settings: &AppSettings,
    correct: C,
    filter: G,
) -> (r: String)
    requires
        forall|t: &str, words: &Vec<String>, threshold: u64| #[trigger]
            call_requires(correct, (t, words, threshold)),
        forall|t: &str, language: &str, fillers: &Option<Vec<String>>| #[trigger]
            call_requires(filter, (t, language, fillers)),
    ensures
        postprocessing(raw_text@, skip_custom_words, *settings, correct, filter, r),
        settings.custom_words@.len() > 0 && !skip_custom_words ==> exists|
            t: &str,
            corrected: String,
            u: &str,
            language: &str,
        |
            t@ == raw_text@ && u@ == corrected@ && language@ == settings.app_language@
                && #[trigger] call_ensures(
                correct,
                (t, &settings.custom_words, settings.word_correction_threshold),
                corrected,
            ) && #[trigger] call_ensures(filter, (u, language, &settings.custom_filler_words), r),
        settings.custom_words@.len() == 0 || skip_custom_words ==> exists|u: &str, language: &str|
            u@ == raw_text@ && language@ == settings.app_language@ && #[trigger] call_ensures(
                filter,
                (u, language, &settings.custom_filler_words),
                r,
            ),
{
    let corrected: String = if settings.custom_words.len() > 0 && !skip_custom_words {
        correct(raw_text, &settings.custom_words, settings.word_correction_threshold)
    } else {
        raw_text.to_owned()
    };
    assert(correction(raw_text@, skip_custom_words, *settings, correct, corrected));
    let r = filter(
        corrected.as_str(),
        settings.app_language.as_str(),
        &settings.custom_filler_words,
    );
    assert(filtering(corrected@, *settings, filter, r));
    r
}

/// Whether the same arguments always give the same text.
pub open spec fn corrects_alike<C: Fn(&str, &Vec<String>, u64) -> String>(correct: C) -> bool {
    forall|s: &str, t: &str, words: &Vec<String>, threshold: u64, a: String, b: String|
        s@ == t@ && #[trigger] call_ensures(correct, (s, words, threshold), a)
            && #[trigger] call_ensures(correct, (t, words, threshold), b) ==> a@ == b@
}

/// Whether the same arguments always give the same text.
pub open spec fn filters_alike<G: Fn(&str, &str, &Option<Vec<String>>) -> String>(
    filter: G,
) -> bool {
    forall|
        s: &str,
        t: &str,
        l: &str,
        m: &str,
        fillers: &Option<Vec<String>>,
        a: String,
        b: String,
    |
        s@ == t@ && l@ == m@ && #[trigger] call_ensures(filter, (s, l, fillers), a)
            && #[trigger] call_ensures(filter, (t, m, fillers), b) ==> a@ == b@
}

/// A recognised text comes to the same whichever way it was recognised: under the same
/// settings equal texts are post-processed to equal texts.
pub proof fn equal_texts_come_to_the_same<
    C: Fn(&str, &Vec<String>, u64) -> String,
    G: Fn(&str, &str, &Option<Vec<String>>) -> String,
>(
    raw: Seq<char>,
    skip_custom_words: bool,
    settings: AppSettings,
    correct: C,
    filter: G,
    a: String,
    b: String,
)
    requires
        corrects_alike(correct),
        filters_alike(filter),
        postprocessing(raw, skip_custom_words, settings, correct, filter, a),
        postprocessing(raw, skip_custom_words, settings, correct, filter, b),
    ensures
        a@ == b@,
{
    let c = choose|c: String|
        #![trigger correction(raw, skip_custom_words, settings, correct, c)]
        correction(raw, skip_custom_words, settings, correct, c) && filtering(
            c@,
            settings,
            filter,
            a,
        );
    let d = choose|d: String|
        #![trigger correction(raw, skip_custom_words, settings, correct, d)]
        correction(raw, skip_custom_words, settings, correct, d) && filtering(
            d@,
            settings,
            filter,
            b,
        );
    assert(c@ == d@);
}

/// To skip the custom words is to have none, and the text is filtered all the same.
/// `bare` stands for the settings with the list of custom words emptied.
pub proof fn skipping_is_having_no_words<
    C: Fn(&str, &Vec<String>, u64) -> String,
    G: Fn(&str, &str, &Option<Vec<String>>) -> String,
>(
    raw: Seq<char>,
    settings: AppSettings,
    bare: AppSettings,
    correct: C,
    filter: G,
    skipped: String,
    bare_skipped: String,
    bare_kept: String,
    filtered: String,
)
    requires
        filters_alike(filter),
        bare.custom_words@.len() == 0,
        bare.app_language@ == settings.app_language@,
        bare.custom_filler_words == settings.custom_filler_words,
        postprocessing(raw, true, settings, correct, filter, skipped),
        postprocessing(raw, true, bare, correct, filter, bare_skipped),
        postprocessing(raw, false, bare, correct, filter, bare_kept),
        filtering(raw, settings, filter, filtered),
    ensures
        skipped@ == filtered@,
        bare_skipped@ == filtered@,
        bare_kept@ == filtered@,
{
}

/// Where there are custom words, be it one or many, and they are not skipped, the text is
/// corrected: the raw text, the whole list and the threshold are handed over, and what is
/// filtered is the corrected text. Where there are none, or they are skipped, the raw text
/// itself is filtered. Either way the filter is given the language of the application and
/// the filler words.
pub proof fn custom_words_are_used_however_many<
    C: Fn(&str, &Vec<String>, u64) -> String,
    G: Fn(&str, &str, &Option<Vec<String>>) -> String,
>(
    raw: Seq<char>,
    skip_custom_words: bool,
    settings: AppSettings,
    correct: C,
    filter: G,
    r: String,
)
    requires
        postprocessing(raw, skip_custom_words, settings, correct, filter, r),
    ensures
        settings.custom_words@.len() > 0 && !skip_custom_words ==> exists|
            t: &str,
            corrected: String,
            u: &str,
            language: &str,
        |
            t@ == raw && u@ == corrected@ && language@ == settings.app_language@
                && #[trigger] call_ensures(
                correct,
                (t, &settings.custom_words, settings.word_correction_threshold),
                corrected,
            ) && #[trigger] call_ensures(filter, (u, language, &settings.custom_filler_words), r),
        settings.custom_words@.len() == 0 || skip_custom_words ==> exists|u: &str, language: &str|
            u@ == raw && language@ == settings.app_language@ && #[trigger] call_ensures(
                filter,
                (u, language, &settings.custom_filler_words),
                r,
            ),
{
    let corrected = choose|c: String|
        #![trigger correction(raw, skip_custom_words, settings, correct, c)]
        correction(raw, skip_custom_words, settings, correct, c) && filtering(
            c@,
            settings,
            filter,
            r,
        );
    assert(filtering(corrected@, settings, filter, r));
}

} // verus!

//! Speaking text: which language it is in, and which voice suits it.
//! The speech engine is the caller's.

use crate::text::{
    copy_str, lowercased, occurs_at, split_char, split_seq, starts_with, to_chars, to_lowercase,
    views,
};
use vstd::prelude::*;
use whichlang::Lang;

verus! {

/// The languages that are told apart.
#[derive(Clone, Copy, Debug, PartialEq, Eq, Structural)]
pub enum Language {
    Arabic,
    Mandarin,
    German,
    English,
    French,
    Hindi,
    Italian,
    Japanese,
    Korean,
    Dutch,
    Portuguese,
    Russian,
    Spanish,
    Swedish,
    Turkish,
    Vietnamese,
}

/// The most characters of a text that are looked at to tell its language.
pub const MAX_DETECTION_CHARS: usize = 0x3FFF_FFFF;

/// Names what `whichlang::detect_language` returns for a text: the language
/// whose weights score highest on the text's features.
pub uninterp spec fn detected_language(text: Seq<char>) -> Language;

/// `whichlang::detect_language`: the language of the text. The number of
/// features counted stays within 32 bits.
#[verifier::external_body]
fn whichlang_detect(text: &str) -> (r: Language)
    requires
        text@.len() <= MAX_DETECTION_CHARS,
    ensures
        r == detected_language(text@),
{
    match whichlang::detect_language(text) {
        Lang::Ara => Language::Arabic, Lang::Cmn => Language::Mandarin,
        Lang::Deu => Language::German, Lang::Eng => Language::English,
        Lang::Fra => Language::French, Lang::Hin => Language::Hindi,
        Lang::Ita => Language::Italian, Lang::Jpn => Language::Japanese,
        Lang::Kor => Language::Korean, Lang::Nld => Language::Dutch,
        Lang::Por => Language::Portuguese, Lang::Rus => Language::Russian,
        Lang::Spa => Language::Spanish, Lang::Swe => Language::Swedish,
        Lang::Tur => Language::Turkish, Lang::Vie => Language::Vietnamese,
    }
}

impl Language {
    /// The two-letter code of the language.
    pub open spec fn code_text(self) -> Seq<char> {
        match self {
            Language::Arabic => "ar"@,
            Language::Mandarin => "zh"@,
            Language::German => "de"@,
            Language::English => "en"@,
            Language::French => "fr"@,
            Language::Hindi => "hi"@,
            Language::Italian => "it"@,
            Language::Japanese => "ja"@,
            Language::Korean => "ko"@,
            Language::Dutch => "nl"@,
            Language::Portuguese => "pt"@,
            Language::Russian => "ru"@,
            Language::Spanish => "es"@,
            Language::Swedish => "sv"@,
            Language::Turkish => "tr"@,
            Language::Vietnamese => "vi"@,
        }
    }

    /// The two-letter code of the language.
    pub fn code(self) -> (r: String)
        ensures
            r@ == self.code_text(),
    {
        match self {
            Language::Arabic => copy_str("ar"),
            Language::Mandarin => copy_str("zh"),
            Language::German => copy_str("de"),
            Language::English => copy_str("en"),
            Language::French => copy_str("fr"),
            Language::Hindi => copy_str("hi"),
            Language::Italian => copy_str("it"),
            Language::Japanese => copy_str("ja"),
            Language::Korean => copy_str("ko"),
            Language::Dutch => copy_str("nl"),
            Language::Portuguese => copy_str("pt"),
            Language::Russian => copy_str("ru"),
            Language::Spanish => copy_str("es"),
            Language::Swedish => copy_str("sv"),
            Language::Turkish => copy_str("tr"),
            Language::Vietnamese => copy_str("vi"),
        }
    }
}

/// The language of a text. A text too long to be looked at is not told.
pub fn detect_language(text: &str) -> (r: Option<Language>)
    ensures
        r == if text@.len() <= MAX_DETECTION_CHARS {
            Some(detected_language(text@))
        } else {
            None
        },
{
    if text.unicode_len() <= MAX_DETECTION_CHARS {
        Some(whichlang_detect(text))
    } else {
        None
    }
}

/// Whether a voice of the language `voice_language` suits the language
/// `target`, the case of letters not counting: the voice's language starts
/// with the target, or its part before the first hyphen is the target.
pub open spec fn voice_suits(voice_language: Seq<char>, target: Seq<char>) -> bool {
    let voice = lowercased(voice_language);
    let wanted = lowercased(target);
    occurs_at(voice, 0, wanted) || split_seq(voice, seq!['-'])[0] == wanted
}

/// Whether a voice of the language `voice_language` suits `target`.
pub fn voice_matches(voice_language: &str, target: &str) -> (r: bool)
    ensures
        r == voice_suits(voice_language@, target@),
{
    let voice = to_lowercase(&to_chars(voice_language));
    let wanted = to_lowercase(&to_chars(target));
    if starts_with(&voice, &wanted) {
        return true;
    }
    let parts = split_char(&voice, '-');
    assert(views(parts@)[0] == parts@[0]@);
    crate::text::chars_eq(&parts[0], &wanted)
}

/// The index of the first voice that suits the language, given the
/// language of each voice.
pub fn find_voice_for_language(voice_languages: &Vec<String>, language: &str) -> (r: Option<usize>)
    ensures
        match r {
            Some(i) => i < voice_languages.len() && voice_suits(
                voice_languages@[i as int]@,
                language@,
            ) && forall|j: int| 0 <= j < i ==> !voice_suits(voice_languages@[j]@, language@),
            None => forall|j: int|
                0 <= j < voice_languages.len() ==> !voice_suits(voice_languages@[j]@, language@),
        },
{
    let mut i: usize = 0;
    while i < voice_languages.len()
        invariant
            i <= voice_languages.len(),
            forall|j: int| 0 <= j < i ==> !voice_suits(voice_languages@[j]@, language@),
        decreases voice_languages.len() - i,
    {
        if voice_matches(voice_languages[i].as_str(), language) {
            return Some(i);
        }
        i += 1;
    }
    None
}

/// How a text is spoken.
#[derive(Clone, Copy, Debug, PartialEq, Eq, Structural)]
pub enum SpeechPlan {
    /// With the voice of this index, chosen for the text's language.
    WithVoice(usize),
    /// With the default voice.
    DefaultVoice,
}

/// The manager of the system's speech engine: whether it has been started.
#[derive(Clone, Copy, Debug, PartialEq, Eq, Structural)]
pub struct TtsManager {
    pub ready: bool,
}

impl TtsManager {
    /// A manager whose engine has not been started.
    pub fn new() -> (r: TtsManager)
        ensures
            !r.ready,
    {
        TtsManager { ready: false }
    }

    /// Takes in how starting the engine went: the manager is ready once it
    /// has started.
    pub fn initialize(&mut self, started: Result<(), String>) -> (r: Result<(), String>)
        ensures
            match started {
                Ok(_) => r is Ok && final(self).ready,
                Err(why) => r matches Err(e) && e@ == "Failed to initialize TTS engine: "@ + why@
                    && final(self).ready == old(self).ready,
            },
    {
        match started {
            Ok(_) => {
                self.ready = true;
                Ok(())
            },
            Err(why) => Err(crate::text::concat("Failed to initialize TTS engine: ", why.as_str())),
        }
    }

    /// Whether the engine has been started.
    pub fn is_ready(&self) -> (r: bool)
        ensures
            r == self.ready,
    {
        self.ready
    }

    /// Plans the speaking of a text, given the language of each voice of
    /// the engine: the first voice that suits the text's language, or the
    /// default voice where none does. Without a started engine nothing is
    /// spoken.
    pub fn speak(&self, text: &str, voice_languages: &Vec<String>) -> (r: Result<
        SpeechPlan,
        String,
    >)
        ensures
            match r {
                Err(e) => !self.ready && e@ == "TTS not initialized"@,
                Ok(SpeechPlan::WithVoice(i)) => self.ready && text@.len() <= MAX_DETECTION_CHARS
                    && i < voice_languages.len() && voice_suits(
                    voice_languages@[i as int]@,
                    detected_language(text@).code_text(),
                ) && forall|j: int|
                    0 <= j < i ==> !voice_suits(
                        voice_languages@[j]@,
                        detected_language(text@).code_text(),
                    ),
                Ok(SpeechPlan::DefaultVoice) => self.ready && (text@.len() > MAX_DETECTION_CHARS
                    || forall|j: int|
                    0 <= j < voice_languages.len() ==> !voice_suits(
                        voice_languages@[j]@,
                        detected_language(text@).code_text(),
                    )),
            },
    {
        if !self.ready {
            return Err(copy_str("TTS not initialized"));
        }
        match detect_language(text) {
            Some(language) => {
                let code = language.code();
                match find_voice_for_language(voice_languages, code.as_str()) {
                    Some(i) => Ok(SpeechPlan::WithVoice(i)),
                    None => Ok(SpeechPlan::DefaultVoice),
                }
            },
            None => Ok(SpeechPlan::DefaultVoice),
        }
    }
}

} // verus!

//! The settings that the core reads. The core never writes them to the
//! store; the commands that change them work on a value and hand it back.

use crate::text::{first_from, str_eq};
use vstd::prelude::*;

verus! {

/// A service that rewrites transcripts.
#[derive(Clone, Debug, PartialEq, Eq)]
pub struct PostProcessProvider {
    pub id: String,
    pub label: String,
    pub base_url: String,
    pub allow_base_url_edit: bool,
    pub models_endpoint: Option<String>,
}

/// A prompt template for rewriting.
#[derive(Clone, Debug, PartialEq, Eq)]
pub struct LLMPrompt {
    pub id: String,
    pub name: String,
    pub prompt: String,
}

/// One entry of a table keyed by text.
#[derive(Clone, Debug, PartialEq, Eq)]
pub struct TextEntry {
    pub key: String,
    pub value: String,
}

/// When an idle model is unloaded.
#[derive(Clone, Copy, Debug, PartialEq, Eq, Structural)]
pub enum ModelUnloadTimeout {
    /// The model stays loaded.
    Never,
    /// The model is unloaded right after each transcription.
    Immediately,
    /// The model is unloaded once it has been idle for this many seconds.
    AfterSeconds(u64),
}

impl ModelUnloadTimeout {
    /// The idle time in seconds after which the model goes; `None` for never.
    pub fn to_seconds(self) -> (r: Option<u64>)
        ensures
            r == match self {
                ModelUnloadTimeout::Never => None::<u64>,
                ModelUnloadTimeout::Immediately => Some(0u64),
                ModelUnloadTimeout::AfterSeconds(s) => Some(s),
            },
    {
        match self {
            ModelUnloadTimeout::Never => None,
            ModelUnloadTimeout::Immediately => Some(0),
            ModelUnloadTimeout::AfterSeconds(s) => Some(s),
        }
    }
}

/// The settings that the core reads.
#[derive(Clone, Debug, PartialEq, Eq)]
pub struct AppSettings {
    pub selected_language: String,
    pub translate_to_english: bool,
    pub selected_model: String,
    pub model_unload_timeout: ModelUnloadTimeout,
    pub always_on_microphone: bool,
    pub push_to_talk: bool,
    pub custom_words: Vec<String>,
    pub beta_features_enabled: bool,
    pub ai_sdk_tools_enabled: bool,
    pub post_process_provider_id: String,
    pub post_process_providers: Vec<PostProcessProvider>,
    /// The model chosen for each provider, keyed by provider id.
    pub post_process_models: Vec<TextEntry>,
    /// The API key of each provider, keyed by provider id.
    pub post_process_api_keys: Vec<TextEntry>,
    pub post_process_prompts: Vec<LLMPrompt>,
    pub post_process_selected_prompt_id: Option<String>,
}

/// The index of the first provider with the given id.
pub open spec fn provider_index(providers: Seq<PostProcessProvider>, id: Seq<char>) -> Option<
    int,
> {
    first_from(providers, |p: PostProcessProvider| p.id@ == id, 0)
}

/// The index of the first prompt with the given id.
pub open spec fn prompt_index(prompts: Seq<LLMPrompt>, id: Seq<char>) -> Option<int> {
    first_from(prompts, |p: LLMPrompt| p.id@ == id, 0)
}

/// The index of the first entry with the given key.
pub open spec fn entry_index(entries: Seq<TextEntry>, key: Seq<char>) -> Option<int> {
    first_from(entries, |e: TextEntry| e.key@ == key, 0)
}

/// The value stored under `key`, or the empty text where there is none.
pub open spec fn entry_text(entries: Seq<TextEntry>, key: Seq<char>) -> Seq<char> {
    match entry_index(entries, key) {
        Some(i) => entries[i].value@,
        None => Seq::<char>::empty(),
    }
}

/// No key occurs twice.
pub open spec fn keys_unique(entries: Seq<TextEntry>) -> bool {
    forall|i: int, j: int|
        0 <= i < j < entries.len() ==> (#[trigger] entries[i]).key@ != (#[trigger] entries[j]).key@
}

/// The index of the first provider with the given id.
pub fn find_provider(providers: &Vec<PostProcessProvider>, id: &str) -> (r: Option<usize>)
    ensures
        match r {
            Some(i) => provider_index(providers@, id@) == Some(i as int) && i < providers.len(),
            None => provider_index(providers@, id@) is None,
        },
{
    let ghost pred = |p: PostProcessProvider| p.id@ == id@;
    let mut i: usize = 0;
    while i < providers.len()
        invariant
            i <= providers.len(),
            pred == (|p: PostProcessProvider| p.id@ == id@),
            first_from(providers@, pred, 0) == first_from(providers@, pred, i as int),
        decreases providers.len() - i,
    {
        if str_eq(providers[i].id.as_str(), id) {
            assert(pred(providers@[i as int]));
            return Some(i);
        }
        assert(!pred(providers@[i as int]));
        i += 1;
    }
    None
}

/// The index of the first prompt with the given id.
pub fn find_prompt(prompts: &Vec<LLMPrompt>, id: &str) -> (r: Option<usize>)
    ensures
        match r {
            Some(i) => prompt_index(prompts@, id@) == Some(i as int) && i < prompts.len(),
            None => prompt_index(prompts@, id@) is None,
        },
{
    let ghost pred = |p: LLMPrompt| p.id@ == id@;
    let mut i: usize = 0;
    while i < prompts.len()
        invariant
            i <= prompts.len(),
            pred == (|p: LLMPrompt| p.id@ == id@),
            first_from(prompts@, pred, 0) == first_from(prompts@, pred, i as int),
        decreases prompts.len() - i,
    {
        if str_eq(prompts[i].id.as_str(), id) {
            assert(pred(prompts@[i as int]));
            return Some(i);
        }
        assert(!pred(prompts@[i as int]));
        i += 1;
    }
    None
}

/// The index of the first entry with the given key.
pub fn find_entry(entries: &Vec<TextEntry>, key: &str) -> (r: Option<usize>)
    ensures
        match r {
            Some(i) => entry_index(entries@, key@) == Some(i as int) && i < entries.len(),
            None => entry_index(entries@, key@) is None,
        },
{
    let ghost pred = |e: TextEntry| e.key@ == key@;
    let mut i: usize = 0;
    while i < entries.len()
        invariant
            i <= entries.len(),
            pred == (|e: TextEntry| e.key@ == key@),
            first_from(entries@, pred, 0) == first_from(entries@, pred, i as int),
        decreases entries.len() - i,
    {
        if str_eq(entries[i].key.as_str(), key) {
            assert(pred(entries@[i as int]));
            return Some(i);
        }
        assert(!pred(entries@[i as int]));
        i += 1;
    }
    None
}

/// The value stored under `key`, or the empty text where there is none.
pub fn lookup_or_empty(entries: &Vec<TextEntry>, key: &str) -> (r: String)
    ensures
        r@ == entry_text(entries@, key@),
{
    match find_entry(entries, key) {
        Some(i) => entries[i].value.clone(),
        None => String::new(),
    }
}

impl AppSettings {
    /// The provider that is selected, where the list holds it.
    pub open spec fn active_provider_index(&self) -> Option<int> {
        provider_index(self.post_process_providers@, self.post_process_provider_id@)
    }

    /// The provider that is selected, where the list holds it.
    pub fn active_post_process_provider(&self) -> (r: Option<&PostProcessProvider>)
        ensures
            match r {
                Some(p) => self.active_provider_index() is Some && *p
                    == self.post_process_providers@[self.active_provider_index()->0],
                None => self.active_provider_index() is None,
            },
    {
        match find_provider(&self.post_process_providers, self.post_process_provider_id.as_str()) {
            Some(i) => Some(&self.post_process_providers[i]),
            None => None,
        }
    }
}

} // verus!

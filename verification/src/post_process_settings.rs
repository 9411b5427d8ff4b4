//! Changes to the post-processing settings, and the listing of a
//! provider's models. Each change works on the settings value; storing it is
//! the caller's.

use crate::numfmt::{i64_to_chars, signed_decimal};
use crate::post_process::opt_text;
use crate::settings::{
    entry_index, entry_text, find_entry, find_prompt, find_provider, lookup_or_empty, prompt_index,
    provider_index, AppSettings, LLMPrompt, PostProcessProvider, TextEntry,
};
use crate::buffers::extend_copy;
use crate::text::{
    concat, concat3, copy_str, from_chars, str_eq, str_is_blank, to_chars, trim_end_matches,
    trim_end_matches_seq, trim_start_matches, trim_start_matches_seq, trimmed,
};
use vstd::prelude::*;

verus! {

/// The text that says that no provider has the id.
pub open spec fn provider_not_found_text(id: Seq<char>) -> Seq<char> {
    "Provider '"@ + id + "' not found"@
}

/// The text that says that no prompt has the id.
pub open spec fn prompt_not_found_text(id: Seq<char>) -> Seq<char> {
    "Prompt with id '"@ + id + "' not found"@
}

fn provider_not_found(id: &str) -> (r: String)
    ensures
        r@ == provider_not_found_text(id@),
{
    concat3("Provider '", id, "' not found")
}

fn prompt_not_found(id: &str) -> (r: String)
    ensures
        r@ == prompt_not_found_text(id@),
{
    concat3("Prompt with id '", id, "' not found")
}

/// Checks that the settings hold a provider of the given id.
pub fn validate_provider_exists(settings: &AppSettings, provider_id: &str) -> (r: Result<
    (),
    String,
>)
    ensures
        match r {
            Ok(_) => provider_index(settings.post_process_providers@, provider_id@) is Some,
            Err(e) => provider_index(settings.post_process_providers@, provider_id@) is None && e@
                == provider_not_found_text(provider_id@),
        },
{
    match find_provider(&settings.post_process_providers, provider_id) {
        Some(_) => Ok(()),
        None => Err(provider_not_found(provider_id)),
    }
}

/// Stores `value` under `key`: in the place of the value that the key has,
/// or as a new entry at the end.
pub fn upsert(entries: &mut Vec<TextEntry>, key: String, value: String)
    ensures
        match entry_index(old(entries)@, key@) {
            Some(i) => final(entries)@ == old(entries)@.update(i, TextEntry { key, value }),
            None => final(entries)@ == old(entries)@.push(TextEntry { key, value }),
        },
{
    match find_entry(entries, key.as_str()) {
        Some(i) => {
            entries.set(i, TextEntry { key, value });
        },
        None => {
            entries.push(TextEntry { key, value });
        },
    }
}

/// Sets the base URL of a provider. Turned down where the provider does
/// not exist or does not allow its base URL to be edited.
pub fn change_post_process_base_url_setting(
    settings: &mut AppSettings,
    provider_id: &str,
    base_url: String,
) -> (r: Result<(), String>)
    ensures
        match provider_index(old(settings).post_process_providers@, provider_id@) {
            None => r matches Err(e)
                && e@ == provider_not_found_text(provider_id@)
                && *final(settings) == *old(settings),
            Some(i) => {
                let provider = old(settings).post_process_providers@[i];
                if provider.allow_base_url_edit {
                    r is Ok && *final(settings) == (AppSettings {
                        post_process_providers: final(settings).post_process_providers,
                        ..*old(settings)
                    }) && final(settings).post_process_providers@ == old(settings).post_process_providers@.update(
                        i,
                        PostProcessProvider { base_url, ..provider },
                    )
                } else {
                    r matches Err(e) && e@ == "Provider '"@ + provider.label@
                        + "' does not allow editing the base URL"@
                            && *final(settings) == *old(settings)
                }
            },
        },
{
    match find_provider(&settings.post_process_providers, provider_id) {
        None => Err(provider_not_found(provider_id)),
        Some(i) => {
            if !settings.post_process_providers[i].allow_base_url_edit {
                return Err(
                    concat3(
                        "Provider '",
                        settings.post_process_providers[i].label.as_str(),
                        "' does not allow editing the base URL",
                    ),
                );
            }
            let p = &settings.post_process_providers[i];
            let changed = PostProcessProvider {
                id: p.id.clone(),
                label: p.label.clone(),
                base_url,
                allow_base_url_edit: p.allow_base_url_edit,
                models_endpoint: match &p.models_endpoint {
                    Some(e) => Some(e.clone()),
                    None => None,
                },
            };
            settings.post_process_providers.set(i, changed);
            Ok(())
        },
    }
}

/// Sets the API key of a provider that exists.
pub fn change_post_process_api_key_setting(
    settings: &mut AppSettings,
    provider_id: String,
    api_key: String,
) -> (r: Result<(), String>)
    ensures
        match provider_index(old(settings).post_process_providers@, provider_id@) {
            None => r matches Err(e)
                && e@ == provider_not_found_text(provider_id@)
                && *final(settings) == *old(settings),
            Some(_) => r is Ok && *final(settings) == (AppSettings {
                post_process_api_keys: final(settings).post_process_api_keys,
                ..*old(settings)
            }) && match entry_index(old(settings).post_process_api_keys@, provider_id@) {
                Some(i) => final(settings).post_process_api_keys@
                    == old(settings).post_process_api_keys@.update(i, TextEntry { key: provider_id, value: api_key }),
                None => final(settings).post_process_api_keys@
                    == old(settings).post_process_api_keys@.push(TextEntry { key: provider_id, value: api_key }),
            },
        },
{
    match find_provider(&settings.post_process_providers, provider_id.as_str()) {
        None => Err(provider_not_found(provider_id.as_str())),
        Some(_) => {
            upsert(&mut settings.post_process_api_keys, provider_id, api_key);
            Ok(())
        },
    }
}

/// Sets the model of a provider that exists.
pub fn change_post_process_model_setting(
    settings: &mut AppSettings,
    provider_id: String,
    model: String,
) -> (r: Result<(), String>)
    ensures
        match provider_index(old(settings).post_process_providers@, provider_id@) {
            None => r matches Err(e)
                && e@ == provider_not_found_text(provider_id@)
                && *final(settings) == *old(settings),
            Some(_) => r is Ok && *final(settings) == (AppSettings {
                post_process_models: final(settings).post_process_models,
                ..*old(settings)
            }) && match entry_index(old(settings).post_process_models@, provider_id@) {
                Some(i) => final(settings).post_process_models@
                    == old(settings).post_process_models@.update(i, TextEntry { key: provider_id, value: model }),
                None => final(settings).post_process_models@
                    == old(settings).post_process_models@.push(TextEntry { key: provider_id, value: model }),
            },
        },
{
    match find_provider(&settings.post_process_providers, provider_id.as_str()) {
        None => Err(provider_not_found(provider_id.as_str())),
        Some(_) => {
            upsert(&mut settings.post_process_models, provider_id, model);
            Ok(())
        },
    }
}

/// Selects a provider that exists.
pub fn set_post_process_provider(settings: &mut AppSettings, provider_id: String) -> (r: Result<
    (),
    String,
>)
    ensures
        match provider_index(old(settings).post_process_providers@, provider_id@) {
            None => r matches Err(e)
                && e@ == provider_not_found_text(provider_id@)
                && *final(settings) == *old(settings),
            Some(_) => r is Ok && *final(settings) == (AppSettings {
                post_process_provider_id: provider_id,
                ..*old(settings)
            }),
        },
{
    match find_provider(&settings.post_process_providers, provider_id.as_str()) {
        None => Err(provider_not_found(provider_id.as_str())),
        Some(_) => {
            settings.post_process_provider_id = provider_id;
            Ok(())
        },
    }
}

/// The id of a prompt made at `now_millis`.
pub open spec fn prompt_id_text(now_millis: int) -> Seq<char> {
    "prompt_"@ + signed_decimal(now_millis)
}

/// Adds a prompt, with an id made from the time `now_millis`, and hands out
/// a copy of it.
pub fn add_post_process_prompt(
    settings: &mut AppSettings,
    name: String,
    prompt: String,
    now_millis: i64,
) -> (r: LLMPrompt)
    ensures
        r.id@ == prompt_id_text(now_millis as int),
        r.name == name,
        r.prompt == prompt,
        *final(settings) == (AppSettings {
            post_process_prompts: final(settings).post_process_prompts,
            ..*old(settings)
        }),
        final(settings).post_process_prompts@ == old(settings).post_process_prompts@.push(r),
{
    let mut id = to_chars("prompt_");
    let digits = i64_to_chars(now_millis);
    extend_copy(&mut id, &digits);
    let id = from_chars(&id);
    let stored = LLMPrompt { id: id.clone(), name: name.clone(), prompt: prompt.clone() };
    settings.post_process_prompts.push(stored);
    LLMPrompt { id, name, prompt }
}

/// Changes the name and the template of the prompt of the given id.
pub fn update_post_process_prompt(
    settings: &mut AppSettings,
    id: &str,
    name: String,
    prompt: String,
) -> (r: Result<(), String>)
    ensures
        match prompt_index(old(settings).post_process_prompts@, id@) {
            None => r matches Err(e) && e@ == prompt_not_found_text(id@) && *final(settings)
                == *old(settings),
            Some(i) => r is Ok && *final(settings) == (AppSettings {
                post_process_prompts: final(settings).post_process_prompts,
                ..*old(settings)
            }) && final(settings).post_process_prompts@ == old(settings).post_process_prompts@.update(
                i,
                LLMPrompt { name, prompt, ..old(settings).post_process_prompts@[i] },
            ),
        },
{
    match find_prompt(&settings.post_process_prompts, id) {
        None => Err(prompt_not_found(id)),
        Some(i) => {
            let kept_id = settings.post_process_prompts[i].id.clone();
            settings.post_process_prompts.set(i, LLMPrompt { id: kept_id, name, prompt });
            Ok(())
        },
    }
}

/// The prompts whose id is not `id`, in order.
pub open spec fn prompts_without(prompts: Seq<LLMPrompt>, id: Seq<char>) -> Seq<LLMPrompt> {
    prompts.filter(|p: LLMPrompt| p.id@ != id)
}

/// Removes the prompts of the given id. Turned down where only one prompt
/// is left, or none has the id. Where the removed prompt was the selected
/// one, the first of those that stay is selected.
pub fn delete_post_process_prompt(settings: &mut AppSettings, id: &str) -> (r: Result<(), String>)
    ensures
        if old(settings).post_process_prompts@.len() <= 1 {
            r matches Err(e) && e@ == "Cannot delete the last prompt"@ && *final(settings)
                == *old(settings)
        } else if prompt_index(old(settings).post_process_prompts@, id@) is None {
            r matches Err(e)
                && e@ == prompt_not_found_text(id@)
                && *final(settings) == *old(settings)
        } else {
            &&& r is Ok
            &&& *final(settings) == (AppSettings {
                post_process_prompts: final(settings).post_process_prompts,
                post_process_selected_prompt_id: final(settings).post_process_selected_prompt_id,
                ..*old(settings)
            })
            &&& final(settings).post_process_prompts@ == prompts_without(
                old(settings).post_process_prompts@,
                id@,
            )
            &&& match old(settings).post_process_selected_prompt_id {
                Some(selected) if selected@ == id@ => if final(settings).post_process_prompts@.len()
                    > 0 {
                    final(settings).post_process_selected_prompt_id == Some(
                        final(settings).post_process_prompts@[0].id,
                    )
                } else {
                    final(settings).post_process_selected_prompt_id is None
                },
                _ => final(settings).post_process_selected_prompt_id
                    == old(settings).post_process_selected_prompt_id,
            }
        },
{
    if settings.post_process_prompts.len() <= 1 {
        return Err(copy_str("Cannot delete the last prompt"));
    }
    match find_prompt(&settings.post_process_prompts, id) {
        None => {
            return Err(prompt_not_found(id));
        },
        Some(_) => {},
    }
    let ghost before = settings.post_process_prompts@;
    let ghost pred = |p: LLMPrompt| p.id@ != id@;
    let mut kept: Vec<LLMPrompt> = Vec::new();
    let mut i: usize = 0;
    assert(before.subrange(0, 0).filter(pred) =~= Seq::<LLMPrompt>::empty()) by {
        assert(before.subrange(0, 0) =~= Seq::<LLMPrompt>::empty());
        reveal(Seq::filter);
    }
    while i < settings.post_process_prompts.len()
        invariant
            i <= before.len(),
            settings.post_process_prompts@ == before,
            pred == (|p: LLMPrompt| p.id@ != id@),
            kept@ == before.subrange(0, i as int).filter(pred),
            *settings == *old(settings),
        decreases before.len() - i,
    {
        let p = &settings.post_process_prompts[i];
        proof {
            assert(before.subrange(0, i + 1).drop_last() =~= before.subrange(0, i as int));
            assert(before.subrange(0, i + 1).last() == before[i as int]);
            reveal(Seq::filter);
        }
        if !str_eq(p.id.as_str(), id) {
            kept.push(
                LLMPrompt { id: p.id.clone(), name: p.name.clone(), prompt: p.prompt.clone() },
            );
        }
        i += 1;
    }
    assert(before.subrange(0, before.len() as int) =~= before);
    let was_selected = match &settings.post_process_selected_prompt_id {
        Some(selected) => str_eq(selected.as_str(), id),
        None => false,
    };
    settings.post_process_prompts = kept;
    if was_selected {
        settings.post_process_selected_prompt_id = if settings.post_process_prompts.len() > 0 {
            Some(settings.post_process_prompts[0].id.clone())
        } else {
            None
        };
    }
    Ok(())
}

/// Selects the prompt of the given id, where there is one.
pub fn set_post_process_selected_prompt(settings: &mut AppSettings, id: String) -> (r: Result<
    (),
    String,
>)
    ensures
        match prompt_index(old(settings).post_process_prompts@, id@) {
            None => r matches Err(e) && e@ == prompt_not_found_text(id@) && *final(settings)
                == *old(settings),
            Some(_) => r is Ok && *final(settings) == (AppSettings {
                post_process_selected_prompt_id: Some(id),
                ..*old(settings)
            }),
        },
{
    match find_prompt(&settings.post_process_prompts, id.as_str()) {
        None => Err(prompt_not_found(id.as_str())),
        Some(_) => {
            settings.post_process_selected_prompt_id = Some(id);
            Ok(())
        },
    }
}

/// Whether a provider is asked for its models without an API key.
pub open spec fn keyless_provider(id: Seq<char>) -> bool {
    id == "custom"@ || id == "ollama"@
}

/// What is needed to ask a provider for its models: the index of the
/// provider and its API key.
#[derive(Clone, Debug, PartialEq, Eq)]
pub struct ModelListQuery {
    pub provider_index: usize,
    pub api_key: String,
}

/// Prepares the listing of a provider's models. Turned down where the
/// provider does not exist, or where it needs an API key and has none.
pub fn fetch_post_process_models(settings: &AppSettings, provider_id: &str) -> (r: Result<
    ModelListQuery,
    String,
>)
    ensures
        match provider_index(settings.post_process_providers@, provider_id@) {
            None => r matches Err(e) && e@ == provider_not_found_text(provider_id@),
            Some(i) => {
                let key = entry_text(settings.post_process_api_keys@, provider_id@);
                if trimmed(key).len() == 0 && !keyless_provider(
                    settings.post_process_providers@[i].id@,
                ) {
                    r matches Err(e) && e@ == "API key is required for "@
                        + settings.post_process_providers@[i].label@
                        + ". Please add an API key to list available models."@
                } else {
                    r matches Ok(q) && q.provider_index == i && q.api_key@ == key
                }
            },
        },
{
    match find_provider(&settings.post_process_providers, provider_id) {
        None => Err(provider_not_found(provider_id)),
        Some(i) => {
            let provider = &settings.post_process_providers[i];
            let api_key = lookup_or_empty(&settings.post_process_api_keys, provider_id);
            let keyless = str_eq(provider.id.as_str(), "custom") || str_eq(
                provider.id.as_str(),
                "ollama",
            );
            if str_is_blank(api_key.as_str()) && !keyless {
                return Err(
                    concat3(
                        "API key is required for ",
                        provider.label.as_str(),
                        ". Please add an API key to list available models.",
                    ),
                );
            }
            Ok(ModelListQuery { provider_index: i, api_key })
        },
    }
}

/// The address at which a provider lists its models. For Ollama: the base
/// URL without slashes and `/v1` at its end, then `/api/tags`. For any
/// other: the base URL without slashes at its end, then the provider's own
/// endpoint without slashes at its start, or `models`.
pub open spec fn models_url_text(provider: PostProcessProvider) -> Seq<char> {
    if provider.id@ == "ollama"@ {
        trim_end_matches_seq(trim_end_matches_seq(provider.base_url@, seq!['/']), "/v1"@) + "/"@
            + "api/tags"@
    } else {
        trim_end_matches_seq(provider.base_url@, seq!['/']) + "/"@ + match provider.models_endpoint {
            Some(e) => trim_start_matches_seq(e@, seq!['/']),
            None => "models"@,
        }
    }
}

/// The address at which a provider lists its models.
pub fn models_url(provider: &PostProcessProvider) -> (r: String)
    ensures
        r@ == models_url_text(*provider),
{
    let mut slash: Vec<char> = Vec::new();
    slash.push('/');
    assert(slash@ =~= seq!['/']);
    let base = to_chars(provider.base_url.as_str());
    let trimmed_base = trim_end_matches(&base, &slash);
    if str_eq(provider.id.as_str(), "ollama") {
        let v1 = to_chars("/v1");
        let mut url = trim_end_matches(&trimmed_base, &v1);
        let sep = to_chars("/");
        extend_copy(&mut url, &sep);
        let tail = to_chars("api/tags");
        extend_copy(&mut url, &tail);
        from_chars(&url)
    } else {
        let mut url = trimmed_base;
        let sep = to_chars("/");
        extend_copy(&mut url, &sep);
        match &provider.models_endpoint {
            Some(e) => {
                let endpoint = to_chars(e.as_str());
                let tail = trim_start_matches(&endpoint, &slash);
                extend_copy(&mut url, &tail);
            },
            None => {
                let tail = to_chars("models");
                extend_copy(&mut url, &tail);
            },
        }
        from_chars(&url)
    }
}

/// A header of an HTTP request.
#[derive(Clone, Debug, PartialEq, Eq)]
pub struct HttpHeader {
    pub name: String,
    pub value: String,
}

/// The name and value texts of a list of headers.
pub open spec fn header_texts(headers: Seq<HttpHeader>) -> Seq<(Seq<char>, Seq<char>)> {
    Seq::new(headers.len(), |i: int| (headers[i].name@, headers[i].value@))
}

/// The headers of the request for a provider's models: who asks, and how
/// the key is shown. Anthropic takes the key in a header of its own and
/// wants a version; every other provider takes a bearer token. No key, no
/// key header.
pub open spec fn model_list_header_texts(provider_id: Seq<char>, api_key: Seq<char>) -> Seq<
    (Seq<char>, Seq<char>),
> {
    let common = seq![
        ("HTTP-Referer"@, "https://github.com/damien-schneider/echo"@),
        ("X-Title"@, "Echo"@),
    ];
    if provider_id == "anthropic"@ {
        (if api_key.len() > 0 {
            common.push(("x-api-key"@, api_key))
        } else {
            common
        }).push(("anthropic-version"@, "2023-06-01"@))
    } else if api_key.len() > 0 {
        common.push(("Authorization"@, "Bearer "@ + api_key))
    } else {
        common
    }
}

fn header(name: &str, value: String) -> (r: HttpHeader)
    ensures
        r.name@ == name@,
        r.value == value,
{
    HttpHeader { name: copy_str(name), value }
}

/// The headers of the request for a provider's models.
pub fn model_list_headers(provider_id: &str, api_key: &str) -> (r: Vec<HttpHeader>)
    ensures
        header_texts(r@) == model_list_header_texts(provider_id@, api_key@),
{
    let mut headers: Vec<HttpHeader> = Vec::new();
    headers.push(header("HTTP-Referer", copy_str("https://github.com/damien-schneider/echo")));
    headers.push(header("X-Title", copy_str("Echo")));
    let has_key = api_key.unicode_len() > 0;
    if str_eq(provider_id, "anthropic") {
        if has_key {
            headers.push(header("x-api-key", copy_str(api_key)));
        }
        headers.push(header("anthropic-version", copy_str("2023-06-01")));
    } else if has_key {
        headers.push(header("Authorization", concat("Bearer ", api_key)));
    }
    assert(header_texts(headers@) =~= model_list_header_texts(provider_id@, api_key@));
    headers
}

/// A list of texts, some of them missing, as plain text.
pub open spec fn opt_texts(items: Seq<Option<String>>) -> Seq<Option<Seq<char>>> {
    Seq::new(items.len(), |i: int| opt_text(items[i]))
}

/// What was found in a body, as plain text.
pub open spec fn found_texts(found: Result<Option<Vec<Option<String>>>, String>) -> Result<
    Option<Seq<Option<Seq<char>>>>,
    Seq<char>,
> {
    match found {
        Ok(Some(items)) => Ok(Some(opt_texts(items@))),
        Ok(None) => Ok(None),
        Err(e) => Err(e@),
    }
}

/// Names what `serde_json` finds in a body that is an object with a list
/// under `list_key`: for each item of the list the text under `text_key`,
/// or nothing where the item has no text there. `Ok(None)` where the body
/// has no such list; `Err` with the parser's words where the body is no
/// JSON.
pub uninterp spec fn json_member_texts(body: Seq<char>, list_key: Seq<char>, text_key: Seq<char>)
    -> Result<Option<Seq<Option<Seq<char>>>>, Seq<char>>;

/// Names what `serde_json` finds in a body that is a list: each item that
/// is a text, or nothing in the place of any other item. `Ok(None)` where
/// the body is no list; `Err` with the parser's words where it is no JSON.
pub uninterp spec fn json_array_texts(body: Seq<char>) -> Result<
    Option<Seq<Option<Seq<char>>>>,
    Seq<char>,
>;

/// `serde_json::from_str` into a `Value`, then `Value::get` for the list,
/// `Value::as_array`, and for each item `Value::get` and `Value::as_str`.
#[verifier::external_body]
fn parse_member_texts(body: &str, list_key: &str, text_key: &str) -> (r: Result<
    Option<Vec<Option<String>>>,
    String,
>)
    ensures
        found_texts(r) == json_member_texts(body@, list_key@, text_key@),
{
    let root: serde_json::Value = serde_json::from_str(body).map_err(|e| e.to_string())?;
    Ok(root.get(list_key).and_then(|list| list.as_array()).map(|items| {
        items
            .iter()
            .map(|item| item.get(text_key).and_then(|v| v.as_str()).map(|t| t.to_string()))
            .collect()
    }))
}

/// `serde_json::from_str` into a `Value`, then `Value::as_array`, and for
/// each item `Value::as_str`.
#[verifier::external_body]
fn parse_array_texts(body: &str) -> (r: Result<Option<Vec<Option<String>>>, String>)
    ensures
        found_texts(r) == json_array_texts(body@),
{
    let root: serde_json::Value = serde_json::from_str(body).map_err(|e| e.to_string())?;
    Ok(root.as_array().map(|items| {
        items.iter().map(|item| item.as_str().map(|t| t.to_string())).collect()
    }))
}

/// What a provider's answer holds of the three shapes that are understood:
/// an object with a list `models` of named entries, an object with a list
/// `data` of entries with an id or a name, or a bare list of names. A text
/// that an entry lacks is `None` in its place.
#[derive(Clone, Debug, PartialEq, Eq)]
pub struct ModelListing {
    /// The names of the entries of `models`.
    pub models: Option<Vec<Option<String>>>,
    /// The ids of the entries of `data`.
    pub data_ids: Option<Vec<Option<String>>>,
    /// The names of the entries of `data`.
    pub data_names: Option<Vec<Option<String>>>,
    /// The texts of a bare list.
    pub names: Option<Vec<Option<String>>>,
}

/// Reads a provider's answer. A body that is no JSON is turned down.
pub fn parse_model_listing(body: &str) -> (r: Result<ModelListing, String>)
    ensures
        match r {
            Ok(listing) => {
                &&& found_texts(Ok(listing.models)) == json_member_texts(
                    body@,
                    "models"@,
                    "name"@,
                )
                &&& found_texts(Ok(listing.data_ids)) == json_member_texts(body@, "data"@, "id"@)
                &&& found_texts(Ok(listing.data_names)) == json_member_texts(
                    body@,
                    "data"@,
                    "name"@,
                )
                &&& found_texts(Ok(listing.names)) == json_array_texts(body@)
            },
            Err(e) => {
                ||| json_member_texts(body@, "models"@, "name"@) matches Err(why) && e@
                    == "Failed to parse response: "@ + why
                ||| json_member_texts(body@, "data"@, "id"@) matches Err(why) && e@
                    == "Failed to parse response: "@ + why
                ||| json_member_texts(body@, "data"@, "name"@) matches Err(why) && e@
                    == "Failed to parse response: "@ + why
                ||| json_array_texts(body@) matches Err(why) && e@
                    == "Failed to parse response: "@ + why
            },
        },
{
    let models = match parse_member_texts(body, "models", "name") {
        Ok(found) => found,
        Err(why) => {
            return Err(concat("Failed to parse response: ", why.as_str()));
        },
    };
    let data_ids = match parse_member_texts(body, "data", "id") {
        Ok(found) => found,
        Err(why) => {
            return Err(concat("Failed to parse response: ", why.as_str()));
        },
    };
    let data_names = match parse_member_texts(body, "data", "name") {
        Ok(found) => found,
        Err(why) => {
            return Err(concat("Failed to parse response: ", why.as_str()));
        },
    };
    let names = match parse_array_texts(body) {
        Ok(found) => found,
        Err(why) => {
            return Err(concat("Failed to parse response: ", why.as_str()));
        },
    };
    Ok(ModelListing { models, data_ids, data_names, names })
}

/// The values that are there, in order.
pub open spec fn present<T>(items: Seq<Option<T>>) -> Seq<T>
    decreases items.len(),
{
    if items.len() == 0 {
        Seq::<T>::empty()
    } else if items.last() is Some {
        present(items.drop_last()).push(items.last()->0)
    } else {
        present(items.drop_last())
    }
}

/// The texts of a list of strings.
pub open spec fn name_texts(names: Seq<String>) -> Seq<Seq<char>> {
    Seq::new(names.len(), |i: int| names[i]@)
}

/// For each entry the id, or the name where the entry has no id.
pub open spec fn ids_or_names(ids: Seq<Option<Seq<char>>>, names: Seq<Option<Seq<char>>>) -> Seq<
    Option<Seq<char>>,
> {
    Seq::new(
        ids.len(),
        |i: int|
            if ids[i] is Some {
                ids[i]
            } else if i < names.len() {
                names[i]
            } else {
                None
            },
    )
}

/// The names in an answer, given what was found of each shape. A list
/// `models` gives the names of its entries; else a list `data` gives of
/// each entry the id, or the name where there is no id; else a bare list
/// gives its texts. Entries without what is asked of them are passed over.
pub open spec fn listed_models(
    models: Option<Seq<Option<Seq<char>>>>,
    data_ids: Option<Seq<Option<Seq<char>>>>,
    data_names: Option<Seq<Option<Seq<char>>>>,
    names: Option<Seq<Option<Seq<char>>>>,
) -> Seq<Seq<char>> {
    match models {
        Some(found) => present(found),
        None => match data_ids {
            Some(ids) => present(
                ids_or_names(
                    ids,
                    match data_names {
                        Some(found) => found,
                        None => Seq::<Option<Seq<char>>>::empty(),
                    },
                ),
            ),
            None => match names {
                Some(found) => present(found),
                None => Seq::<Seq<char>>::empty(),
            },
        },
    }
}

/// The texts of a list that may be missing.
pub open spec fn opt_list_texts(list: Option<Vec<Option<String>>>) -> Option<
    Seq<Option<Seq<char>>>,
> {
    match list {
        Some(items) => Some(opt_texts(items@)),
        None => None,
    }
}

fn collect_present(items: &Vec<Option<String>>) -> (r: Vec<String>)
    ensures
        name_texts(r@) == present(opt_texts(items@)),
{
    let mut out: Vec<String> = Vec::new();
    let mut i: usize = 0;
    assert(opt_texts(items@.subrange(0, 0)) =~= Seq::<Option<Seq<char>>>::empty());
    assert(name_texts(out@) =~= present(opt_texts(items@.subrange(0, 0))));
    while i < items.len()
        invariant
            i <= items.len(),
            name_texts(out@) == present(opt_texts(items@.subrange(0, i as int))),
        decreases items.len() - i,
    {
        let ghost before = name_texts(out@);
        proof {
            let next = opt_texts(items@.subrange(0, i + 1));
            assert(next.drop_last() =~= opt_texts(items@.subrange(0, i as int)));
            assert(next.last() == opt_text(items@[i as int]));
        }
        match &items[i] {
            Some(text) => {
                out.push(text.clone());
                assert(name_texts(out@) =~= before.push(text@));
            },
            None => {},
        }
        i += 1;
    }
    assert(items@.subrange(0, items.len() as int) =~= items@);
    out
}

/// The names of the models in a provider's answer.
pub fn model_names(listing: &ModelListing) -> (r: Vec<String>)
    ensures
        name_texts(r@) == listed_models(
            opt_list_texts(listing.models),
            opt_list_texts(listing.data_ids),
            opt_list_texts(listing.data_names),
            opt_list_texts(listing.names),
        ),
{
    match &listing.models {
        Some(models) => collect_present(models),
        None => match &listing.data_ids {
            Some(ids) => {
                let empty: Vec<Option<String>> = Vec::new();
                let names = match &listing.data_names {
                    Some(n) => n,
                    None => &empty,
                };
                assert(opt_texts(empty@) =~= Seq::<Option<Seq<char>>>::empty());
                let mut picked: Vec<Option<String>> = Vec::new();
                let mut i: usize = 0;
                while i < ids.len()
                    invariant
                        i <= ids.len(),
                        picked@.len() == i,
                        forall|j: int|
                            0 <= j < i ==> opt_text(#[trigger] picked@[j]) == ids_or_names(
                                opt_texts(ids@),
                                opt_texts(names@),
                            )[j],
                    decreases ids.len() - i,
                {
                    picked.push(
                        match &ids[i] {
                            Some(id) => Some(id.clone()),
                            None => if i < names.len() {
                                match &names[i] {
                                    Some(n) => Some(n.clone()),
                                    None => None,
                                }
                            } else {
                                None
                            },
                        },
                    );
                    i += 1;
                }
                assert(opt_texts(picked@) =~= ids_or_names(opt_texts(ids@), opt_texts(names@)));
                collect_present(&picked)
            },
            None => match &listing.names {
                Some(names) => collect_present(names),
                None => {
                    let none: Vec<String> = Vec::new();
                    assert(name_texts(none@) =~= Seq::<Seq<char>>::empty());
                    none
                },
            },
        },
    }
}

/// The names of the models in the body of a provider's answer. A body that
/// is no JSON is turned down.
pub fn model_names_in(body: &str) -> (r: Result<Vec<String>, String>)
    ensures
        match (
            json_member_texts(body@, "models"@, "name"@),
            json_member_texts(body@, "data"@, "id"@),
            json_member_texts(body@, "data"@, "name"@),
            json_array_texts(body@),
        ) {
            (Ok(models), Ok(ids), Ok(names), Ok(bare)) => r matches Ok(found) && name_texts(
                found@,
            ) == listed_models(models, ids, names, bare),
            _ => r is Err,
        },
{
    match parse_model_listing(body) {
        Ok(listing) => Ok(model_names(&listing)),
        Err(e) => Err(e),
    }
}

} // verus!

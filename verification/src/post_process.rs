//! What happens to a finished transcript before it is delivered: script
//! conversion, or a rewrite by a language model, never both.

use crate::clock::utc_now_millis;
use crate::numfmt::{i64_to_chars, signed_decimal};
use crate::settings::{
    entry_text, find_prompt, lookup_or_empty, prompt_index, AppSettings, PostProcessProvider,
};
use crate::buffers::extend_copy;
use crate::text::{
    copy_str, from_chars, replace_all, replaced, str_eq, str_is_blank, to_chars, trimmed,
};
use vstd::prelude::*;

verus! {

/// What is sent to the frontend when it does the rewriting itself.
#[derive(Clone, Debug, PartialEq, Eq)]
pub struct PostProcessRequest {
    pub transcription: String,
    pub base_url: String,
    pub api_key: String,
    pub model: String,
    pub prompt: String,
    pub request_id: String,
}

/// What is asked of a language model.
#[derive(Clone, Debug, PartialEq, Eq)]
pub struct LlmRequest {
    pub provider: PostProcessProvider,
    pub api_key: String,
    pub model: String,
    /// The prompt, with the transcript put in.
    pub prompt: String,
}

/// The two script conversions on offer.
#[derive(Clone, Copy, Debug, PartialEq, Eq, Structural)]
pub enum ScriptConversion {
    /// Traditional (Taiwan) to Simplified, with vocabulary.
    ToSimplified,
    /// Simplified to Traditional (Taiwan), with vocabulary.
    ToTraditional,
}

/// The text that is delivered, and what is kept of how it came about.
#[derive(Clone, Debug, PartialEq, Eq)]
pub struct Delivery {
    /// What is pasted.
    pub final_text: String,
    /// The converted or rewritten text, where there is one.
    pub post_processed_text: Option<String>,
    /// The prompt template that a rewrite used.
    pub post_process_prompt: Option<String>,
}

/// Names what `Regex::replace_all` returns for a pattern, a text and a
/// replacement that is taken as it stands, where the pattern compiles;
/// `None` where it does not. Every non-overlapping match in the text gives
/// way to the replacement, in which no character has a meaning of its own.
pub uninterp spec fn regex_literal_replaced(
    pattern: Seq<char>,
    haystack: Seq<char>,
    replacement: Seq<char>,
) -> Option<Seq<char>>;

/// Names what `OpenCC::convert` returns for a text under one of the built-in
/// configurations, where the converter can be set up; `None` where it cannot.
pub uninterp spec fn opencc_converted(conversion: ScriptConversion, text: Seq<char>) -> Option<
    Seq<char>,
>;

/// The text of an optional string.
pub open spec fn opt_text(s: Option<String>) -> Option<Seq<char>> {
    match s {
        Some(t) => Some(t@),
        None => None,
    }
}

/// `regex::Regex::new` on the pattern, then `Regex::replace_all` with the
/// replacement wrapped in `regex::NoExpand`: every non-overlapping match in
/// `haystack` is replaced by the replacement as it stands, a `$` in it
/// included. `None` where the pattern does not compile.
#[verifier::external_body]
fn regex_replace_all_literal(pattern: &str, haystack: &str, replacement: &str) -> (r: Option<
    String,
>)
    ensures
        opt_text(r) == regex_literal_replaced(pattern@, haystack@, replacement@),
{
    match regex::Regex::new(pattern) {
        Ok(re) => Some(re.replace_all(haystack, regex::NoExpand(replacement)).into_owned()),
        Err(_) => None,
    }
}

/// `ferrous_opencc::OpenCC::from_config` with the built-in configuration for
/// the conversion, then `OpenCC::convert`. `None` where the converter cannot
/// be set up.
#[verifier::external_body]
fn opencc_convert(conversion: ScriptConversion, text: &str) -> (r: Option<String>)
    ensures
        opt_text(r) == opencc_converted(conversion, text@),
{
    let config = match conversion {
        ScriptConversion::ToSimplified => ferrous_opencc::config::BuiltinConfig::Tw2sp,
        ScriptConversion::ToTraditional => ferrous_opencc::config::BuiltinConfig::S2twp,
    };
    match ferrous_opencc::OpenCC::from_config(config) {
        Ok(converter) => Some(converter.convert(text)),
        Err(_) => None,
    }
}

/// The pattern of a mention of the transcript: a link, with any text in the
/// square brackets, to `mention:output`.
pub open spec fn mention_pattern() -> Seq<char> {
    "\\[[^\\]]*\\]\\(mention:output\\)"@
}

/// `prompt` with each mention of the transcript replaced by `transcription`,
/// as it stands.
pub open spec fn mentions_replaced(prompt: Seq<char>, transcription: Seq<char>) -> Seq<char> {
    match regex_literal_replaced(mention_pattern(), prompt, transcription) {
        Some(s) => s,
        None => prompt,
    }
}

/// `text` with each `${output}`, then each `@output`, replaced by
/// `transcription`.
pub open spec fn legacy_placeholders_replaced(text: Seq<char>, transcription: Seq<char>) -> Seq<
    char,
> {
    replaced(replaced(text, "${output}"@, transcription), "@output"@, transcription)
}

/// The prompt that is sent: the template with the transcript in the place of
/// each of its placeholders, in all three forms.
pub open spec fn substituted_prompt(prompt: Seq<char>, transcription: Seq<char>) -> Seq<char> {
    legacy_placeholders_replaced(mentions_replaced(prompt, transcription), transcription)
}

/// Replaces each `${output}`, then each `@output`, by the transcript.
pub fn replace_legacy_placeholders(text: &str, transcription: &str) -> (r: String)
    ensures
        r@ == legacy_placeholders_replaced(text@, transcription@),
{
    let chars = to_chars(text);
    let with = to_chars(transcription);
    let dollar = to_chars("${output}");
    let at = to_chars("@output");
    let first = replace_all(&chars, &dollar, &with);
    let second = replace_all(&first, &at, &with);
    from_chars(&second)
}

/// Puts the transcript into a prompt template, in the place of each mention
/// link, each `${output}` and each `@output`. The transcript goes in as it
/// stands, whatever characters it holds.
pub fn substitute_transcript(prompt: &str, transcription: &str) -> (r: String)
    ensures
        r@ == substituted_prompt(prompt@, transcription@),
{
    let mentioned = match regex_replace_all_literal(
        "\\[[^\\]]*\\]\\(mention:output\\)",
        prompt,
        transcription,
    ) {
        Some(s) => s,
        None => copy_str(prompt),
    };
    replace_legacy_placeholders(mentioned.as_str(), transcription)
}

/// The conversion that a selected language asks for.
pub open spec fn conversion_for(language: Seq<char>) -> Option<ScriptConversion> {
    if language == "zh-Hans"@ {
        Some(ScriptConversion::ToSimplified)
    } else if language == "zh-Hant"@ {
        Some(ScriptConversion::ToTraditional)
    } else {
        None
    }
}

/// The conversion that a selected language asks for: one for each of the two
/// script variants, none for any other language.
pub fn script_conversion(language: &str) -> (r: Option<ScriptConversion>)
    ensures
        r == conversion_for(language@),
{
    if str_eq(language, "zh-Hans") {
        Some(ScriptConversion::ToSimplified)
    } else if str_eq(language, "zh-Hant") {
        Some(ScriptConversion::ToTraditional)
    } else {
        None
    }
}

/// The converted transcript for a selected language.
pub open spec fn variant_converted(language: Seq<char>, transcription: Seq<char>) -> Option<
    Seq<char>,
> {
    match conversion_for(language) {
        Some(conversion) => opencc_converted(conversion, transcription),
        None => None,
    }
}

/// Converts the transcript to the script variant of the selected language.
/// For a language that is neither of the two variants nothing is converted
/// and the result is `None`.
pub fn maybe_convert_chinese_variant(settings: &AppSettings, transcription: &str) -> (r: Option<
    String,
>)
    ensures
        opt_text(r) == variant_converted(settings.selected_language@, transcription@),
        conversion_for(settings.selected_language@) is None ==> r is None,
{
    match script_conversion(settings.selected_language.as_str()) {
        Some(conversion) => opencc_convert(conversion, transcription),
        None => None,
    }
}

/// The provider, model and prompt that a rewrite needs are all selected.
/// `need_prompt_text` says whether an empty prompt counts as missing.
pub open spec fn rewrite_selected(settings: AppSettings, need_prompt_text: bool) -> bool {
    &&& settings.active_provider_index() is Some
    &&& trimmed(
        entry_text(
            settings.post_process_models@,
            settings.post_process_providers@[settings.active_provider_index()->0].id@,
        ),
    ).len() > 0
    &&& settings.post_process_selected_prompt_id is Some
    &&& prompt_index(
        settings.post_process_prompts@,
        settings.post_process_selected_prompt_id->0@,
    ) is Some
    &&& need_prompt_text ==> trimmed(selected_prompt_text(settings)).len() > 0
}

/// The template of the selected prompt.
pub open spec fn selected_prompt_text(settings: AppSettings) -> Seq<char> {
    settings.post_process_prompts@[prompt_index(
        settings.post_process_prompts@,
        settings.post_process_selected_prompt_id->0@,
    )->0].prompt@
}

/// The selected provider.
pub open spec fn selected_provider(settings: AppSettings) -> PostProcessProvider {
    settings.post_process_providers@[settings.active_provider_index()->0]
}

/// Whether the core itself asks a language model for a rewrite.
pub open spec fn llm_rewrite_due(settings: AppSettings) -> bool {
    settings.beta_features_enabled && !settings.ai_sdk_tools_enabled && rewrite_selected(
        settings,
        true,
    )
}

/// Whether the frontend is asked to do the rewriting.
pub open spec fn frontend_rewrite_due(settings: AppSettings) -> bool {
    settings.beta_features_enabled && settings.ai_sdk_tools_enabled && rewrite_selected(
        settings,
        false,
    )
}

fn copy_provider(p: &PostProcessProvider) -> (r: PostProcessProvider)
    ensures
        r == *p,
{
    PostProcessProvider {
        id: p.id.clone(),
        label: p.label.clone(),
        base_url: p.base_url.clone(),
        allow_base_url_edit: p.allow_base_url_edit,
        models_endpoint: match &p.models_endpoint {
            Some(e) => Some(e.clone()),
            None => None,
        },
    }
}

/// What a rewrite works with: the provider, its model and key, and the
/// selected template.
struct RewriteParts {
    provider: PostProcessProvider,
    model: String,
    api_key: String,
    template: String,
}

fn rewrite_parts(settings: &AppSettings, need_prompt_text: bool) -> (r: Option<RewriteParts>)
    ensures
        match r {
            Some(parts) => rewrite_selected(*settings, need_prompt_text) && parts.provider
                == selected_provider(*settings) && parts.model@ == entry_text(
                settings.post_process_models@,
                selected_provider(*settings).id@,
            ) && parts.api_key@ == entry_text(
                settings.post_process_api_keys@,
                selected_provider(*settings).id@,
            ) && parts.template@ == selected_prompt_text(*settings),
            None => !rewrite_selected(*settings, need_prompt_text),
        },
{
    let provider = match settings.active_post_process_provider() {
        Some(p) => copy_provider(p),
        None => {
            return None;
        },
    };
    let model = lookup_or_empty(&settings.post_process_models, provider.id.as_str());
    if str_is_blank(model.as_str()) {
        return None;
    }
    let selected = match &settings.post_process_selected_prompt_id {
        Some(id) => id,
        None => {
            return None;
        },
    };
    let template = match find_prompt(&settings.post_process_prompts, selected.as_str()) {
        Some(i) => settings.post_process_prompts[i].prompt.clone(),
        None => {
            return None;
        },
    };
    if need_prompt_text && str_is_blank(template.as_str()) {
        return None;
    }
    let api_key = lookup_or_empty(&settings.post_process_api_keys, provider.id.as_str());
    Some(RewriteParts { provider, model, api_key, template })
}

/// The id of a request made at `now_millis`.
pub open spec fn request_id_text(now_millis: int) -> Seq<char> {
    "req_"@ + signed_decimal(now_millis)
}

/// The request that hands the rewriting to the frontend, made at
/// `now_millis`. `None` unless beta features and the frontend's tools are
/// both on and a provider, a model and a prompt are selected.
pub fn ai_sdk_post_process_request(
    settings: &AppSettings,
    transcription: &str,
    now_millis: i64,
) -> (r: Option<PostProcessRequest>)
    ensures
        match r {
            Some(req) => {
                &&& frontend_rewrite_due(*settings)
                &&& req.transcription@ == transcription@
                &&& req.base_url@ == selected_provider(*settings).base_url@
                &&& req.api_key@ == entry_text(
                    settings.post_process_api_keys@,
                    selected_provider(*settings).id@,
                )
                &&& req.model@ == entry_text(
                    settings.post_process_models@,
                    selected_provider(*settings).id@,
                )
                &&& req.prompt@ == selected_prompt_text(*settings)
                &&& req.request_id@ == request_id_text(now_millis as int)
            },
            None => !frontend_rewrite_due(*settings),
        },
{
    if !(settings.beta_features_enabled && settings.ai_sdk_tools_enabled) {
        return None;
    }
    match rewrite_parts(settings, false) {
        Some(parts) => {
            let mut id = to_chars("req_");
            let digits = i64_to_chars(now_millis);
            extend_copy(&mut id, &digits);
            Some(
                PostProcessRequest {
                    transcription: copy_str(transcription),
                    base_url: parts.provider.base_url,
                    api_key: parts.api_key,
                    model: parts.model,
                    prompt: parts.template,
                    request_id: from_chars(&id),
                },
            )
        },
        None => None,
    }
}

/// A request to the frontend that fits the settings and the transcript,
/// made at some time.
pub open spec fn frontend_request_fits(
    settings: AppSettings,
    transcription: Seq<char>,
    request: PostProcessRequest,
) -> bool {
    &&& request.transcription@ == transcription
    &&& request.base_url@ == selected_provider(settings).base_url@
    &&& request.api_key@ == entry_text(
        settings.post_process_api_keys@,
        selected_provider(settings).id@,
    )
    &&& request.model@ == entry_text(
        settings.post_process_models@,
        selected_provider(settings).id@,
    )
    &&& request.prompt@ == selected_prompt_text(settings)
    &&& exists|t: int| request.request_id@ == request_id_text(t)
}

/// The request that hands the rewriting to the frontend, stamped with the
/// time of the call.
pub fn emit_ai_sdk_post_process_request(settings: &AppSettings, transcription: &str) -> (r: Option<
    PostProcessRequest,
>)
    ensures
        match r {
            Some(request) => frontend_rewrite_due(*settings) && frontend_request_fits(
                *settings,
                transcription@,
                request,
            ),
            None => !frontend_rewrite_due(*settings),
        },
{
    let now = utc_now_millis();
    ai_sdk_post_process_request(settings, transcription, now)
}

/// What is asked of the language model for a transcript. `None`, and no
/// error, unless beta features are on, the frontend's tools are off, and a
/// provider, a model and a prompt that is not blank are selected.
pub fn maybe_post_process_transcription(settings: &AppSettings, transcription: &str) -> (r: Option<
    LlmRequest,
>)
    ensures
        match r {
            Some(req) => {
                &&& llm_rewrite_due(*settings)
                &&& req.provider == selected_provider(*settings)
                &&& req.api_key@ == entry_text(
                    settings.post_process_api_keys@,
                    selected_provider(*settings).id@,
                )
                &&& req.model@ == entry_text(
                    settings.post_process_models@,
                    selected_provider(*settings).id@,
                )
                &&& req.prompt@ == substituted_prompt(
                    selected_prompt_text(*settings),
                    transcription@,
                )
            },
            None => !llm_rewrite_due(*settings),
        },
{
    if !settings.beta_features_enabled {
        return None;
    }
    if settings.ai_sdk_tools_enabled {
        return None;
    }
    match rewrite_parts(settings, true) {
        Some(parts) => {
            let prompt = substitute_transcript(parts.template.as_str(), transcription);
            Some(
                LlmRequest {
                    provider: parts.provider,
                    api_key: parts.api_key,
                    model: parts.model,
                    prompt,
                },
            )
        },
        None => None,
    }
}

/// The rewritten text in a model's reply: the content of the first choice,
/// where there is a choice and it has content.
pub fn llm_reply_text(choices: &Vec<Option<String>>) -> (r: Option<String>)
    ensures
        r == if choices.len() > 0 {
            choices@[0]
        } else {
            None
        },
{
    if choices.len() > 0 {
        match &choices[0] {
            Some(text) => Some(text.clone()),
            None => None,
        }
    } else {
        None
    }
}

/// The template that a rewrite under these settings used: that of the
/// selected prompt, where one is selected and found.
pub open spec fn used_prompt(settings: AppSettings) -> Option<Seq<char>> {
    if settings.post_process_selected_prompt_id is Some && prompt_index(
        settings.post_process_prompts@,
        settings.post_process_selected_prompt_id->0@,
    ) is Some {
        Some(selected_prompt_text(settings))
    } else {
        None
    }
}

impl Delivery {
    /// The transcript goes out as it is.
    pub fn unmodified(transcription: &str) -> (r: Delivery)
        ensures
            r.final_text@ == transcription@,
            r.post_processed_text is None,
            r.post_process_prompt is None,
    {
        Delivery {
            final_text: copy_str(transcription),
            post_processed_text: None,
            post_process_prompt: None,
        }
    }

    /// The converted text goes out; no prompt was involved.
    pub fn converted(text: String) -> (r: Delivery)
        ensures
            r.final_text@ == text@,
            opt_text(r.post_processed_text) == Some(text@),
            r.post_process_prompt is None,
    {
        Delivery {
            final_text: text.clone(),
            post_processed_text: Some(text),
            post_process_prompt: None,
        }
    }

    /// The outcome of asking the model: its text goes out, with the prompt
    /// that was used; where the call failed or gave nothing, the transcript
    /// goes out as it is.
    pub fn rewritten(settings: &AppSettings, transcription: &str, reply: Option<String>) -> (r:
        Delivery)
        ensures
            match reply {
                Some(text) => r.final_text@ == text@ && opt_text(r.post_processed_text) == Some(
                    text@,
                ) && opt_text(r.post_process_prompt) == used_prompt(*settings),
                None => r.final_text@ == transcription@ && r.post_processed_text is None
                    && r.post_process_prompt is None,
            },
    {
        match reply {
            Some(text) => {
                let prompt = match &settings.post_process_selected_prompt_id {
                    Some(id) => match find_prompt(&settings.post_process_prompts, id.as_str()) {
                        Some(i) => Some(settings.post_process_prompts[i].prompt.clone()),
                        None => None,
                    },
                    None => None,
                };
                Delivery {
                    final_text: text.clone(),
                    post_processed_text: Some(text),
                    post_process_prompt: prompt,
                }
            },
            None => Delivery::unmodified(transcription),
        }
    }
}

/// The first thing to do with a finished transcript.
#[derive(Clone, Debug, PartialEq, Eq)]
pub enum PostProcessStep {
    /// Nothing is left to do: deliver this.
    Deliver(Delivery),
    /// Ask the model, then call `Delivery::rewritten` with its reply.
    AskLlm(LlmRequest),
}

/// The first step of the chain for a transcript: the first stage that
/// applies wins. Script conversion comes first; where it applies the model
/// is not asked. Else the model is asked, where a rewrite is due; else the
/// transcript goes out as it is.
pub open spec fn first_step_fits(
    settings: AppSettings,
    transcription: Seq<char>,
    step: PostProcessStep,
) -> bool {
    match variant_converted(settings.selected_language@, transcription) {
        Some(text) => {
            &&& step matches PostProcessStep::Deliver(d)
            &&& d.final_text@ == text
            &&& opt_text(d.post_processed_text) == Some(text)
            &&& d.post_process_prompt is None
        },
        None => if llm_rewrite_due(settings) {
            &&& step matches PostProcessStep::AskLlm(request)
            &&& request.provider == selected_provider(settings)
            &&& request.prompt@ == substituted_prompt(selected_prompt_text(settings), transcription)
            &&& request.model@ == entry_text(
                settings.post_process_models@,
                selected_provider(settings).id@,
            )
            &&& request.api_key@ == entry_text(
                settings.post_process_api_keys@,
                selected_provider(settings).id@,
            )
        } else {
            &&& step matches PostProcessStep::Deliver(d)
            &&& d.final_text@ == transcription
            &&& d.post_processed_text is None
            &&& d.post_process_prompt is None
        },
    }
}

/// Starts the chain for a transcript.
pub fn begin_post_process(settings: &AppSettings, transcription: &str) -> (r: PostProcessStep)
    ensures
        first_step_fits(*settings, transcription@, r),
{
    match maybe_convert_chinese_variant(settings, transcription) {
        Some(text) => PostProcessStep::Deliver(Delivery::converted(text)),
        None => match maybe_post_process_transcription(settings, transcription) {
            Some(req) => PostProcessStep::AskLlm(req),
            None => PostProcessStep::Deliver(Delivery::unmodified(transcription)),
        },
    }
}

} // verus!

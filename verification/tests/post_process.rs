use echo_voice::post_process::{
    ai_sdk_post_process_request, begin_post_process, emit_ai_sdk_post_process_request,
    llm_reply_text, maybe_convert_chinese_variant, maybe_post_process_transcription,
    replace_legacy_placeholders, script_conversion, substitute_transcript, Delivery,
    PostProcessStep, ScriptConversion,
};
use echo_voice::settings::{
    AppSettings, LLMPrompt, ModelUnloadTimeout, PostProcessProvider, TextEntry,
};

fn entry(key: &str, value: &str) -> TextEntry {
    TextEntry { key: key.to_string(), value: value.to_string() }
}

fn post_settings() -> AppSettings {
    AppSettings {
        selected_language: "en".to_string(),
        translate_to_english: false,
        selected_model: "small".to_string(),
        model_unload_timeout: ModelUnloadTimeout::Never,
        always_on_microphone: false,
        push_to_talk: true,
        custom_words: vec![],
        beta_features_enabled: true,
        ai_sdk_tools_enabled: false,
        post_process_provider_id: "openai".to_string(),
        post_process_providers: vec![
            PostProcessProvider {
                id: "ollama".to_string(),
                label: "Ollama".to_string(),
                base_url: "http://localhost:11434/v1".to_string(),
                allow_base_url_edit: true,
                models_endpoint: None,
            },
            PostProcessProvider {
                id: "openai".to_string(),
                label: "OpenAI".to_string(),
                base_url: "https://api.openai.com/v1".to_string(),
                allow_base_url_edit: false,
                models_endpoint: Some("/models".to_string()),
            },
        ],
        post_process_models: vec![entry("ollama", "llama3"), entry("openai", "gpt-4o-mini")],
        post_process_api_keys: vec![entry("openai", "sk-test")],
        post_process_prompts: vec![
            LLMPrompt {
                id: "fix".to_string(),
                name: "Fix".to_string(),
                prompt: "Fix this: ${output}".to_string(),
            },
            LLMPrompt { id: "blank".to_string(), name: "Empty".to_string(), prompt: "  ".to_string() },
        ],
        post_process_selected_prompt_id: Some("fix".to_string()),
    }
}

#[test]
fn all_three_placeholders_are_replaced() {
    let template = "A: [output](mention:output) B: ${output} C: @output D: [the text](mention:output)";
    assert_eq!(
        substitute_transcript(template, "hello world"),
        "A: hello world B: hello world C: hello world D: hello world"
    );
}

#[test]
fn transcript_goes_into_a_mention_as_it_stands() {
    assert_eq!(substitute_transcript("Fix: [output](mention:output)", "pay $1 now"), "Fix: pay $1 now");
    assert_eq!(
        substitute_transcript("[a](mention:output)|[b](mention:output)", "$0 ${name} $$ \\1"),
        "$0 ${name} $$ \\1|$0 ${name} $$ \\1"
    );
    assert_eq!(substitute_transcript("${output} and @output", "cost: $5"), "cost: $5 and cost: $5");
}

#[test]
fn every_occurrence_is_replaced() {
    assert_eq!(
        substitute_transcript("@output @output ${output}${output} [](mention:output)", "x y"),
        "x y x y x yx y x y"
    );
}

#[test]
fn template_without_placeholders_is_unchanged() {
    assert_eq!(substitute_transcript("Summarise.", "ignored"), "Summarise.");
    assert_eq!(substitute_transcript("", "ignored"), "");
    assert_eq!(substitute_transcript("[x](mention:other) $output @ output", "t"), "[x](mention:other) $output @ output");
}

#[test]
fn mention_link_text_may_not_hold_a_closing_bracket() {
    assert_eq!(substitute_transcript("[a]b](mention:output)", "T"), "[a]b](mention:output)");
    assert_eq!(substitute_transcript("[a][b](mention:output)", "T"), "[a]T");
}

#[test]
fn replacement_is_not_scanned_again_for_the_same_placeholder() {
    assert_eq!(replace_legacy_placeholders("${output}", "${output}!"), "${output}!");
    assert_eq!(replace_legacy_placeholders("a@outputb", "@output"), "a@outputb");
}

#[test]
fn later_placeholders_are_replaced_inside_a_transcript_put_in_earlier() {
    assert_eq!(replace_legacy_placeholders("${output}", "say @output"), "say say @output");
}

#[test]
fn legacy_placeholders_only() {
    assert_eq!(replace_legacy_placeholders("x ${output} y @output z", "T"), "x T y T z");
    assert_eq!(replace_legacy_placeholders("[o](mention:output)", "T"), "[o](mention:output)");
}

#[test]
fn conversion_is_only_for_the_two_script_variants() {
    assert_eq!(script_conversion("zh-Hans"), Some(ScriptConversion::ToSimplified));
    assert_eq!(script_conversion("zh-Hant"), Some(ScriptConversion::ToTraditional));
    for language in ["en", "zh", "auto", "", "zh-hans", "ZH-HANT", "ja", "zh-Hans "] {
        assert_eq!(script_conversion(language), None);
        let mut settings = post_settings();
        settings.selected_language = language.to_string();
        assert_eq!(maybe_convert_chinese_variant(&settings, "鼠标里面的硅二极管坏了"), None);
        assert_eq!(maybe_convert_chinese_variant(&settings, "鼠标里面的硅二极管坏了"), None);
    }
}

#[test]
fn simplified_is_selected_so_traditional_text_is_simplified() {
    let mut settings = post_settings();
    settings.selected_language = "zh-Hans".to_string();
    assert_eq!(
        maybe_convert_chinese_variant(&settings, "滑鼠裡面的矽二極體壞了，導致游標解析度降低。"),
        Some("鼠标里面的硅二极管坏了，导致光标分辨率降低。".to_string())
    );
}

#[test]
fn traditional_is_selected_so_simplified_text_is_made_traditional() {
    let mut settings = post_settings();
    settings.selected_language = "zh-Hant".to_string();
    assert_eq!(
        maybe_convert_chinese_variant(&settings, "鼠标里面的硅二极管坏了，导致光标分辨率降低。"),
        Some("滑鼠裡面的矽二極體壞了，導致游標解析度降低。".to_string())
    );
    assert_eq!(maybe_convert_chinese_variant(&settings, "plain"), Some("plain".to_string()));
}

#[test]
fn llm_request_carries_provider_model_key_and_prompt() {
    let settings = post_settings();
    let request = maybe_post_process_transcription(&settings, "helo wrld").expect("request");
    assert_eq!(request.provider, settings.post_process_providers[1]);
    assert_eq!(request.model, "gpt-4o-mini");
    assert_eq!(request.api_key, "sk-test");
    assert_eq!(request.prompt, "Fix this: helo wrld");
}

#[test]
fn missing_api_key_is_the_empty_key() {
    let mut settings = post_settings();
    settings.post_process_provider_id = "ollama".to_string();
    let request = maybe_post_process_transcription(&settings, "t").expect("request");
    assert_eq!(request.api_key, "");
    assert_eq!(request.model, "llama3");
}

#[test]
fn rewrite_is_skipped_softly() {
    let mut s = post_settings();
    s.beta_features_enabled = false;
    assert_eq!(maybe_post_process_transcription(&s, "t"), None);

    let mut s = post_settings();
    s.ai_sdk_tools_enabled = true;
    assert_eq!(maybe_post_process_transcription(&s, "t"), None);

    let mut s = post_settings();
    s.post_process_provider_id = "nobody".to_string();
    assert_eq!(maybe_post_process_transcription(&s, "t"), None);

    let mut s = post_settings();
    s.post_process_models = vec![entry("openai", "   ")];
    assert_eq!(maybe_post_process_transcription(&s, "t"), None);

    let mut s = post_settings();
    s.post_process_models = vec![];
    assert_eq!(maybe_post_process_transcription(&s, "t"), None);

    let mut s = post_settings();
    s.post_process_selected_prompt_id = None;
    assert_eq!(maybe_post_process_transcription(&s, "t"), None);

    let mut s = post_settings();
    s.post_process_selected_prompt_id = Some("gone".to_string());
    assert_eq!(maybe_post_process_transcription(&s, "t"), None);

    let mut s = post_settings();
    s.post_process_selected_prompt_id = Some("blank".to_string());
    assert_eq!(maybe_post_process_transcription(&s, "t"), None);
}

#[test]
fn frontend_request_is_built_from_the_settings() {
    let mut settings = post_settings();
    settings.ai_sdk_tools_enabled = true;
    let request = ai_sdk_post_process_request(&settings, "raw text", 1700000000123).expect("request");
    assert_eq!(request.transcription, "raw text");
    assert_eq!(request.base_url, "https://api.openai.com/v1");
    assert_eq!(request.api_key, "sk-test");
    assert_eq!(request.model, "gpt-4o-mini");
    assert_eq!(request.prompt, "Fix this: ${output}");
    assert_eq!(request.request_id, "req_1700000000123");
    let early = ai_sdk_post_process_request(&settings, "raw text", -5).expect("request");
    assert_eq!(early.request_id, "req_-5");
}

#[test]
fn frontend_request_may_have_an_empty_prompt() {
    let mut settings = post_settings();
    settings.ai_sdk_tools_enabled = true;
    settings.post_process_selected_prompt_id = Some("blank".to_string());
    let request = ai_sdk_post_process_request(&settings, "t", 1).expect("request");
    assert_eq!(request.prompt, "  ");
}

#[test]
fn frontend_request_needs_both_switches() {
    let settings = post_settings();
    assert_eq!(ai_sdk_post_process_request(&settings, "t", 1), None);
    let mut s = post_settings();
    s.ai_sdk_tools_enabled = true;
    s.beta_features_enabled = false;
    assert_eq!(ai_sdk_post_process_request(&s, "t", 1), None);
    let mut s = post_settings();
    s.ai_sdk_tools_enabled = true;
    s.post_process_selected_prompt_id = None;
    assert_eq!(emit_ai_sdk_post_process_request(&s, "t"), None);
}

#[test]
fn emitted_request_is_stamped_with_the_clock() {
    let mut settings = post_settings();
    settings.ai_sdk_tools_enabled = true;
    let request = emit_ai_sdk_post_process_request(&settings, "t").expect("request");
    let digits = request.request_id.strip_prefix("req_").expect("prefix");
    let millis: i64 = digits.parse().expect("number");
    assert!(millis > 1_600_000_000_000);
}

#[test]
fn reply_is_the_content_of_the_first_choice() {
    assert_eq!(llm_reply_text(&vec![Some("a".to_string()), Some("b".to_string())]), Some("a".to_string()));
    assert_eq!(llm_reply_text(&vec![None, Some("b".to_string())]), None);
    assert_eq!(llm_reply_text(&vec![]), None);
}

#[test]
fn deliveries() {
    let settings = post_settings();
    assert_eq!(
        Delivery::unmodified("t"),
        Delivery { final_text: "t".to_string(), post_processed_text: None, post_process_prompt: None }
    );
    assert_eq!(
        Delivery::converted("c".to_string()),
        Delivery {
            final_text: "c".to_string(),
            post_processed_text: Some("c".to_string()),
            post_process_prompt: None
        }
    );
    assert_eq!(
        Delivery::rewritten(&settings, "t", Some("better".to_string())),
        Delivery {
            final_text: "better".to_string(),
            post_processed_text: Some("better".to_string()),
            post_process_prompt: Some("Fix this: ${output}".to_string())
        }
    );
    assert_eq!(Delivery::rewritten(&settings, "t", None), Delivery::unmodified("t"));
}

#[test]
fn failed_rewrite_falls_back_to_the_transcript() {
    let settings = post_settings();
    let d = Delivery::rewritten(&settings, "words as spoken", None);
    assert_eq!(d.final_text, "words as spoken");
    assert_eq!(d.post_processed_text, None);
}

#[test]
fn conversion_takes_precedence_over_the_rewrite() {
    let mut settings = post_settings();
    settings.selected_language = "zh-Hant".to_string();
    match begin_post_process(&settings, "海内存知己") {
        PostProcessStep::Deliver(d) => {
            assert_eq!(d.final_text, "海內存知己");
            assert_eq!(d.post_processed_text, Some("海內存知己".to_string()));
            assert_eq!(d.post_process_prompt, None);
        }
        other => panic!("expected a delivery, got {:?}", other),
    }
}

#[test]
fn rewrite_is_asked_when_no_conversion_applies() {
    let settings = post_settings();
    match begin_post_process(&settings, "some text") {
        PostProcessStep::AskLlm(request) => assert_eq!(request.prompt, "Fix this: some text"),
        other => panic!("expected a request, got {:?}", other),
    }
}

#[test]
fn nothing_applies_so_the_transcript_goes_out() {
    let mut settings = post_settings();
    settings.beta_features_enabled = false;
    assert_eq!(
        begin_post_process(&settings, "some text"),
        PostProcessStep::Deliver(Delivery::unmodified("some text"))
    );
}

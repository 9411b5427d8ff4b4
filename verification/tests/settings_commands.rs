use echo_voice::post_process_settings::{
    add_post_process_prompt, change_post_process_api_key_setting,
    change_post_process_base_url_setting, change_post_process_model_setting,
    delete_post_process_prompt, fetch_post_process_models, model_list_headers, model_names,
    model_names_in, models_url, parse_model_listing, set_post_process_provider,
    set_post_process_selected_prompt, update_post_process_prompt, upsert,
    validate_provider_exists, HttpHeader, ModelListQuery, ModelListing,
};
use echo_voice::settings::{
    find_entry, find_prompt, find_provider, lookup_or_empty, AppSettings, LLMPrompt,
    ModelUnloadTimeout, PostProcessProvider, TextEntry,
};

fn provider(id: &str, label: &str, base_url: &str, edit: bool, endpoint: Option<&str>) -> PostProcessProvider {
    PostProcessProvider {
        id: id.to_string(),
        label: label.to_string(),
        base_url: base_url.to_string(),
        allow_base_url_edit: edit,
        models_endpoint: endpoint.map(|e| e.to_string()),
    }
}

fn prompt(id: &str, name: &str, text: &str) -> LLMPrompt {
    LLMPrompt { id: id.to_string(), name: name.to_string(), prompt: text.to_string() }
}

fn entry(key: &str, value: &str) -> TextEntry {
    TextEntry { key: key.to_string(), value: value.to_string() }
}

fn command_settings() -> AppSettings {
    AppSettings {
        selected_language: "en".to_string(),
        translate_to_english: false,
        selected_model: "small".to_string(),
        model_unload_timeout: ModelUnloadTimeout::Never,
        always_on_microphone: false,
        push_to_talk: true,
        custom_words: vec![],
        beta_features_enabled: true,
        ai_sdk_tools_enabled: false,
        post_process_provider_id: "openai".to_string(),
        post_process_providers: vec![
            provider("openai", "OpenAI", "https://api.openai.com/v1", false, None),
            provider("custom", "Custom", "http://localhost:8080/v1/", true, Some("/v2/models")),
            provider("ollama", "Ollama", "http://localhost:11434/v1/", true, None),
            provider("anthropic", "Anthropic", "https://api.anthropic.com/v1", false, None),
        ],
        post_process_models: vec![entry("openai", "gpt-4o-mini")],
        post_process_api_keys: vec![entry("openai", "sk-test")],
        post_process_prompts: vec![prompt("a", "A", "first"), prompt("b", "B", "second"), prompt("c", "C", "third")],
        post_process_selected_prompt_id: Some("b".to_string()),
    }
}

#[test]
fn lookups_find_the_first_match() {
    let s = command_settings();
    assert_eq!(find_provider(&s.post_process_providers, "custom"), Some(1));
    assert_eq!(find_provider(&s.post_process_providers, "Custom"), None);
    assert_eq!(find_prompt(&s.post_process_prompts, "c"), Some(2));
    assert_eq!(find_prompt(&s.post_process_prompts, ""), None);
    assert_eq!(find_entry(&s.post_process_models, "openai"), Some(0));
    assert_eq!(lookup_or_empty(&s.post_process_models, "openai"), "gpt-4o-mini");
    assert_eq!(lookup_or_empty(&s.post_process_models, "ollama"), "");
    assert_eq!(s.active_post_process_provider(), Some(&s.post_process_providers[0]));
    let duplicated = vec![entry("k", "first"), entry("k", "second")];
    assert_eq!(lookup_or_empty(&duplicated, "k"), "first");
}

#[test]
fn no_active_provider_when_the_id_is_unknown() {
    let mut s = command_settings();
    s.post_process_provider_id = "gone".to_string();
    assert_eq!(s.active_post_process_provider(), None);
}

#[test]
fn providers_must_exist() {
    let s = command_settings();
    assert_eq!(validate_provider_exists(&s, "ollama"), Ok(()));
    assert_eq!(validate_provider_exists(&s, "nobody"), Err("Provider 'nobody' not found".to_string()));
}

#[test]
fn upsert_replaces_or_appends() {
    let mut entries = vec![entry("a", "1"), entry("b", "2")];
    upsert(&mut entries, "a".to_string(), "9".to_string());
    assert_eq!(entries, vec![entry("a", "9"), entry("b", "2")]);
    upsert(&mut entries, "c".to_string(), "3".to_string());
    assert_eq!(entries, vec![entry("a", "9"), entry("b", "2"), entry("c", "3")]);
}

#[test]
fn base_url_changes_only_where_allowed() {
    let mut s = command_settings();
    assert_eq!(
        change_post_process_base_url_setting(&mut s, "custom", "http://other/v1".to_string()),
        Ok(())
    );
    assert_eq!(s.post_process_providers[1].base_url, "http://other/v1");
    assert_eq!(s.post_process_providers[1].label, "Custom");
    let before = s.clone();
    assert_eq!(
        change_post_process_base_url_setting(&mut s, "openai", "http://evil".to_string()),
        Err("Provider 'OpenAI' does not allow editing the base URL".to_string())
    );
    assert_eq!(
        change_post_process_base_url_setting(&mut s, "nobody", "http://x".to_string()),
        Err("Provider 'nobody' not found".to_string())
    );
    assert_eq!(s, before);
}

#[test]
fn keys_and_models_are_set_per_provider() {
    let mut s = command_settings();
    assert_eq!(
        change_post_process_api_key_setting(&mut s, "ollama".to_string(), "k".to_string()),
        Ok(())
    );
    assert_eq!(s.post_process_api_keys, vec![entry("openai", "sk-test"), entry("ollama", "k")]);
    assert_eq!(
        change_post_process_model_setting(&mut s, "openai".to_string(), "gpt-5".to_string()),
        Ok(())
    );
    assert_eq!(s.post_process_models, vec![entry("openai", "gpt-5")]);
    assert_eq!(
        change_post_process_model_setting(&mut s, "x".to_string(), "m".to_string()),
        Err("Provider 'x' not found".to_string())
    );
    assert_eq!(
        change_post_process_api_key_setting(&mut s, "x".to_string(), "m".to_string()),
        Err("Provider 'x' not found".to_string())
    );
}

#[test]
fn provider_is_selected_only_if_it_exists() {
    let mut s = command_settings();
    assert_eq!(set_post_process_provider(&mut s, "ollama".to_string()), Ok(()));
    assert_eq!(s.post_process_provider_id, "ollama");
    assert_eq!(
        set_post_process_provider(&mut s, "x".to_string()),
        Err("Provider 'x' not found".to_string())
    );
    assert_eq!(s.post_process_provider_id, "ollama");
}

#[test]
fn prompts_are_added_with_an_id_from_the_clock() {
    let mut s = command_settings();
    let added = add_post_process_prompt(&mut s, "New".to_string(), "Do: @output".to_string(), 1700000000000);
    assert_eq!(added, prompt("prompt_1700000000000", "New", "Do: @output"));
    assert_eq!(s.post_process_prompts.len(), 4);
    assert_eq!(s.post_process_prompts[3], added);
}

#[test]
fn prompts_are_updated_in_place() {
    let mut s = command_settings();
    assert_eq!(
        update_post_process_prompt(&mut s, "b", "Bee".to_string(), "changed".to_string()),
        Ok(())
    );
    assert_eq!(s.post_process_prompts[1], prompt("b", "Bee", "changed"));
    assert_eq!(
        update_post_process_prompt(&mut s, "z", "n".to_string(), "p".to_string()),
        Err("Prompt with id 'z' not found".to_string())
    );
}

#[test]
fn deleting_the_selected_prompt_selects_the_first() {
    let mut s = command_settings();
    assert_eq!(delete_post_process_prompt(&mut s, "b"), Ok(()));
    assert_eq!(s.post_process_prompts, vec![prompt("a", "A", "first"), prompt("c", "C", "third")]);
    assert_eq!(s.post_process_selected_prompt_id, Some("a".to_string()));
    assert_eq!(delete_post_process_prompt(&mut s, "c"), Ok(()));
    assert_eq!(s.post_process_selected_prompt_id, Some("a".to_string()));
    assert_eq!(
        delete_post_process_prompt(&mut s, "a"),
        Err("Cannot delete the last prompt".to_string())
    );
    assert_eq!(s.post_process_prompts.len(), 1);
}

#[test]
fn deleting_an_unknown_prompt_fails() {
    let mut s = command_settings();
    let before = s.clone();
    assert_eq!(
        delete_post_process_prompt(&mut s, "z"),
        Err("Prompt with id 'z' not found".to_string())
    );
    assert_eq!(s, before);
}

#[test]
fn deleting_removes_every_prompt_of_the_id() {
    let mut s = command_settings();
    s.post_process_prompts = vec![prompt("a", "1", ""), prompt("a", "2", "")];
    s.post_process_selected_prompt_id = Some("a".to_string());
    assert_eq!(delete_post_process_prompt(&mut s, "a"), Ok(()));
    assert!(s.post_process_prompts.is_empty());
    assert_eq!(s.post_process_selected_prompt_id, None);
}

#[test]
fn prompt_is_selected_only_if_it_exists() {
    let mut s = command_settings();
    assert_eq!(set_post_process_selected_prompt(&mut s, "c".to_string()), Ok(()));
    assert_eq!(s.post_process_selected_prompt_id, Some("c".to_string()));
    assert_eq!(
        set_post_process_selected_prompt(&mut s, "z".to_string()),
        Err("Prompt with id 'z' not found".to_string())
    );
}

#[test]
fn listing_models_needs_a_key_except_for_local_providers() {
    let s = command_settings();
    assert_eq!(
        fetch_post_process_models(&s, "openai"),
        Ok(ModelListQuery { provider_index: 0, api_key: "sk-test".to_string() })
    );
    assert_eq!(
        fetch_post_process_models(&s, "ollama"),
        Ok(ModelListQuery { provider_index: 2, api_key: String::new() })
    );
    assert_eq!(
        fetch_post_process_models(&s, "custom"),
        Ok(ModelListQuery { provider_index: 1, api_key: String::new() })
    );
    assert_eq!(
        fetch_post_process_models(&s, "anthropic"),
        Err("API key is required for Anthropic. Please add an API key to list available models.".to_string())
    );
    assert_eq!(
        fetch_post_process_models(&s, "nobody"),
        Err("Provider 'nobody' not found".to_string())
    );
}

#[test]
fn model_list_addresses() {
    let s = command_settings();
    assert_eq!(models_url(&s.post_process_providers[0]), "https://api.openai.com/v1/models");
    assert_eq!(models_url(&s.post_process_providers[1]), "http://localhost:8080/v1/v2/models");
    assert_eq!(models_url(&s.post_process_providers[2]), "http://localhost:11434/api/tags");
    assert_eq!(
        models_url(&provider("ollama", "O", "http://h/v1/v1//", true, Some("ignored"))),
        "http://h/api/tags"
    );
    assert_eq!(models_url(&provider("x", "X", "http://h///", true, Some("///m"))), "http://h/m");
    assert_eq!(models_url(&provider("x", "X", "", true, None)), "/models");
}

fn h(name: &str, value: &str) -> HttpHeader {
    HttpHeader { name: name.to_string(), value: value.to_string() }
}

#[test]
fn model_list_request_headers() {
    let common = vec![h("HTTP-Referer", "https://github.com/damien-schneider/echo"), h("X-Title", "Echo")];
    assert_eq!(model_list_headers("ollama", ""), common);
    let mut bearer = common.clone();
    bearer.push(h("Authorization", "Bearer sk-1"));
    assert_eq!(model_list_headers("openai", "sk-1"), bearer);
    let mut anthropic = common.clone();
    anthropic.push(h("x-api-key", "sk-2"));
    anthropic.push(h("anthropic-version", "2023-06-01"));
    assert_eq!(model_list_headers("anthropic", "sk-2"), anthropic);
    let mut keyless = common.clone();
    keyless.push(h("anthropic-version", "2023-06-01"));
    assert_eq!(model_list_headers("anthropic", ""), keyless);
}

fn texts(items: &[Option<&str>]) -> Option<Vec<Option<String>>> {
    Some(items.iter().map(|i| i.map(|t| t.to_string())).collect())
}

#[test]
fn model_names_in_the_three_shapes() {
    let ollama = ModelListing {
        models: texts(&[Some("llama3:latest"), None, Some("phi")]),
        data_ids: texts(&[Some("ignored")]),
        data_names: texts(&[None]),
        names: None,
    };
    assert_eq!(model_names(&ollama), vec!["llama3:latest", "phi"]);
    let openai = ModelListing {
        models: None,
        data_ids: texts(&[Some("gpt-4o"), None, None]),
        data_names: texts(&[Some("GPT"), Some("named"), None]),
        names: texts(&[Some("ignored")]),
    };
    assert_eq!(model_names(&openai), vec!["gpt-4o", "named"]);
    let bare = ModelListing {
        models: None,
        data_ids: None,
        data_names: None,
        names: texts(&[Some("a"), None, Some("b")]),
    };
    assert_eq!(model_names(&bare), vec!["a", "b"]);
    let nothing = ModelListing { models: None, data_ids: None, data_names: None, names: None };
    assert_eq!(model_names(&nothing), Vec::<String>::new());
    let empty = ModelListing {
        models: texts(&[]),
        data_ids: texts(&[Some("x")]),
        data_names: texts(&[None]),
        names: None,
    };
    assert_eq!(model_names(&empty), Vec::<String>::new());
}

#[test]
fn model_names_are_read_out_of_the_body() {
    assert_eq!(
        model_names_in(r#"{"models":[{"name":"llama3:latest","size":1},{"model":"x"},{"name":"phi"}]}"#),
        Ok(vec!["llama3:latest".to_string(), "phi".to_string()])
    );
    assert_eq!(
        model_names_in(r#"{"object":"list","data":[{"id":"gpt-4o","name":"GPT"},{"name":"named"},{"id":7},{}]}"#),
        Ok(vec!["gpt-4o".to_string(), "named".to_string()])
    );
    assert_eq!(
        model_names_in(r#"["a", 1, "b", null]"#),
        Ok(vec!["a".to_string(), "b".to_string()])
    );
    assert_eq!(
        model_names_in(r#"{"models":[{"name":"m"}],"data":[{"id":"d"}]}"#),
        Ok(vec!["m".to_string()])
    );
    assert_eq!(model_names_in(r#"{"models":"none","data":[{"id":"d"}]}"#), Ok(vec!["d".to_string()]));
    assert_eq!(model_names_in(r#"{"other":1}"#), Ok(vec![]));
    assert_eq!(model_names_in("42"), Ok(vec![]));
}

#[test]
fn a_body_that_is_no_json_is_turned_down() {
    let error = model_names_in("<html>").expect_err("no json");
    assert!(error.starts_with("Failed to parse response: "));
    assert!(error.len() > "Failed to parse response: ".len());
    assert!(parse_model_listing("").is_err());
    let listing = parse_model_listing(r#"{"data":[{"id":"a","name":"A"}]}"#).expect("json");
    assert_eq!(
        listing,
        ModelListing {
            models: None,
            data_ids: texts(&[Some("a")]),
            data_names: texts(&[Some("A")]),
            names: None,
        }
    );
}

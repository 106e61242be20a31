use ai_playground::llm_interface::{interpret_reply, read_reply, reply_content};
use ai_playground::prompt_manager::{is_blank, is_white_space};
use ai_playground::template::Variables;
use ai_playground::menu::{parse_menu_choice, MenuCommand};
use ai_playground::{
    AIComponent, AIPlayground, LLMConfig, LLMInterface, NamedComponent, PlaygroundError, PromptManager,
};

#[test]
fn render_without_known_placeholder_is_identity() {
    let mut pm = PromptManager::new();
    pm.set_variable("known".to_string(), "X".to_string());
    let t = "Hello {unknown} and {} and { known} world";
    assert_eq!(pm.process_template(t), t);
    assert_eq!(pm.process_template(""), "");
}

#[test]
fn render_replaces_every_occurrence_and_keeps_unknown() {
    let mut pm = PromptManager::new();
    pm.set_variable("a".to_string(), "1".to_string());
    pm.set_variable("bb".to_string(), "two".to_string());
    assert_eq!(pm.process_template("{a}+{a}={bb} {unknown}"), "1+1=two {unknown}");
}

#[test]
fn render_does_not_read_substituted_values_again() {
    let mut pm = PromptManager::new();
    pm.set_variable("x".to_string(), "{y}".to_string());
    pm.set_variable("y".to_string(), "Y".to_string());
    assert_eq!(pm.process_template("{x}{y}"), "{y}Y");
}

#[test]
fn render_nested_braces() {
    let mut pm = PromptManager::new();
    pm.set_variable("variable".to_string(), "value".to_string());
    assert_eq!(pm.process_template("{{variable}}"), "{value}");
    assert_eq!(pm.process_template("{variable"), "{variable");
}

#[test]
fn set_variable_last_write_wins() {
    let mut pm = PromptManager::new();
    pm.set_variable("k".to_string(), "first".to_string());
    pm.set_variable("k".to_string(), "second".to_string());
    assert_eq!(pm.process_template("{k}"), "second");
}

#[test]
fn variables_lookup() {
    let mut v = Variables::new();
    assert!(v.lookup("a").is_none());
    v.set("a".to_string(), "1".to_string());
    v.set("b".to_string(), "2".to_string());
    v.set("a".to_string(), "3".to_string());
    assert_eq!(v.lookup("a").map(|s| s.as_str()), Some("3"));
    assert_eq!(v.lookup("b").map(|s| s.as_str()), Some("2"));
    assert_eq!(v.render("{a}{b}{c}"), "32{c}");
}

#[test]
fn blank_templates_are_refused() {
    let mut pm = PromptManager::new();
    assert_eq!(pm.add_template("".to_string()), Err(PlaygroundError::EmptyTemplate));
    assert_eq!(pm.add_template("   ".to_string()), Err(PlaygroundError::EmptyTemplate));
    assert_eq!(pm.add_template("\t\n \u{3000}".to_string()), Err(PlaygroundError::EmptyTemplate));
    assert_eq!(pm.template_count(), 8);
    assert!(pm.add_template("  x  ".to_string()).is_ok());
    assert_eq!(pm.template_count(), 9);
    assert_eq!(pm.get_template(8), Some("  x  "));
}

#[test]
fn blank_detection() {
    assert!(is_blank(""));
    assert!(is_blank(" \r\n\t"));
    assert!(!is_blank(" a "));
}

#[test]
fn get_out_of_range_is_none() {
    let pm = PromptManager::new();
    assert_eq!(pm.get_template(8), None);
    assert_eq!(pm.get_template(usize::MAX), None);
    assert_eq!(pm.get_processed_template(8), None);
    assert_eq!(pm.all_templates().len(), 8);
    assert_eq!(pm.all_templates()[7], "Debug this {language} code: {code}");
}

#[test]
fn scenario_poem_template() {
    let mut pm = PromptManager::new();
    assert_eq!(pm.template_count(), 8);
    assert!(pm.add_template("Write a {style} poem about {topic}".to_string()).is_ok());
    assert_eq!(pm.template_count(), 9);
    pm.set_variable("style".to_string(), "haiku".to_string());
    pm.set_variable("topic".to_string(), "AI".to_string());
    assert_eq!(pm.get_processed_template(8), Some("Write a haiku poem about AI".to_string()));
}

#[test]
fn scenario_test_template() {
    let mut pm = PromptManager::new();
    pm.set_variable("variable".to_string(), "value".to_string());
    assert!(pm.add_template("Test template {variable}".to_string()).is_ok());
    let last = pm.template_count() - 1;
    assert_eq!(pm.get_processed_template(last), Some("Test template value".to_string()));
}

#[test]
fn current_prompt_and_process() {
    let mut pm = PromptManager::new();
    assert_eq!(pm.current_prompt(), None);
    assert_eq!(pm.process(), Err(PlaygroundError::NothingToProcess));
    pm.set_prompt("p".to_string());
    assert_eq!(pm.current_prompt(), Some("p"));
    assert_eq!(pm.process(), Ok(()));
    assert_eq!(pm.get_description(), "Manages and templates prompts");
    assert_eq!(pm.description(), "Manages and templates prompts");
}

#[test]
fn request_before_initialize_fails() {
    let llm = LLMInterface::new(None);
    assert_eq!(llm.request_body("test"), Err(PlaygroundError::NotInitialized));
    assert_eq!(llm.process(), Err(PlaygroundError::NotInitialized));
    assert!(llm.http_client().is_none());
}

#[test]
fn request_body_after_initialize() {
    let mut llm = LLMInterface::new(Some("llama3".to_string()));
    assert!(llm.initialize().is_ok());
    assert!(llm.initialize().is_ok());
    assert!(llm.http_client().is_some());
    assert_eq!(llm.process(), Ok(()));
    assert_eq!(
        llm.request_body("Say \"hi\"\n").unwrap(),
        "{\"model\":\"llama3\",\"messages\":[{\"role\":\"user\",\"content\":\"Say \\\"hi\\\"\\n\"}],\"stream\":false,\"options\":{\"temperature\":0.700}}"
    );
}

#[test]
fn new_interface_settings() {
    let mut llm = LLMInterface::new(None);
    assert_eq!(llm.model_name(), "gpt-3.5-turbo");
    assert_eq!(llm.endpoint(), "http://localhost:11434/api/chat");
    assert_eq!(llm.api_key(), None);
    assert!(!llm.is_connected());
    llm.set_api_key("SECRET-REDACTED".to_string());
    assert_eq!(llm.api_key(), Some("SECRET-REDACTED"));
    assert_eq!(llm.get_name(), "LLM Interface");
    assert_eq!(llm.description(), "Interface for Large Language Models");
}

#[test]
fn reply_success_returns_content_unmodified() {
    let body = "{\"model\":\"m\",\"message\":{\"role\":\"assistant\",\"content\":\"  Hi\\nthere \"},\"done\":true}";
    assert_eq!(reply_content(body), Some("  Hi\nthere ".to_string()));
    assert_eq!(read_reply(200, body), Ok("  Hi\nthere ".to_string()));
}

#[test]
fn reply_without_content_is_malformed() {
    assert_eq!(read_reply(200, "{\"done\":true}"), Err(PlaygroundError::MalformedResponse));
    assert_eq!(read_reply(200, "{\"message\":{\"role\":\"assistant\"}}"), Err(PlaygroundError::MalformedResponse));
    assert_eq!(read_reply(200, "{\"message\":{\"content\":5}}"), Err(PlaygroundError::MalformedResponse));
    assert_eq!(read_reply(200, "not json"), Err(PlaygroundError::MalformedResponse));
    assert_eq!(reply_content("[]"), None);
}

#[test]
fn reply_status_errors() {
    assert_eq!(read_reply(404, "{\"message\":{\"content\":\"x\"}}"), Err(PlaygroundError::HttpStatus { code: 404 }));
    assert_eq!(read_reply(199, ""), Err(PlaygroundError::HttpStatus { code: 199 }));
    assert_eq!(read_reply(300, ""), Err(PlaygroundError::HttpStatus { code: 300 }));
    assert_eq!(interpret_reply(299, Some("ok".to_string())), Ok("ok".to_string()));
    assert_eq!(interpret_reply(204, None), Err(PlaygroundError::MalformedResponse));
    assert_eq!(interpret_reply(500, Some("x".to_string())), Err(PlaygroundError::HttpStatus { code: 500 }));
}

#[test]
fn playground_prepare_request() {
    let mut pg = AIPlayground::new();
    assert_eq!(pg.prepare_request(0), Err(PlaygroundError::NotInitialized));
    assert_eq!(pg.prepare_request(8), Err(PlaygroundError::TemplateNotFound));
    assert!(pg.initialize().is_ok());
    pg.prompt_manager.set_variable("topic".to_string(), "rust".to_string());
    assert_eq!(
        pg.prepare_request(0).unwrap(),
        "{\"model\":\"gpt-3.5-turbo\",\"messages\":[{\"role\":\"user\",\"content\":\"Explain rust in simple terms\"}],\"stream\":false,\"options\":{\"temperature\":0.700}}"
    );
    assert_eq!(pg.prepare_request(99), Err(PlaygroundError::TemplateNotFound));
}

#[test]
fn request_body_temperature_forms() {
    let mut llm = LLMInterface::from_config(LLMConfig {
        model: "m".to_string(),
        max_tokens: None,
        temperature_milli: Some(12345),
        api_key: None,
        endpoint: "http://127.0.0.1:1/api/chat".to_string(),
    });
    assert_eq!(llm.endpoint(), "http://127.0.0.1:1/api/chat");
    assert_eq!(llm.request_body("x"), Err(PlaygroundError::NotInitialized));
    assert!(llm.initialize().is_ok());
    assert_eq!(
        llm.request_body("x").unwrap(),
        "{\"model\":\"m\",\"messages\":[{\"role\":\"user\",\"content\":\"x\"}],\"stream\":false,\"options\":{\"temperature\":12.345}}"
    );
    let mut plain = LLMInterface::from_config(LLMConfig {
        model: "m".to_string(),
        max_tokens: Some(5),
        temperature_milli: None,
        api_key: Some("k".to_string()),
        endpoint: "e".to_string(),
    });
    assert_eq!(plain.api_key(), Some("k"));
    assert!(plain.initialize().is_ok());
    assert_eq!(
        plain.request_body("").unwrap(),
        "{\"model\":\"m\",\"messages\":[{\"role\":\"user\",\"content\":\"\"}],\"stream\":false}"
    );
}

#[test]
fn menu_choices() {
    assert_eq!(parse_menu_choice("1"), Some(MenuCommand::Initialize));
    assert_eq!(parse_menu_choice("4"), Some(MenuCommand::AddTemplate));
    assert_eq!(parse_menu_choice("7"), Some(MenuCommand::Exit));
    assert_eq!(parse_menu_choice("8"), None);
    assert_eq!(parse_menu_choice("11"), None);
    assert_eq!(parse_menu_choice(""), None);
}

#[test]
fn request_body_escapes_control_characters() {
    let mut llm = LLMInterface::new(Some("a\\b".to_string()));
    assert!(llm.initialize().is_ok());
    assert_eq!(
        llm.request_body("\u{1}\u{8}\u{c}\r\t\u{1f}\u{7f}é").unwrap(),
        "{\"model\":\"a\\\\b\",\"messages\":[{\"role\":\"user\",\"content\":\"\\u0001\\b\\f\\r\\t\\u001f\u{7f}é\"}],\"stream\":false,\"options\":{\"temperature\":0.700}}"
    );
}

#[test]
fn initialize_twice_keeps_connection() {
    let mut pg = AIPlayground::new();
    assert!(pg.initialize().is_ok());
    assert!(pg.initialize().is_ok());
    assert!(pg.llm_interface.is_connected());
    assert_eq!(pg.prompt_manager.current_prompt(), None);
    assert_eq!(pg.prompt_manager.template_count(), 8);
}

#[test]
fn white_space_characters() {
    for c in ['\t', '\n', '\u{b}', '\u{c}', '\r', ' ', '\u{85}', '\u{a0}', '\u{1680}', '\u{2000}', '\u{200a}', '\u{2028}', '\u{2029}', '\u{202f}', '\u{205f}', '\u{3000}'] {
        assert!(is_white_space(c));
        assert_eq!(is_white_space(c), c.is_whitespace());
    }
    for c in ['a', '{', '\u{200b}', '\u{0}', '\u{7f}'] {
        assert!(!is_white_space(c));
        assert_eq!(is_white_space(c), c.is_whitespace());
    }
}

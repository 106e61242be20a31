use ai_playground::{AIComponent, AIPlayground, LLMInterface, PromptManager};

#[test]
fn test_llm_interface_initialization() {
    let mut llm = LLMInterface::new(Some("gpt-3.5-turbo".to_string()));

    assert!(llm.initialize().is_ok());
    assert!(llm.is_connected());
    assert_eq!(llm.model_name(), "gpt-3.5-turbo");
}

#[test]
fn test_prompt_manager_functionality() {
    let mut pm = PromptManager::new();

    assert!(pm.initialize().is_ok());

    assert_eq!(pm.template_count(), 8);

    assert!(pm.add_template("Test template {variable}".to_string()).is_ok());
    assert_eq!(pm.template_count(), 9);

    assert_eq!(pm.get_template(0), Some("Explain {topic} in simple terms"));

    pm.set_variable("variable".to_string(), "value".to_string());
    let processed = pm.get_processed_template(8).unwrap();
    assert_eq!(processed, "Test template value");
}

#[test]
fn test_ai_playground_integration() {
    let mut playground = AIPlayground::new();

    assert!(playground.initialize().is_ok());

    assert_eq!(playground.llm_interface.name(), "LLM Interface");
    assert_eq!(playground.prompt_manager.name(), "Prompt Manager");
}

#[test]
fn test_error_handling() {
    let mut pm = PromptManager::new();

    assert!(pm.add_template("".to_string()).is_err());

    let llm = LLMInterface::new(None);

    assert!(llm.request_body("test").is_err());
}

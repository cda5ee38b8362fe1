use plexo_cognition::engine::{
    chat_completion, chat_response, completion_text, create_task_function, function_parameters, EngineConfig,
    FunctionCallPolicy, MAX_TOKENS,
};
use plexo_cognition::error::CognitionError;
use plexo_cognition::message::{Message, ProviderTurn};

fn config() -> EngineConfig {
    EngineConfig { llm_model_name: "gpt-test".to_string() }
}

fn msg(content: &str) -> Message {
    Message { id: 1, chat_id: 2, role: "user".to_string(), content: content.to_string() }
}

#[test]
fn parameters_wrap_the_input_schema() {
    let p = function_parameters("{\"type\":\"string\"}");
    assert_eq!(p, "{\"properties\":{\"input\":{\"type\":\"string\"}},\"required\":[\"input\"],\"type\":\"object\"}");
    let v: serde_json::Value = serde_json::from_str(&p).unwrap();
    assert_eq!(v["required"][0], "input");
    assert_eq!(v["properties"]["input"]["type"], "string");
}

#[test]
fn create_task_function_is_named() {
    let f = create_task_function("{}");
    assert_eq!(f.name, "create_task");
    assert!(f.description.starts_with("Create a task"));
}

#[test]
fn chat_request_prepends_the_system_prompt() {
    let history = vec![msg(r#"{"role":"user","content":"hi"}"#), msg(r#"{"role":"assistant","content":"hello"}"#)];
    let req = chat_response(&config(), "be brief".to_string(), &history, "{}").unwrap();
    assert_eq!(req.model, "gpt-test");
    assert_eq!(req.max_tokens, 1024);
    assert_eq!(req.max_tokens, MAX_TOKENS);
    assert_eq!(req.messages.len(), 3);
    assert!(matches!(&req.messages[0], ProviderTurn::System(s) if s == "be brief"));
    assert!(matches!(&req.messages[1], ProviderTurn::User(_)));
    assert!(matches!(&req.messages[2], ProviderTurn::Assistant(_)));
    assert_eq!(req.functions.len(), 1);
    assert_eq!(req.functions[0].name, "create_task");
    assert!(matches!(req.function_call, Some(FunctionCallPolicy::Auto)));
}

#[test]
fn chat_request_fails_on_the_first_bad_message() {
    let history = vec![
        msg(r#"{"role":"user","content":"hi"}"#),
        msg(r#"{"role":"tool","content":"x"}"#),
        msg("not json"),
    ];
    let r = chat_response(&config(), "s".to_string(), &history, "{}");
    assert!(matches!(r, Err(CognitionError::UnsupportedRole)));
}

#[test]
fn completion_request_has_two_turns() {
    let req = chat_completion(&config(), "sys".to_string(), "question".to_string());
    assert_eq!(req.messages.len(), 2);
    assert!(matches!(&req.messages[1], ProviderTurn::UserText(s) if s == "question"));
    assert!(req.functions.is_empty());
    assert!(req.function_call.is_none());
}

#[test]
fn completion_text_takes_the_first_choice() {
    assert_eq!(completion_text(vec![Some("a".to_string()), Some("b".to_string())]).unwrap(), "a");
    assert!(matches!(completion_text(vec![]), Err(CognitionError::ProviderFailure)));
    assert!(matches!(completion_text(vec![None]), Err(CognitionError::ProviderFailure)));
}

use tama::llm::{
    client_role, genai_model_name, model_ref_key, pre_call_system, resolved_from_ref,
    response_display, token_count, tool_line, PreCallDecision,
};
use tama::manifest::{ModelRef, Provider};
use tama::strmap::Env;

#[test]
fn model_names_and_roles() {
    assert_eq!(genai_model_name(&Provider::Ollama, "llama3"), "ollama::llama3");
    assert_eq!(genai_model_name(&Provider::OpenAi, "gpt"), "gpt");
    assert_eq!(client_role(""), "custom");
    assert_eq!(client_role("thinker"), "thinker");
}

#[test]
fn model_ref_keys() {
    let mut env = Env::new();
    assert_eq!(model_ref_key(&Provider::Ollama, &env), Ok("ollama".to_string()));
    assert_eq!(
        model_ref_key(&Provider::Google, &env),
        Err("GEMINI_API_KEY is not set".to_string())
    );
    env.set("ANTHROPIC_API_KEY", "k");
    let m = resolved_from_ref(
        &ModelRef { provider: Provider::Anthropic, model: "opus".to_string() },
        &env,
    )
    .unwrap();
    assert_eq!(m.api_key, "k");
    assert_eq!(m.model_name, "opus");
    assert_eq!(m.role, "");
}

#[test]
fn token_counts_clamp() {
    assert_eq!(token_count(None), 0);
    assert_eq!(token_count(Some(-5)), 0);
    assert_eq!(token_count(Some(42)), 42);
}

#[test]
fn display_of_responses() {
    let lines = vec![tool_line("f", "{}"), tool_line("g", "{\"a\":1}")];
    assert_eq!(lines[0], "  tool: f({})");
    assert_eq!(response_display("", &vec![]), "");
    assert_eq!(response_display("hi", &vec![]), "hi");
    assert_eq!(response_display("", &lines), "  tool: f({})\n  tool: g({\"a\":1})");
    assert_eq!(response_display("hi", &lines), "hi\n  tool: f({})\n  tool: g({\"a\":1})");
}

#[test]
fn pre_call_decisions() {
    assert_eq!(
        pre_call_system(PreCallDecision::Proceed { system_override: Some("S".to_string()) }),
        Ok(Some("S".to_string()))
    );
    assert_eq!(pre_call_system(PreCallDecision::Proceed { system_override: None }), Ok(None));
    assert_eq!(pre_call_system(PreCallDecision::Quit), Err("debug: user quit".to_string()));
}

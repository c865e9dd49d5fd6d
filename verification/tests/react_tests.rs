use tama::react::{classify_call, error_result, plain_text_output, ReactLoop, ToolAction};

fn parse_value(text: &str) -> Option<serde_json::Value> {
    serde_json::from_str(text).ok()
}

#[test]
fn finish_call_defaults() {
    let args = parse_value("{}").unwrap();
    match classify_call("finish", &args) {
        ToolAction::Finish(o) => {
            assert_eq!(o.key, "done");
            assert_eq!(o.value, "");
        }
        other => panic!("unexpected {:?}", other),
    }
    let args = parse_value(r#"{"key":"next","value":"v"}"#).unwrap();
    match classify_call("finish", &args) {
        ToolAction::Finish(o) => {
            assert_eq!(o.key, "next");
            assert_eq!(o.value, "v");
        }
        other => panic!("unexpected {:?}", other),
    }
}

#[test]
fn other_calls() {
    let args = parse_value(r#"{"name":"search"}"#).unwrap();
    assert!(matches!(classify_call("start", &args), ToolAction::Start));
    match classify_call("read_skill", &args) {
        ToolAction::ReadSkill(n) => assert_eq!(n, "search"),
        other => panic!("unexpected {:?}", other),
    }
    assert!(matches!(classify_call("tama_bash", &args), ToolAction::Execute));
    assert_eq!(error_result("x"), "[error: x]");
}

#[test]
fn loop_counts_turns_and_records_results() {
    let mut l = ReactLoop::new(2);
    assert!(l.can_call());
    assert_eq!(l.step_name(), "react_1");
    let seen = l.record_result("tama_mem_get", "{\"key\":\"k\"}", "value".to_string());
    assert_eq!(seen, "value");
    l.record_result("start", "{}", "task".to_string());
    l.end_turn();
    assert_eq!(
        l.prev_tool_results,
        "tama_mem_get({\"key\":\"k\"}) →\nvalue\n\nstart({}) →\ntask"
    );
    assert_eq!(l.step_name(), "react_2");
    l.end_turn();
    assert!(!l.can_call());
    assert_eq!(
        l.exhausted_error(),
        "react agent reached max_iter (2) without calling finish"
    );
}

#[test]
fn long_results_are_cut() {
    let mut l = ReactLoop::new(1);
    let seen = l.record_result("x", "{}", "a".repeat(13000));
    assert_eq!(seen.len(), 12000);
}

#[test]
fn unlocking_is_idempotent() {
    let mut l = ReactLoop::new(3);
    let newly = l.unlock(&vec!["tama_mem_set".to_string(), "tama_mem_get".to_string()]);
    assert_eq!(newly, vec!["tama_mem_set", "tama_mem_get"]);
    let again = l.unlock(&vec!["tama_mem_get".to_string(), "tama_bash".to_string(), "tama_bash".to_string()]);
    assert_eq!(again, vec!["tama_bash"]);
    assert_eq!(l.unlocked, vec!["tama_mem_set", "tama_mem_get", "tama_bash"]);
    assert_eq!(
        l.active_tools(&["skill".to_string()], &[]),
        vec!["start", "finish", "read_skill", "tama_bash", "tama_mem_set", "tama_mem_get"]
    );
}

#[test]
fn plain_text_is_an_implicit_finish() {
    let o = plain_text_output("hi".to_string());
    assert_eq!(o.key, "done");
    assert_eq!(o.value, "hi");
}

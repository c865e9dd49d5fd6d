use tama::tracelog::{agent_span_name, llm_span_name, tool_span_name, TraceLog};

#[test]
fn trace_log_stores_each_prompt_once() {
    let mut log = TraceLog::new();
    assert_eq!(log.next_seq(), 1);
    assert_eq!(log.next_seq(), 2);
    assert!(log.takes_prompt("span-a"));
    assert!(!log.takes_prompt("span-a"));
    assert!(log.takes_prompt("span-b"));
    assert_eq!(agent_span_name("a", "react"), "agent:a:react");
    assert_eq!(llm_span_name("react_1"), "llm:react_1");
    assert_eq!(tool_span_name("finish"), "tool:finish");
}

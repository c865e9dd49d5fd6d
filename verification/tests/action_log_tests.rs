use tama::memory::{get_opt, Store};
use tama::rollback::{clear, rollback, ActionLog};
use tama::tools::execute_tool;

fn parse_value(text: &str) -> serde_json::Value {
    serde_json::from_str(text).unwrap()
}

#[test]
fn mem_set_records_the_old_value_in_the_action_log() {
    let mut store = Store::new();
    let mut log = ActionLog::new();
    execute_tool("tama_mem_set", &parse_value(r#"{"key":"k","value":"a"}"#), "s1", &mut store, &mut log);
    execute_tool("tama_mem_set", &parse_value(r#"{"key":"k","value":"b"}"#), "s1", &mut store, &mut log);
    execute_tool("tama_mem_get", &parse_value(r#"{"key":"k"}"#), "s1", &mut store, &mut log);
    let entries = log.entries();
    assert_eq!(entries.len(), 2);
    assert_eq!(entries[0].seq, 0);
    assert_eq!(entries[0].span_id, "s1");
    assert_eq!(entries[0].tool_name, "tama_mem_set");
    assert_eq!(entries[0].key, "k");
    assert_eq!(entries[0].old_value, None);
    assert_eq!(entries[1].seq, 1);
    assert_eq!(entries[1].old_value, Some("a".to_string()));
    assert_eq!(log.seq(), 2);
}

#[test]
fn rollback_of_a_span_restores_the_store_and_keeps_other_spans() {
    let mut store = Store::new();
    let mut log = ActionLog::new();
    execute_tool("tama_mem_set", &parse_value(r#"{"key":"x","value":"1"}"#), "a", &mut store, &mut log);
    execute_tool("tama_mem_set", &parse_value(r#"{"key":"k","value":"v1"}"#), "b", &mut store, &mut log);
    execute_tool("tama_mem_set", &parse_value(r#"{"key":"k","value":"v2"}"#), "b", &mut store, &mut log);
    rollback(&mut log, "b", &mut store);
    assert_eq!(get_opt(&store, "k"), None);
    assert_eq!(get_opt(&store, "x"), Some("1".to_string()));
    assert_eq!(log.entries().len(), 1);
    assert_eq!(log.entries()[0].span_id, "a");
    assert_eq!(log.seq(), 3);
}

#[test]
fn clear_restarts_sequence_numbers_and_keeps_the_log() {
    let mut store = Store::new();
    let mut log = ActionLog::new();
    execute_tool("tama_mem_set", &parse_value(r#"{"key":"k","value":"v"}"#), "s", &mut store, &mut log);
    clear(&mut log);
    assert_eq!(log.seq(), 0);
    assert_eq!(log.entries().len(), 1);
    execute_tool("tama_mem_set", &parse_value(r#"{"key":"k","value":"w"}"#), "s", &mut store, &mut log);
    assert_eq!(log.entries()[1].seq, 0);
    assert_eq!(log.entries()[1].old_value, Some("v".to_string()));
}

#[test]
fn rollback_touches_only_its_span_and_a_second_one_changes_nothing() {
    let mut store = Store::new();
    let mut log = ActionLog::new();
    execute_tool("tama_mem_set", &parse_value(r#"{"key":"a","value":"1"}"#), "s", &mut store, &mut log);
    execute_tool("tama_mem_set", &parse_value(r#"{"key":"b","value":"2"}"#), "t", &mut store, &mut log);
    execute_tool("tama_mem_set", &parse_value(r#"{"key":"a","value":"3"}"#), "t", &mut store, &mut log);
    rollback(&mut log, "s", &mut store);
    // Only key "a", which span "s" wrote, is undone (to its value before "s").
    assert_eq!(get_opt(&store, "a"), None);
    assert_eq!(get_opt(&store, "b"), Some("2".to_string()));
    assert_eq!(log.entries().len(), 2);
    rollback(&mut log, "s", &mut store);
    assert_eq!(get_opt(&store, "a"), None);
    assert_eq!(get_opt(&store, "b"), Some("2".to_string()));
    assert_eq!(log.entries().len(), 2);
    rollback(&mut log, "t", &mut store);
    assert_eq!(get_opt(&store, "a"), Some("1".to_string()));
    assert_eq!(get_opt(&store, "b"), None);
    assert_eq!(log.entries().len(), 0);
}

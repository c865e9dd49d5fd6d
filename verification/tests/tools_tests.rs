use tama::memory::{get, get_opt, Store};
use tama::rollback::NoopRollbacker;
use tama::tools::{
    all_tools, always_tools, build_active_tools, build_system, execute_tool,
    skill_description, skill_document, truncate, IoTool, ToolOutcome,
};

fn parse_value(text: &str) -> Option<serde_json::Value> {
    serde_json::from_str(text).ok()
}

fn descriptions(uses: &[String]) -> Vec<String> {
    uses.iter().map(|u| skill_description(u, None)).collect()
}

#[test]
fn build_system_no_uses() {
    let system = build_system("Be helpful.", &[], &[]);
    assert!(system.starts_with("Be helpful."));
    assert!(system.contains("Call start()"));
}

#[test]
fn build_system_with_uses_appends_section() {
    let uses = vec!["search-web".to_string()];
    let system = build_system("Be helpful.", &uses, &descriptions(&uses));
    assert!(system.contains("## Available skills"));
    assert!(system.contains("search-web"));
    assert!(system.contains("read_skill"));
}

#[test]
fn build_system_multiple_uses() {
    let uses = vec!["search-web".to_string(), "write-file".to_string()];
    let system = build_system("Prompt.", &uses, &descriptions(&uses));
    assert!(system.contains("search-web"));
    assert!(system.contains("write-file"));
}

#[test]
fn build_system_exact_text() {
    let uses = vec!["a".to_string()];
    let system = build_system("P", &uses, &["does a".to_string()]);
    assert_eq!(
        system,
        "P\n\n## Available skills\nCall read_skill(name) to load full instructions before using a skill.\n- **a**: does a\n\n\nCall start() to receive your task before beginning work."
    );
}

#[test]
fn truncate_short_string_unchanged() {
    assert_eq!(truncate("hello".to_string(), 100), "hello");
}

#[test]
fn truncate_exact_limit_unchanged() {
    assert_eq!(truncate("hello".to_string(), 5), "hello");
}

#[test]
fn truncate_long_string_cut() {
    let result = truncate("hello world".to_string(), 5);
    assert_eq!(result, "hello");
}

#[test]
fn truncate_counts_bytes() {
    // "é" is two bytes: a cut after it keeps it whole.
    assert_eq!(truncate("éa".to_string(), 2), "é");
}

#[test]
fn skill_description_falls_back_to_placeholder() {
    assert_eq!(skill_description("x", None), "(no description for x)");
    assert_eq!(skill_description("x", Some("")), "(no description for x)");
    assert_eq!(skill_description("x", Some("Does x.")), "Does x.");
}

#[test]
fn skill_document_has_heading() {
    assert_eq!(skill_document("mem", "Body."), "# Skill: mem\n\nBody.");
}

#[test]
fn tool_names_are_listed_in_order() {
    assert_eq!(always_tools(), vec!["start", "finish"]);
    assert_eq!(all_tools().len(), 8);
    assert_eq!(all_tools()[0], "tama_bash");
}

#[test]
fn active_tools_offer_read_skill_only_with_skills() {
    let none: Vec<String> = vec![];
    assert_eq!(build_active_tools(&[], &none, &[]), vec!["start", "finish"]);
    let uses = vec!["s".to_string()];
    let unlocked = vec!["tama_mem_get".to_string(), "tama_bash".to_string()];
    assert_eq!(
        build_active_tools(&uses, &unlocked, &["extra".to_string()]),
        vec!["start", "finish", "read_skill", "extra", "tama_bash", "tama_mem_get"]
    );
}

#[test]
fn execute_memory_tools() {
    let mut store = Store::new();
    let mut rb = NoopRollbacker;
    let args = parse_value(r#"{"key":"k","value":"v"}"#).unwrap();
    let out = execute_tool("tama_mem_set", &args, "span", &mut store, &mut rb);
    assert_eq!(out, ToolOutcome::Done("stored 'k'".to_string()));
    assert_eq!(get_opt(&store, "k"), Some("v".to_string()));
    let get_args = parse_value(r#"{"key":"k"}"#).unwrap();
    let out = execute_tool("tama_mem_get", &get_args, "span", &mut store, &mut rb);
    assert_eq!(out, ToolOutcome::Done("v".to_string()));
    let missing = parse_value(r#"{"key":"nope"}"#).unwrap();
    let out = execute_tool("tama_mem_get", &missing, "span", &mut store, &mut rb);
    assert_eq!(out, ToolOutcome::Done(get(&store, "nope")));
}

#[test]
fn execute_append_builds_json_array() {
    let mut store = Store::new();
    let mut rb = NoopRollbacker;
    let a = parse_value(r#"{"key":"l","item":"x"}"#).unwrap();
    let out = execute_tool("tama_mem_append", &a, "s", &mut store, &mut rb);
    assert_eq!(out, ToolOutcome::Done("appended to 'l': [\"x\"]".to_string()));
    let b = parse_value(r#"{"key":"l","item":"y"}"#).unwrap();
    execute_tool("tama_mem_append", &b, "s", &mut store, &mut rb);
    assert_eq!(get_opt(&store, "l"), Some("[\"x\",\"y\"]".to_string()));
}

#[test]
fn execute_io_and_unknown_tools() {
    let mut store = Store::new();
    let mut rb = NoopRollbacker;
    let args = parse_value("{}").unwrap();
    assert_eq!(
        execute_tool("tama_bash", &args, "s", &mut store, &mut rb),
        ToolOutcome::Io(IoTool::Bash)
    );
    assert_eq!(
        execute_tool("tama_files_write", &args, "s", &mut store, &mut rb),
        ToolOutcome::Io(IoTool::FilesWrite)
    );
    assert_eq!(
        execute_tool("nope", &args, "s", &mut store, &mut rb),
        ToolOutcome::Unknown(
            "unknown tool 'nope' — was it declared in the skill's tools: list?".to_string()
        )
    );
}

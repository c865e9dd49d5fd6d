use tama::manifest::{AgentPattern, CallConfig, SkillPattern};
use tama::parser::{
    agent_file, build_skill_pattern, plain_step, skill_file, split_step, step_config,
    AgentFrontmatter, SkillError, SkillTamaBlock, StepSource,
};

#[test]
fn parse_step_no_frontmatter() {
    let content = "This is the system prompt.\nWith multiple lines.\n";
    let step = match split_step(content).unwrap() {
        StepSource::Plain => plain_step(content),
        StepSource::Frontmatter(..) => panic!("expected no frontmatter"),
    };
    assert!(step.call.is_none());
    assert!(step.body.contains("This is the system prompt."));
}

#[test]
fn parse_step_empty_frontmatter() {
    let content = "---\n---\n\nJust a body.\n";
    let step = match split_step(content).unwrap() {
        // An empty YAML document sets neither `pattern` nor `call`.
        StepSource::Frontmatter(yaml, body) => {
            assert_eq!(yaml, "");
            step_config("", None, body)
        }
        StepSource::Plain => panic!("expected frontmatter"),
    };
    assert!(step.call.is_none());
    assert!(step.body.contains("Just a body."));
    assert!(!step.react);
}

#[test]
fn step_with_uses_is_react() {
    let call = CallConfig { model: None, uses: vec!["bash".to_string()], max_iter: Some(3) };
    let step = step_config("", Some(call), "B");
    assert!(step.react);
    assert_eq!(step.max_iter(), 3);
    assert!(step_config("react", None, "B").react);
    assert!(!step_config("oneshot", None, "B").react);
}

#[test]
fn unclosed_step_frontmatter_is_an_error() {
    assert!(split_step("---\npattern: react\n").is_err());
}

fn tama_block(pattern: &str, tool: Option<&str>) -> SkillTamaBlock {
    SkillTamaBlock {
        version: "1.0.0".to_string(),
        pattern: pattern.to_string(),
        tool: tool.map(|t| t.to_string()),
        depends: None,
        env: vec!["KEY".to_string()],
    }
}

#[test]
fn skill_patterns() {
    match build_skill_pattern(&tama_block("tool", Some("search"))) {
        Ok(SkillPattern::Tool { tool }) => assert_eq!(tool, "search"),
        Err(e) => panic!("unexpected {:?}", e),
    }
    let e = build_skill_pattern(&tama_block("tool", None)).unwrap_err();
    assert_eq!(e, SkillError::ToolFieldMissing);
    assert_eq!(e.message(), "pattern: tool requires `tool:` field");
    let e = build_skill_pattern(&tama_block("agent", None)).unwrap_err();
    assert_eq!(e.message(), "unknown skill pattern: 'agent'");
}

#[test]
fn skill_file_keeps_fields() {
    let f = skill_file(
        "s".to_string(),
        "desc".to_string(),
        Some("MIT".to_string()),
        tama_block("tool", Some("t")),
    )
    .unwrap();
    assert_eq!(f.name, "s");
    assert_eq!(f.tama.env, Some(vec!["KEY".to_string()]));
}

#[test]
fn agent_file_takes_body() {
    let a = agent_file(
        AgentFrontmatter {
            name: "a".to_string(),
            description: "d".to_string(),
            version: "1".to_string(),
            env: None,
            call: None,
            max_iter: Some(25),
            pattern: AgentPattern::React,
        },
        "Agent body text.",
    );
    assert_eq!(a.body, "Agent body text.");
    assert_eq!(a.max_iter, Some(25));
}

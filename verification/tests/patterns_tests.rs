use tama::manifest::{AgentFile, AgentPattern, CallConfig, ModelConfig, StepConfig};
use tama::patterns::{
    after_attempt, agent_max_iter, dispatch, node_crumb, pattern_name, sub_crumb,
    AfterAgentDecision, AgentOutput, Dispatch, NodeStep, Step,
};

fn agent(pattern: AgentPattern, uses: Vec<&str>, max_iter: Option<u32>) -> AgentFile {
    AgentFile {
        name: "a".to_string(),
        description: String::new(),
        version: "1".to_string(),
        pattern,
        env: None,
        call: Some(CallConfig {
            model: None,
            uses: uses.into_iter().map(|s| s.to_string()).collect(),
            max_iter: None,
        }),
        max_iter,
        body: "B".to_string(),
    }
}

fn out(key: &str, value: &str) -> AgentOutput {
    AgentOutput { key: key.to_string(), value: value.to_string(), span_id: String::new() }
}

#[test]
fn pattern_names() {
    assert_eq!(pattern_name(&AgentPattern::BestOfN { n: 2 }), "best_of_n");
    assert_eq!(pattern_name(&AgentPattern::ChainOfVerification), "chain_of_verification");
    assert_eq!(pattern_name(&AgentPattern::PlanExecute), "plan_execute");
    assert_eq!(pattern_name(&AgentPattern::Oneshot), "oneshot");
}

#[test]
fn step_from_file_without_frontmatter_is_oneshot() {
    let cfg = StepConfig { react: false, call: None, body: "Prompt".to_string() };
    let step = Step::from_file(cfg);
    assert_eq!(step.pattern_name(), "oneshot");
    assert!(step.model().is_none());
}

#[test]
fn step_from_file_react_takes_uses_and_limit() {
    let cfg = StepConfig {
        react: true,
        call: Some(CallConfig {
            model: Some(ModelConfig {
                name: None,
                role: Some("worker".to_string()),
                temperature: None,
                max_tokens: None,
            }),
            uses: vec!["bash".to_string()],
            max_iter: None,
        }),
        body: "System prompt here.".to_string(),
    };
    match Step::from_file(cfg) {
        Step::React(r) => {
            assert_eq!(r.uses, vec!["bash"]);
            assert_eq!(r.max_iter, 10);
            assert_eq!(r.body, "System prompt here.");
            assert_eq!(r.model.unwrap().role.as_deref(), Some("worker"));
        }
        other => panic!("expected react, got {:?}", other),
    }
}

#[test]
fn verdicts_of_react_and_oneshot_steps() {
    let react = Step::from_file(StepConfig { react: true, call: None, body: String::new() });
    assert!(react.says_done(&out("done", "whatever")));
    assert!(!react.says_done(&out("retry", "DONE")));
    let oneshot = Step::from_file(StepConfig { react: false, call: None, body: String::new() });
    assert!(oneshot.says_done(&out("x", "  done: all good")));
    assert!(oneshot.says_done(&out("x", "DONE")));
    assert!(!oneshot.says_done(&out("done", "RETRY: more")));
    assert!(!oneshot.says_done(&out("done", "not DONE")));
}

#[test]
fn dispatch_takes_settings_from_agent() {
    let a = agent(AgentPattern::React, vec!["s"], None);
    match dispatch(&a) {
        Dispatch::React { uses, max_iter } => {
            assert_eq!(uses, &["s".to_string()]);
            assert_eq!(max_iter, 10);
        }
        other => panic!("unexpected {:?}", other),
    }
    let r = agent(AgentPattern::Reflexion, vec![], None);
    assert!(matches!(dispatch(&r), Dispatch::Reflexion { max_iter: 4 }));
    let r = agent(AgentPattern::Reflexion, vec![], Some(2));
    assert!(matches!(dispatch(&r), Dispatch::Reflexion { max_iter: 2 }));
    let s = agent(AgentPattern::Scatter { worker: "w".to_string() }, vec![], Some(7));
    match dispatch(&s) {
        Dispatch::Scatter { worker, uses, max_iter } => {
            assert_eq!(worker, "w");
            assert!(uses.is_empty());
            assert_eq!(max_iter, 7);
        }
        other => panic!("unexpected {:?}", other),
    }
    let b = agent(AgentPattern::BestOfN { n: 3 }, vec![], None);
    assert!(matches!(dispatch(&b), Dispatch::BestOfN { n: 3, .. }));
    let mut no_call = agent(AgentPattern::Human, vec![], None);
    no_call.call = None;
    assert!(matches!(dispatch(&no_call), Dispatch::Human { uses: [], max_iter: 10 }));
    assert_eq!(agent_max_iter(&agent(AgentPattern::Oneshot, vec![], Some(3))), 3);
}

#[test]
fn crumbs() {
    assert_eq!(node_crumb("", "root"), "root");
    assert_eq!(node_crumb("root", "child"), "root→child");
    assert_eq!(sub_crumb("root", "map"), "root→map");
}

#[test]
fn attempts_proceed_or_retry() {
    match after_attempt(out("done", "v"), AfterAgentDecision::Proceed, "span-1") {
        NodeStep::Done(o) => {
            assert_eq!(o.key, "done");
            assert_eq!(o.value, "v");
            assert_eq!(o.span_id, "span-1");
        }
        NodeStep::Retry => panic!("expected done"),
    }
    assert!(matches!(
        after_attempt(out("done", "v"), AfterAgentDecision::Retry, "s"),
        NodeStep::Retry
    ));
}

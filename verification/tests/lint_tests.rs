use tama::lint::{lint_agent, required_files};
use tama::manifest::{AgentFile, AgentPattern, CallConfig, FsmNext, FsmState, ModelConfig};

fn agent(name: &str, pattern: AgentPattern) -> AgentFile {
    AgentFile {
        name: name.to_string(),
        description: "test agent".to_string(),
        version: "1.0.0".to_string(),
        pattern,
        env: None,
        call: Some(CallConfig {
            model: Some(ModelConfig {
                name: None,
                role: Some("thinker".to_string()),
                temperature: None,
                max_tokens: None,
            }),
            uses: vec![],
            max_iter: None,
        }),
        max_iter: None,
        body: "System prompt here.\n".to_string(),
    }
}

fn files(names: &[&str]) -> Vec<String> {
    let mut v = vec!["AGENT.md".to_string()];
    v.extend(names.iter().map(|s| s.to_string()));
    v
}

#[test]
fn lint_react_ok_with_no_extra_files() {
    assert!(lint_agent(&agent("test", AgentPattern::React), &files(&[])).is_ok());
}

#[test]
fn lint_scatter_ok_with_reduce() {
    let a = agent("test", AgentPattern::Scatter { worker: "my-worker".to_string() });
    assert!(lint_agent(&a, &files(&["reduce.md"])).is_ok());
}

#[test]
fn lint_scatter_missing_reduce_fails() {
    let a = agent("test", AgentPattern::Scatter { worker: "my-worker".to_string() });
    let err = lint_agent(&a, &files(&[])).unwrap_err();
    assert!(err.contains("reduce.md"));
}

#[test]
fn lint_parallel_ok() {
    let a = agent(
        "test",
        AgentPattern::Parallel { workers: vec!["a".to_string(), "b".to_string()] },
    );
    assert!(lint_agent(&a, &files(&[])).is_ok());
}

#[test]
fn lint_fsm_ok() {
    let a = agent(
        "test",
        AgentPattern::Fsm {
            initial: "start".to_string(),
            states: vec![FsmState { name: "start".to_string(), next: FsmNext::Terminal }],
        },
    );
    assert!(lint_agent(&a, &files(&[])).is_ok());
}

#[test]
fn lint_debate_ok() {
    let a = agent(
        "test",
        AgentPattern::Debate {
            agents: vec!["pro".to_string(), "con".to_string()],
            rounds: 1,
            judge: "judge".to_string(),
        },
    );
    assert!(lint_agent(&a, &files(&[])).is_ok());
}

#[test]
fn lint_critic_all_files_ok() {
    let a = agent("test", AgentPattern::Critic);
    assert!(lint_agent(&a, &files(&["draft.md", "critique.md", "refine.md"])).is_ok());
}

#[test]
fn lint_critic_missing_all_fails() {
    let a = agent("test", AgentPattern::Critic);
    let msg = lint_agent(&a, &files(&[])).unwrap_err();
    assert!(msg.contains("draft.md"));
    assert!(msg.contains("critique.md"));
    assert!(msg.contains("refine.md"));
}

#[test]
fn lint_reflexion_ok() {
    let mut a = agent("test", AgentPattern::Reflexion);
    a.max_iter = Some(3);
    assert!(lint_agent(&a, &files(&["act.md", "reflect.md"])).is_ok());
}

#[test]
fn lint_reflexion_missing_act_fails() {
    let a = agent("test", AgentPattern::Reflexion);
    let err = lint_agent(&a, &files(&["reflect.md"])).unwrap_err();
    assert!(err.contains("act.md"));
}

#[test]
fn lint_reflexion_missing_reflect_fails() {
    let a = agent("test", AgentPattern::Reflexion);
    let err = lint_agent(&a, &files(&["act.md"])).unwrap_err();
    assert!(err.contains("reflect.md"));
}

#[test]
fn lint_constitutional_ok() {
    let a = agent("test", AgentPattern::Constitutional);
    assert!(lint_agent(&a, &files(&["critique.md", "revise.md"])).is_ok());
}

#[test]
fn lint_constitutional_missing_files_fails() {
    let a = agent("test", AgentPattern::Constitutional);
    let err = lint_agent(&a, &files(&["critique.md"])).unwrap_err();
    assert!(err.contains("revise.md"));
}

#[test]
fn lint_cov_ok() {
    let a = agent("test", AgentPattern::ChainOfVerification);
    assert!(lint_agent(&a, &files(&["verify.md", "check.md", "revise.md"])).is_ok());
}

#[test]
fn lint_cov_missing_check_fails() {
    let a = agent("test", AgentPattern::ChainOfVerification);
    let err = lint_agent(&a, &files(&["verify.md", "revise.md"])).unwrap_err();
    assert!(err.contains("check.md"));
}

#[test]
fn lint_plan_execute_ok() {
    let a = agent("test", AgentPattern::PlanExecute);
    assert!(lint_agent(&a, &files(&["execute.md", "verify.md"])).is_ok());
}

#[test]
fn lint_plan_execute_missing_fails() {
    let a = agent("test", AgentPattern::PlanExecute);
    let err = lint_agent(&a, &files(&["verify.md"])).unwrap_err();
    assert!(err.contains("execute.md"));
}

#[test]
fn lint_best_of_n_ok() {
    let a = agent("test", AgentPattern::BestOfN { n: 3 });
    assert!(lint_agent(&a, &files(&["judge.md"])).is_ok());
}

#[test]
fn lint_best_of_n_missing_judge_fails() {
    let a = agent("test", AgentPattern::BestOfN { n: 3 });
    let err = lint_agent(&a, &files(&[])).unwrap_err();
    assert!(err.contains("judge.md"));
}

#[test]
fn lint_error_includes_agent_name() {
    let a = agent("my-critic", AgentPattern::Critic);
    let err = lint_agent(&a, &files(&[])).unwrap_err();
    assert!(err.contains("my-critic"));
}

#[test]
fn lint_message_exact_and_in_order() {
    let a = agent("c", AgentPattern::Critic);
    assert_eq!(
        lint_agent(&a, &files(&["critique.md"])).unwrap_err(),
        "agent 'c': missing required files: draft.md, refine.md"
    );
}

#[test]
fn required_files_of_human_and_oneshot() {
    assert_eq!(required_files(&AgentPattern::Human), vec!["resume.md"]);
    assert!(required_files(&AgentPattern::Oneshot).is_empty());
}

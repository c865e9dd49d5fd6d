use tama::scaffold::{project_files, scaffold_files};
use tama::manifest::{AgentPattern, FsmNext, FsmState};
use tama::project::{
    called_agents, AgentWalk, entrypoint, scaffold_for, starter_agent_name, validate_kebab_case, Scaffold,
};

#[test]
fn kebab_case_names() {
    assert!(validate_kebab_case("my-agent-2", "agent name").is_ok());
    assert_eq!(
        validate_kebab_case("", "agent name"),
        Err("agent name cannot be empty".to_string())
    );
    assert_eq!(
        validate_kebab_case("My_Agent", "project name"),
        Err("project name 'My_Agent' must be kebab-case (lowercase letters, digits, hyphens only)"
            .to_string())
    );
}

#[test]
fn scaffolds_by_pattern() {
    assert_eq!(scaffold_for("skill"), Ok(Scaffold::Skill));
    assert_eq!(scaffold_for("chain-of-verification"), Ok(Scaffold::ChainOfVerification));
    assert_eq!(scaffold_for("best-of-n"), Ok(Scaffold::BestOfN));
    let e = scaffold_for("orchestrator").unwrap_err();
    assert!(e.starts_with("unknown pattern 'orchestrator'. Available:\n  skill, react"));
    assert!(e.ends_with("best-of-n,\n  oneshot"));
}

#[test]
fn starter_agent() {
    assert_eq!(starter_agent_name("proj"), "proj-agent");
}

#[test]
fn entrypoint_choice() {
    assert_eq!(entrypoint(Some("a"), "b"), Ok("a".to_string()));
    assert_eq!(entrypoint(Some(""), "b"), Ok("b".to_string()));
    assert_eq!(entrypoint(None, "b"), Ok("b".to_string()));
    assert_eq!(
        entrypoint(None, ""),
        Err("TAMA_ENTRYPOINT_AGENT is not set and tama.toml has no entrypoint".to_string())
    );
}

#[test]
fn called_agents_of_patterns() {
    assert_eq!(
        called_agents(&AgentPattern::Debate {
            agents: vec!["pro".to_string(), "con".to_string()],
            rounds: 2,
            judge: "j".to_string()
        }),
        vec!["pro", "con", "j"]
    );
    assert_eq!(
        called_agents(&AgentPattern::Fsm {
            initial: "a".to_string(),
            states: vec![
                FsmState { name: "a".to_string(), next: FsmNext::Always("b".to_string()) },
                FsmState { name: "b".to_string(), next: FsmNext::Terminal },
            ]
        }),
        vec!["a", "b"]
    );
    assert_eq!(called_agents(&AgentPattern::Scatter { worker: "w".to_string() }), vec!["w"]);
    assert!(called_agents(&AgentPattern::React).is_empty());
}

#[test]
fn scaffold_files_name_the_agent() {
    let files = scaffold_files(Scaffold::Critic, "essay-critic");
    let names: Vec<&str> = files.iter().map(|(n, _)| n.as_str()).collect();
    assert_eq!(names, vec!["AGENT.md", "draft.md", "critique.md", "refine.md"]);
    assert!(files[0].1.starts_with("---\nname: essay-critic\n"));
    assert!(files[0].1.contains("pattern: critic\n"));
    let skill = scaffold_files(Scaffold::Skill, "search-web");
    assert_eq!(skill.len(), 1);
    assert_eq!(skill[0].0, "SKILL.md");
    assert!(skill[0].1.starts_with("---\nname: search-web\n"));
    let project = project_files("demo");
    let paths: Vec<&str> = project.iter().map(|(n, _)| n.as_str()).collect();
    assert_eq!(paths, vec![".env.example", ".gitignore", "tama.toml", "agents/demo-agent/AGENT.md"]);
    assert!(project[2].1.contains("name = \"demo\"\nentrypoint = \"demo-agent\"\n"));
    assert!(project[3].1.ends_with("Task: {{input}}\n"));
}

#[test]
fn agent_walk_loads_each_agent_once() {
    let mut walk = AgentWalk::new("root");
    assert_eq!(walk.next().as_deref(), Some("root"));
    walk.visit(
        "root",
        &AgentPattern::Debate {
            agents: vec!["pro".to_string(), "con".to_string()],
            rounds: 1,
            judge: "pro".to_string(),
        },
    );
    assert_eq!(walk.next().as_deref(), Some("pro"));
    walk.visit("pro", &AgentPattern::Scatter { worker: "root".to_string() });
    assert_eq!(walk.next().as_deref(), Some("con"));
    walk.visit("con", &AgentPattern::React);
    assert_eq!(walk.next(), None);
    assert_eq!(walk.loaded, vec!["root", "pro", "con"]);
}

#[test]
fn find_agent_gives_the_position_or_the_graph_error() {
    let names = vec!["main".to_string(), "helper".to_string()];
    assert_eq!(tama::project::find_agent(&names, "helper"), Ok(1));
    assert_eq!(tama::project::find_agent(&names, "main"), Ok(0));
    assert_eq!(
        tama::project::find_agent(&names, "ghost"),
        Err("agent 'ghost' not in graph".to_string())
    );
}

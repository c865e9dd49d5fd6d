use tama::patterns::AgentOutput;
use tama::prompts::{
    build_map_system, check_input, claims, combine_worker_results, constitutional_revise_input,
    cov_revise_input, debate_summary, extract_claims_input, judge_input, numbered,
    outcome_text, parallel_output, reduce_input, refine_input, round_context, round_text,
    scatter_plan, verification_record, ScatterPlan,
};

fn ok(value: &str, span: &str) -> Result<AgentOutput, String> {
    Ok(AgentOutput { key: "done".to_string(), value: value.to_string(), span_id: span.to_string() })
}

fn out(key: &str, value: &str) -> AgentOutput {
    AgentOutput { key: key.to_string(), value: value.to_string(), span_id: String::new() }
}

#[test]
fn map_system_prepends_instructions() {
    let s = build_map_system("Find items.", &[]);
    assert!(s.starts_with("When you have determined the full list of items to process in parallel, call finish(key=\"parallel\""));
    assert!(s.ends_with("as usual.\n\nFind items."));
}

#[test]
fn scatter_plan_decisions() {
    match scatter_plan(out("done", "answer")) {
        ScatterPlan::Direct(o) => assert_eq!(o.value, "answer"),
        other => panic!("unexpected {:?}", other),
    }
    match scatter_plan(out("parallel", r#"["a","b"]"#)) {
        ScatterPlan::FanOut(items) => assert_eq!(items, vec!["a", "b"]),
        other => panic!("unexpected {:?}", other),
    }
    match scatter_plan(out("parallel", "not json")) {
        ScatterPlan::Invalid(m) => assert_eq!(
            m,
            "scatter map phase must finish(key='parallel', value='[\"item1\",...]') — got: not json"
        ),
        other => panic!("unexpected {:?}", other),
    }
}

#[test]
fn worker_results_combined_in_item_order() {
    let items = vec!["x".to_string(), "y".to_string(), "z".to_string()];
    let results = vec![ok("rx", "s1"), Err("boom".to_string()), ok("rz", "s3")];
    let (text, last) = combine_worker_results(&items, &results);
    assert_eq!(
        text,
        "[Item: x]\nrx\n\n[Item: y]\n[error: boom]\n\n[Item: z]\nrz\n\n"
    );
    assert_eq!(last.as_deref(), Some("s3"));
    let (_, none) = combine_worker_results(&vec!["a".to_string()], &vec![Err("e".to_string())]);
    assert_eq!(none, None);
    assert_eq!(reduce_input("T", "C"), "Original task: T\n\nWorker results:\nC");
}

#[test]
fn parallel_output_is_json_object() {
    let workers = vec!["a".to_string(), "b".to_string()];
    let results = vec![ok("1", ""), Err("bad".to_string())];
    let o = parallel_output(&workers, &results);
    assert_eq!(o.key, "parallel");
    let v: serde_json::Value = serde_json::from_str(&o.value).unwrap();
    assert_eq!(v["a"], "1");
    assert_eq!(v["b"], "[error: bad]");
}

#[test]
fn judge_input_numbers_variants() {
    let text = judge_input("T", &vec!["one".to_string(), "two".to_string()]);
    assert_eq!(
        text,
        "Task: T\n\nVariants:\n\n## Variant 1\n\none\n\n---\n\n## Variant 2\n\ntwo\n\nSelect the best variant and return it (or synthesize if appropriate)."
    );
    assert_eq!(outcome_text(&Err("x".to_string())), "[error: x]");
}

#[test]
fn debate_texts() {
    assert_eq!(round_context("Q", &vec![]), "Topic: Q");
    assert_eq!(
        round_context("Q", &vec!["r1".to_string(), "r2".to_string()]),
        "Topic: Q\n\nPrevious arguments:\nr1\n\n---\n\nr2"
    );
    let agents = vec!["pro".to_string(), "con".to_string()];
    let results = vec![ok("yes", ""), Err("down".to_string())];
    assert_eq!(
        round_text(0, &agents, &results),
        "## Round 1\n\n**pro**: yes\n\n**con**: [error: down]\n\n"
    );
    assert_eq!(
        debate_summary("Q", &vec!["a".to_string(), "b".to_string()]),
        "Topic: Q\n\na\n\nb"
    );
}

#[test]
fn claims_skip_blank_lines_and_headings() {
    let text = "# Claims\n  first claim  \n\n\tsecond\r\n#skip\nthird";
    assert_eq!(claims(text), vec!["first claim", "second", "third"]);
    assert!(claims("").is_empty());
}

#[test]
fn chain_of_verification_inputs() {
    assert_eq!(extract_claims_input("A"), "Answer to verify:\nA");
    assert_eq!(check_input("c", "i"), "Claim: c\n\nContext: i");
    assert_eq!(verification_record("c", "ok"), "Claim: c\nVerification: ok");
    assert_eq!(
        cov_revise_input("Q", "A", &vec!["v1".to_string(), "v2".to_string()]),
        "Original question: Q\n\nInitial answer:\nA\n\nVerification results:\nv1\n\nv2"
    );
}

#[test]
fn critic_and_constitutional_inputs() {
    assert_eq!(refine_input("T", "C"), "Original task:\nT\n\nCritique:\nC");
    assert_eq!(
        constitutional_revise_input("R", "D", "C"),
        "Original request: R\n\nInitial response:\nD\n\nConstitutional critique:\nC"
    );
}

#[test]
fn numbered_names() {
    assert_eq!(numbered("act", 0), "act_1");
    assert_eq!(numbered("check", 9), "check_10");
    assert_eq!(numbered(&numbered("execute", 1), 2), "execute_2_3");
}

use tama::cycles::{
    parse_json_array, plan_input, plan_verdict, PlanCycle, PlanVerdict, Reflexion,
    ReflexionPhase, MAX_PLAN_CYCLES,
};

#[test]
fn reflexion_stops_when_satisfied() {
    let mut r = Reflexion::new(4);
    assert_eq!(r.phase, ReflexionPhase::Act);
    assert_eq!(r.actor_input("T"), "T");
    r.on_act("first".to_string());
    assert_eq!(r.phase, ReflexionPhase::Reflect);
    assert_eq!(r.reflect_input("T"), "Task: T\n\nResult:\nfirst");
    r.on_reflect(false, "be shorter".to_string());
    assert_eq!(r.phase, ReflexionPhase::Act);
    assert_eq!(
        r.actor_input("T"),
        "Original task: T\n\nPrevious attempt:\nfirst\n\nFeedback:\nbe shorter\n\nPlease improve your answer based on this feedback."
    );
    r.on_act("second".to_string());
    r.on_reflect(true, "DONE".to_string());
    assert_eq!(r.phase, ReflexionPhase::Finished);
    assert_eq!(r.output().value, "second");
    assert_eq!(r.output().key, "done");
}

#[test]
fn reflexion_last_round_skips_reflection() {
    let mut r = Reflexion::new(1);
    r.on_act("only".to_string());
    assert_eq!(r.phase, ReflexionPhase::Finished);
    assert_eq!(r.output().value, "only");
}

#[test]
fn reflexion_with_no_rounds_answers_empty() {
    let r = Reflexion::new(0);
    assert_eq!(r.phase, ReflexionPhase::Finished);
    assert_eq!(r.output().value, "");
}

#[test]
fn reflexion_runs_at_most_max_iter_acts() {
    let mut r = Reflexion::new(3);
    let mut acts = 0;
    while r.phase != ReflexionPhase::Finished {
        match r.phase {
            ReflexionPhase::Act => {
                acts += 1;
                r.on_act(format!("try {acts}"));
            }
            ReflexionPhase::Reflect => r.on_reflect(false, "again".to_string()),
            ReflexionPhase::Finished => {}
        }
    }
    assert_eq!(acts, 3);
    assert_eq!(r.output().value, "try 3");
}

#[test]
fn plan_inputs() {
    assert_eq!(plan_input("T", ""), "Task: T\n\nRespond with a JSON array of step strings only.");
    assert_eq!(
        plan_input("T", "F"),
        "Task: T\n\nFeedback from previous attempt:\nF\n\nRevise your plan. Respond with a JSON array of step strings only."
    );
}

#[test]
fn plan_parsing() {
    assert_eq!(parse_json_array(r#"["a","b"]"#), vec!["a", "b"]);
    assert_eq!(parse_json_array("```json\n[\"a\"]\n```"), vec!["a"]);
    assert_eq!(parse_json_array("Plan: [\"x\", \"y\"] ok"), vec!["x", "y"]);
    assert_eq!(parse_json_array("  just do it  "), vec!["just do it"]);
    assert_eq!(parse_json_array("[1, 2]"), vec!["[1, 2]"]);
}

#[test]
fn plan_cycle_builds_context() {
    let mut c = PlanCycle::new("T", r#"["s1","s2"]"#);
    assert_eq!(c.context, "Task: T");
    assert_eq!(c.step_input(), "Task: T\n\nCurrent step: s1");
    c.record("r1");
    assert_eq!(c.step_input(), "Task: T\n\nStep: s1\nResult: r1\n\nCurrent step: s2");
    c.record("r2");
    assert_eq!(c.context, "Task: T\n\nStep: s1\nResult: r1\n\nStep: s2\nResult: r2");
    assert_eq!(
        c.verify_input("T"),
        "Task: T\n\nExecution summary:\nStep: s1\nResult: r1\n\nStep: s2\nResult: r2"
    );
}

#[test]
fn plan_verdicts() {
    match plan_verdict(0, true, "DONE".to_string(), "ctx".to_string()) {
        PlanVerdict::Done(o) => assert_eq!(o.value, "ctx"),
        other => panic!("unexpected {:?}", other),
    }
    match plan_verdict(1, false, "RETRY: x".to_string(), "ctx".to_string()) {
        PlanVerdict::Replan(f) => assert_eq!(f, "RETRY: x"),
        other => panic!("unexpected {:?}", other),
    }
    match plan_verdict(MAX_PLAN_CYCLES - 1, false, "no".to_string(), "ctx".to_string()) {
        PlanVerdict::GiveUp(m) => {
            assert_eq!(m, "plan_execute reached 3 cycles without DONE verdict")
        }
        other => panic!("unexpected {:?}", other),
    }
}

#[test]
fn backwards_plans_are_refused() {
    assert!(tama::cycles::plan_slices_backwards("] then [ x"));
    assert!(!tama::cycles::plan_slices_backwards("]["));
    assert!(!tama::cycles::plan_slices_backwards("[\"a\"]"));
    assert!(PlanCycle::try_new("T", "] x [").is_none());
    assert_eq!(parse_json_array("]["), vec!["]["]);
}

//! Checking that an agent directory has the prompt files its pattern reads.
use vstd::prelude::*;
use vstd::string::StringExecFns;

use crate::manifest::{AgentFile, AgentPattern};
use crate::text::join;
use crate::tools::{contains_str, views};

verus! {

/// The step files a pattern reads besides AGENT.md.
pub open spec fn spec_required_files(p: AgentPattern) -> Seq<Seq<char>> {
    match p {
        AgentPattern::React => Seq::empty(),
        AgentPattern::Scatter { .. } => seq!["reduce.md"@],
        AgentPattern::Critic => seq!["draft.md"@, "critique.md"@, "refine.md"@],
        AgentPattern::Parallel { .. } => Seq::empty(),
        AgentPattern::Fsm { .. } => Seq::empty(),
        AgentPattern::Debate { .. } => Seq::empty(),
        AgentPattern::Reflexion => seq!["act.md"@, "reflect.md"@],
        AgentPattern::Constitutional => seq!["critique.md"@, "revise.md"@],
        AgentPattern::ChainOfVerification => seq!["verify.md"@, "check.md"@, "revise.md"@],
        AgentPattern::PlanExecute => seq!["execute.md"@, "verify.md"@],
        AgentPattern::BestOfN { .. } => seq!["judge.md"@],
        AgentPattern::Human => seq!["resume.md"@],
        AgentPattern::Oneshot => Seq::empty(),
    }
}

/// The views of a list of string slices.
pub open spec fn str_views(v: Seq<&str>) -> Seq<Seq<char>> {
    v.map_values(|s: &str| s@)
}

/// The step files that an agent of this pattern needs.
pub fn required_files(pattern: &AgentPattern) -> (r: Vec<&'static str>)
    ensures
        str_views(r@) == spec_required_files(*pattern),
{
    let r = match pattern {
        AgentPattern::React => vec![],
        AgentPattern::Scatter { .. } => vec!["reduce.md"],
        AgentPattern::Critic => vec!["draft.md", "critique.md", "refine.md"],
        AgentPattern::Parallel { .. } => vec![],
        AgentPattern::Fsm { .. } => vec![],
        AgentPattern::Debate { .. } => vec![],
        AgentPattern::Reflexion => vec!["act.md", "reflect.md"],
        AgentPattern::Constitutional => vec!["critique.md", "revise.md"],
        AgentPattern::ChainOfVerification => vec!["verify.md", "check.md", "revise.md"],
        AgentPattern::PlanExecute => vec!["execute.md", "verify.md"],
        AgentPattern::BestOfN { .. } => vec!["judge.md"],
        AgentPattern::Human => vec!["resume.md"],
        AgentPattern::Oneshot => vec![],
    };
    assert(str_views(r@) =~= spec_required_files(*pattern));
    r
}

/// Whether a file is absent from a directory listing.
pub open spec fn absent_from(present: Seq<Seq<char>>) -> spec_fn(Seq<char>) -> bool {
    |f: Seq<char>| !present.contains(f)
}

/// The required files of an agent that are missing, in the order of the list.
pub open spec fn spec_missing_files(p: AgentPattern, present: Seq<Seq<char>>) -> Seq<Seq<char>> {
    spec_required_files(p).filter(absent_from(present))
}

/// The message a lint failure is reported with.
pub open spec fn lint_message(agent_name: Seq<char>, missing: Seq<Seq<char>>) -> Seq<char> {
    "agent '"@ + agent_name + "': missing required files: "@ + join(missing, ", "@)
}

/// Validates that an agent directory has all the prompt files its pattern
/// needs; `present` lists the names of the files in the directory. The
/// system prompt always comes from the AGENT.md body.
pub fn lint_agent(agent: &AgentFile, present: &Vec<String>) -> (r: Result<(), String>)
    ensures
        match r {
            Ok(()) => spec_missing_files(agent.pattern, views(present@)).len() == 0,
            Err(m) => spec_missing_files(agent.pattern, views(present@)).len() > 0 && m@
                == lint_message(agent.name@, spec_missing_files(agent.pattern, views(present@))),
        },
{
    let required = required_files(&agent.pattern);
    let ghost req = str_views(required@);
    let ghost pred = absent_from(views(present@));
    let mut missing: Vec<&str> = Vec::new();
    let mut i: usize = 0;
    assert(req.take(0).filter(pred) =~= Seq::<Seq<char>>::empty()) by {
        reveal_with_fuel(Seq::<_>::filter, 1);
    }
    while i < required.len()
        invariant
            i <= required.len(),
            req == str_views(required@),
            pred == absent_from(views(present@)),
            str_views(missing@) == req.take(i as int).filter(pred),
        decreases required.len() - i,
    {
        let ghost t = req.take(i + 1);
        assert(t.drop_last() =~= req.take(i as int));
        assert(t.last() == required@[i as int]@);
        assert(t.filter(pred) == if pred(t.last()) {
            t.drop_last().filter(pred).push(t.last())
        } else {
            t.drop_last().filter(pred)
        }) by {
            reveal_with_fuel(Seq::<_>::filter, 1);
        }
        let file = required[i];
        let ghost before = str_views(missing@);
        if !contains_str(present, file) {
            missing.push(file);
            assert(str_views(missing@) =~= before.push(file@));
        }
        i += 1;
    }
    assert(req.take(required.len() as int) =~= req);
    if missing.len() == 0 {
        return Ok(());
    }
    let mut msg = String::from_str("agent '");
    msg.append(agent.name.as_str());
    msg.append("': missing required files: ");
    let ghost head = msg@;
    let mut j: usize = 0;
    while j < missing.len()
        invariant
            j <= missing.len(),
            missing.len() > 0,
            msg@ == head + join(str_views(missing@).take(j as int), ", "@),
        decreases missing.len() - j,
    {
        let ghost t = str_views(missing@).take(j + 1);
        assert(t.drop_last() =~= str_views(missing@).take(j as int));
        if j > 0 {
            msg.append(", ");
        }
        msg.append(missing[j]);
        j += 1;
        proof {
            if j == 1 {
                assert(t.len() == 1);
                assert(join(str_views(missing@).take(0), ", "@) =~= Seq::<char>::empty());
                assert(msg@ =~= head + join(t, ", "@));
            } else {
                assert(msg@ =~= head + join(t, ", "@));
            }
        }
    }
    assert(str_views(missing@).take(missing.len() as int) =~= str_views(missing@));
    Err(msg)
}

/// Lint passes exactly when the prompt files that the pattern's runner reads
/// are all in the directory: `reduce.md` for scatter; `draft.md`,
/// `critique.md` and `refine.md` for critic; `act.md` and `reflect.md` for
/// reflexion; `critique.md` and `revise.md` for constitutional; `verify.md`,
/// `check.md` and `revise.md` for chain-of-verification; `execute.md` and
/// `verify.md` for plan-execute; `judge.md` for best-of-n; `resume.md` for
/// human; nothing besides AGENT.md for react, parallel, fsm, debate and oneshot.
pub proof fn law_lint_passes_iff_pattern_files_present(p: AgentPattern, present: Seq<Seq<char>>)
    ensures
        (spec_missing_files(p, present).len() == 0) <==> match p {
            AgentPattern::Scatter { .. } => present.contains("reduce.md"@),
            AgentPattern::Critic => present.contains("draft.md"@) && present.contains(
                "critique.md"@,
            ) && present.contains("refine.md"@),
            AgentPattern::Reflexion => present.contains("act.md"@) && present.contains(
                "reflect.md"@,
            ),
            AgentPattern::Constitutional => present.contains("critique.md"@) && present.contains(
                "revise.md"@,
            ),
            AgentPattern::ChainOfVerification => present.contains("verify.md"@)
                && present.contains("check.md"@) && present.contains("revise.md"@),
            AgentPattern::PlanExecute => present.contains("execute.md"@) && present.contains(
                "verify.md"@,
            ),
            AgentPattern::BestOfN { .. } => present.contains("judge.md"@),
            AgentPattern::Human => present.contains("resume.md"@),
            _ => true,
        },
{
    reveal_with_fuel(Seq::<_>::filter, 4);
    let req = spec_required_files(p);
    let pred = absent_from(present);
    assert(req.filter(pred).len() == 0 <==> forall|i: int| 0 <= i < req.len() ==> present.contains(
        #[trigger] req[i],
    )) by {
        lemma_filter_empty_iff(req, present);
    }
    match p {
        AgentPattern::Scatter { .. } => {
            assert(req[0] == "reduce.md"@);
        },
        AgentPattern::Critic => {
            assert(req[0] == "draft.md"@ && req[1] == "critique.md"@ && req[2] == "refine.md"@);
        },
        AgentPattern::Reflexion => {
            assert(req[0] == "act.md"@ && req[1] == "reflect.md"@);
        },
        AgentPattern::Constitutional => {
            assert(req[0] == "critique.md"@ && req[1] == "revise.md"@);
        },
        AgentPattern::ChainOfVerification => {
            assert(req[0] == "verify.md"@ && req[1] == "check.md"@ && req[2] == "revise.md"@);
        },
        AgentPattern::PlanExecute => {
            assert(req[0] == "execute.md"@ && req[1] == "verify.md"@);
        },
        AgentPattern::BestOfN { .. } => {
            assert(req[0] == "judge.md"@);
        },
        AgentPattern::Human => {
            assert(req[0] == "resume.md"@);
        },
        _ => {},
    }
}

/// No required file is missing exactly when every one is present.
pub proof fn lemma_filter_empty_iff(req: Seq<Seq<char>>, present: Seq<Seq<char>>)
    ensures
        req.filter(absent_from(present)).len() == 0 <==> forall|i: int|
            0 <= i < req.len() ==> present.contains(#[trigger] req[i]),
    decreases req.len(),
{
    reveal_with_fuel(Seq::<_>::filter, 1);
    if req.len() > 0 {
        let d = req.drop_last();
        lemma_filter_empty_iff(d, present);
        assert forall|i: int| 0 <= i < d.len() implies d[i] == req[i] by {}
        if forall|i: int| 0 <= i < req.len() ==> present.contains(#[trigger] req[i]) {
            assert forall|i: int| 0 <= i < d.len() implies present.contains(#[trigger] d[i]) by {
                assert(present.contains(req[i]));
            }
            assert(present.contains(req[req.len() - 1]));
        }
        if req.filter(absent_from(present)).len() == 0 {
            assert(present.contains(req.last()));
            assert forall|i: int| 0 <= i < req.len() implies present.contains(#[trigger] req[i]) by {
                if i < d.len() {
                    assert(present.contains(d[i]));
                }
            }
        }
    }
}

} // verus!

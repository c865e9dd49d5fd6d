//! Project-level decisions: the names that projects, agents and skills may
//! have, what `tama add` creates, which agent a run starts from and which
//! agents an agent calls.
use vstd::prelude::*;
use vstd::string::StringExecFns;

use crate::manifest::{AgentPattern, FsmState};
use crate::text::str_eq;
use crate::tools::{contains_str, views};

verus! {

/// The characters a kebab-case name is made of.
pub open spec fn is_kebab_char(c: char) -> bool {
    ('a' <= c && c <= 'z') || ('0' <= c && c <= '9') || c == '-'
}

/// Why a name is refused, or `None` when it is a non-empty kebab-case name.
pub open spec fn spec_kebab_error(s: Seq<char>, label: Seq<char>) -> Option<Seq<char>> {
    if s.len() == 0 {
        Some(label + " cannot be empty"@)
    } else if exists|i: int| 0 <= i < s.len() && !is_kebab_char(#[trigger] s[i]) {
        Some(
            label + " '"@ + s
                + "' must be kebab-case (lowercase letters, digits, hyphens only)"@,
        )
    } else {
        None
    }
}

/// Checks that a name is non-empty kebab-case (lowercase ASCII letters,
/// digits and hyphens); `label` names it in the error.
pub fn validate_kebab_case(s: &str, label: &str) -> (r: Result<(), String>)
    ensures
        match r {
            Ok(()) => spec_kebab_error(s@, label@) is None,
            Err(e) => spec_kebab_error(s@, label@) == Some(e@),
        },
{
    let v = crate::text::chars_of(s);
    if v.len() == 0 {
        let mut e = label.to_owned();
        e.append(" cannot be empty");
        return Err(e);
    }
    let mut i: usize = 0;
    while i < v.len()
        invariant
            i <= v.len(),
            v@ == s@,
            forall|j: int| 0 <= j < i ==> is_kebab_char(#[trigger] v@[j]),
        decreases v.len() - i,
    {
        let c = v[i];
        if !(('a' <= c && c <= 'z') || ('0' <= c && c <= '9') || c == '-') {
            assert(!is_kebab_char(s@[i as int]));
            let mut e = label.to_owned();
            e.append(" '");
            e.append(s);
            e.append("' must be kebab-case (lowercase letters, digits, hyphens only)");
            return Err(e);
        }
        i += 1;
    }
    Ok(())
}

/// The scaffolds `tama add` knows.
#[derive(Debug, Clone, Copy, PartialEq, Eq)]
pub enum Scaffold {
    Skill,
    React,
    Critic,
    Parallel,
    Fsm,
    Scatter,
    Debate,
    Reflexion,
    Constitutional,
    ChainOfVerification,
    PlanExecute,
    BestOfN,
    Human,
    Oneshot,
}

/// The scaffold a pattern name of `tama add` asks for.
pub open spec fn spec_scaffold(pattern: Seq<char>) -> Option<Scaffold> {
    if pattern == "skill"@ {
        Some(Scaffold::Skill)
    } else if pattern == "react"@ {
        Some(Scaffold::React)
    } else if pattern == "critic"@ {
        Some(Scaffold::Critic)
    } else if pattern == "parallel"@ {
        Some(Scaffold::Parallel)
    } else if pattern == "fsm"@ {
        Some(Scaffold::Fsm)
    } else if pattern == "scatter"@ {
        Some(Scaffold::Scatter)
    } else if pattern == "debate"@ {
        Some(Scaffold::Debate)
    } else if pattern == "reflexion"@ {
        Some(Scaffold::Reflexion)
    } else if pattern == "constitutional"@ {
        Some(Scaffold::Constitutional)
    } else if pattern == "chain-of-verification"@ {
        Some(Scaffold::ChainOfVerification)
    } else if pattern == "plan-execute"@ {
        Some(Scaffold::PlanExecute)
    } else if pattern == "best-of-n"@ {
        Some(Scaffold::BestOfN)
    } else if pattern == "human"@ {
        Some(Scaffold::Human)
    } else if pattern == "oneshot"@ {
        Some(Scaffold::Oneshot)
    } else {
        None
    }
}

/// The error of `tama add` with a pattern it does not know.
pub open spec fn unknown_pattern_message(pattern: Seq<char>) -> Seq<char> {
    "unknown pattern '"@ + pattern
        + "'. Available:\n  skill, react, critic, parallel, fsm, scatter, human,\n  debate, reflexion, constitutional, chain-of-verification, plan-execute, best-of-n,\n  oneshot"@
}

/// The scaffold a pattern name of `tama add` asks for, or the error listing
/// the patterns there are.
pub fn scaffold_for(pattern: &str) -> (r: Result<Scaffold, String>)
    ensures
        match r {
            Ok(k) => spec_scaffold(pattern@) == Some(k),
            Err(e) => spec_scaffold(pattern@) is None && e@ == unknown_pattern_message(pattern@),
        },
{
    if str_eq(pattern, "skill") {
        Ok(Scaffold::Skill)
    } else if str_eq(pattern, "react") {
        Ok(Scaffold::React)
    } else if str_eq(pattern, "critic") {
        Ok(Scaffold::Critic)
    } else if str_eq(pattern, "parallel") {
        Ok(Scaffold::Parallel)
    } else if str_eq(pattern, "fsm") {
        Ok(Scaffold::Fsm)
    } else if str_eq(pattern, "scatter") {
        Ok(Scaffold::Scatter)
    } else if str_eq(pattern, "debate") {
        Ok(Scaffold::Debate)
    } else if str_eq(pattern, "reflexion") {
        Ok(Scaffold::Reflexion)
    } else if str_eq(pattern, "constitutional") {
        Ok(Scaffold::Constitutional)
    } else if str_eq(pattern, "chain-of-verification") {
        Ok(Scaffold::ChainOfVerification)
    } else if str_eq(pattern, "plan-execute") {
        Ok(Scaffold::PlanExecute)
    } else if str_eq(pattern, "best-of-n") {
        Ok(Scaffold::BestOfN)
    } else if str_eq(pattern, "human") {
        Ok(Scaffold::Human)
    } else if str_eq(pattern, "oneshot") {
        Ok(Scaffold::Oneshot)
    } else {
        let mut e = String::from_str("unknown pattern '");
        e.append(pattern);
        e.append(
            "'. Available:\n  skill, react, critic, parallel, fsm, scatter, human,\n  debate, reflexion, constitutional, chain-of-verification, plan-execute, best-of-n,\n  oneshot",
        );
        Err(e)
    }
}

/// The starter agent of a new project: `{project}-agent`.
pub fn starter_agent_name(project: &str) -> (r: String)
    ensures
        r@ == project@ + "-agent"@,
{
    let mut r = project.to_owned();
    r.append("-agent");
    r
}

/// The agent a run starts from: `TAMA_ENTRYPOINT_AGENT` when set and not
/// empty, else the project's entrypoint when not empty.
pub open spec fn spec_entrypoint(env_agent: Option<Seq<char>>, configured: Seq<char>) -> Option<
    Seq<char>,
> {
    match env_agent {
        Some(a) if a.len() > 0 => Some(a),
        _ => if configured.len() > 0 {
            Some(configured)
        } else {
            None
        },
    }
}

/// The agent a run starts from, or the error when none is named.
pub fn entrypoint(env_agent: Option<&str>, configured: &str) -> (r: Result<String, String>)
    ensures
        match r {
            Ok(a) => spec_entrypoint(
                match env_agent {
                    Some(e) => Some(e@),
                    None => None,
                },
                configured@,
            ) == Some(a@),
            Err(e) => spec_entrypoint(
                match env_agent {
                    Some(e) => Some(e@),
                    None => None,
                },
                configured@,
            ) is None && e@ == "TAMA_ENTRYPOINT_AGENT is not set and tama.toml has no entrypoint"@,
        },
{
    if let Some(a) = env_agent {
        if a.unicode_len() > 0 {
            return Ok(a.to_owned());
        }
    }
    if configured.unicode_len() > 0 {
        Ok(configured.to_owned())
    } else {
        Err(String::from_str("TAMA_ENTRYPOINT_AGENT is not set and tama.toml has no entrypoint"))
    }
}

/// The names of the states of an FSM.
pub open spec fn state_names(states: Seq<FsmState>) -> Seq<Seq<char>> {
    states.map_values(|s: FsmState| s.name@)
}

/// The agents a pattern hands work to: the worker of a scatter agent, the
/// workers of a parallel agent, the states of an FSM, and the debaters and
/// judge of a debate.
pub open spec fn spec_called_agents(p: AgentPattern) -> Seq<Seq<char>> {
    match p {
        AgentPattern::Scatter { worker } => seq![worker@],
        AgentPattern::Parallel { workers } => views(workers@),
        AgentPattern::Fsm { states, .. } => state_names(states@),
        AgentPattern::Debate { agents, judge, .. } => views(agents@).push(judge@),
        _ => Seq::empty(),
    }
}

/// The agents a pattern hands work to, in the order it names them.
pub fn called_agents(p: &AgentPattern) -> (r: Vec<String>)
    ensures
        views(r@) == spec_called_agents(*p),
{
    let mut r: Vec<String> = Vec::new();
    match p {
        AgentPattern::Scatter { worker } => {
            r.push(worker.clone());
            assert(views(r@) =~= seq![worker@]);
        },
        AgentPattern::Parallel { workers } => {
            let mut i: usize = 0;
            while i < workers.len()
                invariant
                    i <= workers.len(),
                    views(r@) =~= views(workers@).take(i as int),
                decreases workers.len() - i,
            {
                let ghost before = views(r@);
                let w = workers[i].clone();
                r.push(w);
                assert(views(r@) =~= before.push(workers@[i as int]@));
                i += 1;
            }
            assert(views(workers@).take(workers.len() as int) =~= views(workers@));
        },
        AgentPattern::Fsm { states, .. } => {
            let mut i: usize = 0;
            while i < states.len()
                invariant
                    i <= states.len(),
                    views(r@) =~= state_names(states@).take(i as int),
                decreases states.len() - i,
            {
                let ghost before = views(r@);
                let w = states[i].name.clone();
                r.push(w);
                assert(views(r@) =~= before.push(states@[i as int].name@));
                i += 1;
            }
            assert(state_names(states@).take(states.len() as int) =~= state_names(states@));
        },
        AgentPattern::Debate { agents, judge, .. } => {
            let mut i: usize = 0;
            while i < agents.len()
                invariant
                    i <= agents.len(),
                    views(r@) =~= views(agents@).take(i as int),
                decreases agents.len() - i,
            {
                let ghost before = views(r@);
                let w = agents[i].clone();
                r.push(w);
                assert(views(r@) =~= before.push(agents@[i as int]@));
                i += 1;
            }
            assert(views(agents@).take(agents.len() as int) =~= views(agents@));
            let ghost before = views(r@);
            r.push(judge.clone());
            assert(views(r@) =~= before.push(judge@));
        },
        _ => {
            assert(views(r@) =~= Seq::<Seq<char>>::empty());
        },
    }
    r
}

/// The walk that collects the agents of a run: from the entrypoint, every
/// agent that a loaded agent hands work to, each loaded once.
#[derive(Debug)]
pub struct AgentWalk {
    /// Agents named but not looked at yet (the last is looked at next).
    pub pending: Vec<String>,
    /// Agents loaded so far, in load order.
    pub loaded: Vec<String>,
}

impl AgentWalk {
    /// Each agent is loaded at most once.
    pub open spec fn wf(&self) -> bool {
        views(self.loaded@).no_duplicates()
    }

    /// A walk that starts at the entrypoint.
    pub fn new(entry: &str) -> (w: Self)
        ensures
            w.wf(),
            views(w.pending@) == seq![entry@],
            w.loaded.len() == 0,
    {
        let w = AgentWalk { pending: vec![entry.to_owned()], loaded: Vec::new() };
        assert(views(w.pending@) =~= seq![entry@]);
        assert(views(w.loaded@) =~= Seq::<Seq<char>>::empty());
        w
    }

    /// The next agent to load: the most recently named agent that is not
    /// loaded yet, or `None` when every named agent is loaded.
    pub fn next(&mut self) -> (r: Option<String>)
        requires
            old(self).wf(),
        ensures
            final(self).wf(),
            final(self).loaded == old(self).loaded,
            match r {
                Some(n) => !views(final(self).loaded@).contains(n@) && views(old(self).pending@).contains(n@),
                None => forall|i: int|
                    0 <= i < old(self).pending.len() ==> views(old(self).loaded@).contains(
                        #[trigger] old(self).pending@[i]@,
                    ),
            },
    {
        let ghost start = views(self.pending@);
        while self.pending.len() > 0
            invariant
                views(self.loaded@).no_duplicates(),
                self.loaded == old(self).loaded,
                start == views(old(self).pending@),
                self.pending.len() <= start.len(),
                views(self.pending@) == start.take(self.pending.len() as int),
                forall|i: int|
                    self.pending.len() <= i < start.len() ==> views(self.loaded@).contains(
                        #[trigger] start[i],
                    ),
            decreases self.pending.len(),
        {
            let ghost before = views(self.pending@);
            let ghost raw = self.pending@;
            let name = self.pending.pop().unwrap();
            assert(name == raw.last());
            assert(before[before.len() - 1] == raw.last()@);
            assert(views(self.pending@) =~= before.drop_last());
            assert(name@ == start[self.pending.len() as int]);
            if !contains_str(&self.loaded, name.as_str()) {
                assert(start.contains(name@)) by {
                    assert(start[self.pending.len() as int] == name@);
                }
                return Some(name);
            }
        }
        assert forall|i: int| 0 <= i < old(self).pending.len() implies views(
            old(self).loaded@,
        ).contains(#[trigger] old(self).pending@[i]@) by {
            assert(start[i] == old(self).pending@[i]@);
        }
        None
    }

    /// Marks an agent as loaded and names the agents its pattern hands work to.
    pub fn visit(&mut self, name: &str, pattern: &AgentPattern)
        requires
            old(self).wf(),
            !views(old(self).loaded@).contains(name@),
        ensures
            final(self).wf(),
            views(final(self).loaded@) == views(old(self).loaded@).push(name@),
            views(final(self).pending@) == views(old(self).pending@) + spec_called_agents(*pattern),
    {
        let ghost before = views(self.loaded@);
        self.loaded.push(name.to_owned());
        assert(views(self.loaded@) =~= before.push(name@));
        let called = called_agents(pattern);
        let ghost p0 = views(self.pending@);
        let mut i: usize = 0;
        while i < called.len()
            invariant
                i <= called.len(),
                views(self.pending@) == p0 + views(called@).take(i as int),
                views(called@) == spec_called_agents(*pattern),
                views(self.loaded@) == before.push(name@),
                !before.contains(name@),
                before.no_duplicates(),
            decreases called.len() - i,
        {
            let ghost b = views(self.pending@);
            self.pending.push(called[i].clone());
            assert(views(self.pending@) =~= b.push(called@[i as int]@));
            assert(views(called@).take(i + 1) =~= views(called@).take(i as int).push(called@[i as int]@));
            i += 1;
        }
        assert(views(called@).take(called.len() as int) =~= views(called@));
        assert(views(self.loaded@).no_duplicates()) by {
            let l = views(self.loaded@);
            assert forall|a: int, b: int| 0 <= a < l.len() && 0 <= b < l.len() && a != b implies l[a]
                != l[b] by {
                if a < before.len() && b < before.len() {
                } else if a == before.len() {
                    assert(l[a] == name@);
                    assert(l[b] == before[b]);
                } else {
                    assert(l[b] == name@);
                    assert(l[a] == before[a]);
                }
            }
        }
    }
}

/// The message when a run names an agent that is not in the graph.
pub open spec fn not_in_graph_message(name: Seq<char>) -> Seq<char> {
    "agent '"@ + name + "' not in graph"@
}

/// Where the agent `name` stands among the agents of the graph (the first
/// with that name), or the error when it is none of them.
pub fn find_agent(names: &Vec<String>, name: &str) -> (r: Result<usize, String>)
    ensures
        match r {
            Ok(i) => i < names.len() && names@[i as int]@ == name@ && forall|j: int|
                0 <= j < i ==> (#[trigger] names@[j])@ != name@,
            Err(m) => (forall|j: int| 0 <= j < names.len() ==> (#[trigger] names@[j])@ != name@)
                && m@ == not_in_graph_message(name@),
        },
{
    let mut i: usize = 0;
    while i < names.len()
        invariant
            i <= names.len(),
            forall|j: int| 0 <= j < i ==> (#[trigger] names@[j])@ != name@,
        decreases names.len() - i,
    {
        if str_eq(names[i].as_str(), name) {
            return Ok(i);
        }
        i += 1;
    }
    let mut msg = String::from_str("agent '");
    msg.append(name);
    msg.append("' not in graph");
    proof {
        reveal_strlit("agent '");
        reveal_strlit("' not in graph");
    }
    Err(msg)
}

} // verus!

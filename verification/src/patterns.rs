//! What the agent patterns decide: which pattern runs with which settings,
//! how a node's breadcrumb and retries go, how a step is built from its file,
//! and when a verdict ends a loop.
use vstd::prelude::*;
use vstd::string::StringExecFns;

use crate::manifest::{AgentFile, AgentPattern, CallConfig, FsmState, ModelConfig, StepConfig};
use crate::registry::uppercase;
use crate::text::{starts_with, starts_with_str, trim, trim_str};

verus! {

/// Output from an agent run.
#[derive(Debug)]
pub struct AgentOutput {
    /// Routing key; "done" for terminal/non-routing patterns.
    pub key: String,
    /// The actual result content passed to the next agent.
    pub value: String,
    /// The span_id of this agent's execution (used by FSM to chain prev_span_id).
    pub span_id: String,
}

/// The name of a pattern, as traces and model roles use it.
pub open spec fn spec_pattern_name(p: AgentPattern) -> Seq<char> {
    match p {
        AgentPattern::Critic => "critic"@,
        AgentPattern::React => "react"@,
        AgentPattern::Scatter { .. } => "scatter"@,
        AgentPattern::Parallel { .. } => "parallel"@,
        AgentPattern::Fsm { .. } => "fsm"@,
        AgentPattern::Reflexion => "reflexion"@,
        AgentPattern::Debate { .. } => "debate"@,
        AgentPattern::Constitutional => "constitutional"@,
        AgentPattern::BestOfN { .. } => "best_of_n"@,
        AgentPattern::ChainOfVerification => "chain_of_verification"@,
        AgentPattern::PlanExecute => "plan_execute"@,
        AgentPattern::Human => "human"@,
        AgentPattern::Oneshot => "oneshot"@,
    }
}

/// The name of a pattern, as traces and model roles use it.
pub fn pattern_name(p: &AgentPattern) -> (s: &'static str)
    ensures
        s@ == spec_pattern_name(*p),
{
    match p {
        AgentPattern::Critic => "critic",
        AgentPattern::React => "react",
        AgentPattern::Scatter { .. } => "scatter",
        AgentPattern::Parallel { .. } => "parallel",
        AgentPattern::Fsm { .. } => "fsm",
        AgentPattern::Reflexion => "reflexion",
        AgentPattern::Debate { .. } => "debate",
        AgentPattern::Constitutional => "constitutional",
        AgentPattern::BestOfN { .. } => "best_of_n",
        AgentPattern::ChainOfVerification => "chain_of_verification",
        AgentPattern::PlanExecute => "plan_execute",
        AgentPattern::Human => "human",
        AgentPattern::Oneshot => "oneshot",
    }
}

/// A step that is a single LLM call.
#[derive(Debug)]
pub struct OneshotStep {
    pub body: String,
    pub model: Option<ModelConfig>,
}

/// A step that runs the react loop.
#[derive(Debug)]
pub struct ReactStep {
    pub body: String,
    pub uses: Vec<String>,
    pub max_iter: u32,
    pub model: Option<ModelConfig>,
}

/// A parsed, self-contained step built from a .md file.
#[derive(Debug)]
pub enum Step {
    Oneshot(OneshotStep),
    React(ReactStep),
}

/// The model block of a step's `call:` block.
pub open spec fn call_model(call: Option<CallConfig>) -> Option<ModelConfig> {
    match call {
        Some(c) => c.model,
        None => None,
    }
}

/// The skills of a step's `call:` block (none without one).
pub open spec fn call_uses(call: Option<CallConfig>) -> Seq<String> {
    match call {
        Some(c) => c.uses@,
        None => Seq::empty(),
    }
}

impl Step {
    /// Builds the step of a parsed step file. Frontmatter is optional — no
    /// frontmatter gives a oneshot step; `pattern: react` (or non-empty
    /// `call: uses`) gives a react step.
    pub fn from_file(cfg: StepConfig) -> (s: Step)
        ensures
            match s {
                Step::React(r) => cfg.react && r.body == cfg.body && r.uses@ == call_uses(cfg.call)
                    && r.max_iter == cfg.spec_max_iter() && r.model == call_model(cfg.call),
                Step::Oneshot(o) => !cfg.react && o.body == cfg.body && o.model == call_model(
                    cfg.call,
                ),
            },
    {
        let max_iter = cfg.max_iter();
        let StepConfig { react, call, body } = cfg;
        let (model, uses) = match call {
            Some(c) => (c.model, c.uses),
            None => (None, Vec::new()),
        };
        if react {
            Step::React(ReactStep { body, uses, max_iter, model })
        } else {
            Step::Oneshot(OneshotStep { body, model })
        }
    }

    /// The name of the step's pattern, for traces and model roles.
    pub open spec fn spec_pattern_name(&self) -> Seq<char> {
        match self {
            Step::Oneshot(_) => "oneshot"@,
            Step::React(_) => "react"@,
        }
    }

    /// Pattern name string for use in tracer calls.
    pub fn pattern_name(&self) -> (s: &'static str)
        ensures
            s@ == self.spec_pattern_name(),
    {
        match self {
            Step::Oneshot(_) => "oneshot",
            Step::React(_) => "react",
        }
    }

    /// The step's own model block.
    pub fn model(&self) -> (m: Option<&ModelConfig>)
        ensures
            m == match self {
                Step::Oneshot(s) => match s.model {
                    Some(c) => Some(&c),
                    None => None,
                },
                Step::React(s) => match s.model {
                    Some(c) => Some(&c),
                    None => None,
                },
            },
    {
        match self {
            Step::Oneshot(s) => s.model.as_ref(),
            Step::React(s) => s.model.as_ref(),
        }
    }

    /// Whether a verdict step's output ends the loop: a react step ends it
    /// by finishing with the key `done`; a oneshot step by an answer that,
    /// trimmed and upper-cased, starts with `DONE`.
    pub open spec fn spec_says_done(&self, key: Seq<char>, value: Seq<char>) -> bool {
        match self {
            Step::React(_) => key == "done"@,
            Step::Oneshot(_) => starts_with(uppercase(trim(value)), "DONE"@),
        }
    }

    /// Whether a verdict step's output ends the loop.
    pub fn says_done(&self, out: &AgentOutput) -> (r: bool)
        ensures
            r == self.spec_says_done(out.key@, out.value@),
    {
        match self {
            Step::React(_) => crate::text::str_eq(out.key.as_str(), "done"),
            Step::Oneshot(_) => {
                let t = trim_str(out.value.as_str());
                let up = crate::registry::to_uppercase(t.as_str());
                starts_with_str(up.as_str(), "DONE")
            },
        }
    }
}

/// Iteration limit of an agent whose AGENT.md sets none.
pub const DEFAULT_AGENT_MAX_ITER: u32 = 10;

/// Number of act/reflect rounds of a reflexion agent whose AGENT.md sets none.
pub const DEFAULT_REFLEXION_ITER: u32 = 4;

/// The skills an agent's `call:` block uses (none without one).
pub open spec fn agent_uses(agent: AgentFile) -> Seq<String> {
    call_uses(agent.call)
}

/// The iteration limit of an agent.
pub open spec fn spec_agent_max_iter(agent: AgentFile) -> u32 {
    match agent.max_iter {
        Some(m) => m,
        None => DEFAULT_AGENT_MAX_ITER,
    }
}

/// What a node runs: its pattern with the settings it takes from AGENT.md.
#[derive(Debug)]
pub enum Dispatch<'a> {
    Critic,
    React { uses: &'a [String], max_iter: u32 },
    Scatter { worker: &'a str, uses: &'a [String], max_iter: u32 },
    Parallel { workers: &'a [String] },
    Fsm { initial: &'a str, states: &'a [FsmState] },
    Reflexion { max_iter: u32 },
    Debate { agents: &'a [String], rounds: u32, judge: &'a str },
    Constitutional,
    BestOfN { uses: &'a [String], n: u32 },
    ChainOfVerification,
    PlanExecute,
    Human { uses: &'a [String], max_iter: u32 },
    Oneshot,
}

/// The iteration limit of an agent: its `max_iter`, or the default.
pub fn agent_max_iter(agent: &AgentFile) -> (n: u32)
    ensures
        n == spec_agent_max_iter(*agent),
{
    match agent.max_iter {
        Some(m) => m,
        None => DEFAULT_AGENT_MAX_ITER,
    }
}

/// The skills an agent's `call:` block uses.
pub fn uses_of(agent: &AgentFile) -> (u: &[String])
    ensures
        u@ == agent_uses(*agent),
{
    match &agent.call {
        Some(c) => c.uses.as_slice(),
        None => &[],
    }
}

/// Chooses what a node runs from its AGENT.md: the pattern, with the skills
/// of its `call:` block and its iteration limit where the pattern takes them.
pub fn dispatch(agent: &AgentFile) -> (d: Dispatch)
    ensures
        match agent.pattern {
            AgentPattern::Critic => d is Critic,
            AgentPattern::React => d matches Dispatch::React { uses, max_iter } && uses@
                == agent_uses(*agent) && max_iter == spec_agent_max_iter(*agent),
            AgentPattern::Scatter { worker } => d matches Dispatch::Scatter {
                worker: w,
                uses,
                max_iter,
            } && w@ == worker@ && uses@ == agent_uses(*agent) && max_iter == spec_agent_max_iter(
                *agent,
            ),
            AgentPattern::Parallel { workers } => d matches Dispatch::Parallel { workers: w } && w@
                == workers@,
            AgentPattern::Fsm { initial, states } => d matches Dispatch::Fsm {
                initial: i,
                states: s,
            } && i@ == initial@ && s@ == states@,
            AgentPattern::Reflexion => d matches Dispatch::Reflexion { max_iter } && max_iter
                == match agent.max_iter {
                Some(m) => m,
                None => DEFAULT_REFLEXION_ITER,
            },
            AgentPattern::Debate { agents, rounds, judge } => d matches Dispatch::Debate {
                agents: a,
                rounds: r,
                judge: j,
            } && a@ == agents@ && r == rounds && j@ == judge@,
            AgentPattern::Constitutional => d is Constitutional,
            AgentPattern::BestOfN { n } => d matches Dispatch::BestOfN { uses, n: k } && uses@
                == agent_uses(*agent) && k == n,
            AgentPattern::ChainOfVerification => d is ChainOfVerification,
            AgentPattern::PlanExecute => d is PlanExecute,
            AgentPattern::Human => d matches Dispatch::Human { uses, max_iter } && uses@
                == agent_uses(*agent) && max_iter == spec_agent_max_iter(*agent),
            AgentPattern::Oneshot => d is Oneshot,
        },
{
    let uses = uses_of(agent);
    let max_iter = agent_max_iter(agent);
    match &agent.pattern {
        AgentPattern::Critic => Dispatch::Critic,
        AgentPattern::React => Dispatch::React { uses, max_iter },
        AgentPattern::Scatter { worker } => Dispatch::Scatter {
            worker: worker.as_str(),
            uses,
            max_iter,
        },
        AgentPattern::Parallel { workers } => Dispatch::Parallel { workers: workers.as_slice() },
        AgentPattern::Fsm { initial, states } => Dispatch::Fsm {
            initial: initial.as_str(),
            states: states.as_slice(),
        },
        AgentPattern::Reflexion => {
            let n = match agent.max_iter {
                Some(m) => m,
                None => DEFAULT_REFLEXION_ITER,
            };
            Dispatch::Reflexion { max_iter: n }
        },
        AgentPattern::Debate { agents, rounds, judge } => Dispatch::Debate {
            agents: agents.as_slice(),
            rounds: *rounds,
            judge: judge.as_str(),
        },
        AgentPattern::Constitutional => Dispatch::Constitutional,
        AgentPattern::BestOfN { n } => Dispatch::BestOfN { uses, n: *n },
        AgentPattern::ChainOfVerification => Dispatch::ChainOfVerification,
        AgentPattern::PlanExecute => Dispatch::PlanExecute,
        AgentPattern::Human => Dispatch::Human { uses, max_iter },
        AgentPattern::Oneshot => Dispatch::Oneshot,
    }
}

/// The breadcrumb of a node: `parent→name`, or just `name` at the root.
pub open spec fn spec_node_crumb(parent: Seq<char>, name: Seq<char>) -> Seq<char> {
    if parent.len() == 0 {
        name
    } else {
        parent + "→"@ + name
    }
}

/// The breadcrumb of a node: `parent→name`, or just `name` at the root.
pub fn node_crumb(parent_crumb: &str, name: &str) -> (r: String)
    ensures
        r@ == spec_node_crumb(parent_crumb@, name@),
{
    if parent_crumb.unicode_len() == 0 {
        name.to_owned()
    } else {
        let mut r = parent_crumb.to_owned();
        r.append("→");
        r.append(name);
        r
    }
}

/// The breadcrumb of a phase inside a pattern: `crumb→phase`.
pub fn sub_crumb(crumb: &str, phase: &str) -> (r: String)
    ensures
        r@ == crumb@ + "→"@ + phase@,
{
    let mut r = crumb.to_owned();
    r.append("→");
    r.append(phase);
    r
}

/// What the debugger decides once an agent has produced its output.
#[derive(Debug, Clone, Copy, PartialEq, Eq)]
pub enum AfterAgentDecision {
    Proceed,
    Retry,
}

/// What a node does after a successful attempt.
#[derive(Debug)]
pub enum NodeStep {
    /// The node is done; its output carries the attempt's span.
    Done(AgentOutput),
    /// The attempt's side effects are rolled back and the node runs again.
    Retry,
}

/// Decides what follows a successful attempt of a node.
pub fn after_attempt(output: AgentOutput, decision: AfterAgentDecision, span_id: &str) -> (r:
    NodeStep)
    ensures
        match decision {
            AfterAgentDecision::Proceed => r matches NodeStep::Done(o) && o.key == output.key
                && o.value == output.value && o.span_id@ == span_id@,
            AfterAgentDecision::Retry => r is Retry,
        },
{
    match decision {
        AfterAgentDecision::Proceed => NodeStep::Done(
            AgentOutput { key: output.key, value: output.value, span_id: span_id.to_owned() },
        ),
        AfterAgentDecision::Retry => NodeStep::Retry,
    }
}

} // verus!

//! The data read from AGENT.md, SKILL.md and step files.
use vstd::prelude::*;

verus! {

/// A sampling temperature, held as the bit pattern of its IEEE-754 double
/// (`f64::to_bits`), so that it is carried through without change.
#[derive(Debug, Clone, Copy, PartialEq, Eq, Structural)]
pub struct Temperature {
    pub bits: u64,
}

/// An LLM provider.
#[derive(Debug, Clone, Copy, PartialEq, Eq, Structural)]
pub enum Provider {
    Anthropic,
    OpenAi,
    Google,
    Ollama,
}

impl Provider {
    /// The provider's name as written in model specs and config keys.
    pub open spec fn spec_name(self) -> Seq<char> {
        match self {
            Provider::Anthropic => "anthropic"@,
            Provider::OpenAi => "openai"@,
            Provider::Google => "google"@,
            Provider::Ollama => "ollama"@,
        }
    }

    /// The provider's name as written in model specs and config keys.
    pub fn name(&self) -> (s: &'static str)
        ensures
            s@ == self.spec_name(),
    {
        match self {
            Provider::Anthropic => "anthropic",
            Provider::OpenAi => "openai",
            Provider::Google => "google",
            Provider::Ollama => "ollama",
        }
    }
}

/// A direct `provider:model` reference.
#[derive(Debug, Clone)]
pub struct ModelRef {
    pub provider: Provider,
    pub model: String,
}

/// The `model:` block of a call: a direct name, or a role, with local overrides.
#[derive(Debug, Clone)]
pub struct ModelConfig {
    pub name: Option<String>,
    pub role: Option<String>,
    pub temperature: Option<Temperature>,
    pub max_tokens: Option<u32>,
}

/// The `call:` block: which model, which skills, how many iterations.
#[derive(Debug, Clone)]
pub struct CallConfig {
    pub model: Option<ModelConfig>,
    pub uses: Vec<String>,
    pub max_iter: Option<u32>,
}

/// The outgoing transitions of an FSM state.
#[derive(Debug, Clone)]
pub enum FsmNext {
    /// No transition: the machine stops in this state.
    Terminal,
    /// Always go to the named state.
    Always(String),
    /// Go by the routing word of `finish`: (word, next state or stop).
    OnWord(Vec<(String, Option<String>)>),
}

/// One state of an FSM agent.
#[derive(Debug, Clone)]
pub struct FsmState {
    pub name: String,
    pub next: FsmNext,
}

/// How an agent runs.
#[derive(Debug, Clone)]
pub enum AgentPattern {
    React,
    Critic,
    Scatter { worker: String },
    Parallel { workers: Vec<String> },
    Fsm { initial: String, states: Vec<FsmState> },
    Debate { agents: Vec<String>, rounds: u32, judge: String },
    Reflexion,
    Constitutional,
    ChainOfVerification,
    PlanExecute,
    BestOfN { n: u32 },
    Human,
    Oneshot,
}

/// A parsed AGENT.md.
#[derive(Debug, Clone)]
pub struct AgentFile {
    pub name: String,
    pub description: String,
    pub version: String,
    pub pattern: AgentPattern,
    pub env: Option<Vec<String>>,
    pub call: Option<CallConfig>,
    pub max_iter: Option<u32>,
    pub body: String,
}

/// System dependencies a skill needs baked into the image.
#[derive(Debug, Clone)]
pub struct Depends {
    pub apt: Vec<String>,
    pub uv: Vec<String>,
    pub bins: Vec<String>,
}

/// How a skill is used.
#[derive(Debug, Clone)]
pub enum SkillPattern {
    /// The skill is a tool of the given name.
    Tool { tool: String },
}

/// The `tama:` metadata of a SKILL.md.
#[derive(Debug, Clone)]
pub struct TamaSkillMeta {
    pub version: String,
    pub pattern: SkillPattern,
    pub depends: Option<Depends>,
    pub env: Option<Vec<String>>,
}

/// A parsed SKILL.md.
#[derive(Debug, Clone)]
pub struct SkillFile {
    pub name: String,
    pub description: String,
    pub license: Option<String>,
    pub tama: TamaSkillMeta,
}

/// A parsed step file (draft.md, critique.md, ...).
#[derive(Debug, Clone)]
pub struct StepConfig {
    pub react: bool,
    pub call: Option<CallConfig>,
    pub body: String,
}

/// Iteration limit of a react step when its `call:` block sets none.
pub const DEFAULT_STEP_MAX_ITER: u32 = 10;

impl StepConfig {
    /// The step's iteration limit: `call.max_iter`, or the default.
    pub open spec fn spec_max_iter(&self) -> u32 {
        match self.call {
            Some(c) => match c.max_iter {
                Some(m) => m,
                None => DEFAULT_STEP_MAX_ITER,
            },
            None => DEFAULT_STEP_MAX_ITER,
        }
    }

    /// The step's iteration limit: `call.max_iter`, or the default.
    pub fn max_iter(&self) -> (n: u32)
        ensures
            n == self.spec_max_iter(),
    {
        match &self.call {
            Some(c) => match c.max_iter {
                Some(m) => m,
                None => DEFAULT_STEP_MAX_ITER,
            },
            None => DEFAULT_STEP_MAX_ITER,
        }
    }
}

} // verus!

//! Assembling SKILL.md, AGENT.md and step files from their frontmatter.
use vstd::prelude::*;
use vstd::string::StringExecFns;

use crate::frontmatter::{split_frontmatter, spec_split_frontmatter, FrontmatterError};
use crate::manifest::{
    AgentFile, AgentPattern, CallConfig, Depends, SkillFile, SkillPattern, StepConfig,
    TamaSkillMeta,
};
use crate::text::str_eq;

verus! {

/// Why a SKILL.md `tama:` block is rejected.
#[derive(Debug, Clone, PartialEq, Eq)]
pub enum SkillError {
    /// `pattern: tool` without a `tool:` field.
    ToolFieldMissing,
    /// A pattern other than `tool`.
    UnknownPattern(String),
}

impl SkillError {
    /// The message the error is reported with.
    pub open spec fn spec_message(&self) -> Seq<char> {
        match self {
            SkillError::ToolFieldMissing => "pattern: tool requires `tool:` field"@,
            SkillError::UnknownPattern(p) => "unknown skill pattern: '"@ + p@ + "'"@,
        }
    }

    /// The message the error is reported with.
    pub fn message(&self) -> (m: String)
        ensures
            m@ == self.spec_message(),
    {
        match self {
            SkillError::ToolFieldMissing => String::from_str("pattern: tool requires `tool:` field"),
            SkillError::UnknownPattern(p) => {
                let mut m = String::from_str("unknown skill pattern: '");
                m.append(p.as_str());
                m.append("'");
                m
            },
        }
    }
}

/// The `tama:` block of a SKILL.md, as written: the pattern is a plain string.
#[derive(Debug, Clone)]
pub struct SkillTamaBlock {
    pub version: String,
    pub pattern: String,
    pub tool: Option<String>,
    pub depends: Option<Depends>,
    pub env: Vec<String>,
}

/// Builds the skill pattern of a `tama:` block. The only pattern is `tool`,
/// which needs a `tool:` field.
pub fn build_skill_pattern(raw: &SkillTamaBlock) -> (r: Result<SkillPattern, SkillError>)
    ensures
        match r {
            Ok(SkillPattern::Tool { tool }) => raw.pattern@ == "tool"@ && raw.tool is Some
                && tool@ == raw.tool->Some_0@,
            Err(SkillError::ToolFieldMissing) => raw.pattern@ == "tool"@ && raw.tool is None,
            Err(SkillError::UnknownPattern(p)) => raw.pattern@ != "tool"@ && p@ == raw.pattern@,
        },
{
    if str_eq(raw.pattern.as_str(), "tool") {
        match &raw.tool {
            Some(t) => Ok(SkillPattern::Tool { tool: t.clone() }),
            None => Err(SkillError::ToolFieldMissing),
        }
    } else {
        Err(SkillError::UnknownPattern(raw.pattern.clone()))
    }
}

/// Assembles a SKILL.md from its frontmatter fields and its `tama:` block.
pub fn skill_file(
    name: String,
    description: String,
    license: Option<String>,
    tama: SkillTamaBlock,
) -> (r: Result<SkillFile, SkillError>)
    ensures
        match r {
            Ok(f) => {
                &&& f.name == name
                &&& f.description == description
                &&& f.license == license
                &&& f.tama.version == tama.version
                &&& f.tama.depends == tama.depends
                &&& f.tama.env == Some(tama.env)
                &&& f.tama.pattern matches SkillPattern::Tool { tool } && tama.pattern@ == "tool"@
                    && tama.tool is Some && tool@ == tama.tool->Some_0@
            },
            Err(e) => match e {
                SkillError::ToolFieldMissing => tama.pattern@ == "tool"@ && tama.tool is None,
                SkillError::UnknownPattern(p) => tama.pattern@ != "tool"@ && p@ == tama.pattern@,
            },
        },
{
    let pattern = build_skill_pattern(&tama)?;
    Ok(
        SkillFile {
            name,
            description,
            license,
            tama: TamaSkillMeta {
                version: tama.version,
                pattern,
                depends: tama.depends,
                env: Some(tama.env),
            },
        },
    )
}

/// The frontmatter of an AGENT.md, as written.
#[derive(Debug, Clone)]
pub struct AgentFrontmatter {
    pub name: String,
    pub description: String,
    pub version: String,
    pub env: Option<Vec<String>>,
    pub call: Option<CallConfig>,
    pub max_iter: Option<u32>,
    pub pattern: AgentPattern,
}

/// Assembles an AGENT.md from its frontmatter and its body.
pub fn agent_file(raw: AgentFrontmatter, body: &str) -> (r: AgentFile)
    ensures
        r.name == raw.name,
        r.description == raw.description,
        r.version == raw.version,
        r.pattern == raw.pattern,
        r.env == raw.env,
        r.call == raw.call,
        r.max_iter == raw.max_iter,
        r.body@ == body@,
{
    AgentFile {
        name: raw.name,
        description: raw.description,
        version: raw.version,
        pattern: raw.pattern,
        env: raw.env,
        call: raw.call,
        max_iter: raw.max_iter,
        body: body.to_owned(),
    }
}

/// How a step file is laid out.
pub enum StepSource<'a> {
    /// No frontmatter: the whole file is the prompt.
    Plain,
    /// Frontmatter YAML and the body that follows it.
    Frontmatter(&'a str, &'a str),
}

/// Splits a step file. A file that does not start with `---` (after leading
/// whitespace) has no frontmatter; one that does must close it.
pub fn split_step(source: &str) -> (r: Result<StepSource, FrontmatterError>)
    ensures
        match r {
            Ok(StepSource::Plain) => spec_split_frontmatter(source@) == Err::<
                (Seq<char>, Seq<char>),
                FrontmatterError,
            >(FrontmatterError::MissingOpening),
            Ok(StepSource::Frontmatter(yaml, body)) => spec_split_frontmatter(source@) == Ok::<
                (Seq<char>, Seq<char>),
                FrontmatterError,
            >((yaml@, body@)),
            Err(e) => e == FrontmatterError::MissingClosing && spec_split_frontmatter(source@)
                == Err::<(Seq<char>, Seq<char>), FrontmatterError>(e),
        },
{
    match split_frontmatter(source) {
        Ok((yaml, body)) => Ok(StepSource::Frontmatter(yaml, body)),
        Err(FrontmatterError::MissingOpening) => Ok(StepSource::Plain),
        Err(FrontmatterError::MissingClosing) => Err(FrontmatterError::MissingClosing),
    }
}

/// A step without frontmatter: a single LLM call with the whole file as prompt.
pub fn plain_step(source: &str) -> (r: StepConfig)
    ensures
        !r.react,
        r.call is None,
        r.body@ == source@,
{
    StepConfig { react: false, call: None, body: source.to_owned() }
}

/// A step with frontmatter: it is a react step when `pattern: react` is set
/// or its `call:` block uses skills; otherwise a single LLM call.
pub fn step_config(pattern: &str, call: Option<CallConfig>, body: &str) -> (r: StepConfig)
    ensures
        r.react == (pattern@ == "react"@ || (call matches Some(c) && c.uses.len() > 0)),
        r.call == call,
        r.body@ == body@,
{
    let uses_skills = match &call {
        Some(c) => c.uses.len() > 0,
        None => false,
    };
    let react = str_eq(pattern, "react") || uses_skills;
    StepConfig { react, call, body: body.to_owned() }
}

} // verus!

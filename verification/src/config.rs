//! The project configuration read from `tama.toml`.
use vstd::prelude::*;

use crate::manifest::Temperature;

verus! {

/// The `[project]` table.
#[derive(Debug, Clone)]
pub struct ProjectConfig {
    pub name: String,
    pub entrypoint: String,
}

impl Default for ProjectConfig {
    fn default() -> (r: Self)
        ensures
            r.name@.len() == 0,
            r.entrypoint@.len() == 0,
    {
        ProjectConfig { name: String::new(), entrypoint: String::new() }
    }
}

/// Extended model entry configuration. No API keys: env vars only.
#[derive(Debug, Clone)]
pub struct ModelEntryConfig {
    pub name: String,
    pub temperature: Option<Temperature>,
    pub max_tokens: Option<u32>,
    /// Base URL override for self-hosted / proxy endpoints (non-secret, safe to commit).
    pub base_url: Option<String>,
}

/// A model role entry in `[models]`: shorthand (`"provider:model"`) or extended form.
#[derive(Debug, Clone)]
pub enum ModelEntry {
    Shorthand(String),
    Extended(ModelEntryConfig),
}

impl ModelEntry {
    /// The `provider:model` spec of the entry.
    pub open spec fn spec_name(&self) -> Seq<char> {
        match self {
            ModelEntry::Shorthand(s) => s@,
            ModelEntry::Extended(e) => e.name@,
        }
    }

    /// The temperature the entry sets, if any.
    pub open spec fn spec_temperature(&self) -> Option<Temperature> {
        match self {
            ModelEntry::Shorthand(_) => None,
            ModelEntry::Extended(e) => e.temperature,
        }
    }

    /// The token limit the entry sets, if any.
    pub open spec fn spec_max_tokens(&self) -> Option<u32> {
        match self {
            ModelEntry::Shorthand(_) => None,
            ModelEntry::Extended(e) => e.max_tokens,
        }
    }

    /// The base URL the entry sets, if any.
    pub open spec fn spec_base_url(&self) -> Option<Seq<char>> {
        match self {
            ModelEntry::Shorthand(_) => None,
            ModelEntry::Extended(e) => match e.base_url {
                Some(u) => Some(u@),
                None => None,
            },
        }
    }

    /// The `provider:model` spec of the entry.
    pub fn name(&self) -> (r: &str)
        ensures
            r@ == self.spec_name(),
    {
        match self {
            ModelEntry::Shorthand(s) => s.as_str(),
            ModelEntry::Extended(e) => e.name.as_str(),
        }
    }

    /// The entry's temperature, if it sets one.
    pub fn temperature(&self) -> (r: Option<Temperature>)
        ensures
            r == self.spec_temperature(),
    {
        match self {
            ModelEntry::Shorthand(_) => None,
            ModelEntry::Extended(e) => e.temperature,
        }
    }

    /// The entry's token limit, if it sets one.
    pub fn max_tokens(&self) -> (r: Option<u32>)
        ensures
            r == self.spec_max_tokens(),
    {
        match self {
            ModelEntry::Shorthand(_) => None,
            ModelEntry::Extended(e) => e.max_tokens,
        }
    }

    /// The entry's base URL, if it sets one.
    pub fn base_url(&self) -> (r: Option<&str>)
        ensures
            match r {
                Some(u) => self.spec_base_url() == Some(u@),
                None => self.spec_base_url() is None,
            },
    {
        match self {
            ModelEntry::Shorthand(_) => None,
            ModelEntry::Extended(e) => match &e.base_url {
                Some(u) => Some(u.as_str()),
                None => None,
            },
        }
    }
}

/// Provider-level infrastructure config. Non-secret fields only: no API keys.
#[derive(Debug, Clone)]
pub struct ProviderEntry {
    pub base_url: Option<String>,
}

impl Default for ProviderEntry {
    fn default() -> (r: Self)
        ensures
            r.base_url is None,
    {
        ProviderEntry { base_url: None }
    }
}

/// The whole of `tama.toml`; the tables are lists of (name, entry).
#[derive(Debug, Clone)]
pub struct TomlConfig {
    pub project: ProjectConfig,
    pub models: Vec<(String, ModelEntry)>,
    pub providers: Vec<(String, ProviderEntry)>,
}

impl Default for TomlConfig {
    fn default() -> (r: Self)
        ensures
            r.project.name@.len() == 0,
            r.project.entrypoint@.len() == 0,
            r.models@.len() == 0,
            r.providers@.len() == 0,
    {
        TomlConfig {
            project: ProjectConfig::default(),
            models: Vec::new(),
            providers: Vec::new(),
        }
    }
}

} // verus!

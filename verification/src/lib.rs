//! Core logic of the tama agent framework: markdown frontmatter, templates,
//! the shared memory store, rollback logs, model resolution and the
//! decision logic of the agent patterns.
pub mod text;
pub mod config;
pub mod cycles;
pub mod frontmatter;
pub mod json;
pub mod lint;
pub mod listing;
pub mod llm;
pub mod manifest;
pub mod memory;
pub mod parser;
pub mod patterns;
pub mod project;
pub mod prompts;
pub mod react;
pub mod registry;
pub mod rollback;
pub mod scaffold;
pub mod strmap;
pub mod template;
pub mod tools;
pub mod tracelog;

//! RepoReaper: the decision logic of an autonomous issue-fixing service,
//! verified with Verus.

pub mod text;
pub mod agent;
pub mod issue;
pub mod memory;
pub mod publish;
pub mod fix;
pub mod ai_local;
pub mod llm;
pub mod triage;
pub mod prompts;
pub mod workspace;
pub mod sandbox;
pub mod startup;
pub mod github;
pub mod webhook;
pub mod hunt;
pub mod settings;

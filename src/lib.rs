//! Bounded, per-conversation undo history for file-system mutations made on
//! behalf of an agent, together with the rules that decide where snapshots and
//! trashed files live and how each recorded mutation is reversed.

pub mod action;
pub mod executor;
pub mod history;
pub mod laws;
pub mod layout;
pub mod manager;
pub mod prompts;
pub mod tools;
pub mod types;

pub use action::UndoAction;
pub use executor::ToolExecutor;
pub use history::HistoryError;
pub use manager::BackupManager;
pub use types::{AgentConfig, PlanStepInfo, ToolResult};

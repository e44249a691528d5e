//! The Codex connector's own rules: settings, how tool calls and their
//! output are shown, timeline text, runtime warnings and subagents.

pub mod overrides;
pub mod policy;
pub mod tools;
pub mod timeline;
pub mod warnings;
pub mod format;
pub mod workers;
pub mod signals;
pub mod buffers;
pub mod items;
pub mod sandbox;
pub mod rollout;
pub mod item_rows;
pub mod item_mapping;
pub mod notification_rows;
pub mod app_server;
pub mod notifications;
pub mod approvals;
pub mod runtime_tools;
pub mod runtime_items;
pub mod runtime_rows;
pub mod runtime_lifecycle;
pub mod session_inputs;
pub mod model_defaults;

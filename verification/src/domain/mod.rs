//! The data that the session works on: messages and what they hold, command
//! patterns and approvals, providers, and the events that observers see.

pub mod cmd;
pub mod config;
pub mod debug;
pub mod message;
pub mod provider;

pub use cmd::{ApprovedCmds, CmdPattern};
pub use config::Config;
pub use debug::{DebugEvent, DebugEventPayload};
pub use message::{Message, MessageExt, ToolCall, ToolResult};
pub use provider::Provider;

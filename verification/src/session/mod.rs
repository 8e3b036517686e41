//! The session: the turn engine and what stands round it.

pub mod command;
pub mod confirm;
pub mod engine;
pub mod hitl;

pub use command::SessionCommand;
pub use confirm::{Answer, Confirmation, PermissionRecord};
pub use engine::{Phase, StreamItem, TurnAction, TurnEnd, TurnEngine};
pub use hitl::Hitl;

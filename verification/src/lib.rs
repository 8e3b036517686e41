//! The core of a terminal coding assistant: the turn engine that folds model
//! replies and tool results into one conversation, the confirmation step that keeps every
//! mutating action behind the user's consent, and the rules that keep tools
//! inside the project directory.

pub mod domain;
pub mod env;
pub mod helpers;
pub mod json;
pub mod providers;
pub mod session;
pub mod text;
pub mod tools;

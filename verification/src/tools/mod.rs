//! The tools that the model may call, and the validation that each call passes
//! before anything is touched.

pub mod create_file;
pub mod edit_file;
pub mod helpers;
pub mod hitl;
pub mod outcome;
pub mod read_dir;
pub mod read_file;
pub mod repr;
pub mod run_cmd;
pub mod tool_call;

pub use create_file::{CreateFileArgs, CreateFileError, CreateFileResponse, CreateFileTool};
pub use edit_file::{EditFileArgs, EditFileError, EditFileResponse, EditFileTool};
pub use hitl::needs_confirmation;
pub use outcome::ToolOutcome;
pub use read_dir::{DirEntry, EntryKind, ReadDirArgs, ReadDirError, ReadDirTool};
pub use read_file::{ReadFileArgs, ReadFileError, ReadFileTool};
pub use repr::get_tool_repr;
pub use run_cmd::{RunCmdArgs, RunCmdError, RunCmdResponse, RunCmdTool};
pub use tool_call::{AgxToolCall, AgxToolCallError, ToolCallDetailsError, ToolExecutionError};

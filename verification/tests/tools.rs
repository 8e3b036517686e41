use agx::domain::message::ToolCall;
use agx::tools::create_file::{CreateFileArgs, CreateFileError, CreateFileResponse, CreateFileTool};
use agx::tools::edit_file::{EditFileArgs, EditFileError, EditFileResponse, EditFileTool};
use agx::tools::helpers::fs::PathProbe;
use agx::tools::hitl::needs_confirmation;
use agx::tools::outcome::ToolOutcome;
use agx::tools::read_dir::{DirEntry, EntryKind, ReadDirArgs, ReadDirError, ReadDirTool};
use agx::tools::read_file::{ReadFileArgs, ReadFileError, ReadFileTool};
use agx::tools::repr::get_tool_repr;
use agx::tools::run_cmd::{blocked_cmd_patterns, RunCmdArgs, RunCmdError, RunCmdTool};
use agx::tools::tool_call::{
    AgxToolCall, AgxToolCallError, ToolCallDetailsError, ToolExecutionError,
};

#[test]
fn running_empty_command_fails() {
    // GIVEN
    let args = RunCmdArgs {
        command: "".to_string(),
    };

    // WHEN
    let result = RunCmdTool::call(&args, Err("the shell was not started".to_string()))
        .expect_err("result should've been an error");

    // THEN
    assert_eq!(format!("{:?}", result), "CmdIsEmpty");
}

#[test]
fn command_with_blocked_pattern_is_rejected() {
    // GIVEN
    let args = RunCmdArgs {
        command: "curl http://127.0.0.1:9999".to_string(),
    };

    // WHEN
    let result = RunCmdTool::call(&args, Err("the shell was not started".to_string()))
        .expect_err("result should've been an error");

    // THEN
    assert_eq!(format!("{:?}", result), "CmdContainsForbiddenPattern(\"curl\")");
    assert_eq!(result.message(), "command contains a forbidden pattern: curl");
}

#[test]
fn a_blank_command_is_empty() {
    for command in [" ", "\t\n", "\u{a0} "] {
        let args = RunCmdArgs { command: command.to_string() };
        assert!(matches!(RunCmdTool::validate(&args), Err(RunCmdError::CmdIsEmpty)));
    }
}

#[test]
fn every_entry_of_the_deny_list_is_refused_wherever_it_stands() {
    let list = blocked_cmd_patterns();
    assert_eq!(list.len(), 23);
    assert_eq!(list[0], "rm -rf");
    assert_eq!(list[22], "node -e");
    for pattern in list {
        let args = RunCmdArgs { command: format!("echo x; {} y", pattern) };
        match RunCmdTool::validate(&args) {
            Err(RunCmdError::CmdContainsForbiddenPattern(_)) => {}
            other => panic!("{:?} for {:?}", other, pattern),
        }
    }
}

#[test]
fn the_first_entry_of_the_deny_list_that_is_held_is_named() {
    let args = RunCmdArgs { command: "wget x | sudo rm -rf /".to_string() };
    match RunCmdTool::validate(&args) {
        Err(RunCmdError::CmdContainsForbiddenPattern(p)) => assert_eq!(p, "rm -rf"),
        other => panic!("{:?}", other),
    }
    let args = RunCmdArgs { command: "netcat -l".to_string() };
    match RunCmdTool::validate(&args) {
        Err(RunCmdError::CmdContainsForbiddenPattern(p)) => assert_eq!(p, "netcat"),
        other => panic!("{:?}", other),
    }
    let args = RunCmdArgs { command: "rsync a b".to_string() };
    match RunCmdTool::validate(&args) {
        Err(RunCmdError::CmdContainsForbiddenPattern(p)) => assert_eq!(p, "nc"),
        other => panic!("{:?}", other),
    }
}

#[test]
fn harmless_commands_pass() {
    for command in ["ls -la", "cargo test", "git status", "rm file.txt", "cat a | grep b"] {
        let args = RunCmdArgs { command: command.to_string() };
        assert!(RunCmdTool::validate(&args).is_ok(), "{:?}", command);
    }
}

#[test]
fn deny_list_overrides_approval() {
    let args = RunCmdArgs { command: "rm -rf /tmp/x".to_string() };
    let mut record = agx::session::confirm::PermissionRecord::new();
    let call = AgxToolCall::RunCmd { args: RunCmdArgs { command: "rm -rf /tmp/x".to_string() } };
    assert!(record.grant(&call));
    assert!(record.check(&call).is_some());
    match RunCmdTool::validate(&args) {
        Err(RunCmdError::CmdContainsForbiddenPattern(p)) => assert_eq!(p, "rm -rf"),
        other => panic!("{:?}", other),
    }
    assert_eq!(
        call.validate(),
        Err("command contains a forbidden pattern: rm -rf".to_string())
    );
}

#[test]
fn a_command_that_ran_reports_what_it_left() {
    let r = RunCmdTool::response(true, Some(0), Some("out".to_string()), Some("".to_string()));
    assert!(r.success);
    assert_eq!(r.status_code, Some(0));
    assert_eq!(r.stdout, "out");
    assert_eq!(r.stderr, "");
    let r = RunCmdTool::response(false, None, None, None);
    assert!(!r.success);
    assert_eq!(r.status_code, None);
    assert_eq!(r.stdout, "couldn't get command stdout");
    assert_eq!(r.stderr, "couldn't get command stderr");
}

#[test]
fn run_cmd_errors_say_what_went_wrong() {
    assert_eq!(RunCmdError::CmdIsEmpty.message(), "command is empty");
    assert_eq!(
        RunCmdError::CouldntRunCmd("no bash".to_string()).message(),
        "couldn't run command: no bash"
    );
}

#[test]
fn create_file_checks_its_path_first() {
    let args = CreateFileArgs { path: "".to_string(), contents: "x".to_string() };
    match CreateFileTool::validate(&args) {
        Err(CreateFileError::InvalidInput(m)) => assert_eq!(m, "path cannot be empty"),
        other => panic!("{:?}", other),
    }
    for path in ["/etc/passwd", "../secret", "a/../../b"] {
        let args = CreateFileArgs { path: path.to_string(), contents: "x".to_string() };
        assert!(matches!(CreateFileTool::validate(&args), Err(CreateFileError::PathNotAllowed)));
    }
    for path in ["src/main.ext", "./file", "a/b/c"] {
        let args = CreateFileArgs { path: path.to_string(), contents: "".to_string() };
        assert!(CreateFileTool::validate(&args).is_ok());
    }
}

#[test]
fn create_file_writes_only_where_nothing_is() {
    assert!(CreateFileTool::check_target(PathProbe::Missing).is_ok());
    assert!(matches!(
        CreateFileTool::check_target(PathProbe::Found { is_file: true, is_dir: false }),
        Err(CreateFileError::AlreadyExists)
    ));
    assert!(matches!(
        CreateFileTool::check_target(PathProbe::Found { is_file: false, is_dir: false }),
        Err(CreateFileError::AlreadyExists)
    ));
    assert!(matches!(
        CreateFileTool::check_target(PathProbe::Found { is_file: false, is_dir: true }),
        Err(CreateFileError::IsADir)
    ));
    match CreateFileTool::check_target(PathProbe::Failed("denied".to_string())) {
        Err(CreateFileError::CouldntGetMetadata(e)) => assert_eq!(e, "denied"),
        other => panic!("{:?}", other),
    }
}

#[test]
fn create_file_reports_path_and_bytes() {
    let args = CreateFileArgs { path: "a/b.txt".to_string(), contents: "héllo\n".to_string() };
    let r = CreateFileTool::response(&args);
    assert_eq!(r.path, "a/b.txt");
    assert_eq!(r.num_bytes_written, 7);
    assert_eq!(CreateFileTool::repr(&args), "create_file: a/b.txt");
    assert_eq!(CreateFileTool::details(&args), Some("héllo\n".to_string()));
    assert_eq!(args.display(), "path=a/b.txt, num_lines=1");
}

#[test]
fn lines_are_counted_as_std_counts_them() {
    for contents in ["", "a", "a\n", "a\nb", "a\nb\n", "\n", "\n\n", "a\r\nb", "\n\na"] {
        let args = CreateFileArgs { path: "p".to_string(), contents: contents.to_string() };
        assert_eq!(args.num_lines(), contents.lines().count(), "{:?}", contents);
    }
}

#[test]
fn create_file_errors_say_what_went_wrong() {
    assert_eq!(
        CreateFileError::InvalidInput("path cannot be empty".to_string()).message(),
        "invalid input provided: path cannot be empty"
    );
    assert_eq!(
        CreateFileError::PathNotAllowed.message(),
        "absolute paths and parent directory traversal ('..') are not allowed"
    );
    assert_eq!(
        CreateFileError::CouldntGetMetadata("x".to_string()).message(),
        "couldn't get metadata for path: x"
    );
    assert_eq!(CreateFileError::AlreadyExists.message(), "file already exists");
    assert_eq!(CreateFileError::IsADir.message(), "a directory already exists at this path");
    assert_eq!(
        CreateFileError::CouldntCreateDirectory("x".to_string()).message(),
        "couldn't create directory: x"
    );
    assert_eq!(
        CreateFileError::CouldntWriteToFile("x".to_string()).message(),
        "couldn't write to file: x"
    );
}

fn edit(path: &str, old_str: &str, new_str: &str) -> EditFileArgs {
    EditFileArgs {
        path: path.to_string(),
        old_str: old_str.to_string(),
        new_str: new_str.to_string(),
    }
}

#[test]
fn edit_file_checks_its_arguments_in_order() {
    match EditFileTool::validate(&edit("", "", "")) {
        Err(EditFileError::InvalidInput(m)) => assert_eq!(m, "path cannot be empty"),
        other => panic!("{:?}", other),
    }
    match EditFileTool::validate(&edit("/abs", "", "")) {
        Err(EditFileError::InvalidInput(m)) => assert_eq!(m, "old_str cannot be empty"),
        other => panic!("{:?}", other),
    }
    assert!(matches!(
        EditFileTool::validate(&edit("/abs", "a", "a")),
        Err(EditFileError::NoChangesRequested)
    ));
    assert!(matches!(
        EditFileTool::validate(&edit("/abs", "a", "b")),
        Err(EditFileError::PathNotAllowed)
    ));
    assert!(matches!(
        EditFileTool::validate(&edit("../x", "a", "b")),
        Err(EditFileError::PathNotAllowed)
    ));
    assert!(EditFileTool::validate(&edit("src/x", "a", "b")).is_ok());
    assert!(EditFileTool::validate(&edit("src/x", "a", "")).is_ok());
}

#[test]
fn edit_file_edits_only_regular_files() {
    assert!(matches!(
        EditFileTool::check_target(PathProbe::Missing),
        Err(EditFileError::FileDoesntExist)
    ));
    assert!(EditFileTool::check_target(PathProbe::Found { is_file: true, is_dir: false }).is_ok());
    assert!(matches!(
        EditFileTool::check_target(PathProbe::Found { is_file: false, is_dir: true }),
        Err(EditFileError::NotAFile)
    ));
    assert!(matches!(
        EditFileTool::check_target(PathProbe::Found { is_file: false, is_dir: false }),
        Err(EditFileError::NotAFile)
    ));
    match EditFileTool::check_target(PathProbe::Failed("denied".to_string())) {
        Err(EditFileError::CouldntGetMetadata(e)) => assert_eq!(e, "denied"),
        other => panic!("{:?}", other),
    }
}

#[test]
fn edit_file_replaces_every_occurrence() {
    let new = EditFileTool::apply(&edit("f", "foo", "ba"), "foo x foo\nfoofoo").expect("edit");
    assert_eq!(new, "ba x ba\nbaba");
    let new = EditFileTool::apply(&edit("f", "aa", "a"), "aaaaa").expect("edit");
    assert_eq!(new, "aaa");
    let new = EditFileTool::apply(&edit("f", "x", ""), "axbx").expect("edit");
    assert_eq!(new, "ab");
    let r = EditFileTool::response(&edit("f", "x", ""), "héllo");
    assert_eq!(r.path, "f");
    assert_eq!(r.num_bytes_written, 6);
}

#[test]
fn edit_with_absent_old_string_changes_nothing() {
    let contents = "fn main() {}\n";
    let args = edit("src/main.rs", "absent", "present");
    match EditFileTool::apply(&args, contents) {
        Err(e) => {
            assert!(matches!(e, EditFileError::NothingWillChange));
            assert_eq!(e.message(), "nothing will change in the file");
        }
        other => panic!("{:?}", other),
    }
    assert!(matches!(
        EditFileTool::details(&args, contents),
        Err(EditFileError::NothingWillChange)
    ));
    let call = AgxToolCall::EditFile { args };
    match call.details(contents) {
        Err(e) => assert_eq!(e.message(), "nothing will change in the file"),
        other => panic!("{:?}", other),
    }
}

#[test]
fn edit_file_previews_the_diff() {
    console::set_colors_enabled(false);
    let args = edit("f", "b", "c");
    let shown = EditFileTool::details(&args, "a\nb\n").expect("preview").expect("diff");
    assert_eq!(shown, "1   1   | a\n2       |-b\n    2   |+c");
    assert_eq!(EditFileTool::repr(&args), "edit_file: f");
    assert_eq!(args.display(), "path=f");
}

#[test]
fn edit_file_errors_say_what_went_wrong() {
    assert_eq!(
        EditFileError::InvalidInput("old_str cannot be empty".to_string()).message(),
        "invalid input provided: old_str cannot be empty"
    );
    assert_eq!(
        EditFileError::PathNotAllowed.message(),
        "absolute paths and parent directory traversal ('..') are not allowed"
    );
    assert_eq!(
        EditFileError::NoChangesRequested.message(),
        "old string and new string are the same"
    );
    assert_eq!(
        EditFileError::CouldntGetMetadata("x".to_string()).message(),
        "couldn't get metadata for file: x"
    );
    assert_eq!(EditFileError::NotAFile.message(), "provided path is not a file");
    assert_eq!(EditFileError::FileDoesntExist.message(), "file doesn't exist");
    assert_eq!(
        EditFileError::CouldntReadFile("x".to_string()).message(),
        "couldn't read file: x"
    );
    assert_eq!(
        EditFileError::CouldntWriteToFile("x".to_string()).message(),
        "couldn't write to file: x"
    );
    assert_eq!(EditFileError::NothingWillChange.message(), "nothing will change in the file");
}

#[test]
fn reads_stay_inside_the_workspace() {
    let file = |p: &str| ReadFileArgs { path: p.to_string() };
    let dir = |p: &str| ReadDirArgs { path: p.to_string() };
    assert!(ReadFileTool::validate(&file("src/lib.rs")).is_ok());
    assert!(ReadDirTool::validate(&dir(".")).is_ok());
    assert!(matches!(ReadFileTool::validate(&file("")), Err(ReadFileError::InvalidInput(_))));
    assert!(matches!(ReadDirTool::validate(&dir("")), Err(ReadDirError::InvalidInput(_))));
    assert!(matches!(
        ReadFileTool::validate(&file("/etc/passwd")),
        Err(ReadFileError::PathNotAllowed)
    ));
    assert!(matches!(ReadDirTool::validate(&dir("../x")), Err(ReadDirError::PathNotAllowed)));
    assert_eq!(ReadFileTool::repr(&file("a")), "read_file: a");
    assert_eq!(ReadDirTool::repr(&dir("a")), "read_dir: a");
    assert_eq!(ReadFileTool::details(&file("a")), None);
    assert_eq!(ReadDirTool::details(&dir("a")), None);
    assert_eq!(dir("a").display(), "path=a");
}

#[test]
fn read_errors_say_what_went_wrong() {
    assert_eq!(
        ReadFileError::CouldntReadFile("x".to_string()).message(),
        "couldn't read file: x"
    );
    assert_eq!(
        ReadFileError::InvalidInput("path cannot be empty".to_string()).message(),
        "invalid input provided: path cannot be empty"
    );
    assert_eq!(
        ReadFileError::PathNotAllowed.message(),
        "absolute paths and parent directory traversal ('..') are not allowed"
    );
    assert_eq!(
        ReadDirError::CouldntGetMetadata("x".to_string()).message(),
        "couldn't get metadata for path: x"
    );
    assert_eq!(ReadDirError::PathNotADir.message(), "path is not a directory");
    assert_eq!(
        ReadDirError::CouldntReadDirectory("x".to_string()).message(),
        "couldn't read directory: x"
    );
    assert_eq!(
        ReadDirError::CouldntReadEntry("x".to_string()).message(),
        "couldn't read entry: x"
    );
    assert_eq!(
        ReadDirError::CouldntGetEntryMetadata("x".to_string()).message(),
        "couldn't get metadata for entry: x"
    );
    assert_eq!(
        ReadDirError::InvalidInput("path cannot be empty".to_string()).message(),
        "invalid input provided: path cannot be empty"
    );
    assert_eq!(
        ReadDirError::PathNotAllowed.message(),
        "absolute paths and parent directory traversal ('..') are not allowed"
    );
}

#[test]
fn directory_entries_are_classified() {
    let e = ReadDirTool::entry("a/b".to_string(), false, true, 12);
    assert_eq!(e.name, "a/b");
    assert_eq!(e.kind, EntryKind::File);
    assert_eq!(e.size, Some(12));
    let e = ReadDirTool::entry("a/c".to_string(), true, false, 4096);
    assert_eq!(e.kind, EntryKind::Dir);
    assert_eq!(e.size, None);
    let e = ReadDirTool::entry("a/sock".to_string(), false, false, 0);
    assert_eq!(e.kind, EntryKind::File);
    assert_eq!(e.size, None);
    assert!(ReadDirTool::check_target(true).is_ok());
    assert!(matches!(ReadDirTool::check_target(false), Err(ReadDirError::PathNotADir)));
    assert_eq!(EntryKind::File.name(), "file");
    assert_eq!(EntryKind::Dir.name(), "dir");
}

fn call(name: &str, arguments: &str) -> ToolCall {
    ToolCall {
        id: "id-1".to_string(),
        call_id: None,
        name: name.to_string(),
        arguments: arguments.to_string(),
    }
}

#[test]
fn tool_calls_are_read_from_name_and_arguments() {
    match AgxToolCall::try_from(&call("create_file", r#"{"path":"a.txt","contents":"x\ny"}"#)) {
        Ok(AgxToolCall::CreateFile { args }) => {
            assert_eq!(args.path, "a.txt");
            assert_eq!(args.contents, "x\ny");
        }
        other => panic!("{:?}", other),
    }
    match AgxToolCall::try_from(&call(
        "edit_file",
        r#"{"new_str":"c","path":"a.txt","old_str":"b","extra":1}"#,
    )) {
        Ok(AgxToolCall::EditFile { args }) => {
            assert_eq!(args.path, "a.txt");
            assert_eq!(args.old_str, "b");
            assert_eq!(args.new_str, "c");
        }
        other => panic!("{:?}", other),
    }
    match AgxToolCall::try_from(&call("read_file", r#"{"path":"a \"b\""}"#)) {
        Ok(AgxToolCall::ReadFile { args }) => assert_eq!(args.path, "a \"b\""),
        other => panic!("{:?}", other),
    }
    match AgxToolCall::try_from(&call("read_dir", r#"{"path":"src"}"#)) {
        Ok(AgxToolCall::ReadDir { args }) => assert_eq!(args.path, "src"),
        other => panic!("{:?}", other),
    }
    match AgxToolCall::try_from(&call("run_cmd", r#" { "command" : "ls -la" } "#)) {
        Ok(AgxToolCall::RunCmd { args }) => assert_eq!(args.command, "ls -la"),
        other => panic!("{:?}", other),
    }
}

#[test]
fn unknown_tools_and_bad_arguments_are_told_apart() {
    match AgxToolCall::try_from(&call("delete_file", r#"{"path":"a"}"#)) {
        Err(e) => {
            assert!(matches!(e, AgxToolCallError::UnknownTool(_)));
            assert_eq!(e.message(), "unknown tool: delete_file");
        }
        other => panic!("{:?}", other),
    }
    let bad = vec![
        ("create_file", r#"{"contents":"x"}"#, "path"),
        ("create_file", r#"{"path":"a"}"#, "contents"),
        ("create_file", r#"{"path":1,"contents":"x"}"#, "path"),
        ("edit_file", r#"{"path":"a","new_str":"c"}"#, "old_str"),
        ("edit_file", r#"{"path":"a","old_str":"c"}"#, "new_str"),
        ("read_file", r#"["a"]"#, "path"),
        ("read_dir", r#"not json"#, "path"),
        ("run_cmd", r#"{"command":null}"#, "command"),
        ("run_cmd", "", "command"),
    ];
    for (name, arguments, key) in bad {
        match AgxToolCall::try_from(&call(name, arguments)) {
            Err(e) => {
                assert!(matches!(e, AgxToolCallError::InvalidArgs(_)));
                assert_eq!(
                    e.message(),
                    format!("invalid arguments: missing text field `{}`", key)
                );
            }
            other => panic!("{:?} for {} {}", other, name, arguments),
        }
    }
}

#[test]
fn typed_calls_show_and_check_themselves() {
    let create = AgxToolCall::CreateFile {
        args: CreateFileArgs { path: "a".to_string(), contents: "c".to_string() },
    };
    let edit_call = AgxToolCall::EditFile { args: edit("a", "b", "c") };
    let read = AgxToolCall::ReadFile { args: ReadFileArgs { path: "a".to_string() } };
    let list = AgxToolCall::ReadDir { args: ReadDirArgs { path: "a".to_string() } };
    let run = AgxToolCall::RunCmd { args: RunCmdArgs { command: "ls".to_string() } };
    assert_eq!(create.repr(), "create_file: a");
    assert_eq!(edit_call.repr(), "edit_file: a");
    assert_eq!(read.repr(), "read_file: a");
    assert_eq!(list.repr(), "read_dir: a");
    assert_eq!(run.repr(), "run_cmd: ls");
    assert!(create.needs_confirmation());
    assert!(edit_call.needs_confirmation());
    assert!(run.needs_confirmation());
    assert!(!read.needs_confirmation());
    assert!(!list.needs_confirmation());
    for c in [&create, &edit_call, &read, &list, &run] {
        assert_eq!(c.validate(), Ok(()));
    }
    assert_eq!(create.details("").expect("preview"), Some("c".to_string()));
    assert_eq!(read.details("").expect("preview"), None);
    assert_eq!(list.details("").expect("preview"), None);
    assert_eq!(run.details("").expect("preview"), None);

    let outside = AgxToolCall::ReadFile { args: ReadFileArgs { path: "/etc/passwd".to_string() } };
    assert_eq!(
        outside.validate(),
        Err("absolute paths and parent directory traversal ('..') are not allowed".to_string())
    );
    let blank = AgxToolCall::RunCmd { args: RunCmdArgs { command: " ".to_string() } };
    assert_eq!(blank.validate(), Err("command is empty".to_string()));
    let same = AgxToolCall::EditFile { args: edit("a", "b", "b") };
    assert_eq!(same.validate(), Err("old string and new string are the same".to_string()));
    let empty = AgxToolCall::CreateFile {
        args: CreateFileArgs { path: "".to_string(), contents: "c".to_string() },
    };
    assert_eq!(
        empty.validate(),
        Err("invalid input provided: path cannot be empty".to_string())
    );
}

#[test]
fn only_mutating_tools_need_confirmation() {
    assert!(needs_confirmation("create_file"));
    assert!(needs_confirmation("edit_file"));
    assert!(needs_confirmation("run_cmd"));
    assert!(!needs_confirmation("read_file"));
    assert!(!needs_confirmation("read_dir"));
    assert!(!needs_confirmation(""));
    assert!(!needs_confirmation("run_cmd "));
    assert_eq!(CreateFileTool::NAME, "create_file");
    assert_eq!(EditFileTool::NAME, "edit_file");
    assert_eq!(ReadFileTool::NAME, "read_file");
    assert_eq!(ReadDirTool::NAME, "read_dir");
    assert_eq!(RunCmdTool::NAME, "run_cmd");
}

#[test]
fn tool_requests_are_shown_with_their_arguments() {
    assert_eq!(
        get_tool_repr("create_file", r#"{"path":"a.txt","contents":"x\ny\n"}"#),
        "create_file (path=a.txt, num_lines=2)"
    );
    assert_eq!(
        get_tool_repr("edit_file", r#"{"path":"a.txt","old_str":"a","new_str":"b"}"#),
        "edit_file (path=a.txt)"
    );
    assert_eq!(get_tool_repr("edit_file", r#"{"path":"a.txt"}"#), "edit_file");
    assert_eq!(get_tool_repr("read_dir", r#"{"path":"src"}"#), "read_dir (path=src)");
    assert_eq!(
        get_tool_repr("run_cmd", r#"{"command":"ls -la"}"#),
        "run_cmd (command=\"ls -la\")"
    );
    assert_eq!(get_tool_repr("read_file", r#"{"path":"src"}"#), "read_file");
    assert_eq!(get_tool_repr("run_cmd", "no json"), "run_cmd");
    assert_eq!(get_tool_repr("other", r#"{"path":"src"}"#), "other");
}

#[test]
fn outcomes_go_back_to_the_model_as_json() {
    let ran = ToolOutcome::Ran(RunCmdTool::response(
        true,
        Some(0),
        Some("This is \"line\" #2.\n".to_string()),
        Some("".to_string()),
    ));
    assert_eq!(
        ran.to_result(),
        r#"{"success":true,"status_code":0,"stdout":"This is \"line\" #2.\n","stderr":""}"#
    );
    let failed = ToolOutcome::Ran(RunCmdTool::response(
        false,
        Some(-1),
        Some("".to_string()),
        Some("something went wrong\n".to_string()),
    ));
    assert_eq!(
        failed.to_result(),
        r#"{"success":false,"status_code":-1,"stdout":"","stderr":"something went wrong\n"}"#
    );
    let killed = ToolOutcome::Ran(RunCmdTool::response(false, None, None, None));
    assert_eq!(
        killed.to_result(),
        r#"{"success":false,"status_code":null,"stdout":"couldn't get command stdout","stderr":"couldn't get command stderr"}"#
    );
    assert_eq!(ToolOutcome::Read("a\tb\\".to_string()).to_result(), r#""a\tb\\""#);
    assert_eq!(
        ToolOutcome::Created(CreateFileResponse { path: "a b".to_string(), num_bytes_written: 12 })
            .to_result(),
        r#"{"path":"a b","num_bytes_written":12}"#
    );
    assert_eq!(
        ToolOutcome::Edited(EditFileResponse { path: "a".to_string(), num_bytes_written: 0 })
            .to_result(),
        r#"{"path":"a","num_bytes_written":0}"#
    );
    assert_eq!(ToolOutcome::Listed(Vec::new()).to_result(), "[]");
    assert_eq!(
        ToolOutcome::Listed(vec![
            DirEntry { name: "src/a.rs".to_string(), kind: EntryKind::File, size: Some(10) },
            DirEntry { name: "src/b".to_string(), kind: EntryKind::Dir, size: None },
        ])
        .to_result(),
        r#"[{"name":"src/a.rs","kind":"file","size":10},{"name":"src/b","kind":"dir"}]"#
    );
    assert_eq!(
        ToolOutcome::Failed("file doesn't exist".to_string()).to_result(),
        "error: file doesn't exist"
    );
}

#[test]
fn outcomes_are_summed_up_for_the_user() {
    let ran = ToolOutcome::Ran(RunCmdTool::response(true, Some(0), None, None));
    assert_eq!(ran.status(true, 12), "✓ (took 12 ms)");
    let failed = ToolOutcome::Ran(RunCmdTool::response(false, Some(2), None, None));
    assert_eq!(failed.status(true, 3), "✓ (took 3 ms; exit code: 2)");
    let killed = ToolOutcome::Ran(RunCmdTool::response(false, None, None, None));
    assert_eq!(killed.status(true, 0), "✓ (took 0 ms)");
    assert_eq!(ToolOutcome::Failed("x".to_string()).status(true, 7), "✗ (took 7 ms)");
    assert_eq!(ToolOutcome::Failed("x".to_string()).status(false, 7), "✗");
    assert_eq!(ToolOutcome::Read("héllo".to_string()).status(false, 1), "✓ (read 6 bytes)");
    assert_eq!(
        ToolOutcome::Created(CreateFileResponse { path: "a".to_string(), num_bytes_written: 12 })
            .status(false, 1),
        "✓ (wrote 12 bytes)"
    );
    assert_eq!(
        ToolOutcome::Edited(EditFileResponse { path: "a".to_string(), num_bytes_written: 5 })
            .status(false, 1),
        "✓ (wrote 5 bytes)"
    );
    assert_eq!(ToolOutcome::Listed(Vec::new()).status(false, 1), "✓ (read 0 entries)");
    assert!(ran.succeeded());
    assert!(!ToolOutcome::Failed("x".to_string()).succeeded());
}

#[test]
fn tool_call_errors_say_what_went_wrong() {
    assert_eq!(
        AgxToolCallError::InvalidArgs("missing text field `path`".to_string()).message(),
        "invalid arguments: missing text field `path`"
    );
    assert_eq!(
        ToolExecutionError::CouldntSerialiseResult("x".to_string()).message(),
        "couldn't serialise result: x"
    );
    let e = ToolCallDetailsError::new("file doesn't exist");
    assert_eq!(e.message(), "file doesn't exist");
}

#[test]
fn a_whole_edit_is_decided_step_by_step() {
    let found = || PathProbe::Found { is_file: true, is_dir: false };
    let args = edit("src/a.rs", "foo", "bar");

    match EditFileTool::validate_and_read(&args, found(), Ok("a foo b".to_string())) {
        Ok((old, new)) => {
            assert_eq!(old, "a foo b");
            assert_eq!(new, "a bar b");
        }
        other => panic!("{:?}", other),
    }
    assert!(matches!(
        EditFileTool::validate_and_read(&edit("", "foo", "bar"), found(), Ok("foo".to_string())),
        Err(EditFileError::InvalidInput(_))
    ));
    assert!(matches!(
        EditFileTool::validate_and_read(&edit("/a", "foo", "bar"), found(), Ok("foo".to_string())),
        Err(EditFileError::PathNotAllowed)
    ));
    assert!(matches!(
        EditFileTool::validate_and_read(&args, PathProbe::Missing, Ok("foo".to_string())),
        Err(EditFileError::FileDoesntExist)
    ));
    assert!(matches!(
        EditFileTool::validate_and_read(
            &args,
            PathProbe::Found { is_file: false, is_dir: true },
            Ok("foo".to_string())
        ),
        Err(EditFileError::NotAFile)
    ));
    match EditFileTool::validate_and_read(&args, found(), Err("denied".to_string())) {
        Err(EditFileError::CouldntReadFile(e)) => assert_eq!(e, "denied"),
        other => panic!("{:?}", other),
    }
    assert!(matches!(
        EditFileTool::validate_and_read(&args, found(), Ok("nothing here".to_string())),
        Err(EditFileError::NothingWillChange)
    ));

    let done = EditFileTool::call(&args, found(), Ok("a foo b".to_string()), Ok(())).expect("edit");
    assert_eq!(done.path, "src/a.rs");
    assert_eq!(done.num_bytes_written, 7);
    match EditFileTool::call(&args, found(), Ok("a foo b".to_string()), Err("full".to_string())) {
        Err(EditFileError::CouldntWriteToFile(e)) => assert_eq!(e, "full"),
        other => panic!("{:?}", other),
    }
    assert!(matches!(
        EditFileTool::call(&args, found(), Ok("x".to_string()), Ok(())),
        Err(EditFileError::NothingWillChange)
    ));
}

#[test]
fn a_whole_creation_is_decided_step_by_step() {
    let args = CreateFileArgs { path: "a/b.txt".to_string(), contents: "hi".to_string() };
    let done = CreateFileTool::call_inner(&args, PathProbe::Missing, Ok(()), Ok(())).expect("file");
    assert_eq!(done.path, "a/b.txt");
    assert_eq!(done.num_bytes_written, 2);
    let outside = CreateFileArgs { path: "../b.txt".to_string(), contents: "hi".to_string() };
    assert!(matches!(
        CreateFileTool::call_inner(&outside, PathProbe::Missing, Ok(()), Ok(())),
        Err(CreateFileError::PathNotAllowed)
    ));
    assert!(matches!(
        CreateFileTool::call_inner(
            &args,
            PathProbe::Found { is_file: true, is_dir: false },
            Ok(()),
            Ok(())
        ),
        Err(CreateFileError::AlreadyExists)
    ));
    assert!(matches!(
        CreateFileTool::call_inner(
            &args,
            PathProbe::Found { is_file: false, is_dir: true },
            Err("x".to_string()),
            Err("y".to_string())
        ),
        Err(CreateFileError::IsADir)
    ));
    match CreateFileTool::call_inner(
        &args,
        PathProbe::Missing,
        Err("no room".to_string()),
        Err("y".to_string()),
    ) {
        Err(CreateFileError::CouldntCreateDirectory(e)) => assert_eq!(e, "no room"),
        other => panic!("{:?}", other),
    }
    match CreateFileTool::call_inner(&args, PathProbe::Missing, Ok(()), Err("full".to_string())) {
        Err(CreateFileError::CouldntWriteToFile(e)) => assert_eq!(e, "full"),
        other => panic!("{:?}", other),
    }
}

#[test]
fn a_whole_listing_is_decided_step_by_step() {
    let args = ReadDirArgs { path: "src".to_string() };
    let found = vec![
        agx::tools::read_dir::FoundEntry {
            name: "src/a.rs".to_string(),
            is_dir: false,
            is_file: true,
            len: 3,
        },
        agx::tools::read_dir::FoundEntry {
            name: "src/b".to_string(),
            is_dir: true,
            is_file: false,
            len: 4096,
        },
    ];
    let entries = ReadDirTool::call_inner(&args, Ok(true), &found).expect("entries");
    assert_eq!(entries.len(), 2);
    assert_eq!(entries[0].name, "src/a.rs");
    assert_eq!(entries[0].kind, EntryKind::File);
    assert_eq!(entries[0].size, Some(3));
    assert_eq!(entries[1].name, "src/b");
    assert_eq!(entries[1].kind, EntryKind::Dir);
    assert_eq!(entries[1].size, None);
    assert!(matches!(
        ReadDirTool::call_inner(&args, Ok(false), &found),
        Err(ReadDirError::PathNotADir)
    ));
    match ReadDirTool::call_inner(&args, Err("gone".to_string()), &found) {
        Err(ReadDirError::CouldntGetMetadata(e)) => assert_eq!(e, "gone"),
        other => panic!("{:?}", other),
    }
    let outside = ReadDirArgs { path: "/".to_string() };
    assert!(matches!(
        ReadDirTool::call_inner(&outside, Ok(true), &found),
        Err(ReadDirError::PathNotAllowed)
    ));
}

#[test]
fn a_whole_command_is_decided_step_by_step() {
    let output = |code: i32| agx::tools::run_cmd::CommandOutput {
        success: code == 0,
        status_code: Some(code),
        stdout: Some("out".to_string()),
        stderr: None,
    };
    let args = RunCmdArgs { command: "false".to_string() };
    let response = RunCmdTool::call(&args, Ok(output(1))).expect("a failing command is a result");
    assert!(!response.success);
    assert_eq!(response.status_code, Some(1));
    assert_eq!(response.stdout, "out");
    assert_eq!(response.stderr, "couldn't get command stderr");
    match RunCmdTool::call(&args, Err("no shell".to_string())) {
        Err(RunCmdError::CouldntRunCmd(e)) => assert_eq!(e, "no shell"),
        other => panic!("{:?}", other),
    }
    let blocked = RunCmdArgs { command: "sudo ls".to_string() };
    assert!(matches!(
        RunCmdTool::call(&blocked, Ok(output(0))),
        Err(RunCmdError::CmdContainsForbiddenPattern(_))
    ));
    let empty = RunCmdArgs { command: "".to_string() };
    assert!(matches!(RunCmdTool::call(&empty, Ok(output(0))), Err(RunCmdError::CmdIsEmpty)));
}

fn shell_answer(code: i32, stdout: &str, stderr: &str) -> agx::tools::run_cmd::CommandOutput {
    agx::tools::run_cmd::CommandOutput {
        success: code == 0,
        status_code: Some(code),
        stdout: Some(stdout.to_string()),
        stderr: Some(stderr.to_string()),
    }
}

#[test]
fn output_of_a_successful_command_is_returned() {
    // GIVEN
    let args = RunCmdArgs {
        command: "cat src/tools/testdata/sample.txt".to_string(),
    };
    let ran = shell_answer(
        0,
        "This file contains 3 lines.\nThis is line #2.\nThis is line #3.\n",
        "",
    );

    // WHEN
    let result = RunCmdTool::call(&args, Ok(ran)).expect("result should've been ok");

    // THEN
    assert!(result.success);
    assert_eq!(result.status_code, Some(0));
    assert_eq!(
        result.stdout,
        "This file contains 3 lines.\nThis is line #2.\nThis is line #3.\n"
    );
    assert_eq!(result.stderr, "");
}

#[test]
fn output_of_a_failing_command_is_returned() {
    // GIVEN
    let args = RunCmdArgs {
        command: r#"echo "something went wrong" >&2; false"#.to_string(),
    };
    let ran = shell_answer(1, "", "something went wrong\n");

    // WHEN
    let result = RunCmdTool::call(&args, Ok(ran)).expect("result should've been ok");

    // THEN
    assert!(!result.success);
    assert_eq!(result.status_code, Some(1));
    assert_eq!(result.stdout, "");
    assert_eq!(result.stderr, "something went wrong\n");
}

#[test]
fn command_with_pipes_can_be_run() {
    // GIVEN
    let args = RunCmdArgs {
        command: "cat src/tools/testdata/sample.txt | grep '#' | wc -l | xargs".to_string(),
    };
    let ran = shell_answer(0, "2\n", "");

    // WHEN
    let result = RunCmdTool::call(&args, Ok(ran)).expect("result should've been ok");

    // THEN
    assert!(result.success);
    assert_eq!(result.status_code, Some(0));
    assert_eq!(result.stdout, "2\n");
    assert_eq!(result.stderr, "");
}

fn members(
    path: Option<&str>,
    contents: Option<&str>,
    old_str: Option<&str>,
    new_str: Option<&str>,
    command: Option<&str>,
) -> agx::tools::tool_call::ToolArguments {
    agx::tools::tool_call::ToolArguments {
        path: path.map(|s| s.to_string()),
        contents: contents.map(|s| s.to_string()),
        old_str: old_str.map(|s| s.to_string()),
        new_str: new_str.map(|s| s.to_string()),
        command: command.map(|s| s.to_string()),
    }
}

#[test]
fn typed_calls_are_built_from_the_members_a_tool_needs() {
    match AgxToolCall::from_arguments("create_file", members(Some("a"), Some("b"), None, None, None)) {
        Ok(AgxToolCall::CreateFile { args }) => {
            assert_eq!(args.path, "a");
            assert_eq!(args.contents, "b");
        }
        other => panic!("{:?}", other),
    }
    match AgxToolCall::from_arguments(
        "edit_file",
        members(Some("a"), Some("ignored"), Some("x"), Some("y"), Some("ignored")),
    ) {
        Ok(AgxToolCall::EditFile { args }) => {
            assert_eq!(args.path, "a");
            assert_eq!(args.old_str, "x");
            assert_eq!(args.new_str, "y");
        }
        other => panic!("{:?}", other),
    }
    assert!(matches!(
        AgxToolCall::from_arguments("read_file", members(Some("a"), None, None, None, None)),
        Ok(AgxToolCall::ReadFile { .. })
    ));
    assert!(matches!(
        AgxToolCall::from_arguments("read_dir", members(Some("a"), None, None, None, None)),
        Ok(AgxToolCall::ReadDir { .. })
    ));
    assert!(matches!(
        AgxToolCall::from_arguments("run_cmd", members(None, None, None, None, Some("ls"))),
        Ok(AgxToolCall::RunCmd { .. })
    ));
    let missing = vec![
        ("create_file", members(None, None, None, None, None), "path"),
        ("create_file", members(Some("a"), None, None, None, None), "contents"),
        ("edit_file", members(None, None, Some("x"), Some("y"), None), "path"),
        ("edit_file", members(Some("a"), None, None, Some("y"), None), "old_str"),
        ("edit_file", members(Some("a"), None, Some("x"), None, None), "new_str"),
        ("read_file", members(None, Some("c"), None, None, None), "path"),
        ("read_dir", members(None, None, None, None, None), "path"),
        ("run_cmd", members(Some("a"), None, None, None, None), "command"),
    ];
    for (name, arguments, key) in missing {
        match AgxToolCall::from_arguments(name, arguments) {
            Err(AgxToolCallError::InvalidArgs(why)) => {
                assert_eq!(why, format!("missing text field `{}`", key))
            }
            other => panic!("{:?} for {}", other, name),
        }
    }
    match AgxToolCall::from_arguments("rm", members(Some("a"), None, None, None, None)) {
        Err(AgxToolCallError::UnknownTool(name)) => assert_eq!(name, "rm"),
        other => panic!("{:?}", other),
    }
    let read = agx::tools::tool_call::ToolArguments::read(r#"{"path":"p","command":7}"#);
    assert_eq!(read.path.as_deref(), Some("p"));
    assert_eq!(read.command, None);
    assert_eq!(read.contents, None);
}

#[test]
fn requests_are_shown_from_their_members() {
    use_repr_of("create_file", members(Some("a"), Some("x\ny"), None, None, None), "create_file (path=a, num_lines=2)");
    use_repr_of("create_file", members(Some("a"), None, None, None, None), "create_file");
    use_repr_of("edit_file", members(Some("a"), None, Some("x"), Some("y"), None), "edit_file (path=a)");
    use_repr_of("edit_file", members(Some("a"), None, Some("x"), None, None), "edit_file");
    use_repr_of("read_dir", members(Some("d"), None, None, None, None), "read_dir (path=d)");
    use_repr_of("read_file", members(Some("d"), None, None, None, None), "read_file");
    use_repr_of("run_cmd", members(None, None, None, None, Some("ls")), "run_cmd (command=\"ls\")");
    use_repr_of("run_cmd", members(None, None, None, None, None), "run_cmd");
}

fn use_repr_of(name: &str, arguments: agx::tools::tool_call::ToolArguments, expected: &str) {
    assert_eq!(agx::tools::repr::repr_of(name, &arguments), expected);
}

#[test]
fn json_is_framed_round_what_is_spelled_already() {
    assert_eq!(
        agx::tools::outcome::frame_command(true, Some(0), "\"o\"", "\"e\""),
        r#"{"success":true,"status_code":0,"stdout":"o","stderr":"e"}"#
    );
    assert_eq!(
        agx::tools::outcome::frame_command(false, None, "\"\"", "\"\""),
        r#"{"success":false,"status_code":null,"stdout":"","stderr":""}"#
    );
    assert_eq!(
        agx::tools::outcome::frame_command(false, Some(i32::MIN), "1", "2"),
        r#"{"success":false,"status_code":-2147483648,"stdout":1,"stderr":2}"#
    );
    assert_eq!(
        agx::tools::outcome::frame_written("\"p\"", 3),
        r#"{"path":"p","num_bytes_written":3}"#
    );
    assert_eq!(
        agx::tools::outcome::frame_entry("\"n\"", EntryKind::File, Some(0)),
        r#"{"name":"n","kind":"file","size":0}"#
    );
    assert_eq!(
        agx::tools::outcome::frame_entry("\"n\"", EntryKind::Dir, None),
        r#"{"name":"n","kind":"dir"}"#
    );
    let items: Vec<Vec<char>> = vec!["1".chars().collect(), "{}".chars().collect()];
    assert_eq!(agx::tools::outcome::frame_array(&items), "[1,{}]");
    assert_eq!(agx::tools::outcome::frame_array(&Vec::new()), "[]");
    assert_eq!(agx::tools::create_file::count_lines("a\nb\n"), 2);
}

#[test]
fn an_edit_that_changes_something_always_has_a_preview() {
    console::set_colors_enabled(false);
    let cases = vec![
        ("a", "b", "a"),
        ("\n", "", "x\ny\n"),
        ("x", "x\n", "x"),
        (" ", "\t", "a b c"),
    ];
    for (old_str, new_str, contents) in cases {
        let args = edit("f", old_str, new_str);
        let shown = EditFileTool::details(&args, contents).expect("the edit changes the file");
        assert!(shown.is_some(), "{:?} {:?} {:?}", old_str, new_str, contents);
        let call = AgxToolCall::EditFile { args };
        assert!(call.details(contents).expect("the edit changes the file").is_some());
    }
}

use agx::domain::cmd::{ApprovedCmds, CmdPattern};
use agx::domain::config::Config;
use agx::domain::provider::Provider;
use agx::session::command::SessionCommand;
use agx::session::confirm::{Answer, Confirmation, PermissionRecord};
use agx::tools::run_cmd::RunCmdArgs;
use agx::tools::tool_call::AgxToolCall;

fn pattern(binary: &str, first_arg: Option<&str>) -> CmdPattern {
    CmdPattern::new(binary.to_string(), first_arg.map(|a| a.to_string()))
}

#[test]
fn a_pattern_without_first_argument_matches_every_call_of_the_binary() {
    let git = pattern("git", None);
    assert!(git.matches("git status"));
    assert!(git.matches("git commit -m x"));
    assert!(git.matches("git"));
    assert!(!git.matches("gitk"));
    assert!(!git.matches("ls git"));
}

#[test]
fn a_pattern_with_first_argument_matches_only_calls_that_share_it() {
    let commit = pattern("git", Some("commit"));
    assert!(commit.matches("git commit -m x"));
    assert!(commit.matches("git commit"));
    assert!(!commit.matches("git push"));
    assert!(!commit.matches("git"));
    assert!(!commit.matches("git -c commit"));
}

#[test]
fn patterns_are_read_from_the_words_a_shell_would_see() {
    let p = CmdPattern::from_str("git commit -m 'a b'").expect("pattern");
    assert_eq!(p.binary, "git");
    assert_eq!(p.first_arg.as_deref(), Some("commit"));
    let p = CmdPattern::from_str("  ls  ").expect("pattern");
    assert_eq!(p.binary, "ls");
    assert_eq!(p.first_arg, None);
    let p = CmdPattern::from_str("'my tool' \"first arg\" rest").expect("pattern");
    assert_eq!(p.binary, "my tool");
    assert_eq!(p.first_arg.as_deref(), Some("first arg"));
}

#[test]
fn a_command_without_words_has_no_pattern() {
    assert_eq!(CmdPattern::from_str("").err(), Some("command is empty"));
    assert_eq!(CmdPattern::from_str("   ").err(), Some("command is empty"));
    assert_eq!(CmdPattern::from_str("# only a comment").err(), Some("command is empty"));
    assert_eq!(CmdPattern::from_str("echo 'open").err(), Some("command is empty"));
    assert_eq!(CmdPattern::from_words(&None).err(), Some("command is empty"));
    assert_eq!(CmdPattern::from_words(&Some(Vec::new())).err(), Some("command is empty"));
}

#[test]
fn a_command_that_cannot_be_split_is_never_matched() {
    assert!(!pattern("echo", None).matches("echo 'open"));
    assert!(!pattern("echo", None).covers_words(&None));
    assert!(!pattern("echo", None).covers_words(&Some(Vec::new())));
    assert!(pattern("echo", None).covers_words(&Some(vec!["echo".to_string()])));
}

#[test]
fn patterns_are_listed_with_a_wildcard() {
    assert_eq!(pattern("git", None).display(), "git .*");
    assert_eq!(pattern("git", Some("commit")).display(), "git commit .*");
}

#[test]
fn approved_commands_hold_each_pattern_once() {
    let mut approved = ApprovedCmds::new();
    assert_eq!(approved.len(), 0);
    assert_eq!(approved.display(), "none");
    approved.insert(&pattern("git", Some("status")));
    approved.insert(&pattern("ls", None));
    approved.insert(&pattern("git", Some("status")));
    assert_eq!(approved.len(), 2);
    assert!(approved.contains(&pattern("ls", None)));
    assert!(approved.contains(&pattern("git", Some("status"))));
    assert!(!approved.contains(&pattern("git", None)));
    assert_eq!(approved.display(), "\n  - git status .*\n  - ls .*");
}

#[test]
fn approval_goes_by_the_recorded_patterns() {
    let mut approved = ApprovedCmds::new();
    assert!(!approved.is_approved("git status"));
    approved.insert(&pattern("git", Some("status")));
    approved.insert(&pattern("ls", None));
    assert!(approved.is_approved("git status"));
    assert!(approved.is_approved("git status --short"));
    assert!(!approved.is_approved("git push"));
    assert!(!approved.is_approved("git"));
    assert!(approved.is_approved("ls"));
    assert!(approved.is_approved("ls -la /tmp"));
    assert!(!approved.is_approved(""));
    assert!(!approved.is_approved("ls 'open"));
}

#[test]
fn saved_approvals_come_back_as_the_same_set() {
    let mut approved = ApprovedCmds::new();
    approved.insert(&pattern("git", Some("status")));
    approved.insert(&pattern("cargo", None));
    approved.insert(&pattern("git", Some("log")));
    let saved = approved.patterns();
    assert_eq!(saved.len(), 3);
    let loaded = ApprovedCmds::from_patterns(&saved);
    assert_eq!(loaded.len(), approved.len());
    for p in &saved {
        assert!(loaded.contains(p));
    }
    for p in &loaded.patterns() {
        assert!(approved.contains(p));
    }
    let doubled = ApprovedCmds::from_patterns(&vec![pattern("a", None), pattern("a", None)]);
    assert_eq!(doubled.len(), 1);
}

#[test]
fn a_new_configuration_approves_nothing() {
    let config = Config::default();
    assert_eq!(config.approved_commands.len(), 0);
}

#[test]
fn providers_are_named_in_the_configuration() {
    assert_eq!(Provider::from_str("anthropic"), Ok(Provider::Anthropic));
    assert_eq!(Provider::from_str("gemini"), Ok(Provider::Gemini));
    assert_eq!(Provider::from_str("openai"), Ok(Provider::GitHubCopilot));
    assert_eq!(Provider::from_str("openrouter"), Ok(Provider::Openrouter));
    assert_eq!(
        Provider::from_str("github-copilot"),
        Err("invalid provider; allowed values: [anthropic, gemini, openai, openrouter]")
    );
    assert_eq!(
        Provider::from_str(""),
        Err("invalid provider; allowed values: [anthropic, gemini, openai, openrouter]")
    );
    assert_eq!(Provider::Anthropic.name(), "anthropic");
    assert_eq!(Provider::Gemini.name(), "gemini");
    assert_eq!(Provider::GitHubCopilot.name(), "github-copilot");
    assert_eq!(Provider::Openrouter.name(), "openrouter");
}

#[test]
fn answers_are_read_as_the_prompt_says() {
    assert!(matches!(Answer::parse(""), Answer::Yes));
    assert!(matches!(Answer::parse("  \n"), Answer::Yes));
    assert!(matches!(Answer::parse("y"), Answer::Yes));
    assert!(matches!(Answer::parse(" y "), Answer::Yes));
    assert!(matches!(Answer::parse("a"), Answer::Always));
    assert!(matches!(Answer::parse("n"), Answer::No));
    assert!(matches!(Answer::parse("no\n"), Answer::No));
    match Answer::parse("  use tabs instead \n") {
        Answer::Feedback(text) => assert_eq!(text, "use tabs instead"),
        other => panic!("expected feedback, got {:?}", other),
    }
    match Answer::parse("yes") {
        Answer::Feedback(text) => assert_eq!(text, "yes"),
        other => panic!("expected feedback, got {:?}", other),
    }
    match Answer::parse("N") {
        Answer::Feedback(text) => assert_eq!(text, "N"),
        other => panic!("expected feedback, got {:?}", other),
    }
}

#[test]
fn session_commands_are_told_from_prompts() {
    assert!(matches!(SessionCommand::parse(""), SessionCommand::Nothing));
    assert!(matches!(SessionCommand::parse("   "), SessionCommand::Nothing));
    assert!(matches!(SessionCommand::parse("clear"), SessionCommand::Clear));
    assert!(matches!(SessionCommand::parse("/help"), SessionCommand::Help));
    assert!(matches!(SessionCommand::parse(" /new "), SessionCommand::NewSession));
    assert!(matches!(SessionCommand::parse("/approvals"), SessionCommand::Approvals));
    for quit in ["/quit", "/exit", "bye", ":q"] {
        assert!(matches!(SessionCommand::parse(quit), SessionCommand::Quit));
    }
    match SessionCommand::parse("  fix the bug\n") {
        SessionCommand::Prompt(p) => assert_eq!(p, "fix the bug"),
        other => panic!("expected a prompt, got {:?}", other),
    }
    match SessionCommand::parse("/unknown") {
        SessionCommand::Prompt(p) => assert_eq!(p, "/unknown"),
        other => panic!("expected a prompt, got {:?}", other),
    }
}

fn run(command: &str) -> AgxToolCall {
    AgxToolCall::RunCmd { args: RunCmdArgs { command: command.to_string() } }
}

#[test]
fn the_record_decides_without_asking_where_it_can() {
    let mut record = PermissionRecord::new();
    let read = AgxToolCall::ReadFile {
        args: agx::tools::read_file::ReadFileArgs { path: "a".to_string() },
    };
    let list = AgxToolCall::ReadDir {
        args: agx::tools::read_dir::ReadDirArgs { path: "a".to_string() },
    };
    let create = AgxToolCall::CreateFile {
        args: agx::tools::create_file::CreateFileArgs {
            path: "a".to_string(),
            contents: "b".to_string(),
        },
    };
    let edit = AgxToolCall::EditFile {
        args: agx::tools::edit_file::EditFileArgs {
            path: "a".to_string(),
            old_str: "b".to_string(),
            new_str: "c".to_string(),
        },
    };
    assert!(matches!(record.check(&read), Some(Confirmation::Approved)));
    assert!(matches!(record.check(&list), Some(Confirmation::Approved)));
    assert!(record.check(&create).is_none());
    assert!(record.check(&edit).is_none());
    assert!(record.check(&run("git status")).is_none());

    assert!(!record.grant(&create));
    assert!(record.file_mutations_approved);
    assert!(matches!(record.check(&create), Some(Confirmation::AutoApproved)));
    assert!(matches!(record.check(&edit), Some(Confirmation::AutoApproved)));
    assert!(record.check(&run("git status")).is_none());

    assert!(record.grant(&run("git status")));
    assert!(matches!(record.check(&run("git status")), Some(Confirmation::AutoApproved)));
    assert!(matches!(record.check(&run("git status -s")), Some(Confirmation::AutoApproved)));
    assert!(record.check(&run("git push")).is_none());

    assert!(!record.grant(&read));
    assert!(!record.grant(&run("echo 'open")));
    assert_eq!(record.approved_commands.len(), 1);
}

#[test]
fn a_record_from_saved_approvals_does_not_cover_files() {
    let mut approved = ApprovedCmds::new();
    approved.insert(&pattern("ls", None));
    let record = PermissionRecord::with_commands(approved);
    assert!(!record.file_mutations_approved);
    assert!(matches!(record.check(&run("ls -la")), Some(Confirmation::AutoApproved)));
}

#[test]
fn an_answer_becomes_a_decision() {
    let mut record = PermissionRecord::new();
    let call = run("git status");
    let (decision, save) = record.confirm(&call, Answer::Yes);
    assert!(matches!(decision, Confirmation::Approved));
    assert!(!save);
    assert!(record.check(&call).is_none());
    let (decision, save) = record.confirm(&call, Answer::No);
    assert!(matches!(decision, Confirmation::Rejected));
    assert!(!save);
    let (decision, save) = record.confirm(&call, Answer::Feedback("later".to_string()));
    assert!(matches!(decision, Confirmation::FeedbackProvided(t) if t == "later"));
    assert!(!save);
    assert_eq!(record.approved_commands.len(), 0);
    let (decision, save) = record.confirm(&call, Answer::Always);
    assert!(matches!(decision, Confirmation::AutoApproved));
    assert!(save);
    assert!(matches!(record.check(&call), Some(Confirmation::AutoApproved)));
}

#[test]
fn a_copy_of_the_approvals_holds_the_same_patterns() {
    let mut approved = ApprovedCmds::new();
    approved.insert(&pattern("git", Some("status")));
    approved.insert(&pattern("ls", None));
    let copy = approved.duplicate();
    assert_eq!(copy.len(), 2);
    assert!(copy.contains(&pattern("git", Some("status"))));
    assert!(copy.contains(&pattern("ls", None)));
    assert_eq!(copy.display(), approved.display());
    assert!(pattern("ls", None).same(&pattern("ls", None)));
    assert!(!pattern("ls", None).same(&pattern("ls", Some("-l"))));
    assert!(!pattern("ls", Some("-a")).same(&pattern("ls", Some("-l"))));
    let d = pattern("ls", Some("-a")).duplicate();
    assert_eq!(d.binary, "ls");
    assert_eq!(d.first_arg.as_deref(), Some("-a"));
}

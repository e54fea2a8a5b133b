use std::cell::RefCell;

use ledger_cli::cmd::category::Category;
use ledger_cli::cmd::exit::Exit;
use ledger_cli::cmd::load::Load;
use ledger_cli::cmd::store::Store;
use ledger_cli::cmd::{Cmd, CmdError, CmdErrorType, CmdResult, SyntaxErrorType};
use ledger_cli::editor::InputEvent;
use ledger_cli::ledger::Ledger;
use ledger_cli::registry::CommandRegistry;
use ledger_cli::runner::{classify_outcome, next_action, plan, Action, CliRunner, Dispatch, DispatchError};
use ledger_cli::tokenizer::tokenize_string;

struct TestCmd {
    last_called_args: RefCell<Vec<String>>,
    call_count: RefCell<u32>,
}

impl TestCmd {
    fn new() -> Self {
        TestCmd { last_called_args: RefCell::new(Vec::new()), call_count: RefCell::new(0) }
    }
}

impl Cmd for &TestCmd {
    fn names(&self) -> Vec<&'static str> {
        vec!["test", "t"]
    }

    fn help_text(&self) -> &'static str {
        "TEST"
    }

    fn execute(&self, args: &[String], _ledger: &mut Ledger, _out: &mut String) -> Result<CmdResult, CmdError> {
        for arg in args {
            self.last_called_args.borrow_mut().push(arg.clone())
        }
        *self.call_count.borrow_mut() += 1;
        Ok(CmdResult::Continue)
    }
}

/// Fails with the error it was built with.
struct FailingCmd {
    kind: u8,
}

impl Cmd for FailingCmd {
    fn names(&self) -> Vec<&'static str> {
        vec!["fail"]
    }

    fn help_text(&self) -> &'static str {
        "Usage: fail"
    }

    fn execute(&self, _args: &[String], _ledger: &mut Ledger, _out: &mut String) -> Result<CmdResult, CmdError> {
        let error_type = match self.kind {
            0 => CmdErrorType::Syntax(SyntaxErrorType::MissingSubcommand),
            1 => CmdErrorType::Argument("bad argument".to_string()),
            _ => CmdErrorType::Dependency("disk on fire".to_string()),
        };
        Err(CmdError::new("fail", error_type))
    }
}

#[test]
fn create() {
    let _ = CliRunner::<Exit>::create(vec![]);
}

#[test]
fn test_cmd_dispatch_with_args() {
    let cmd = TestCmd::new();
    let cmds = vec![&cmd];
    let mut runner = CliRunner::create(cmds);
    let mut out = String::new();

    assert!(runner.run_cmd(&String::from("test arg1 arg2"), &mut out).is_ok());
    assert_eq!(*cmd.last_called_args.borrow(), vec!["arg1", "arg2"]);
    assert_eq!(*cmd.call_count.borrow(), 1);
}

#[test]
fn test_cmd_dispatch_no_args() {
    let cmd = TestCmd::new();
    let cmds = vec![&cmd];
    let mut runner = CliRunner::create(cmds);
    let mut out = String::new();

    assert!(runner.run_cmd(&String::from("test"), &mut out).is_ok());
    assert_eq!(cmd.last_called_args.borrow().len(), 0);
    assert_eq!(*cmd.call_count.borrow(), 1);
}

#[test]
fn test_cmd_invalid_cmd() {
    let cmd = TestCmd::new();
    let cmds = vec![&cmd];
    let mut runner = CliRunner::create(cmds);
    let mut out = String::new();

    assert!(runner.run_cmd(&String::from("INVALID arg1 arg2"), &mut out).is_err());
    assert_eq!(*cmd.call_count.borrow(), 0);
}

#[test]
fn dispatch_passes_tokens_after_name_in_order() {
    let cmd = TestCmd::new();
    let mut runner = CliRunner::create(vec![&cmd]);
    let mut out = String::new();
    let r = runner.run_cmd("  t   'first arg' second \\ third  ", &mut out);
    assert!(matches!(r, Ok(CmdResult::Continue)));
    assert_eq!(*cmd.last_called_args.borrow(), vec!["first arg", "second", " third"]);
}

#[test]
fn dispatch_unknown_command_keeps_state_and_records_history() {
    let mut runner = CliRunner::create(vec![Category::new()]);
    let mut out = String::new();
    let action = runner.handle_input_event(InputEvent::Text("category --new food".to_string()), &mut out);
    assert!(matches!(action, Action::Listen));
    let action = runner.handle_input_event(InputEvent::Text("nosuch a b".to_string()), &mut out);
    assert!(matches!(action, Action::Listen));
    assert_eq!(out, "Could not find command named 'nosuch'\n");
    assert_eq!(runner.history_entries(), vec!["nosuch a b", "category --new food"]);
    let names: Vec<String> = runner
        .ledger()
        .get_transaction_categories()
        .categories()
        .iter()
        .map(|c| c.name().clone())
        .collect();
    assert_eq!(names, vec!["food"]);
}

#[test]
fn unknown_command_error_message() {
    let mut runner = CliRunner::create(vec![Exit::new()]);
    let mut out = String::new();
    match runner.run_cmd("frobnicate", &mut out) {
        Err(e @ DispatchError::UnknownCommand(_)) => {
            assert_eq!(e.message(), "Could not find command named 'frobnicate'")
        },
        _ => panic!("expected an unknown command"),
    }
    assert_eq!(out, "");
}

#[test]
fn empty_line_is_a_no_op() {
    let cmd = TestCmd::new();
    let mut runner = CliRunner::create(vec![&cmd]);
    let mut out = String::new();
    assert!(matches!(runner.run_cmd("   ", &mut out), Ok(CmdResult::Continue)));
    assert_eq!(*cmd.call_count.borrow(), 0);
    assert_eq!(out, "");
}

#[test]
fn help_lists_commands_with_aliases() {
    let mut runner = CliRunner::create(vec![Exit::new()]);
    let mut out = String::new();
    assert!(matches!(runner.run_cmd("HELP", &mut out), Ok(CmdResult::Continue)));
    assert_eq!(
        out,
        "The following commands are available:\n\n  exit  (ex, quit)\n\n'help COMMAND' will list detailed information on a given command.\n"
    );
}

#[test]
fn help_listing_without_aliases() {
    let mut runner = CliRunner::create(vec![Load::new()]);
    let mut out = String::new();
    runner.run_cmd("help", &mut out).ok();
    assert_eq!(
        out,
        "The following commands are available:\n\n  load\n\n'help COMMAND' will list detailed information on a given command.\n"
    );
}

#[test]
fn help_for_named_command() {
    let mut runner = CliRunner::create(vec![Exit::new()]);
    let mut out = String::new();
    runner.run_cmd("help quit", &mut out).ok();
    assert_eq!(out, "Usage: exit\nExits the application.\n");
}

#[test]
fn help_for_unknown_command() {
    let mut runner = CliRunner::create(vec![Exit::new()]);
    let mut out = String::new();
    assert!(runner.run_cmd("help nope", &mut out).is_ok());
    assert_eq!(out, "No command named 'nope'\n");
}

#[test]
fn dash_dash_help_prints_help_without_running() {
    let cmd = TestCmd::new();
    let mut runner = CliRunner::create(vec![&cmd]);
    let mut out = String::new();
    assert!(matches!(runner.run_cmd("test --HELP more", &mut out), Ok(CmdResult::Continue)));
    assert_eq!(out, "TEST\n");
    assert_eq!(*cmd.call_count.borrow(), 0);
}

#[test]
fn command_names_are_case_sensitive() {
    let cmd = TestCmd::new();
    let mut runner = CliRunner::create(vec![&cmd]);
    let mut out = String::new();
    assert!(runner.run_cmd("TEST", &mut out).is_err());
}

#[test]
fn syntax_error_is_reported_and_handled() {
    let mut runner = CliRunner::create(vec![FailingCmd { kind: 0 }]);
    let mut out = String::new();
    assert!(matches!(runner.run_cmd("fail", &mut out), Ok(CmdResult::Continue)));
    assert_eq!(out, "Syntax Error: Command 'fail' needs subcommand.\n");
}

#[test]
fn argument_error_is_returned() {
    let mut runner = CliRunner::create(vec![FailingCmd { kind: 1 }]);
    let mut out = String::new();
    match runner.run_cmd("fail", &mut out) {
        Err(e @ DispatchError::Command(_)) => assert_eq!(e.message(), "bad argument"),
        _ => panic!("expected an argument error"),
    }
}

#[test]
fn dependency_error_is_reported_and_loop_continues() {
    let mut runner = CliRunner::create(vec![FailingCmd { kind: 2 }]);
    let mut out = String::new();
    let action = runner.handle_input_event(InputEvent::Text("fail".to_string()), &mut out);
    assert!(matches!(action, Action::Listen));
    assert_eq!(out, "disk on fire\n");
}

#[test]
fn later_command_wins_on_colliding_names() {
    let first = TestCmd::new();
    let second = TestCmd::new();
    let mut runner = CliRunner::create(vec![&first, &second]);
    let mut out = String::new();
    runner.run_cmd("t x", &mut out).ok();
    assert_eq!(*first.call_count.borrow(), 0);
    assert_eq!(*second.call_count.borrow(), 1);
}

#[test]
fn plan_splits_name_and_args() {
    let mut registry = CommandRegistry::new();
    registry.register(vec!["exit", "ex"], "h1");
    registry.register(vec!["store", "save", "ex"], "h2");
    match plan(&registry, tokenize_string("ex a b")) {
        Dispatch::Execute(i, args) => {
            assert_eq!(i, 1);
            assert_eq!(args, vec!["a", "b"]);
        },
        _ => panic!("expected execute"),
    }
    assert!(matches!(plan(&registry, tokenize_string("exit --Help")), Dispatch::CommandHelp(0)));
    assert!(matches!(plan(&registry, tokenize_string("help save")), Dispatch::HelpFor(1)));
    assert!(matches!(plan(&registry, tokenize_string("")), Dispatch::Nothing));
    assert!(matches!(plan(&registry, tokenize_string("Help")), Dispatch::HelpListing));
    match plan(&registry, tokenize_string("help zzz")) {
        Dispatch::HelpUnknown(s) => assert_eq!(s, "zzz"),
        _ => panic!("expected unknown help"),
    }
    match plan(&registry, tokenize_string("zzz")) {
        Dispatch::Unknown(s) => assert_eq!(s, "zzz"),
        _ => panic!("expected unknown"),
    }
}

#[test]
fn exit_command_terminates() {
    let mut runner = CliRunner::create(vec![Exit::new()]);
    let mut out = String::new();
    let action = runner.handle_input_event(InputEvent::Text("quit".to_string()), &mut out);
    assert!(matches!(action, Action::Terminate));
    assert_eq!(out, "Exiting...\n");
}

#[test]
fn interrupt_terminates() {
    let mut runner = CliRunner::create(vec![Exit::new()]);
    let mut out = String::new();
    assert!(matches!(runner.handle_input_event(InputEvent::Interrupt, &mut out), Action::Terminate));
}

#[test]
fn execute_load_cmd() {
    let mut runner = CliRunner::create(vec![Load::new()]);
    let mut out = String::new();
    let action = runner.handle_input_event(InputEvent::Text("load".to_string()), &mut out);
    assert!(matches!(action, Action::LoadLedger));

    let mut test_ledger = Ledger::new_empty();
    test_ledger.add_new_account(String::from("test_account")).unwrap();
    let action = runner.finish_load(Ok(test_ledger), &mut out);
    assert!(matches!(action, Action::Listen));
    assert!(runner.ledger().find_account("test_account").is_some());
    assert_eq!(out, "Loading user data...\nLoaded!\n");
}

#[test]
fn failed_load_keeps_ledger() {
    let mut runner = CliRunner::create(vec![Load::new()]);
    let mut out = String::new();
    runner.handle_input_event(InputEvent::Text("load".to_string()), &mut out);
    runner.finish_load(Err("no such file".to_string()), &mut out);
    assert_eq!(out, "Loading user data...\nno such file\n");
    assert_eq!(runner.ledger().get_accounts().len(), 0);
}

#[test]
fn execute_store_cmd() {
    let mut runner = CliRunner::create(vec![Store::new()]);
    let mut out = String::new();
    let action = runner.handle_input_event(InputEvent::Text("save".to_string()), &mut out);
    assert!(matches!(action, Action::StoreLedger));
    let action = runner.finish_store(Ok(()), &mut out);
    assert!(matches!(action, Action::Listen));
    assert_eq!(out, "Saving user data...\nSaved!\n");
}

#[test]
fn failed_store_is_reported() {
    let mut runner = CliRunner::create(vec![Store::new()]);
    let mut out = String::new();
    runner.finish_store(Err("read-only".to_string()), &mut out);
    assert_eq!(out, "Failed to save data!\nread-only\n");
}

fn do_command_history_test(test_plan: Vec<(InputEvent, Option<&str>)>) {
    let mut runner = CliRunner::<Exit>::create(Vec::new());
    let mut out = String::new();
    let mut last = Action::Listen;
    for (event, expected_output) in test_plan {
        last = runner.handle_input_event(event, &mut out);
        match expected_output {
            Some(output) => match &last {
                Action::ShowInput(s) => assert_eq!(s, output),
                _ => panic!("expected the line {output} to be recalled"),
            },
            None => assert!(!matches!(last, Action::ShowInput(_))),
        }
    }
    assert!(matches!(last, Action::Terminate));
}

#[test]
fn test_command_history_one_cmd_up() {
    do_command_history_test(vec![
        (InputEvent::Text("cmd1".to_string()), None),
        (InputEvent::ArrowUp, Some("cmd1")),
        (InputEvent::Interrupt, None),
    ])
}

#[test]
fn test_command_history_one_cmd_down() {
    do_command_history_test(vec![
        (InputEvent::Text("cmd1".to_string()), None),
        (InputEvent::ArrowDown, Some("cmd1")),
        (InputEvent::Interrupt, None),
    ])
}

#[test]
fn test_command_history_cycle_through_history() {
    do_command_history_test(vec![
        (InputEvent::Text("cmd1".to_string()), None),
        (InputEvent::Text("cmd2".to_string()), None),
        (InputEvent::ArrowUp, Some("cmd2")),
        (InputEvent::ArrowUp, Some("cmd1")),
        (InputEvent::ArrowUp, Some("cmd2")),
        (InputEvent::Interrupt, None),
    ])
}

#[test]
fn test_command_history_forward_and_back() {
    do_command_history_test(vec![
        (InputEvent::Text("cmd1".to_string()), None),
        (InputEvent::Text("cmd2".to_string()), None),
        (InputEvent::Text("cmd3".to_string()), None),
        (InputEvent::ArrowUp, Some("cmd3")),
        (InputEvent::ArrowUp, Some("cmd2")),
        (InputEvent::ArrowUp, Some("cmd1")),
        (InputEvent::ArrowDown, Some("cmd2")),
        (InputEvent::Interrupt, None),
    ])
}

#[test]
fn test_command_history_additional_cmd() {
    do_command_history_test(vec![
        (InputEvent::Text("cmd1".to_string()), None),
        (InputEvent::ArrowUp, Some("cmd1")),
        (InputEvent::Text("cmd2".to_string()), None),
        (InputEvent::ArrowUp, Some("cmd2")),
        (InputEvent::ArrowUp, Some("cmd1")),
        (InputEvent::Interrupt, None),
    ])
}

#[test]
fn paging_wraps_after_last_entry() {
    do_command_history_test(vec![
        (InputEvent::Text("cmd1".to_string()), None),
        (InputEvent::Text("cmd2".to_string()), None),
        (InputEvent::Text("cmd3".to_string()), None),
        (InputEvent::ArrowUp, Some("cmd3")),
        (InputEvent::ArrowUp, Some("cmd2")),
        (InputEvent::ArrowUp, Some("cmd1")),
        (InputEvent::ArrowUp, Some("cmd3")),
        (InputEvent::Interrupt, None),
    ])
}

#[test]
fn paging_down_from_first_entry_wraps_to_oldest() {
    do_command_history_test(vec![
        (InputEvent::Text("cmd1".to_string()), None),
        (InputEvent::Text("cmd2".to_string()), None),
        (InputEvent::ArrowUp, Some("cmd2")),
        (InputEvent::ArrowDown, Some("cmd1")),
        (InputEvent::Interrupt, None),
    ])
}

#[test]
fn arrow_with_empty_history_does_nothing() {
    do_command_history_test(vec![
        (InputEvent::ArrowUp, None),
        (InputEvent::ArrowDown, None),
        (InputEvent::Interrupt, None),
    ])
}

#[test]
fn classify_outcome_cases() {
    let mut out = String::new();
    assert!(matches!(classify_outcome(Ok(CmdResult::SignalTerminate), &mut out), Ok(CmdResult::SignalTerminate)));
    assert_eq!(out, "");
    let e = CmdError::new("x", CmdErrorType::Syntax(SyntaxErrorType::MissingParam("give a name".to_string())));
    assert!(matches!(classify_outcome(Err(e), &mut out), Ok(CmdResult::Continue)));
    assert_eq!(out, "Syntax Error: give a name\n");
    out.clear();
    let e = CmdError::new("x", CmdErrorType::Dependency("gone".to_string()));
    match classify_outcome(Err(e), &mut out) {
        Err(DispatchError::Command(c)) => assert_eq!(c.message(), "gone"),
        _ => panic!("expected the error to be passed on"),
    }
    assert_eq!(out, "");
}

#[test]
fn next_action_cases() {
    let mut out = String::new();
    assert!(matches!(next_action(Ok(CmdResult::Continue), &mut out), Action::Listen));
    assert!(matches!(next_action(Ok(CmdResult::SignalTerminate), &mut out), Action::Terminate));
    assert!(matches!(next_action(Ok(CmdResult::LoadRequested), &mut out), Action::LoadLedger));
    assert!(matches!(next_action(Ok(CmdResult::StoreRequested), &mut out), Action::StoreLedger));
    assert_eq!(out, "");
    let r = next_action(Err(DispatchError::UnknownCommand("zz".to_string())), &mut out);
    assert!(matches!(r, Action::Listen));
    assert_eq!(out, "Could not find command named 'zz'\n");
}

#[test]
fn every_name_of_every_command_resolves_last_wins() {
    let mut runner = CliRunner::create(vec![Exit::new()]);
    let mut out = String::new();
    for name in ["exit", "ex", "quit"] {
        out.clear();
        let r = runner.run_cmd(&format!("help {name}"), &mut out);
        assert!(r.is_ok());
        assert_eq!(out, "Usage: exit\nExits the application.\n");
    }
}

#[test]
fn add_input_to_history_while_paging() {
    let mut runner = CliRunner::<Exit>::create(vec![]);
    let mut out = String::new();
    runner.add_input_to_history("cmd1".to_string());
    runner.add_input_to_history("cmd2".to_string());
    assert!(matches!(runner.handle_input_event(InputEvent::ArrowUp, &mut out), Action::ShowInput(ref s) if s == "cmd2"));
    runner.add_input_to_history("cmd3".to_string());
    assert!(matches!(runner.handle_input_event(InputEvent::ArrowUp, &mut out), Action::ShowInput(ref s) if s == "cmd3"));
}

use reedline_repl_rs::command::ReplCommand;
use reedline_repl_rs::error::Error;
use reedline_repl_rs::parameter::Parameter;
use reedline_repl_rs::repl::{find_command, FinishAction, InvokeOutcome, LineAction, Repl};
use reedline_repl_rs::{paint_green_bold, paint_yellow_bold};

fn sample_repl() -> Repl<i32> {
    Repl::new(0)
        .with_name("MyApp")
        .with_version("1.0")
        .with_description("a sample app")
        .with_command(
            ReplCommand::new("greet")
                .with_about("Greets someone")
                .with_parameter(Parameter::new("who").set_required(true).unwrap()),
        )
}

#[test]
fn paint_wraps_in_style_codes() {
    assert_eq!(paint_green_bold("hi"), "\u{1b}[1;32mhi\u{1b}[0m");
    assert_eq!(paint_yellow_bold("hi"), "\u{1b}[1;33mhi\u{1b}[0m");
}

#[test]
fn new_repl_prompt_is_name_in_bold_green() {
    let repl: Repl<()> = Repl::new(());
    assert_eq!(repl.prompt.prefix(), "\u{1b}[1;32mrepl> \u{1b}[0m");
    let repl = repl.with_name("MyApp");
    assert_eq!(repl.prompt.prefix(), "\u{1b}[1;32mMyApp> \u{1b}[0m");
    assert_eq!(repl.name, "MyApp");
}

#[test]
fn with_prompt_is_taken_verbatim() {
    let repl: Repl<()> = Repl::new(()).with_prompt("$ ");
    assert_eq!(repl.prompt.prefix(), "$ ");
}

#[test]
fn lookup_finds_registered_commands_and_no_alias() {
    let repl = sample_repl().with_command(ReplCommand::new("bye").with_about("Says goodbye"));
    let greet = repl.lookup("greet").expect("greet registered");
    let bye = repl.lookup("bye").expect("bye registered");
    assert_eq!(greet.name, "greet");
    assert_eq!(bye.name, "bye");
    assert!(repl.lookup("missing").is_none());
    assert!(find_command(&repl.commands, "greet").is_some());
    assert_eq!(repl.all().len(), 2);
}

#[test]
fn reregistering_a_name_replaces_the_definition() {
    let repl: Repl<()> = Repl::new(())
        .with_command(ReplCommand::new("greet").with_about("old"))
        .with_command(ReplCommand::new("greet").with_about("new"));
    assert_eq!(repl.commands.len(), 1);
    let greet = find_command(&repl.commands, "greet").unwrap();
    assert_eq!(greet.about.as_deref(), Some("new"));
}

#[test]
fn empty_and_whitespace_lines_are_ignored() {
    let mut repl = sample_repl();
    assert!(matches!(repl.process_line(""), LineAction::Ignored));
    assert!(matches!(repl.process_line("   "), LineAction::Ignored));
    assert!(!repl.should_stop());
}

#[test]
fn unknown_command_yields_unknown_command_error() {
    let mut repl = sample_repl();
    match repl.process_line("frobnicate now") {
        LineAction::Unknown { error: Error::UnknownCommand(name) } => {
            assert_eq!(name, "frobnicate");
        },
        _ => panic!("expected an unknown-command error"),
    }
    assert!(!repl.should_stop());
}

#[test]
fn registered_command_is_invoked_with_its_tokens() {
    let mut repl = sample_repl();
    match repl.process_line("greet \"mrs smith\"") {
        LineAction::Invoke { name, args, is_async } => {
            assert_eq!(name, "greet");
            assert_eq!(args, vec!["mrs smith".to_string()]);
            assert!(!is_async);
        },
        _ => panic!("expected an invocation"),
    }
}

#[test]
fn async_command_is_flagged_async() {
    let mut repl: Repl<()> =
        Repl::new(()).with_command_async(ReplCommand::new_async("fetch"));
    match repl.process_line("fetch") {
        LineAction::Invoke { name, is_async, .. } => {
            assert_eq!(name, "fetch");
            assert!(is_async);
        },
        _ => panic!("expected an invocation"),
    }
}

#[test]
fn registered_command_shadows_builtins() {
    let mut repl: Repl<()> = Repl::new(()).with_command(ReplCommand::new("exit"));
    assert!(matches!(repl.process_line("exit"), LineAction::Invoke { .. }));
    assert!(!repl.should_stop());
}

#[test]
fn help_lists_every_registered_command_once() {
    let mut repl = sample_repl().with_command(ReplCommand::new("bye").with_about("Says goodbye"));
    let expected = format!(
        "{} 1.0\na sample app\n\n{}\n    greet    Greets someone\n    bye    Says goodbye\n",
        paint_green_bold("MyApp"),
        paint_yellow_bold("COMMANDS:"),
    );
    match repl.process_line("help") {
        LineAction::Help { text } => assert_eq!(text, expected),
        _ => panic!("expected help text"),
    }
}

#[test]
fn help_for_one_command_renders_usage() {
    let mut repl = sample_repl();
    let expected = "greet\nGreets someone\n\nUSAGE:\n    greet <who>\n\nARGS:\n    who\n";
    match repl.process_line("help greet") {
        LineAction::Help { text } => assert_eq!(text, expected),
        _ => panic!("expected help text"),
    }
}

#[test]
fn help_for_unknown_topic_is_a_soft_diagnostic() {
    let mut repl = sample_repl();
    match repl.process_line("help zzz") {
        LineAction::HelpNotFound { text } => {
            assert_eq!(text, "Help not found for command 'zzz'");
        },
        _ => panic!("expected a help-not-found diagnostic"),
    }
    assert!(!repl.should_stop());
}

#[test]
fn exit_sets_termination_and_is_idempotent() {
    let mut repl = sample_repl();
    assert!(!repl.should_stop());
    assert!(matches!(repl.process_line("exit"), LineAction::Exit));
    assert!(repl.should_stop());
    assert!(matches!(repl.process_line("exit"), LineAction::Exit));
    assert!(repl.should_stop());
}

#[test]
fn finish_command_prints_output_and_schedules_hook() {
    let repl = sample_repl();
    let FinishAction { output, run_hook } =
        repl.finish_command(InvokeOutcome::Success(Some("x".to_string())));
    assert_eq!(output.as_deref(), Some("x"));
    assert!(run_hook);
    let FinishAction { output, run_hook } =
        repl.finish_command(InvokeOutcome::Success(None));
    assert!(output.is_none());
    assert!(run_hook);
}

#[test]
fn hook_runs_after_callback_failure_but_not_after_binding_failure() {
    let repl = sample_repl();
    let failed = repl.finish_command(InvokeOutcome::CallbackFailed);
    assert!(failed.run_hook);
    assert!(failed.output.is_none());
    let unbound = repl.finish_command(InvokeOutcome::BindFailed);
    assert!(!unbound.run_hook);
    assert!(unbound.output.is_none());
}

#[test]
fn round_trip_leaves_prompt_unchanged_unless_hook_returns_one() {
    let mut repl = sample_repl();
    let before = repl.prompt.prefix().to_string();
    match repl.process_line("greet world") {
        LineAction::Invoke { .. } => {},
        _ => panic!("expected an invocation"),
    }
    let finish = repl.finish_command(InvokeOutcome::Success(Some("x".to_string())));
    assert_eq!(finish.output.as_deref(), Some("x"));
    assert_eq!(repl.prompt.prefix(), before);
    repl.apply_hook_result(None);
    assert_eq!(repl.prompt.prefix(), before);
    repl.apply_hook_result(Some("fresh> ".to_string()));
    assert_eq!(repl.prompt.prefix(), "fresh> ");
}

#[test]
fn init_lines_come_back_in_the_order_given() {
    let lines = vec!["first".to_string(), "second".to_string()];
    let mut repl: Repl<()> = Repl::new(()).with_init_commands(&lines);
    assert_eq!(repl.take_init_line().as_deref(), Some("first"));
    assert_eq!(repl.take_init_line().as_deref(), Some("second"));
    assert!(repl.take_init_line().is_none());
}

#[test]
fn signal_policies_follow_configuration() {
    let repl: Repl<()> = Repl::new(());
    assert!(!repl.stops_on_interrupt());
    assert!(repl.stops_on_end_of_input());
    let repl = repl.with_stop_on_ctrl_c(true).with_stop_on_ctrl_d(false);
    assert!(repl.stops_on_interrupt());
    assert!(!repl.stops_on_end_of_input());
}

#[test]
fn configuration_builders_store_their_values() {
    let repl: Repl<()> = Repl::new(())
        .with_banner("welcome")
        .with_history("hist.txt", 100)
        .with_quick_completions(false)
        .with_partial_completions(true)
        .with_hinter_disabled();
    assert_eq!(repl.banner.as_deref(), Some("welcome"));
    assert_eq!(repl.history.as_deref(), Some("hist.txt"));
    assert_eq!(repl.history_capacity, Some(100));
    assert!(!repl.quick_completions);
    assert!(repl.partial_completions);
    assert!(!repl.hinter_enabled);
}

#[test]
fn context_is_kept_across_dispatches() {
    let mut repl: Repl<Vec<String>> = Repl::new(Vec::new());
    repl.context.push("kept".to_string());
    let _ = repl.process_line("help");
    assert_eq!(repl.context, vec!["kept".to_string()]);
}

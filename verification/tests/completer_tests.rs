use reedline_repl_rs::command::ReplCommand;
use reedline_repl_rs::completer::ReplCompleter;
use reedline_repl_rs::parameter::Parameter;
use reedline_repl_rs::repl::Repl;

fn completer_for(repl: &Repl<()>) -> ReplCompleter {
    ReplCompleter::new(&repl.commands)
}

#[test]
fn command_prefix_matches_include_builtin_help() {
    let repl: Repl<()> = Repl::new(())
        .with_command(ReplCommand::new("hello"))
        .with_command(ReplCommand::new("help"))
        .with_command(ReplCommand::new("bye"));
    let completer = completer_for(&repl);
    let suggestions = completer.complete("he", 2);
    let values: Vec<&str> = suggestions.iter().map(|s| s.value.as_str()).collect();
    assert_eq!(values, vec!["hello", "help"]);
    for s in &suggestions {
        assert_eq!(s.span_start, 0);
        assert_eq!(s.span_end, 2);
        assert!(s.append_whitespace);
    }
}

#[test]
fn empty_prefix_offers_every_command_and_help() {
    let repl: Repl<()> = Repl::new(())
        .with_command(ReplCommand::new("alpha"))
        .with_command(ReplCommand::new("beta"));
    let completer = completer_for(&repl);
    let suggestions = completer.complete("", 0);
    let values: Vec<&str> = suggestions.iter().map(|s| s.value.as_str()).collect();
    assert_eq!(values, vec!["alpha", "beta", "help"]);
}

#[test]
fn long_flag_is_offered_for_its_prefix() {
    let repl: Repl<()> = Repl::new(()).with_command(
        ReplCommand::new("hello")
            .with_parameter(Parameter::new("who").with_help("who to greet")),
    );
    let completer = completer_for(&repl);
    let suggestions = completer.complete("hello --w", 9);
    assert_eq!(suggestions.len(), 1);
    assert_eq!(suggestions[0].value, "--who");
    assert_eq!(suggestions[0].description.as_deref(), Some("who to greet"));
    assert_eq!(suggestions[0].span_start, 6);
    assert_eq!(suggestions[0].span_end, 9);
}

#[test]
fn short_flag_is_offered_when_declared() {
    let repl: Repl<()> = Repl::new(()).with_command(
        ReplCommand::new("hello").with_parameter(Parameter::new("who").with_short('w')),
    );
    let completer = completer_for(&repl);
    let suggestions = completer.complete("hello -", 7);
    let values: Vec<&str> = suggestions.iter().map(|s| s.value.as_str()).collect();
    assert_eq!(values, vec!["--who", "-w"]);
}

#[test]
fn allowed_values_of_the_positional_parameter_are_offered() {
    let repl: Repl<()> = Repl::new(()).with_command(
        ReplCommand::new("paint")
            .with_parameter(
                Parameter::new("color")
                    .add_allowed_value("red", Some("warm"))
                    .add_allowed_value("green", None),
            )
            .with_parameter(Parameter::new("shade").add_allowed_value("dark", None)),
    );
    let completer = completer_for(&repl);
    let suggestions = completer.complete("paint r", 7);
    let values: Vec<&str> = suggestions.iter().map(|s| s.value.as_str()).collect();
    assert_eq!(values, vec!["red"]);
    assert_eq!(suggestions[0].description.as_deref(), Some("warm"));
}

#[test]
fn positional_index_advances_past_completed_tokens() {
    let repl: Repl<()> = Repl::new(()).with_command(
        ReplCommand::new("paint")
            .with_parameter(Parameter::new("color").add_allowed_value("red", None))
            .with_parameter(Parameter::new("shade").add_allowed_value("dark", None)),
    );
    let completer = completer_for(&repl);
    let suggestions = completer.complete("paint red d", 11);
    let values: Vec<&str> = suggestions.iter().map(|s| s.value.as_str()).collect();
    assert_eq!(values, vec!["dark"]);
}

#[test]
fn trailing_space_offers_the_next_parameters_values_and_flags() {
    let repl: Repl<()> = Repl::new(()).with_command(
        ReplCommand::new("paint")
            .with_parameter(Parameter::new("color").add_allowed_value("red", None)),
    );
    let completer = completer_for(&repl);
    let suggestions = completer.complete("paint ", 6);
    let values: Vec<&str> = suggestions.iter().map(|s| s.value.as_str()).collect();
    assert_eq!(values, vec!["red", "--color"]);
}

#[test]
fn index_past_the_schema_offers_flags_only() {
    let repl: Repl<()> = Repl::new(()).with_command(
        ReplCommand::new("paint")
            .with_parameter(Parameter::new("color").add_allowed_value("red", None)),
    );
    let completer = completer_for(&repl);
    let suggestions = completer.complete("paint red extra -", 17);
    let values: Vec<&str> = suggestions.iter().map(|s| s.value.as_str()).collect();
    assert_eq!(values, vec!["--color"]);
}

#[test]
fn unknown_command_offers_nothing() {
    let repl: Repl<()> = Repl::new(()).with_command(ReplCommand::new("hello"));
    let completer = completer_for(&repl);
    let suggestions = completer.complete("nosuch --w", 10);
    assert!(suggestions.is_empty());
}

#[test]
fn only_the_line_up_to_the_cursor_matters() {
    let repl: Repl<()> = Repl::new(())
        .with_command(ReplCommand::new("hello"))
        .with_command(ReplCommand::new("bye"));
    let completer = completer_for(&repl);
    let suggestions = completer.complete("hel trailing junk", 3);
    let values: Vec<&str> = suggestions.iter().map(|s| s.value.as_str()).collect();
    assert_eq!(values, vec!["hello", "help"]);
}

#[test]
fn adjacent_textual_duplicates_collapse() {
    let repl: Repl<()> = Repl::new(())
        .with_command(ReplCommand::new("hello"))
        .with_command(ReplCommand::new("help").with_about("shadowing help"));
    let completer = completer_for(&repl);
    let suggestions = completer.complete("help", 4);
    let values: Vec<&str> = suggestions.iter().map(|s| s.value.as_str()).collect();
    assert_eq!(values, vec!["help"]);
    assert_eq!(suggestions[0].description.as_deref(), Some("shadowing help"));
}

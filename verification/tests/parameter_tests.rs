use reedline_repl_rs::error::Error;
use reedline_repl_rs::parameter::Parameter;

#[test]
fn new_parameter_defaults() {
    let p = Parameter::new("who");
    assert_eq!(p.name, "who");
    assert!(!p.required);
    assert!(p.default.is_none());
    assert!(p.help_summary.is_none());
    assert!(p.allowed_values.is_empty());
    assert!(p.short.is_none());
}

#[test]
fn set_required_on_plain_parameter() {
    let p = Parameter::new("who").set_required(true).unwrap();
    assert!(p.required);
}

#[test]
fn set_required_after_default_is_refused() {
    let p = Parameter::new("who").set_default("world").unwrap();
    match p.set_required(true) {
        Err(Error::IllegalRequiredError(name)) => assert_eq!(name, "who"),
        _ => panic!("expected IllegalRequiredError"),
    }
}

#[test]
fn set_default_on_required_parameter_is_refused() {
    let p = Parameter::new("who").set_required(true).unwrap();
    match p.set_default("world") {
        Err(Error::IllegalDefaultError(name)) => assert_eq!(name, "who"),
        _ => panic!("expected IllegalDefaultError"),
    }
}

#[test]
fn set_default_on_optional_parameter() {
    let p = Parameter::new("who").set_default("world").unwrap();
    assert_eq!(p.default.as_deref(), Some("world"));
}

#[test]
fn with_help_and_short() {
    let p = Parameter::new("who").with_help("who to greet").with_short('w');
    assert_eq!(p.help_summary.as_deref(), Some("who to greet"));
    assert_eq!(p.short, Some('w'));
}

#[test]
fn add_allowed_value_appends_in_order() {
    let p = Parameter::new("color")
        .add_allowed_value("red", Some("warm"))
        .add_allowed_value("green", None);
    assert_eq!(p.allowed_values.len(), 2);
    assert_eq!(p.allowed_values[0].0, "red");
    assert_eq!(p.allowed_values[0].1.as_deref(), Some("warm"));
    assert_eq!(p.allowed_values[1].0, "green");
    assert!(p.allowed_values[1].1.is_none());
}

#[test]
fn add_allowed_value_replaces_help_of_present_key() {
    let p = Parameter::new("color")
        .add_allowed_value("red", Some("warm"))
        .add_allowed_value("green", None)
        .add_allowed_value("red", Some("very warm"));
    assert_eq!(p.allowed_values.len(), 2);
    assert_eq!(p.allowed_values[0].0, "red");
    assert_eq!(p.allowed_values[0].1.as_deref(), Some("very warm"));
}

#[test]
fn error_messages() {
    assert_eq!(
        Error::UnknownCommand("frob".to_string()).message(),
        "Unknown command: frob"
    );
    assert_eq!(
        Error::IllegalRequiredError("who".to_string()).message(),
        "Parameter 'who' cannot be required: it already has a default"
    );
    assert_eq!(
        Error::IllegalDefaultError("who".to_string()).message(),
        "Parameter 'who' cannot have a default: it is required"
    );
}

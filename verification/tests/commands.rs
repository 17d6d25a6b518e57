use baldguard::command::{Command, CommandError};
use baldguard::session::Syntax;

fn read(text: &str) -> Result<Option<Command>, CommandError> {
    Command::new(text, "guard_bot")
}

#[test]
fn text_that_is_no_command() {
    assert!(matches!(read(""), Ok(None)));
    assert!(matches!(read("hello"), Ok(None)));
    assert!(matches!(read(" /help"), Ok(None)));
    assert!(matches!(read("help /help"), Ok(None)));
}

#[test]
fn commands_without_an_argument() {
    assert!(matches!(read("/get_filter"), Ok(Some(Command::GetFilter))));
    assert!(matches!(read("/get_options"), Ok(Some(Command::GetOptions))));
    assert!(matches!(read("/get_variables"), Ok(Some(Command::GetVariables))));
    assert!(matches!(read("/get_message_variables"), Ok(Some(Command::GetMessageVariables))));
    assert!(matches!(read("/help"), Ok(Some(Command::Help))));
    assert!(matches!(read("/help   "), Ok(Some(Command::Help))));
}

#[test]
fn commands_with_an_argument() {
    assert!(matches!(
        read("/set_filter text matches \"spam\""),
        Ok(Some(Command::SetFilter(ref a))) if a == "text matches \"spam\""
    ));
    assert!(matches!(
        read("/set_option debug_print := true"),
        Ok(Some(Command::SetOption(ref a))) if a == "debug_print := true"
    ));
    assert!(matches!(
        read("/set_variable limit := 3"),
        Ok(Some(Command::SetVariable(ref a))) if a == "limit := 3"
    ));
    assert!(matches!(
        read("/unset_variable limit"),
        Ok(Some(Command::UnsetVariable(ref a))) if a == "limit"
    ));
    assert!(matches!(read("/eval   1 + 2 "), Ok(Some(Command::Eval(ref a))) if a == "1 + 2 "));
    assert!(matches!(read("/eval\n1"), Ok(Some(Command::Eval(ref a))) if a == "1"));
}

#[test]
fn a_missing_argument() {
    for name in ["/set_filter", "/set_option", "/set_variable", "/unset_variable", "/eval"] {
        let r = read(name);
        assert!(matches!(
            r,
            Err(CommandError::InvalidArguments { ref command, argument_is_expected: true }) if command == name
        ));
        let r = read(&format!("{}   ", name));
        assert!(matches!(
            r,
            Err(CommandError::InvalidArguments { ref command, argument_is_expected: true }) if command == name
        ));
    }
}

#[test]
fn an_unexpected_argument() {
    for name in ["/get_filter", "/get_options", "/get_variables", "/get_message_variables", "/help"]
    {
        let r = read(&format!("{} now", name));
        assert!(matches!(
            r,
            Err(CommandError::InvalidArguments { ref command, argument_is_expected: false }) if command == name
        ));
    }
}

#[test]
fn an_unknown_command() {
    assert!(matches!(read("/start"), Err(CommandError::InvalidCommand(ref c)) if c == "/start"));
    assert!(matches!(read("/"), Err(CommandError::InvalidCommand(ref c)) if c == "/"));
    assert!(matches!(read("/Help"), Err(CommandError::InvalidCommand(ref c)) if c == "/Help"));
    assert!(matches!(read("/help2 x"), Err(CommandError::InvalidCommand(ref c)) if c == "/help2"));
    assert!(matches!(
        read("/start@guard_bot"),
        Err(CommandError::InvalidCommand(ref c)) if c == "/start"
    ));
}

#[test]
fn a_command_for_a_bot() {
    assert!(matches!(read("/help@guard_bot"), Ok(Some(Command::Help))));
    assert!(matches!(read("/help@other_bot"), Ok(None)));
    assert!(matches!(read("/help@Guard_bot"), Ok(None)));
    assert!(matches!(read("/start@other_bot"), Ok(None)));
    assert!(matches!(read("/help@"), Ok(Some(Command::Help))));
    assert!(matches!(
        read("/eval@guard_bot 1"),
        Ok(Some(Command::Eval(ref a))) if a == "1"
    ));
    assert!(matches!(read("/eval@other_bot"), Ok(None)));
    assert!(matches!(read("/help@guard_bot@x"), Ok(None)));
}

#[test]
fn who_may_give_a_command() {
    assert!(Command::SetFilter("x".to_string()).requires_admin_rights());
    assert!(Command::SetOption("x".to_string()).requires_admin_rights());
    assert!(Command::SetVariable("x".to_string()).requires_admin_rights());
    assert!(Command::UnsetVariable("x".to_string()).requires_admin_rights());
    assert!(!Command::GetFilter.requires_admin_rights());
    assert!(!Command::GetOptions.requires_admin_rights());
    assert!(!Command::GetVariables.requires_admin_rights());
    assert!(!Command::GetMessageVariables.requires_admin_rights());
    assert!(!Command::Eval("x".to_string()).requires_admin_rights());
    assert!(!Command::Help.requires_admin_rights());
}

#[test]
fn what_an_argument_is_parsed_as() {
    assert_eq!(Command::SetFilter("x".to_string()).syntax(), Syntax::Expression);
    assert_eq!(Command::Eval("x".to_string()).syntax(), Syntax::Expression);
    assert_eq!(Command::SetOption("x".to_string()).syntax(), Syntax::Assignment);
    assert_eq!(Command::SetVariable("x".to_string()).syntax(), Syntax::Assignment);
    assert_eq!(Command::UnsetVariable("x".to_string()).syntax(), Syntax::Identifier);
    assert_eq!(Command::Help.syntax(), Syntax::Nothing);
    assert_eq!(Command::GetFilter.syntax(), Syntax::Nothing);
    assert_eq!(Command::SetFilter("x y".to_string()).argument(), Some("x y"));
    assert_eq!(Command::UnsetVariable("v".to_string()).argument(), Some("v"));
    assert_eq!(Command::Help.argument(), None);
    assert_eq!(Command::GetVariables.argument(), None);
}

#[test]
fn command_errors_render_their_messages() {
    assert_eq!(
        CommandError::new_invalid_command("/start".to_string()).to_string(),
        "invalid command \"/start\""
    );
    assert_eq!(
        CommandError::new_invalid_arguments("/eval".to_string(), true).to_string(),
        "command \"/eval\" expected an argument"
    );
    assert_eq!(
        CommandError::new_invalid_arguments("/help".to_string(), false).to_string(),
        "command \"/help\" was not expecting an argument"
    );
}

use baldguard::chat::{Chat, Filter};
use baldguard::command::{Command, CommandError};
use baldguard::message::MessageVariables;
use baldguard::session::{
    handle_message, Parsed, ParsedCommand, Request, SendUpdate, Session, HELP_STRING,
};
use baldguard::tree::{Assignment, Expression, Literal, Operator};
use baldguard::value::Value;

fn request(command: Result<Option<ParsedCommand>, CommandError>, from_admin: bool) -> Request {
    Request {
        command,
        from_admin,
        message_id: 7,
        variables: MessageVariables::default(),
        reply: None,
    }
}

fn plain(text: &str) -> Request {
    let mut variables = MessageVariables::default();
    variables.has_text = true;
    variables.text = Some(text.to_string());
    Request { command: Ok(None), from_admin: false, message_id: 7, variables, reply: None }
}

fn shown(updates: &[SendUpdate]) -> Vec<String> {
    updates
        .iter()
        .map(|u| match u {
            SendUpdate::Message(text) => format!("say {}", text),
            SendUpdate::DeleteMessage(id) => format!("delete {}", id),
        })
        .collect()
}

fn text_matches(pattern: &str) -> Expression {
    Expression::BinaryOp {
        left: Box::new(Expression::Identifier("text".to_string())),
        operator: Operator::Matches,
        right: Box::new(Expression::Literal(Literal::Str(pattern.to_string()))),
    }
}

fn chat_with_filter(expression: Expression) -> Chat {
    let mut chat = Chat::default();
    chat.filter = Some(Filter::new("the filter".to_string(), expression));
    chat
}

fn assignment(identifier: &str, expression: Expression) -> Assignment {
    Assignment { identifier: identifier.to_string(), expression }
}

#[test]
fn a_message_that_the_filter_matches_is_deleted() {
    let mut chat = chat_with_filter(text_matches("spam"));
    let updates = handle_message(&mut chat, plain("buy spam now"));
    assert_eq!(shown(&updates), vec!["delete 7", "say message filtered"]);
    let updates = handle_message(&mut chat, plain("hello"));
    assert!(updates.is_empty());
}

#[test]
fn a_deletion_is_reported_only_where_asked() {
    let mut chat = chat_with_filter(text_matches("spam"));
    chat.settings.report_filtered = false;
    let updates = handle_message(&mut chat, plain("spam"));
    assert_eq!(shown(&updates), vec!["delete 7"]);
}

#[test]
fn a_disabled_filter_deletes_nothing() {
    let mut chat = chat_with_filter(text_matches("spam"));
    chat.settings.filter_enabled = false;
    let updates = handle_message(&mut chat, plain("spam"));
    assert!(updates.is_empty());
}

#[test]
fn a_chat_without_a_filter_lets_everything_through() {
    let mut chat = Chat::default();
    let updates = handle_message(&mut chat, plain("spam"));
    assert!(updates.is_empty());
}

#[test]
fn a_failing_filter_is_silent_unless_debugging() {
    // `text` is empty for a message without text, and `empty matches str` fails
    let mut chat = chat_with_filter(text_matches("spam"));
    let updates = handle_message(&mut chat, request(Ok(None), false));
    assert!(updates.is_empty());
    chat.settings.debug_print = true;
    let updates = handle_message(&mut chat, request(Ok(None), false));
    assert_eq!(
        shown(&updates),
        vec!["say error: failed to evaluate filter: value error: unsupported operation empty matches str"]
    );
}

#[test]
fn a_filter_that_yields_no_boolean_is_silent_unless_debugging() {
    let mut chat = chat_with_filter(Expression::Literal(Literal::Int(1)));
    let updates = handle_message(&mut chat, plain("x"));
    assert!(updates.is_empty());
    chat.settings.debug_print = true;
    let updates = handle_message(&mut chat, plain("x"));
    assert_eq!(shown(&updates), vec!["say error: filter evaluated to non-bool value"]);
}

#[test]
fn the_filter_reads_user_variables_over_message_variables() {
    let mut chat = chat_with_filter(Expression::BinaryOp {
        left: Box::new(Expression::Identifier("text".to_string())),
        operator: Operator::Matches,
        right: Box::new(Expression::Identifier("banned".to_string())),
    });
    chat.variables.put("banned".to_string(), Value::Str("spam|scam".to_string()));
    let updates = handle_message(&mut chat, plain("a scam"));
    assert_eq!(shown(&updates), vec!["delete 7", "say message filtered"]);
    chat.variables.put("text".to_string(), Value::Str("harmless".to_string()));
    let updates = handle_message(&mut chat, plain("a scam"));
    assert!(updates.is_empty());
}

#[test]
fn set_filter_needs_an_administrator() {
    let mut chat = Chat::default();
    let command = ParsedCommand::SetFilter {
        text: "text matches \"spam\"".to_string(),
        parsed: Ok(text_matches("spam")),
    };
    let updates = handle_message(&mut chat, request(Ok(Some(command)), false));
    assert_eq!(shown(&updates), vec!["say error: permission denied"]);
    assert!(chat.filter.is_none());
}

#[test]
fn a_refused_command_goes_through_the_filter() {
    let mut chat = chat_with_filter(Expression::Literal(Literal::Bool(true)));
    let command = ParsedCommand::UnsetVariable(Ok("x".to_string()));
    let updates = handle_message(&mut chat, request(Ok(Some(command)), false));
    assert_eq!(
        shown(&updates),
        vec!["say error: permission denied", "delete 7", "say message filtered"]
    );
    let error = CommandError::new_invalid_command("/start".to_string());
    let updates = handle_message(&mut chat, request(Err(error), true));
    assert_eq!(
        shown(&updates),
        vec!["say error: invalid command \"/start\"", "delete 7", "say message filtered"]
    );
}

#[test]
fn a_command_that_was_carried_out_is_not_filtered() {
    let mut chat = chat_with_filter(Expression::Literal(Literal::Bool(true)));
    let updates = handle_message(&mut chat, request(Ok(Some(ParsedCommand::Help)), false));
    assert_eq!(shown(&updates), vec![format!("say {}", HELP_STRING)]);
}

#[test]
fn set_filter_stores_the_filter() {
    let mut chat = Chat::default();
    let command = ParsedCommand::SetFilter {
        text: "text matches \"spam\"".to_string(),
        parsed: Ok(text_matches("spam")),
    };
    let updates = handle_message(&mut chat, request(Ok(Some(command)), true));
    assert_eq!(shown(&updates), vec!["say success"]);
    assert_eq!(chat.filter.as_ref().unwrap().text, "text matches \"spam\"");
    let updates = handle_message(&mut chat, request(Ok(Some(ParsedCommand::GetFilter)), false));
    assert_eq!(shown(&updates), vec!["say text matches \"spam\""]);
    let updates = handle_message(&mut chat, plain("spam"));
    assert_eq!(shown(&updates), vec!["delete 7", "say message filtered"]);
}

#[test]
fn a_parse_error_is_reported() {
    let mut chat = Chat::default();
    let command = ParsedCommand::SetFilter {
        text: "text matches".to_string(),
        parsed: Err("unexpected end".to_string()),
    };
    let updates = handle_message(&mut chat, request(Ok(Some(command)), true));
    assert_eq!(shown(&updates), vec!["say parse error: unexpected end"]);
    assert!(chat.filter.is_none());
    let command = ParsedCommand::SetOption(Err("bad".to_string()));
    let updates = handle_message(&mut chat, request(Ok(Some(command)), true));
    assert_eq!(shown(&updates), vec!["say parse error: bad"]);
    let command = ParsedCommand::SetVariable(Err("bad".to_string()));
    let updates = handle_message(&mut chat, request(Ok(Some(command)), true));
    assert_eq!(shown(&updates), vec!["say parse error: bad"]);
    let command = ParsedCommand::UnsetVariable(Err("bad".to_string()));
    let updates = handle_message(&mut chat, request(Ok(Some(command)), true));
    assert_eq!(shown(&updates), vec!["say parse error: bad"]);
    let command = ParsedCommand::Eval(Err("bad".to_string()));
    let updates = handle_message(&mut chat, request(Ok(Some(command)), false));
    assert_eq!(shown(&updates), vec!["say parse error: bad"]);
}

#[test]
fn get_filter_without_a_filter() {
    let mut chat = Chat::default();
    let updates = handle_message(&mut chat, request(Ok(Some(ParsedCommand::GetFilter)), false));
    assert_eq!(shown(&updates), vec!["say no filter set"]);
}

#[test]
fn set_option_changes_an_option() {
    let mut chat = Chat::default();
    let command = ParsedCommand::SetOption(Ok(assignment(
        "report_filtered",
        Expression::Literal(Literal::Bool(false)),
    )));
    let updates = handle_message(&mut chat, request(Ok(Some(command)), true));
    assert_eq!(shown(&updates), vec!["say success"]);
    assert!(!chat.settings.report_filtered);
    let command = ParsedCommand::SetOption(Ok(assignment(
        "report_command_success",
        Expression::Literal(Literal::Bool(false)),
    )));
    let updates = handle_message(&mut chat, request(Ok(Some(command)), true));
    assert!(updates.is_empty());
    assert!(!chat.settings.report_command_success);
}

#[test]
fn set_option_reports_its_failures() {
    let mut chat = Chat::default();
    let command =
        ParsedCommand::SetOption(Ok(assignment("debug_print", Expression::Literal(Literal::Int(1)))));
    let updates = handle_message(&mut chat, request(Ok(Some(command)), true));
    assert_eq!(
        shown(&updates),
        vec!["say failed to set option: value error: variable debug_print shoud be of type bool"]
    );
    let command =
        ParsedCommand::SetOption(Ok(assignment("debug_print", Expression::Literal(Literal::Empty))));
    let updates = handle_message(&mut chat, request(Ok(Some(command)), true));
    assert_eq!(
        shown(&updates),
        vec!["say failed to set option: value error: variable debug_print cannot be empty"]
    );
    let command =
        ParsedCommand::SetOption(Ok(assignment("volume", Expression::Literal(Literal::Bool(true)))));
    let updates = handle_message(&mut chat, request(Ok(Some(command)), true));
    assert_eq!(shown(&updates), vec!["say failed to set option: undeclared identifier \"volume\""]);
    let command = ParsedCommand::SetOption(Ok(assignment(
        "debug_print",
        Expression::Identifier("missing".to_string()),
    )));
    let updates = handle_message(&mut chat, request(Ok(Some(command)), true));
    assert_eq!(shown(&updates), vec!["say failed to set option: undeclared identifier \"missing\""]);
    assert!(!chat.settings.debug_print);
}

#[test]
fn get_options_lists_the_options() {
    let mut chat = Chat::default();
    let updates = handle_message(&mut chat, request(Ok(Some(ParsedCommand::GetOptions)), false));
    assert_eq!(
        shown(&updates),
        vec!["say debug_print = false\nreport_filtered = true\nreport_invalid_commands = true\nfilter_enabled = true\nreport_command_success = true\n"]
    );
}

#[test]
fn user_variables_are_set_listed_and_unset() {
    let mut chat = Chat::default();
    let updates = handle_message(&mut chat, request(Ok(Some(ParsedCommand::GetVariables)), false));
    assert_eq!(shown(&updates), vec!["say no variables"]);
    let command =
        ParsedCommand::SetVariable(Ok(assignment("limit", Expression::Literal(Literal::Int(3)))));
    let updates = handle_message(&mut chat, request(Ok(Some(command)), true));
    assert_eq!(shown(&updates), vec!["say success"]);
    let command = ParsedCommand::SetVariable(Ok(assignment(
        "double",
        Expression::BinaryOp {
            left: Box::new(Expression::Identifier("limit".to_string())),
            operator: Operator::Multiply,
            right: Box::new(Expression::Literal(Literal::Int(2))),
        },
    )));
    let updates = handle_message(&mut chat, request(Ok(Some(command)), true));
    assert_eq!(shown(&updates), vec!["say success"]);
    let command =
        ParsedCommand::SetVariable(Ok(assignment("nothing", Expression::Literal(Literal::Empty))));
    handle_message(&mut chat, request(Ok(Some(command)), true));
    let updates = handle_message(&mut chat, request(Ok(Some(ParsedCommand::GetVariables)), false));
    assert_eq!(shown(&updates), vec!["say limit = 3\ndouble = 6\nnothing = empty\n"]);
    let command = ParsedCommand::UnsetVariable(Ok("limit".to_string()));
    let updates = handle_message(&mut chat, request(Ok(Some(command)), true));
    assert_eq!(shown(&updates), vec!["say success"]);
    let command = ParsedCommand::UnsetVariable(Ok("limit".to_string()));
    let updates = handle_message(&mut chat, request(Ok(Some(command)), true));
    assert_eq!(shown(&updates), vec!["say variable \"limit\" does not exist"]);
    let updates = handle_message(&mut chat, request(Ok(Some(ParsedCommand::GetVariables)), false));
    assert_eq!(shown(&updates), vec!["say double = 6\nnothing = empty\n"]);
}

#[test]
fn a_reserved_name_cannot_be_set() {
    let mut chat = Chat::default();
    let command = ParsedCommand::SetVariable(Ok(assignment(
        "text",
        Expression::Literal(Literal::Str("x".to_string())),
    )));
    let updates = handle_message(&mut chat, request(Ok(Some(command)), true));
    assert_eq!(shown(&updates), vec!["say failed to set variable: \"text\" is reserved"]);
    assert_eq!(chat.variables.count(), 0);
}

#[test]
fn set_variable_reports_its_failures() {
    let mut chat = Chat::default();
    let command = ParsedCommand::SetVariable(Ok(assignment(
        "x",
        Expression::BinaryOp {
            left: Box::new(Expression::Literal(Literal::Int(1))),
            operator: Operator::Divide,
            right: Box::new(Expression::Literal(Literal::Int(0))),
        },
    )));
    let updates = handle_message(&mut chat, request(Ok(Some(command)), true));
    assert_eq!(
        shown(&updates),
        vec!["say failed to set variable: value error: division by zero (1 / 0)"]
    );
    assert_eq!(chat.variables.count(), 0);
}

#[test]
fn eval_answers_with_the_value() {
    let mut chat = Chat::default();
    chat.variables.put("n".to_string(), Value::Int(41));
    let expression = Expression::BinaryOp {
        left: Box::new(Expression::Identifier("n".to_string())),
        operator: Operator::Plus,
        right: Box::new(Expression::Literal(Literal::Int(1))),
    };
    let updates =
        handle_message(&mut chat, request(Ok(Some(ParsedCommand::Eval(Ok(expression)))), false));
    assert_eq!(shown(&updates), vec!["say 42"]);
    let expression = Expression::Identifier("m".to_string());
    let updates =
        handle_message(&mut chat, request(Ok(Some(ParsedCommand::Eval(Ok(expression)))), false));
    assert_eq!(
        shown(&updates),
        vec!["say error: failed to evalute expression: undeclared identifier \"m\""]
    );
}

#[test]
fn get_message_variables_needs_a_reply() {
    let mut chat = Chat::default();
    let updates =
        handle_message(&mut chat, request(Ok(Some(ParsedCommand::GetMessageVariables)), false));
    assert_eq!(shown(&updates), vec!["say error: no reply message"]);
    let mut reply = MessageVariables::default();
    reply.has_text = true;
    reply.text = Some("hi".to_string());
    let mut r = request(Ok(Some(ParsedCommand::GetMessageVariables)), false);
    r.reply = Some(reply);
    let updates = handle_message(&mut chat, r);
    assert_eq!(
        shown(&updates),
        vec!["say has_from = false\nhas_origin = false\nhas_text = true\ntext = hi\nhas_audio = false\nhas_document = false\nhas_animation = false\nhas_game = false\nhas_photo = false\nhas_sticker = false\nhas_story = false\nhas_video = false\nhas_voice = false\nhas_caption = false\n"]
    );
}

#[test]
fn an_invalid_command_is_reported() {
    let mut chat = Chat::default();
    let error = CommandError::new_invalid_arguments("/eval".to_string(), true);
    let updates = handle_message(&mut chat, request(Err(error), false));
    assert_eq!(shown(&updates), vec!["say error: command \"/eval\" expected an argument"]);
}

#[test]
fn a_command_is_joined_with_its_parsed_argument() {
    let joined = ParsedCommand::new(
        Command::SetFilter("true".to_string()),
        Parsed::Expression(Ok(Expression::Literal(Literal::Bool(true)))),
    );
    assert!(matches!(
        joined,
        Some(ParsedCommand::SetFilter { ref text, parsed: Ok(_) }) if text == "true"
    ));
    let joined = ParsedCommand::new(
        Command::Eval("1".to_string()),
        Parsed::Expression(Err("bad".to_string())),
    );
    assert!(matches!(joined, Some(ParsedCommand::Eval(Err(ref e))) if e == "bad"));
    let a = assignment("x", Expression::Literal(Literal::Int(1)));
    let joined =
        ParsedCommand::new(Command::SetOption("x := 1".to_string()), Parsed::Assignment(Ok(a)));
    assert!(matches!(joined, Some(ParsedCommand::SetOption(Ok(_)))));
    let a = assignment("x", Expression::Literal(Literal::Int(1)));
    let joined =
        ParsedCommand::new(Command::SetVariable("x := 1".to_string()), Parsed::Assignment(Ok(a)));
    assert!(matches!(joined, Some(ParsedCommand::SetVariable(Ok(_)))));
    let joined = ParsedCommand::new(
        Command::UnsetVariable("x".to_string()),
        Parsed::Identifier(Ok("x".to_string())),
    );
    assert!(matches!(joined, Some(ParsedCommand::UnsetVariable(Ok(ref i))) if i == "x"));
    assert!(matches!(
        ParsedCommand::new(Command::Help, Parsed::Nothing),
        Some(ParsedCommand::Help)
    ));
    assert!(matches!(
        ParsedCommand::new(Command::GetFilter, Parsed::Nothing),
        Some(ParsedCommand::GetFilter)
    ));
    assert!(matches!(
        ParsedCommand::new(Command::GetOptions, Parsed::Nothing),
        Some(ParsedCommand::GetOptions)
    ));
    assert!(matches!(
        ParsedCommand::new(Command::GetVariables, Parsed::Nothing),
        Some(ParsedCommand::GetVariables)
    ));
    assert!(matches!(
        ParsedCommand::new(Command::GetMessageVariables, Parsed::Nothing),
        Some(ParsedCommand::GetMessageVariables)
    ));
    assert!(ParsedCommand::new(Command::Help, Parsed::Identifier(Ok("x".to_string()))).is_none());
    assert!(ParsedCommand::new(Command::Eval("1".to_string()), Parsed::Nothing).is_none());
    assert!(ParsedCommand::new(
        Command::UnsetVariable("x".to_string()),
        Parsed::Expression(Err("e".to_string()))
    )
    .is_none());
}

#[test]
fn malformed_expressions_are_recognised() {
    let bad = Expression::UnaryOp {
        expression: Box::new(Expression::Literal(Literal::Bool(true))),
        operator: Operator::Xor,
    };
    assert!(!ParsedCommand::Eval(Ok(bad.clone())).is_well_formed());
    assert!(!ParsedCommand::SetFilter { text: "x".to_string(), parsed: Ok(bad.clone()) }
        .is_well_formed());
    assert!(!ParsedCommand::SetOption(Ok(assignment("x", bad.clone()))).is_well_formed());
    assert!(!ParsedCommand::SetVariable(Ok(assignment("x", bad.clone()))).is_well_formed());
    assert!(ParsedCommand::Eval(Err("e".to_string())).is_well_formed());
    assert!(ParsedCommand::Help.is_well_formed());
    assert!(!request(Ok(Some(ParsedCommand::Eval(Ok(bad)))), false).is_well_formed());
    assert!(request(Ok(None), false).is_well_formed());
    assert!(ParsedCommand::SetFilter { text: "x".to_string(), parsed: Err("e".to_string()) }
        .requires_admin_rights());
    assert!(!ParsedCommand::Eval(Err("e".to_string())).requires_admin_rights());
}

#[test]
fn a_session_keeps_its_chat() {
    let mut chat = Chat::default();
    chat.chat_id = 99;
    let mut session = Session::new(chat, "guard_bot".to_string());
    assert_eq!(session.chat_id(), 99);
    assert!(matches!(session.command(None), Ok(None)));
    assert!(matches!(session.command(Some("/help@guard_bot")), Ok(Some(Command::Help))));
    assert!(matches!(session.command(Some("/help@other")), Ok(None)));
    let command =
        ParsedCommand::SetVariable(Ok(assignment("x", Expression::Literal(Literal::Int(1)))));
    let updates = session.handle_message(request(Ok(Some(command)), true));
    assert_eq!(shown(&updates), vec!["say success"]);
    assert_eq!(session.chat().variables.show(false), "x = 1\n");
    assert_eq!(session.chat().chat_id, 99);
}

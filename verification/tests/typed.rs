use baldguard::chat::{Chat, Filter, Settings};
use baldguard::evaluation::{ContainsVariable, EvaluationError, SetFromAssignment, ToVariables};
use baldguard::message::MessageVariables;
use baldguard::tree::{Assignment, Expression, Literal, Operator};
use baldguard::typed::{
    accept, bool_or_empty, int_or_empty, optional_bool, optional_int, optional_str, parse,
    parse_type, required_bool, required_int, required_str, str_or_empty, DeriveError, FieldType,
};
use baldguard::value::{Value, ValueError};
use baldguard::variables::Variables;

fn other(r: &Result<Value, ValueError>, expected: &str) -> bool {
    matches!(r, Err(ValueError::Other { message }) if message == expected)
}

fn assign(identifier: &str, literal: Literal) -> Assignment {
    Assignment { identifier: identifier.to_string(), expression: Expression::Literal(literal) }
}

#[test]
fn field_types_have_names() {
    assert_eq!(FieldType::Int.type_str(), "int");
    assert_eq!(FieldType::Str.type_str(), "str");
    assert_eq!(FieldType::Bool.type_str(), "bool");
}

#[test]
fn a_field_takes_a_value_of_its_type() {
    assert!(matches!(accept("n", FieldType::Int, false, Value::Int(3)), Ok(Value::Int(3))));
    assert!(matches!(accept("n", FieldType::Int, true, Value::Int(3)), Ok(Value::Int(3))));
    assert!(matches!(
        accept("s", FieldType::Str, false, Value::Str("x".to_string())),
        Ok(Value::Str(ref s)) if s == "x"
    ));
    assert!(matches!(accept("b", FieldType::Bool, true, Value::Bool(true)), Ok(Value::Bool(true))));
}

#[test]
fn a_field_rejects_a_value_of_another_type() {
    let r = accept("limit", FieldType::Int, false, Value::Bool(true));
    assert!(other(&r, "variable limit shoud be of type int"));
    let r = accept("limit", FieldType::Int, true, Value::Str("3".to_string()));
    assert!(other(&r, "variable limit shoud be of type int"));
    let r = accept("title", FieldType::Str, false, Value::Int(3));
    assert!(other(&r, "variable title shoud be of type str"));
    let r = accept("on", FieldType::Bool, true, Value::Int(1));
    assert!(other(&r, "variable on shoud be of type bool"));
}

#[test]
fn empty_clears_a_nullable_field_only() {
    assert!(matches!(accept("n", FieldType::Int, true, Value::Empty), Ok(Value::Empty)));
    assert!(matches!(accept("s", FieldType::Str, true, Value::Empty), Ok(Value::Empty)));
    assert!(matches!(accept("b", FieldType::Bool, true, Value::Empty), Ok(Value::Empty)));
    let r = accept("n", FieldType::Int, false, Value::Empty);
    assert!(other(&r, "variable n cannot be empty"));
    let r = accept("on", FieldType::Bool, false, Value::Empty);
    assert!(other(&r, "variable on cannot be empty"));
}

#[test]
fn typed_contents() {
    assert!(matches!(required_int("n", Value::Int(4)), Ok(4)));
    assert!(matches!(required_int("n", Value::Empty), Err(ValueError::Other { .. })));
    assert!(matches!(required_int("n", Value::Bool(true)), Err(ValueError::Other { .. })));
    assert!(matches!(optional_int("n", Value::Int(4)), Ok(Some(4))));
    assert!(matches!(optional_int("n", Value::Empty), Ok(None)));
    assert!(matches!(optional_int("n", Value::Bool(true)), Err(ValueError::Other { .. })));
    assert!(matches!(required_str("s", Value::Str("a".to_string())), Ok(ref s) if s == "a"));
    assert!(matches!(required_str("s", Value::Empty), Err(ValueError::Other { .. })));
    assert!(matches!(optional_str("s", Value::Str("a".to_string())), Ok(Some(ref s)) if s == "a"));
    assert!(matches!(optional_str("s", Value::Empty), Ok(None)));
    assert!(matches!(optional_str("s", Value::Int(1)), Err(ValueError::Other { .. })));
    assert!(matches!(required_bool("b", Value::Bool(true)), Ok(true)));
    assert!(matches!(required_bool("b", Value::Bool(false)), Ok(false)));
    assert!(matches!(required_bool("b", Value::Empty), Err(ValueError::Other { .. })));
    assert!(matches!(optional_bool("b", Value::Bool(false)), Ok(Some(false))));
    assert!(matches!(optional_bool("b", Value::Empty), Ok(None)));
    assert!(matches!(optional_bool("b", Value::Int(0)), Err(ValueError::Other { .. })));
}

#[test]
fn null_fields_read_as_empty() {
    assert!(matches!(int_or_empty(Some(3)), Value::Int(3)));
    assert!(matches!(int_or_empty(None), Value::Empty));
    assert!(matches!(str_or_empty(Some("a".to_string())), Value::Str(ref s) if s == "a"));
    assert!(matches!(str_or_empty(None), Value::Empty));
    assert!(matches!(bool_or_empty(Some(false)), Value::Bool(false)));
    assert!(matches!(bool_or_empty(None), Value::Empty));
}

#[test]
fn declared_types() {
    assert!(matches!(parse_type("i64"), Some((FieldType::Int, false))));
    assert!(matches!(parse_type("String"), Some((FieldType::Str, false))));
    assert!(matches!(parse_type("bool"), Some((FieldType::Bool, false))));
    assert!(matches!(parse_type("Option < i64 >"), Some((FieldType::Int, true))));
    assert!(matches!(parse_type("Option < String >"), Some((FieldType::Str, true))));
    assert!(matches!(parse_type("Option < bool >"), Some((FieldType::Bool, true))));
    assert!(parse_type("u64").is_none());
    assert!(parse_type("Option<i64>").is_none());
    assert!(parse_type("").is_none());
    assert!(parse_type("Bool").is_none());
}

fn declared(fields: &[(&str, &str)]) -> Vec<(String, String)> {
    fields.iter().map(|(n, t)| (n.to_string(), t.to_string())).collect()
}

#[test]
fn a_record_is_described_field_by_field() {
    let fields = declared(&[("id", "i64"), ("title", "Option < String >"), ("on", "bool")]);
    let derived = parse("Thing".to_string(), &fields, true).unwrap();
    assert_eq!(derived.name, "Thing");
    assert_eq!(derived.fields.len(), 3);
    assert_eq!(derived.fields[0].name, "id");
    assert_eq!(derived.fields[0].ty, FieldType::Int);
    assert!(!derived.fields[0].optional);
    assert_eq!(derived.fields[1].name, "title");
    assert_eq!(derived.fields[1].ty, FieldType::Str);
    assert!(derived.fields[1].optional);
    assert_eq!(derived.fields[2].name, "on");
    assert_eq!(derived.fields[2].ty, FieldType::Bool);
    assert!(!derived.fields[2].optional);
    let none = parse("Nothing".to_string(), &declared(&[]), false).unwrap();
    assert!(none.fields.is_empty());
}

#[test]
fn the_first_bad_field_is_the_failure() {
    let fields = declared(&[("id", "i64"), ("when", "f64"), ("what", "u8")]);
    let r = parse("Thing".to_string(), &fields, true);
    match r {
        Err(DeriveError::UnsupportedType { field, declared }) => {
            assert_eq!(field, "when");
            assert_eq!(declared, "f64");
        }
        _ => panic!("an unsupported type must be rejected"),
    }
    let fields = declared(&[("id", "Option < i64 >"), ("when", "f64")]);
    let r = parse("Thing".to_string(), &fields, false);
    assert!(matches!(r, Err(DeriveError::OptionalField { ref field }) if field == "id"));
    let r = parse("Thing".to_string(), &fields, true);
    assert!(matches!(r, Err(DeriveError::UnsupportedType { ref field, .. }) if field == "when"));
}

#[test]
fn derive_errors_render_their_messages() {
    let e = DeriveError::UnsupportedType { field: "when".to_string(), declared: "f64".to_string() };
    assert_eq!(e.to_string(), "Unsupported type f64)");
    let e = DeriveError::OptionalField { field: "id".to_string() };
    assert_eq!(e.to_string(), "Option fields are not supported");
}

#[test]
fn a_described_record_checks_values_by_field() {
    let fields = declared(&[("id", "i64"), ("title", "Option < String >")]);
    let derived = parse("Thing".to_string(), &fields, true).unwrap();
    assert!(derived.field("id").is_some());
    assert!(derived.field("nope").is_none());
    assert!(matches!(derived.accept("id", Value::Int(3)), Ok(Value::Int(3))));
    assert!(matches!(derived.accept("title", Value::Empty), Ok(Value::Empty)));
    assert!(matches!(
        derived.accept("id", Value::Empty),
        Err(EvaluationError::ValueError(ValueError::Other { ref message })) if message == "variable id cannot be empty"
    ));
    assert!(matches!(
        derived.accept("title", Value::Int(1)),
        Err(EvaluationError::ValueError(ValueError::Other { ref message })) if message == "variable title shoud be of type str"
    ));
    assert!(matches!(
        derived.accept("nope", Value::Int(1)),
        Err(EvaluationError::UndeclaredIdentifier(ref n)) if n == "nope"
    ));
}

#[test]
fn default_settings() {
    let s = Settings::default();
    assert!(!s.debug_print);
    assert!(s.report_filtered);
    assert!(s.report_invalid_commands);
    assert!(s.filter_enabled);
    assert!(s.report_command_success);
}

#[test]
fn settings_read_as_an_environment() {
    let mut s = Settings::default();
    s.filter_enabled = false;
    let v = s.to_variables();
    assert_eq!(
        v.show(false),
        "debug_print = false\nreport_filtered = true\nreport_invalid_commands = true\nfilter_enabled = false\nreport_command_success = true\n"
    );
}

#[test]
fn an_option_takes_a_boolean() {
    let mut s = Settings::default();
    let v = Variables::new();
    assert!(s.set_from_assignment(&assign("debug_print", Literal::Bool(true)), &v).is_ok());
    assert!(s.debug_print);
    assert!(s.set_from_assignment(&assign("report_filtered", Literal::Bool(false)), &v).is_ok());
    assert!(!s.report_filtered);
    assert!(s
        .set_from_assignment(&assign("report_invalid_commands", Literal::Bool(false)), &v)
        .is_ok());
    assert!(!s.report_invalid_commands);
    assert!(s.set_from_assignment(&assign("filter_enabled", Literal::Bool(false)), &v).is_ok());
    assert!(!s.filter_enabled);
    assert!(s
        .set_from_assignment(&assign("report_command_success", Literal::Bool(false)), &v)
        .is_ok());
    assert!(!s.report_command_success);
}

#[test]
fn an_option_reads_the_given_environment() {
    let mut s = Settings::default();
    let mut v = Variables::new();
    v.put("quiet".to_string(), Value::Bool(true));
    let a = Assignment {
        identifier: "report_filtered".to_string(),
        expression: Expression::UnaryOp {
            expression: Box::new(Expression::Identifier("quiet".to_string())),
            operator: Operator::Not,
        },
    };
    assert!(s.set_from_assignment(&a, &v).is_ok());
    assert!(!s.report_filtered);
}

#[test]
fn an_option_rejects_what_is_no_boolean() {
    let mut s = Settings::default();
    let v = Variables::new();
    let r = s.set_from_assignment(&assign("debug_print", Literal::Int(1)), &v);
    assert!(matches!(
        r,
        Err(EvaluationError::ValueError(ValueError::Other { ref message })) if message == "variable debug_print shoud be of type bool"
    ));
    let r = s.set_from_assignment(&assign("filter_enabled", Literal::Empty), &v);
    assert!(matches!(
        r,
        Err(EvaluationError::ValueError(ValueError::Other { ref message })) if message == "variable filter_enabled cannot be empty"
    ));
    let r = s.set_from_assignment(&assign("debug", Literal::Bool(true)), &v);
    assert!(matches!(r, Err(EvaluationError::UndeclaredIdentifier(ref n)) if n == "debug"));
    let a = Assignment {
        identifier: "debug_print".to_string(),
        expression: Expression::Identifier("missing".to_string()),
    };
    let r = s.set_from_assignment(&a, &v);
    assert!(matches!(r, Err(EvaluationError::UndeclaredIdentifier(ref n)) if n == "missing"));
    assert_eq!(s, Settings::default());
}

#[test]
fn default_chat() {
    let c = Chat::default();
    assert_eq!(c.chat_id, 0);
    assert!(c.filter.is_none());
    assert_eq!(c.settings, Settings::default());
    assert_eq!(c.variables.count(), 0);
    assert!(c.is_well_formed());
}

#[test]
fn a_chat_with_a_malformed_filter_is_not_well_formed() {
    let mut c = Chat::default();
    c.filter = Some(Filter::new(
        "and true".to_string(),
        Expression::UnaryOp {
            expression: Box::new(Expression::Literal(Literal::Bool(true))),
            operator: Operator::And,
        },
    ));
    assert!(!c.is_well_formed());
    assert!(!c.clone().is_well_formed());
    c.filter = Some(Filter::new("true".to_string(), Expression::Literal(Literal::Bool(true))));
    assert!(c.is_well_formed());
    let copy = c.clone();
    assert_eq!(copy.filter.unwrap().text, "true");
}

#[test]
fn a_blank_message_reads_as_flags_off_and_nulls() {
    let m = MessageVariables::default();
    let v = m.to_variables();
    assert_eq!(v.count(), 29);
    assert_eq!(
        v.show(true),
        "has_from = false\nhas_origin = false\nhas_text = false\nhas_audio = false\nhas_document = false\nhas_animation = false\nhas_game = false\nhas_photo = false\nhas_sticker = false\nhas_story = false\nhas_video = false\nhas_voice = false\nhas_caption = false\n"
    );
    let m = MessageVariables::default();
    let v = m.to_variables();
    assert!(matches!(v.get("from_id"), Some(Value::Empty)));
    assert!(matches!(v.get("caption"), Some(Value::Empty)));
}

#[test]
fn a_message_reads_as_its_fields() {
    let mut m = MessageVariables::default();
    m.has_from = true;
    m.from_id = Some(77);
    m.from_is_bot = Some(false);
    m.from_username = Some("someone".to_string());
    m.from_is_premium = Some(true);
    m.has_text = true;
    m.text = Some("hello".to_string());
    m.has_origin = true;
    m.origin_type = Some("channel".to_string());
    m.origin_channel_id = Some(-100);
    m.origin_channel_message_id = Some(12);
    let v = m.clone().to_variables();
    assert_eq!(v.count(), 29);
    assert!(matches!(v.get("has_from"), Some(Value::Bool(true))));
    assert!(matches!(v.get("from_id"), Some(Value::Int(77))));
    assert!(matches!(v.get("from_is_bot"), Some(Value::Bool(false))));
    assert!(matches!(v.get("from_username"), Some(Value::Str(ref s)) if s == "someone"));
    assert!(matches!(v.get("from_is_premium"), Some(Value::Bool(true))));
    assert!(matches!(v.get("text"), Some(Value::Str(ref s)) if s == "hello"));
    assert!(matches!(v.get("origin_type"), Some(Value::Str(ref s)) if s == "channel"));
    assert!(matches!(v.get("origin_channel_id"), Some(Value::Int(-100))));
    assert!(matches!(v.get("origin_channel_message_id"), Some(Value::Int(12))));
    assert!(matches!(v.get("origin_user_id"), Some(Value::Empty)));
    assert!(matches!(v.get("has_video"), Some(Value::Bool(false))));
    let shown = m.to_variables().show(false);
    assert!(shown.starts_with("has_from = true\nfrom_id = 77\nfrom_is_bot = false\nfrom_username = someone\nfrom_is_premium = true\nhas_origin = true\norigin_type = channel\norigin_user_id = empty\n"));
    assert!(shown.ends_with("has_caption = false\ncaption = empty\n"));
}

#[test]
fn the_names_of_message_variables_are_reserved() {
    let m = MessageVariables::default();
    let names = [
        "has_from", "from_id", "from_is_bot", "from_username", "from_is_premium", "has_origin",
        "origin_type", "origin_user_id", "origin_user_is_bot", "origin_user_username",
        "origin_hidden_user_username", "origin_chat_id", "origin_chat_author_signature",
        "origin_channel_id", "origin_channel_message_id", "origin_channel_author_signature",
        "has_text", "text", "has_audio", "has_document", "has_animation", "has_game",
        "has_photo", "has_sticker", "has_story", "has_video", "has_voice", "has_caption",
        "caption",
    ];
    let v = MessageVariables::default().to_variables();
    for n in names {
        assert!(m.contains_variable(n));
        assert!(v.contains(n));
    }
    assert!(!m.contains_variable("my_variable"));
    assert!(!m.contains_variable("Text"));
    assert!(!m.contains_variable(""));
    assert!(!m.contains_variable("has_"));
}

//! What a chat does with a message: the command that the message holds is
//! carried out, or the filter is applied to it.

use vstd::prelude::*;
use vstd::string::*;

use crate::chat::{option_stored, Chat, ChatView, Filter, FilterView};
use crate::command::{
    parsed_command, Command, CommandError, CommandErrorView, CommandResult, CommandView,
};
use crate::evaluation::{eval, evaluate, ContainsVariable, SetFromAssignment, ToVariables};
use crate::message::{is_message_variable, MessageVariables};
use crate::text::concat;
use crate::tree::{Assignment, AssignmentView, Expression, ExpressionView};
use crate::value::{Value, ValueView};
use crate::variables::{
    as_map, binds, extend_bindings, put_binding, remove_binding, show_text, Binding,
};

verus! {

/// The text that `/help` answers with.
pub const HELP_STRING: &'static str = "/set_filter <expr>
change current filter. expr should evaluate to bool value.
requires admin rights.

/get_filter
display current filter.

/set_option <option> := <expr>
set an option.
available options:
- debug_print: bool
- report_filtered: bool
- report_invalid_commands: bool
- filter_enabled: bool
- report_command_success: bool
expr should evaluate to value of option's type.
requires admin rights.

/get_options
display current options.

/set_variable <variable> := <expr>
set a user variable.
requires admin rights.

/unset_variable <variable>
unset a user variable.
requires admin rights.

/get_variables
display user variables.

/get_message_variables
display variables from message.

/help
display this message.";

/// Something for the chat's host to do.
#[derive(Debug)]
pub enum SendUpdate {
    /// Send a text to the chat.
    Message(String),
    /// Delete the message with this identifier.
    DeleteMessage(i32),
}

/// The mathematical model of a `SendUpdate`.
pub enum SendUpdateView {
    Message(Seq<char>),
    DeleteMessage(i32),
}

impl View for SendUpdate {
    type V = SendUpdateView;

    open spec fn view(&self) -> SendUpdateView {
        match self {
            SendUpdate::Message(text) => SendUpdateView::Message(text@),
            SendUpdate::DeleteMessage(id) => SendUpdateView::DeleteMessage(*id),
        }
    }
}

/// The model of a list of updates.
pub open spec fn updates_view(updates: Seq<SendUpdate>) -> Seq<SendUpdateView> {
    updates.map_values(|u: SendUpdate| u@)
}

/// What the argument of a command is to be parsed as.
#[derive(Debug, Clone, Copy, PartialEq, Eq, Structural)]
pub enum Syntax {
    Expression,
    Assignment,
    Identifier,
    Nothing,
}

/// What a parser made of the argument of a command: the parsed item, or
/// the text of the parser's error.
#[derive(Debug)]
pub enum Parsed {
    Expression(Result<Expression, String>),
    Assignment(Result<Assignment, String>),
    Identifier(Result<String, String>),
    Nothing,
}

/// A command with its argument parsed.
#[derive(Debug)]
pub enum ParsedCommand {
    SetFilter { text: String, parsed: Result<Expression, String> },
    GetFilter,
    SetOption(Result<Assignment, String>),
    GetOptions,
    SetVariable(Result<Assignment, String>),
    UnsetVariable(Result<String, String>),
    GetVariables,
    GetMessageVariables,
    Eval(Result<Expression, String>),
    Help,
}

/// The mathematical model of a `ParsedCommand`.
pub enum ParsedCommandView {
    SetFilter { text: Seq<char>, parsed: Result<ExpressionView, Seq<char>> },
    GetFilter,
    SetOption(Result<AssignmentView, Seq<char>>),
    GetOptions,
    SetVariable(Result<AssignmentView, Seq<char>>),
    UnsetVariable(Result<Seq<char>, Seq<char>>),
    GetVariables,
    GetMessageVariables,
    Eval(Result<ExpressionView, Seq<char>>),
    Help,
}

/// The model of a parsed expression.
pub open spec fn expression_result(r: Result<Expression, String>) -> Result<
    ExpressionView,
    Seq<char>,
> {
    match r {
        Ok(expression) => Ok(expression@),
        Err(error) => Err(error@),
    }
}

/// The model of a parsed assignment.
pub open spec fn assignment_result(r: Result<Assignment, String>) -> Result<
    AssignmentView,
    Seq<char>,
> {
    match r {
        Ok(assignment) => Ok(assignment@),
        Err(error) => Err(error@),
    }
}

/// The model of a parsed identifier.
pub open spec fn identifier_result(r: Result<String, String>) -> Result<Seq<char>, Seq<char>> {
    match r {
        Ok(identifier) => Ok(identifier@),
        Err(error) => Err(error@),
    }
}

impl View for ParsedCommand {
    type V = ParsedCommandView;

    open spec fn view(&self) -> ParsedCommandView {
        match self {
            ParsedCommand::SetFilter { text, parsed } => ParsedCommandView::SetFilter {
                text: text@,
                parsed: expression_result(*parsed),
            },
            ParsedCommand::GetFilter => ParsedCommandView::GetFilter,
            ParsedCommand::SetOption(parsed) => ParsedCommandView::SetOption(
                assignment_result(*parsed),
            ),
            ParsedCommand::GetOptions => ParsedCommandView::GetOptions,
            ParsedCommand::SetVariable(parsed) => ParsedCommandView::SetVariable(
                assignment_result(*parsed),
            ),
            ParsedCommand::UnsetVariable(parsed) => ParsedCommandView::UnsetVariable(
                identifier_result(*parsed),
            ),
            ParsedCommand::GetVariables => ParsedCommandView::GetVariables,
            ParsedCommand::GetMessageVariables => ParsedCommandView::GetMessageVariables,
            ParsedCommand::Eval(parsed) => ParsedCommandView::Eval(expression_result(*parsed)),
            ParsedCommand::Help => ParsedCommandView::Help,
        }
    }
}

impl CommandView {
    /// What the argument of the command is to be parsed as.
    pub open spec fn syntax(self) -> Syntax {
        match self {
            CommandView::SetFilter(_) => Syntax::Expression,
            CommandView::Eval(_) => Syntax::Expression,
            CommandView::SetOption(_) => Syntax::Assignment,
            CommandView::SetVariable(_) => Syntax::Assignment,
            CommandView::UnsetVariable(_) => Syntax::Identifier,
            _ => Syntax::Nothing,
        }
    }

    /// The argument of the command, where it takes one.
    pub open spec fn argument(self) -> Option<Seq<char>> {
        match self {
            CommandView::SetFilter(arg) => Some(arg),
            CommandView::Eval(arg) => Some(arg),
            CommandView::SetOption(arg) => Some(arg),
            CommandView::SetVariable(arg) => Some(arg),
            CommandView::UnsetVariable(arg) => Some(arg),
            _ => None,
        }
    }
}

/// The model of what a parser made of an argument.
pub enum ParsedView {
    Expression(Result<ExpressionView, Seq<char>>),
    Assignment(Result<AssignmentView, Seq<char>>),
    Identifier(Result<Seq<char>, Seq<char>>),
    Nothing,
}

impl View for Parsed {
    type V = ParsedView;

    open spec fn view(&self) -> ParsedView {
        match self {
            Parsed::Expression(parsed) => ParsedView::Expression(expression_result(*parsed)),
            Parsed::Assignment(parsed) => ParsedView::Assignment(assignment_result(*parsed)),
            Parsed::Identifier(parsed) => ParsedView::Identifier(identifier_result(*parsed)),
            Parsed::Nothing => ParsedView::Nothing,
        }
    }
}

/// The command with its argument parsed, where the argument was parsed as
/// the command asks.
pub open spec fn with_parsed(command: CommandView, parsed: ParsedView) -> Option<
    ParsedCommandView,
> {
    match (command, parsed) {
        (CommandView::SetFilter(text), ParsedView::Expression(parsed)) => Some(
            ParsedCommandView::SetFilter { text, parsed },
        ),
        (CommandView::GetFilter, ParsedView::Nothing) => Some(ParsedCommandView::GetFilter),
        (CommandView::SetOption(_), ParsedView::Assignment(parsed)) => Some(
            ParsedCommandView::SetOption(parsed),
        ),
        (CommandView::GetOptions, ParsedView::Nothing) => Some(ParsedCommandView::GetOptions),
        (CommandView::SetVariable(_), ParsedView::Assignment(parsed)) => Some(
            ParsedCommandView::SetVariable(parsed),
        ),
        (CommandView::UnsetVariable(_), ParsedView::Identifier(parsed)) => Some(
            ParsedCommandView::UnsetVariable(parsed),
        ),
        (CommandView::GetVariables, ParsedView::Nothing) => Some(ParsedCommandView::GetVariables),
        (CommandView::GetMessageVariables, ParsedView::Nothing) => Some(
            ParsedCommandView::GetMessageVariables,
        ),
        (CommandView::Eval(_), ParsedView::Expression(parsed)) => Some(
            ParsedCommandView::Eval(parsed),
        ),
        (CommandView::Help, ParsedView::Nothing) => Some(ParsedCommandView::Help),
        _ => None,
    }
}

impl Command {
    /// What the argument of the command is to be parsed as.
    pub fn syntax(&self) -> (r: Syntax)
        ensures
            r == self@.syntax(),
    {
        match self {
            Command::SetFilter(_) => Syntax::Expression,
            Command::Eval(_) => Syntax::Expression,
            Command::SetOption(_) => Syntax::Assignment,
            Command::SetVariable(_) => Syntax::Assignment,
            Command::UnsetVariable(_) => Syntax::Identifier,
            _ => Syntax::Nothing,
        }
    }

    /// The argument of the command, where it takes one.
    pub fn argument(&self) -> (r: Option<&str>)
        ensures
            match r {
                Some(arg) => Some(arg@),
                None => None,
            } == self@.argument(),
    {
        match self {
            Command::SetFilter(arg) => Some(arg.as_str()),
            Command::Eval(arg) => Some(arg.as_str()),
            Command::SetOption(arg) => Some(arg.as_str()),
            Command::SetVariable(arg) => Some(arg.as_str()),
            Command::UnsetVariable(arg) => Some(arg.as_str()),
            _ => None,
        }
    }
}

impl ParsedCommandView {
    /// Whether only an administrator of the chat may give the command.
    pub open spec fn requires_admin_rights(self) -> bool {
        self is SetFilter || self is SetOption || self is SetVariable || self is UnsetVariable
    }

    /// Every expression in the command holds each operator in a position
    /// of its arity.
    pub open spec fn well_formed(self) -> bool {
        match self {
            ParsedCommandView::SetFilter { text, parsed: Ok(expression) } => expression.well_formed(),
            ParsedCommandView::Eval(Ok(expression)) => expression.well_formed(),
            ParsedCommandView::SetOption(Ok(assignment)) => assignment.expression.well_formed(),
            ParsedCommandView::SetVariable(Ok(assignment)) => assignment.expression.well_formed(),
            _ => true,
        }
    }
}

impl ParsedCommand {
    /// Joins a command and what a parser made of its argument; `None`
    /// where the argument was not parsed as the command asks.
    pub fn new(command: Command, parsed: Parsed) -> (r: Option<ParsedCommand>)
        ensures
            match r {
                Some(joined) => Some(joined@),
                None => None,
            } == with_parsed(command@, parsed@),
    {
        match command {
            Command::SetFilter(text) => match parsed {
                Parsed::Expression(parsed) => Some(ParsedCommand::SetFilter { text, parsed }),
                _ => None,
            },
            Command::GetFilter => match parsed {
                Parsed::Nothing => Some(ParsedCommand::GetFilter),
                _ => None,
            },
            Command::SetOption(_) => match parsed {
                Parsed::Assignment(parsed) => Some(ParsedCommand::SetOption(parsed)),
                _ => None,
            },
            Command::GetOptions => match parsed {
                Parsed::Nothing => Some(ParsedCommand::GetOptions),
                _ => None,
            },
            Command::SetVariable(_) => match parsed {
                Parsed::Assignment(parsed) => Some(ParsedCommand::SetVariable(parsed)),
                _ => None,
            },
            Command::UnsetVariable(_) => match parsed {
                Parsed::Identifier(parsed) => Some(ParsedCommand::UnsetVariable(parsed)),
                _ => None,
            },
            Command::GetVariables => match parsed {
                Parsed::Nothing => Some(ParsedCommand::GetVariables),
                _ => None,
            },
            Command::GetMessageVariables => match parsed {
                Parsed::Nothing => Some(ParsedCommand::GetMessageVariables),
                _ => None,
            },
            Command::Eval(_) => match parsed {
                Parsed::Expression(parsed) => Some(ParsedCommand::Eval(parsed)),
                _ => None,
            },
            Command::Help => match parsed {
                Parsed::Nothing => Some(ParsedCommand::Help),
                _ => None,
            },
        }
    }

    /// Whether only an administrator of the chat may give the command.
    pub fn requires_admin_rights(&self) -> (r: bool)
        ensures
            r == self@.requires_admin_rights(),
    {
        match self {
            ParsedCommand::SetFilter { .. } => true,
            ParsedCommand::SetOption(_) => true,
            ParsedCommand::SetVariable(_) => true,
            ParsedCommand::UnsetVariable(_) => true,
            _ => false,
        }
    }

    /// Decides whether every expression in the command holds each operator
    /// in a position of its arity.
    pub fn is_well_formed(&self) -> (r: bool)
        ensures
            r == self@.well_formed(),
    {
        match self {
            ParsedCommand::SetFilter { text, parsed: Ok(expression) } => expression.is_well_formed(),
            ParsedCommand::Eval(Ok(expression)) => expression.is_well_formed(),
            ParsedCommand::SetOption(Ok(assignment)) => assignment.expression.is_well_formed(),
            ParsedCommand::SetVariable(Ok(assignment)) => assignment.expression.is_well_formed(),
            _ => true,
        }
    }
}

/// What carrying out a command leaves behind: the chat, what to send, and
/// whether the command failed.
pub struct EffectView {
    pub chat: ChatView,
    pub updates: Seq<SendUpdateView>,
    pub failed: bool,
}

/// The command did not change the chat and answers with `text`.
pub open spec fn answered(chat: ChatView, text: Seq<char>) -> EffectView {
    EffectView { chat, updates: seq![SendUpdateView::Message(text)], failed: false }
}

/// The command failed with the message `text`; the chat is as it was.
pub open spec fn refused(chat: ChatView, text: Seq<char>) -> EffectView {
    EffectView { chat, updates: seq![SendUpdateView::Message(text)], failed: true }
}

/// The command changed the chat and has nothing to say.
pub open spec fn changed(chat: ChatView) -> EffectView {
    EffectView { chat, updates: Seq::empty(), failed: false }
}

impl ParsedCommandView {
    /// Whether the success of the command is reported: so it is for the
    /// commands that change what the chat keeps.
    pub open spec fn reports_success(self) -> bool {
        self.requires_admin_rights()
    }
}

/// What a command does to a chat. `reply` holds the variables of the
/// message that the command's message replies to, if it replies to one.
pub open spec fn command_effect(
    chat: ChatView,
    command: ParsedCommandView,
    reply: Option<Seq<Binding>>,
) -> EffectView {
    let env = as_map(chat.variables);
    match command {
        ParsedCommandView::SetFilter { text, parsed } => match parsed {
            Ok(expression) => changed(
                ChatView { filter: Some(FilterView { text, expression }), ..chat },
            ),
            Err(error) => refused(chat, "parse error: "@ + error),
        },
        ParsedCommandView::GetFilter => match chat.filter {
            Some(filter) => answered(chat, filter.text),
            None => refused(chat, "no filter set"@),
        },
        ParsedCommandView::SetOption(parsed) => match parsed {
            Ok(assignment) => match eval(assignment.expression, env) {
                Ok(value) => match option_stored(chat.settings, assignment.identifier, value) {
                    Ok(settings) => changed(ChatView { settings, ..chat }),
                    Err(error) => refused(chat, "failed to set option: "@ + error.text()),
                },
                Err(error) => refused(chat, "failed to set option: "@ + error.text()),
            },
            Err(error) => refused(chat, "parse error: "@ + error),
        },
        ParsedCommandView::GetOptions => answered(chat, show_text(chat.settings.fields(), false)),
        ParsedCommandView::SetVariable(parsed) => match parsed {
            Ok(assignment) => if is_message_variable(assignment.identifier) {
                refused(
                    chat,
                    "failed to set variable: \""@ + assignment.identifier + "\" is reserved"@,
                )
            } else {
                match eval(assignment.expression, env) {
                    Ok(value) => changed(
                        ChatView {
                            variables: put_binding(chat.variables, assignment.identifier, value),
                            ..chat
                        },
                    ),
                    Err(error) => refused(chat, "failed to set variable: "@ + error.text()),
                }
            },
            Err(error) => refused(chat, "parse error: "@ + error),
        },
        ParsedCommandView::UnsetVariable(parsed) => match parsed {
            Ok(identifier) => if binds(chat.variables, identifier) {
                changed(
                    ChatView { variables: remove_binding(chat.variables, identifier), ..chat },
                )
            } else {
                refused(chat, "variable \""@ + identifier + "\" does not exist"@)
            },
            Err(error) => refused(chat, "parse error: "@ + error),
        },
        ParsedCommandView::GetVariables => if chat.variables.len() > 0 {
            answered(chat, show_text(chat.variables, false))
        } else {
            refused(chat, "no variables"@)
        },
        ParsedCommandView::GetMessageVariables => match reply {
            Some(fields) => answered(chat, show_text(fields, true)),
            None => refused(chat, "error: no reply message"@),
        },
        ParsedCommandView::Eval(parsed) => match parsed {
            Ok(expression) => match eval(expression, env) {
                Ok(value) => answered(chat, value.text()),
                Err(error) => refused(
                    chat,
                    "error: failed to evalute expression: "@ + error.text(),
                ),
            },
            Err(error) => refused(chat, "parse error: "@ + error),
        },
        ParsedCommandView::Help => answered(chat, HELP_STRING@),
    }
}

/// What the filter of a chat does with a message that has the variables
/// `message` and the identifier `id`. The filter reads the variables of
/// the message and the user variables of the chat, the latter over the
/// former. A message for which it yields `true` is deleted.
pub open spec fn filter_effect(chat: ChatView, message: Seq<Binding>, id: i32) -> Seq<
    SendUpdateView,
> {
    match chat.filter {
        None => Seq::empty(),
        Some(filter) => match eval(
            filter.expression,
            as_map(extend_bindings(message, chat.variables)),
        ) {
            Ok(ValueView::Bool(true)) => if chat.settings.report_filtered {
                seq![
                    SendUpdateView::DeleteMessage(id),
                    SendUpdateView::Message("message filtered"@),
                ]
            } else {
                seq![SendUpdateView::DeleteMessage(id)]
            },
            Ok(ValueView::Bool(false)) => Seq::empty(),
            Ok(_) => if chat.settings.debug_print {
                seq![SendUpdateView::Message("error: filter evaluated to non-bool value"@)]
            } else {
                Seq::empty()
            },
            Err(error) => if chat.settings.debug_print {
                seq![SendUpdateView::Message("error: failed to evaluate filter: "@ + error.text())]
            } else {
                Seq::empty()
            },
        },
    }
}

/// What a chat reads of a message.
#[derive(Debug)]
pub struct Request {
    /// The command that the message holds, with its argument parsed;
    /// nothing for a message without text or without a command; or why
    /// the text is no command though it starts like one.
    pub command: Result<Option<ParsedCommand>, CommandError>,
    /// Whether an administrator of the chat sent the message.
    pub from_admin: bool,
    /// The identifier of the message.
    pub message_id: i32,
    /// The variables of the message.
    pub variables: MessageVariables,
    /// The variables of the message that this one replies to.
    pub reply: Option<MessageVariables>,
}

/// The mathematical model of a `Request`.
pub struct RequestView {
    pub command: Result<Option<ParsedCommandView>, CommandErrorView>,
    pub from_admin: bool,
    pub message_id: i32,
    pub variables: Seq<Binding>,
    pub reply: Option<Seq<Binding>>,
}

impl View for Request {
    type V = RequestView;

    open spec fn view(&self) -> RequestView {
        RequestView {
            command: match self.command {
                Ok(Some(command)) => Ok(Some(command@)),
                Ok(None) => Ok(None),
                Err(error) => Err(error@),
            },
            from_admin: self.from_admin,
            message_id: self.message_id,
            variables: self.variables.fields(),
            reply: match self.reply {
                Some(reply) => Some(reply.fields()),
                None => None,
            },
        }
    }
}

impl RequestView {
    /// Every expression in the request holds each operator in a position
    /// of its arity.
    pub open spec fn well_formed(self) -> bool {
        self.command matches Ok(Some(command)) ==> command.well_formed()
    }

    /// Whether the message holds a command that its sender may give.
    pub open spec fn is_valid_command(self) -> bool {
        self.command matches Ok(Some(command)) && (command.requires_admin_rights()
            ==> self.from_admin)
    }
}

/// What a chat does with a message: the chat afterwards and what to send.
///
/// A command that its sender may give is carried out; where it changes
/// what the chat keeps and succeeds, and the chat reports successes,
/// `success` is sent. A command that needs an administrator and comes from
/// someone else, and a text that starts like a command and is none, are
/// answered with an error. Every message but a command that was carried
/// out goes through the filter, where the filter is enabled.
pub open spec fn handled(chat: ChatView, request: RequestView) -> (ChatView, Seq<SendUpdateView>) {
    match request.command {
        Ok(Some(command)) if request.is_valid_command() => {
            let effect = command_effect(chat, command, request.reply);
            if command.reports_success() && !effect.failed
                && effect.chat.settings.report_command_success {
                (effect.chat, effect.updates.push(SendUpdateView::Message("success"@)))
            } else {
                (effect.chat, effect.updates)
            }
        },
        _ => {
            let said = match request.command {
                Ok(Some(_)) => seq![SendUpdateView::Message("error: permission denied"@)],
                Ok(None) => Seq::empty(),
                Err(error) => seq![SendUpdateView::Message("error: "@ + error.text())],
            };
            if chat.settings.filter_enabled {
                (chat, said + filter_effect(chat, request.variables, request.message_id))
            } else {
                (chat, said)
            }
        },
    }
}

impl Request {
    /// Decides whether every expression in the request holds each operator
    /// in a position of its arity.
    pub fn is_well_formed(&self) -> (r: bool)
        ensures
            r == self@.well_formed(),
    {
        match &self.command {
            Ok(Some(command)) => command.is_well_formed(),
            _ => true,
        }
    }
}

struct Effect {
    updates: Vec<SendUpdate>,
    failed: bool,
}

fn changed_chat() -> (r: Effect)
    ensures
        updates_view(r.updates@) == Seq::<SendUpdateView>::empty(),
        !r.failed,
{
    let r = Effect { updates: Vec::new(), failed: false };
    assert(updates_view(r.updates@) =~= Seq::<SendUpdateView>::empty());
    r
}

fn answer(text: String) -> (r: Effect)
    ensures
        updates_view(r.updates@) == seq![SendUpdateView::Message(text@)],
        !r.failed,
{
    let mut updates = Vec::new();
    updates.push(SendUpdate::Message(text));
    assert(updates_view(updates@) =~= seq![SendUpdateView::Message(text@)]);
    Effect { updates, failed: false }
}

fn refuse(text: String) -> (r: Effect)
    ensures
        updates_view(r.updates@) == seq![SendUpdateView::Message(text@)],
        r.failed,
{
    let mut updates = Vec::new();
    updates.push(SendUpdate::Message(text));
    assert(updates_view(updates@) =~= seq![SendUpdateView::Message(text@)]);
    Effect { updates, failed: true }
}

fn quoted(before: &str, name: &str, after: &str) -> (r: String)
    ensures
        r@ == before@ + name@ + after@,
{
    let mut out = concat(before, name);
    out.append(after);
    out
}

fn run(chat: &mut Chat, command: ParsedCommand, reply: Option<MessageVariables>) -> (r: Effect)
    requires
        command@.well_formed(),
    ensures
        (EffectView { chat: final(chat)@, updates: updates_view(r.updates@), failed: r.failed })
            == command_effect(
            old(chat)@,
            command@,
            match reply {
                Some(reply) => Some(reply.fields()),
                None => None,
            },
        ),
{
    match command {
        ParsedCommand::SetFilter { text, parsed } => match parsed {
            Ok(expression) => {
                chat.filter = Some(Filter::new(text, expression));
                changed_chat()
            },
            Err(error) => refuse(concat("parse error: ", error.as_str())),
        },
        ParsedCommand::GetFilter => match &chat.filter {
            Some(filter) => answer(filter.text.clone()),
            None => refuse("no filter set".to_owned()),
        },
        ParsedCommand::SetOption(parsed) => match parsed {
            Ok(assignment) => match chat.settings.set_from_assignment(
                &assignment,
                &chat.variables,
            ) {
                Ok(()) => changed_chat(),
                Err(error) => {
                    let shown = error.to_string();
                    refuse(concat("failed to set option: ", shown.as_str()))
                },
            },
            Err(error) => refuse(concat("parse error: ", error.as_str())),
        },
        ParsedCommand::GetOptions => {
            let variables = chat.settings.to_variables();
            answer(variables.show(false))
        },
        ParsedCommand::SetVariable(parsed) => match parsed {
            Ok(assignment) => {
                let reserved = MessageVariables::default();
                if reserved.contains_variable(assignment.identifier.as_str()) {
                    refuse(
                        quoted(
                            "failed to set variable: \"",
                            assignment.identifier.as_str(),
                            "\" is reserved",
                        ),
                    )
                } else {
                    let snapshot = chat.variables.clone();
                    match chat.variables.set_from_assignment(&assignment, &snapshot) {
                        Ok(()) => changed_chat(),
                        Err(error) => {
                            let shown = error.to_string();
                            refuse(concat("failed to set variable: ", shown.as_str()))
                        },
                    }
                }
            },
            Err(error) => refuse(concat("parse error: ", error.as_str())),
        },
        ParsedCommand::UnsetVariable(parsed) => match parsed {
            Ok(identifier) => {
                if chat.variables.remove(identifier.as_str()) {
                    changed_chat()
                } else {
                    refuse(quoted("variable \"", identifier.as_str(), "\" does not exist"))
                }
            },
            Err(error) => refuse(concat("parse error: ", error.as_str())),
        },
        ParsedCommand::GetVariables => {
            if chat.variables.count() > 0 {
                answer(chat.variables.show(false))
            } else {
                refuse("no variables".to_owned())
            }
        },
        ParsedCommand::GetMessageVariables => match reply {
            Some(reply) => {
                let variables = reply.to_variables();
                answer(variables.to_string())
            },
            None => refuse("error: no reply message".to_owned()),
        },
        ParsedCommand::Eval(parsed) => match parsed {
            Ok(expression) => match evaluate(&expression, &chat.variables) {
                Ok(value) => answer(value.to_string()),
                Err(error) => {
                    let shown = error.to_string();
                    refuse(concat("error: failed to evalute expression: ", shown.as_str()))
                },
            },
            Err(error) => refuse(concat("parse error: ", error.as_str())),
        },
        ParsedCommand::Help => answer(HELP_STRING.to_owned()),
    }
}

fn filter(chat: &Chat, message: MessageVariables, id: i32, updates: &mut Vec<SendUpdate>)
    requires
        chat@.well_formed(),
    ensures
        updates_view(final(updates)@) == updates_view(old(updates)@) + filter_effect(
            chat@,
            message.fields(),
            id,
        ),
{
    let ghost before = updates_view(updates@);
    let mut variables = message.to_variables();
    variables.extend(chat.variables.clone());
    if let Some(filter) = &chat.filter {
        match evaluate(&filter.expression, &variables) {
            Ok(value) => match value {
                Value::Bool(value) => {
                    if value {
                        updates.push(SendUpdate::DeleteMessage(id));
                        if chat.settings.report_filtered {
                            updates.push(SendUpdate::Message("message filtered".to_owned()));
                        }
                    }
                },
                _ => {
                    if chat.settings.debug_print {
                        updates.push(
                            SendUpdate::Message(
                                "error: filter evaluated to non-bool value".to_owned(),
                            ),
                        );
                    }
                },
            },
            Err(error) => {
                if chat.settings.debug_print {
                    let shown = error.to_string();
                    updates.push(
                        SendUpdate::Message(
                            concat("error: failed to evaluate filter: ", shown.as_str()),
                        ),
                    );
                }
            },
        }
    }
    assert(updates_view(updates@) =~= before + filter_effect(chat@, message.fields(), id));
}

/// Lets `chat` handle a message. The expressions in the request and the
/// filter of the chat must hold each operator in a position of its arity.
pub fn handle_message(chat: &mut Chat, request: Request) -> (r: Vec<SendUpdate>)
    requires
        old(chat)@.well_formed(),
        request@.well_formed(),
    ensures
        (final(chat)@, updates_view(r@)) == handled(old(chat)@, request@),
        final(chat)@.well_formed(),
{
    let Request { command, from_admin, message_id, variables, reply } = request;
    let mut result: Vec<SendUpdate> = Vec::new();
    assert(updates_view(result@) =~= Seq::<SendUpdateView>::empty());
    match command {
        Ok(Some(command)) => {
            if command.requires_admin_rights() && !from_admin {
                result.push(SendUpdate::Message("error: permission denied".to_owned()));
                assert(updates_view(result@) =~= seq![
                    SendUpdateView::Message("error: permission denied"@),
                ]);
            } else {
                let reports_success = command.requires_admin_rights();
                let effect = run(chat, command, reply);
                let mut updates = effect.updates;
                if reports_success && !effect.failed && chat.settings.report_command_success {
                    let ghost said = updates_view(updates@);
                    updates.push(SendUpdate::Message("success".to_owned()));
                    assert(updates_view(updates@) =~= said.push(
                        SendUpdateView::Message("success"@),
                    ));
                }
                return updates;
            }
        },
        Ok(None) => {},
        Err(error) => {
            let shown = error.to_string();
            result.push(SendUpdate::Message(concat("error: ", shown.as_str())));
            assert(updates_view(result@) =~= seq![
                SendUpdateView::Message("error: "@ + error@.text()),
            ]);
        },
    }
    if chat.settings.filter_enabled {
        filter(chat, variables, message_id, &mut result);
    }
    result
}

/// The part of a chat's session that decides: the chat as it is kept, and
/// the name under which the bot is addressed.
#[derive(Debug)]
pub struct Session {
    bot_username: String,
    chat: Chat,
}

impl Session {
    /// The chat as the session keeps it.
    pub closed spec fn chat_view(&self) -> ChatView {
        self.chat@
    }

    /// The name under which the bot is addressed.
    pub closed spec fn bot_view(&self) -> Seq<char> {
        self.bot_username@
    }

    /// A session for `chat`. The filter of the chat must hold each
    /// operator in a position of its arity.
    pub fn new(chat: Chat, bot_username: String) -> (r: Self)
        requires
            chat@.well_formed(),
        ensures
            r.chat_view() == chat@,
            r.bot_view() == bot_username@,
    {
        Session { bot_username, chat }
    }

    #[verifier::type_invariant]
    closed spec fn filter_is_well_formed(&self) -> bool {
        self.chat@.well_formed()
    }

    /// The identifier of the chat.
    pub fn chat_id(&self) -> (r: i64)
        ensures
            r == self.chat_view().chat_id,
    {
        self.chat.chat_id
    }

    /// The chat, to be stored.
    pub fn chat(&self) -> (r: &Chat)
        ensures
            r@ == self.chat_view(),
            r@.well_formed(),
    {
        proof {
            use_type_invariant(self);
        }
        &self.chat
    }

    /// Reads the text of a message, if it has one, as a command for this
    /// bot.
    pub fn command(&self, text: Option<&str>) -> (r: CommandResult)
        ensures
            crate::command::command_view(r) == match text {
                Some(text) => parsed_command(text@, self.bot_view()),
                None => Ok(None),
            },
    {
        match text {
            Some(text) => Command::new(text, self.bot_username.as_str()),
            None => Ok(None),
        }
    }

    /// Handles a message. The expressions in the request must hold each
    /// operator in a position of its arity.
    pub fn handle_message(&mut self, request: Request) -> (r: Vec<SendUpdate>)
        requires
            request@.well_formed(),
        ensures
            (final(self).chat_view(), updates_view(r@)) == handled(
                old(self).chat_view(),
                request@,
            ),
            final(self).bot_view() == old(self).bot_view(),
    {
        proof {
            use_type_invariant(&*self);
        }
        let mut chat = Chat::default();
        core::mem::swap(&mut self.chat, &mut chat);
        let updates = handle_message(&mut chat, request);
        self.chat = chat;
        updates
    }
}

} // verus!

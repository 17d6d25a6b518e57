//! The state that is kept for one chat: its settings, its filter and its
//! user variables.

use vstd::prelude::*;
use vstd::string::*;

use crate::evaluation::{
    evaluate, EvaluationError, EvaluationErrorView, SetFromAssignment, SetFromAssignmentResult,
    ToVariables,
};
use crate::text::str_eq;
use crate::tree::{Assignment, Expression, ExpressionView};
use crate::typed::{cannot_be_empty, required_bool, wrong_type, FieldType};
use crate::value::{Value, ValueView};
use crate::variables::{lemma_nothing_marked, put_fresh, Binding, Variables};

verus! {

/// The options of a chat.
#[derive(Debug, Clone, Copy, PartialEq, Eq, Structural)]
pub struct Settings {
    /// Report failures of the filter in the chat.
    pub debug_print: bool,
    /// Say so in the chat when a message was filtered.
    pub report_filtered: bool,
    /// Report invalid commands in the chat.
    pub report_invalid_commands: bool,
    /// Apply the filter to messages.
    pub filter_enabled: bool,
    /// Say so in the chat when a command that changes something succeeded.
    pub report_command_success: bool,
}

impl View for Settings {
    type V = Settings;

    open spec fn view(&self) -> Settings {
        *self
    }
}

impl Default for Settings {
    fn default() -> (r: Self)
        ensures
            r == (Settings {
                debug_print: false,
                report_filtered: true,
                report_invalid_commands: true,
                filter_enabled: true,
                report_command_success: true,
            }),
    {
        Settings {
            debug_print: false,
            report_filtered: true,
            report_invalid_commands: true,
            filter_enabled: true,
            report_command_success: true,
        }
    }
}

/// What an option makes of a value: a boolean is taken, `Empty` and every
/// other value are rejected.
pub open spec fn flag(field: Seq<char>, value: ValueView) -> Result<bool, EvaluationErrorView> {
    match value {
        ValueView::Bool(b) => Ok(b),
        ValueView::Empty => Err(EvaluationErrorView::ValueError(cannot_be_empty(field))),
        _ => Err(EvaluationErrorView::ValueError(wrong_type(field, FieldType::Bool))),
    }
}

fn checked_flag(field: &str, value: Value) -> (r: Result<bool, EvaluationError>)
    ensures
        match r {
            Ok(b) => Ok(b),
            Err(error) => Err(error@),
        } == flag(field@, value@),
{
    match required_bool(field, value) {
        Ok(b) => Ok(b),
        Err(error) => Err(EvaluationError::ValueError(error)),
    }
}

impl ToVariables for Settings {
    open spec fn fields(&self) -> Seq<Binding> {
        Seq::empty()
            .push(("debug_print"@, ValueView::Bool(self.debug_print)))
            .push(("report_filtered"@, ValueView::Bool(self.report_filtered)))
            .push(("report_invalid_commands"@, ValueView::Bool(self.report_invalid_commands)))
            .push(("filter_enabled"@, ValueView::Bool(self.filter_enabled)))
            .push(("report_command_success"@, ValueView::Bool(self.report_command_success)))
    }

    fn to_variables(self) -> (r: Variables) {
        proof {
            reveal_strlit("debug_print");
            reveal_strlit("report_filtered");
            reveal_strlit("report_invalid_commands");
            reveal_strlit("filter_enabled");
            reveal_strlit("report_command_success");
        }
        let mut result = Variables::new();
        let marks = Ghost(Set::<(nat, char, char)>::empty());
        proof {
            lemma_nothing_marked();
        }
        let marks = put_fresh(&mut result, "debug_print", Value::Bool(self.debug_print), marks);
        let marks = put_fresh(&mut result, "report_filtered", Value::Bool(self.report_filtered), marks);
        let marks = put_fresh(&mut result, "report_invalid_commands", Value::Bool(self.report_invalid_commands), marks);
        let marks = put_fresh(&mut result, "filter_enabled", Value::Bool(self.filter_enabled), marks);
        let marks = put_fresh(&mut result, "report_command_success", Value::Bool(self.report_command_success), marks);
        result
    }
}

/// What the options make of `value` stored under `identifier`: an option
/// takes a boolean under its own name; there are no other names.
pub open spec fn option_stored(model: Settings, identifier: Seq<char>, value: ValueView) -> Result<
    Settings,
    EvaluationErrorView,
> {
    if identifier == "debug_print"@ {
        match flag(identifier, value) {
            Ok(b) => Ok(Settings { debug_print: b, ..model }),
            Err(error) => Err(error),
        }
    } else if identifier == "report_filtered"@ {
        match flag(identifier, value) {
            Ok(b) => Ok(Settings { report_filtered: b, ..model }),
            Err(error) => Err(error),
        }
    } else if identifier == "report_invalid_commands"@ {
        match flag(identifier, value) {
            Ok(b) => Ok(Settings { report_invalid_commands: b, ..model }),
            Err(error) => Err(error),
        }
    } else if identifier == "filter_enabled"@ {
        match flag(identifier, value) {
            Ok(b) => Ok(Settings { filter_enabled: b, ..model }),
            Err(error) => Err(error),
        }
    } else if identifier == "report_command_success"@ {
        match flag(identifier, value) {
            Ok(b) => Ok(Settings { report_command_success: b, ..model }),
            Err(error) => Err(error),
        }
    } else {
        Err(EvaluationErrorView::UndeclaredIdentifier(identifier))
    }
}

impl SetFromAssignment for Settings {
    open spec fn stored(model: Settings, identifier: Seq<char>, value: ValueView) -> Result<
        Settings,
        EvaluationErrorView,
    > {
        option_stored(model, identifier, value)
    }

    fn set_from_assignment(&mut self, assignment: &Assignment, variables: &Variables) -> (r:
        SetFromAssignmentResult) {
        let value = match evaluate(&assignment.expression, variables) {
            Ok(value) => value,
            Err(e) => {
                return Err(e);
            },
        };
        let identifier = assignment.identifier.as_str();
        if str_eq(identifier, "debug_print") {
            match checked_flag(identifier, value) {
                Ok(b) => {
                    self.debug_print = b;
                },
                Err(e) => {
                    return Err(e);
                },
            }
        } else if str_eq(identifier, "report_filtered") {
            match checked_flag(identifier, value) {
                Ok(b) => {
                    self.report_filtered = b;
                },
                Err(e) => {
                    return Err(e);
                },
            }
        } else if str_eq(identifier, "report_invalid_commands") {
            match checked_flag(identifier, value) {
                Ok(b) => {
                    self.report_invalid_commands = b;
                },
                Err(e) => {
                    return Err(e);
                },
            }
        } else if str_eq(identifier, "filter_enabled") {
            match checked_flag(identifier, value) {
                Ok(b) => {
                    self.filter_enabled = b;
                },
                Err(e) => {
                    return Err(e);
                },
            }
        } else if str_eq(identifier, "report_command_success") {
            match checked_flag(identifier, value) {
                Ok(b) => {
                    self.report_command_success = b;
                },
                Err(e) => {
                    return Err(e);
                },
            }
        } else {
            return Err(EvaluationError::UndeclaredIdentifier(assignment.identifier.clone()));
        }
        Ok(())
    }
}

/// A filter: the text that it was parsed from, and its expression.
#[derive(Debug)]
pub struct Filter {
    pub text: String,
    pub expression: Expression,
}

/// The mathematical model of a `Filter`.
pub struct FilterView {
    pub text: Seq<char>,
    pub expression: ExpressionView,
}

impl View for Filter {
    type V = FilterView;

    open spec fn view(&self) -> FilterView {
        FilterView { text: self.text@, expression: self.expression@ }
    }
}

impl Filter {
    pub fn new(text: String, expression: Expression) -> (r: Self)
        ensures
            r.text == text,
            r.expression == expression,
    {
        Filter { text, expression }
    }
}

impl Clone for Filter {
    fn clone(&self) -> (r: Self)
        ensures
            r@ == self@,
    {
        Filter { text: self.text.clone(), expression: self.expression.clone() }
    }
}

/// What is kept for one chat.
#[derive(Debug)]
pub struct Chat {
    pub chat_id: i64,
    pub filter: Option<Filter>,
    pub settings: Settings,
    pub variables: Variables,
}

/// The mathematical model of a `Chat`: its fields, with the user variables
/// as bindings in their order.
pub struct ChatView {
    pub chat_id: i64,
    pub filter: Option<FilterView>,
    pub settings: Settings,
    pub variables: Seq<Binding>,
}

impl View for Chat {
    type V = ChatView;

    open spec fn view(&self) -> ChatView {
        ChatView {
            chat_id: self.chat_id,
            filter: match self.filter {
                Some(filter) => Some(filter@),
                None => None,
            },
            settings: self.settings,
            variables: self.variables.bindings(),
        }
    }
}

impl ChatView {
    /// The filter, if there is one, holds each operator in a position of
    /// its arity.
    pub open spec fn well_formed(self) -> bool {
        self.filter matches Some(filter) ==> filter.expression.well_formed()
    }
}

impl Chat {
    /// Decides whether the filter, if there is one, holds each operator in
    /// a position of its arity.
    pub fn is_well_formed(&self) -> (r: bool)
        ensures
            r == self@.well_formed(),
    {
        match &self.filter {
            Some(filter) => filter.expression.is_well_formed(),
            None => true,
        }
    }
}

impl Clone for Chat {
    fn clone(&self) -> (r: Self)
        ensures
            r@ == self@,
    {
        Chat {
            chat_id: self.chat_id,
            filter: match &self.filter {
                Some(filter) => Some(filter.clone()),
                None => None,
            },
            settings: self.settings,
            variables: self.variables.clone(),
        }
    }
}

impl Default for Chat {
    fn default() -> (r: Self)
        ensures
            r@ == (ChatView {
                chat_id: 0,
                filter: None,
                settings: Settings {
                    debug_print: false,
                    report_filtered: true,
                    report_invalid_commands: true,
                    filter_enabled: true,
                    report_command_success: true,
                },
                variables: Seq::empty(),
            }),
    {
        Chat {
            chat_id: 0,
            filter: None,
            settings: Settings::default(),
            variables: Variables::new(),
        }
    }
}

} // verus!

//! The commands that a chat message can hold.

use vstd::prelude::*;
use vstd::string::*;

use crate::text::{concat, split, split_first_word, str_eq, Separator};

verus! {

/// Why a message that starts like a command is none.
#[derive(Debug)]
pub enum CommandError {
    /// There is no command of this name.
    InvalidCommand(String),
    /// The command has an argument where it takes none, or the other way
    /// round.
    InvalidArguments { command: String, argument_is_expected: bool },
}

/// The mathematical model of a `CommandError`.
pub enum CommandErrorView {
    InvalidCommand(Seq<char>),
    InvalidArguments { command: Seq<char>, argument_is_expected: bool },
}

/// A command with its argument.
#[derive(Debug)]
pub enum Command {
    SetFilter(String),
    GetFilter,
    SetOption(String),
    GetOptions,
    SetVariable(String),
    UnsetVariable(String),
    GetVariables,
    GetMessageVariables,
    Eval(String),
    Help,
}

/// The mathematical model of a `Command`.
pub enum CommandView {
    SetFilter(Seq<char>),
    GetFilter,
    SetOption(Seq<char>),
    GetOptions,
    SetVariable(Seq<char>),
    UnsetVariable(Seq<char>),
    GetVariables,
    GetMessageVariables,
    Eval(Seq<char>),
    Help,
}

pub type CommandResult = Result<Option<Command>, CommandError>;

/// The model of what reading a message as a command yields.
pub type CommandOutcome = Result<Option<CommandView>, CommandErrorView>;

impl View for CommandError {
    type V = CommandErrorView;

    open spec fn view(&self) -> CommandErrorView {
        match self {
            CommandError::InvalidCommand(command) => CommandErrorView::InvalidCommand(command@),
            CommandError::InvalidArguments {
                command,
                argument_is_expected,
            } => CommandErrorView::InvalidArguments {
                command: command@,
                argument_is_expected: *argument_is_expected,
            },
        }
    }
}

impl View for Command {
    type V = CommandView;

    open spec fn view(&self) -> CommandView {
        match self {
            Command::SetFilter(arg) => CommandView::SetFilter(arg@),
            Command::GetFilter => CommandView::GetFilter,
            Command::SetOption(arg) => CommandView::SetOption(arg@),
            Command::GetOptions => CommandView::GetOptions,
            Command::SetVariable(arg) => CommandView::SetVariable(arg@),
            Command::UnsetVariable(arg) => CommandView::UnsetVariable(arg@),
            Command::GetVariables => CommandView::GetVariables,
            Command::GetMessageVariables => CommandView::GetMessageVariables,
            Command::Eval(arg) => CommandView::Eval(arg@),
            Command::Help => CommandView::Help,
        }
    }
}

/// The model of a `CommandResult`.
pub open spec fn command_view(r: CommandResult) -> CommandOutcome {
    match r {
        Ok(Some(command)) => Ok(Some(command@)),
        Ok(None) => Ok(None),
        Err(error) => Err(error@),
    }
}

impl CommandErrorView {
    /// The message shown to the user.
    pub open spec fn text(self) -> Seq<char> {
        match self {
            CommandErrorView::InvalidCommand(command) => "invalid command \""@ + command + "\""@,
            CommandErrorView::InvalidArguments { command, argument_is_expected } => if argument_is_expected {
                "command \""@ + command + "\" expected an argument"@
            } else {
                "command \""@ + command + "\" was not expecting an argument"@
            },
        }
    }
}

impl CommandView {
    /// Whether only an administrator of the chat may give the command:
    /// so it is for the commands that change what the chat keeps.
    pub open spec fn requires_admin_rights(self) -> bool {
        self is SetFilter || self is SetOption || self is SetVariable || self is UnsetVariable
    }
}

/// The command named `name`, given with the argument `arg`: a command that
/// takes an argument must have one, and the others must have none.
pub open spec fn named_command(name: Seq<char>, arg: Option<Seq<char>>) -> Result<
    CommandView,
    CommandErrorView,
> {
    let missing = Err(
        CommandErrorView::InvalidArguments { command: name, argument_is_expected: true },
    );
    let unexpected = Err(
        CommandErrorView::InvalidArguments { command: name, argument_is_expected: false },
    );
    if name == "/set_filter"@ {
        match arg {
            Some(arg) => Ok(CommandView::SetFilter(arg)),
            None => missing,
        }
    } else if name == "/get_filter"@ {
        match arg {
            None => Ok(CommandView::GetFilter),
            Some(_) => unexpected,
        }
    } else if name == "/set_option"@ {
        match arg {
            Some(arg) => Ok(CommandView::SetOption(arg)),
            None => missing,
        }
    } else if name == "/get_options"@ {
        match arg {
            None => Ok(CommandView::GetOptions),
            Some(_) => unexpected,
        }
    } else if name == "/set_variable"@ {
        match arg {
            Some(arg) => Ok(CommandView::SetVariable(arg)),
            None => missing,
        }
    } else if name == "/unset_variable"@ {
        match arg {
            Some(arg) => Ok(CommandView::UnsetVariable(arg)),
            None => missing,
        }
    } else if name == "/get_variables"@ {
        match arg {
            None => Ok(CommandView::GetVariables),
            Some(_) => unexpected,
        }
    } else if name == "/get_message_variables"@ {
        match arg {
            None => Ok(CommandView::GetMessageVariables),
            Some(_) => unexpected,
        }
    } else if name == "/eval"@ {
        match arg {
            Some(arg) => Ok(CommandView::Eval(arg)),
            None => missing,
        }
    } else if name == "/help"@ {
        match arg {
            None => Ok(CommandView::Help),
            Some(_) => unexpected,
        }
    } else {
        Err(CommandErrorView::InvalidCommand(name))
    }
}

/// What a message text is as a command for the bot `bot_username`. A text
/// that does not start with `/` is none. Its first word is the command,
/// the rest is the argument. A command may name the bot that it is for
/// after an `@`; one for another bot is none.
pub open spec fn parsed_command(text: Seq<char>, bot_username: Seq<char>) -> CommandOutcome {
    if text.len() > 0 && text[0] == '/' {
        let (word, arg) = split(text, Separator::Whitespace);
        let (name, addressee) = split(word, Separator::Char('@'));
        if addressee is Some && addressee != Some(bot_username) {
            Ok(None)
        } else {
            match named_command(name, arg) {
                Ok(command) => Ok(Some(command)),
                Err(error) => Err(error),
            }
        }
    } else {
        Ok(None)
    }
}

impl CommandError {
    pub fn new_invalid_command(command: String) -> (r: CommandError)
        ensures
            r == CommandError::InvalidCommand(command),
    {
        CommandError::InvalidCommand(command)
    }

    pub fn new_invalid_arguments(command: String, argument_is_expected: bool) -> (r: CommandError)
        ensures
            r == (CommandError::InvalidArguments { command, argument_is_expected }),
    {
        CommandError::InvalidArguments { command, argument_is_expected }
    }

    /// The message shown to the user.
    pub fn to_string(&self) -> (r: String)
        ensures
            r@ == self@.text(),
    {
        match self {
            CommandError::InvalidCommand(command) => {
                let mut out = concat("invalid command \"", command.as_str());
                out.append("\"");
                out
            },
            CommandError::InvalidArguments { command, argument_is_expected } => {
                let mut out = concat("command \"", command.as_str());
                if *argument_is_expected {
                    out.append("\" expected an argument");
                } else {
                    out.append("\" was not expecting an argument");
                }
                out
            },
        }
    }
}

fn missing_argument(command: &str) -> (r: CommandResult)
    ensures
        command_view(r) == Err::<Option<CommandView>, CommandErrorView>(
            CommandErrorView::InvalidArguments { command: command@, argument_is_expected: true },
        ),
{
    Err(CommandError::new_invalid_arguments(command.to_owned(), true))
}

fn unexpected_argument(command: &str) -> (r: CommandResult)
    ensures
        command_view(r) == Err::<Option<CommandView>, CommandErrorView>(
            CommandErrorView::InvalidArguments { command: command@, argument_is_expected: false },
        ),
{
    Err(CommandError::new_invalid_arguments(command.to_owned(), false))
}

impl Command {
    /// Reads `text` as a command for the bot `bot_username`.
    pub fn new(text: &str, bot_username: &str) -> (r: CommandResult)
        ensures
            command_view(r) == parsed_command(text@, bot_username@),
    {
        if text.unicode_len() == 0 || text.get_char(0) != '/' {
            return Ok(None);
        }
        let (command, arg) = split_first_word(text, Separator::Whitespace);
        proof {
            crate::text::lemma_split_word(text@, Separator::Whitespace);
        }
        let (command, for_bot_username) = split_first_word(command, Separator::Char('@'));
        if let Some(for_bot_username) = for_bot_username {
            if !str_eq(for_bot_username, bot_username) {
                return Ok(None);
            }
        }
        if str_eq(command, "/set_filter") {
            match arg {
                Some(arg) => Ok(Some(Command::SetFilter(arg.to_owned()))),
                None => missing_argument(command),
            }
        } else if str_eq(command, "/get_filter") {
            match arg {
                None => Ok(Some(Command::GetFilter)),
                Some(_) => unexpected_argument(command),
            }
        } else if str_eq(command, "/set_option") {
            match arg {
                Some(arg) => Ok(Some(Command::SetOption(arg.to_owned()))),
                None => missing_argument(command),
            }
        } else if str_eq(command, "/get_options") {
            match arg {
                None => Ok(Some(Command::GetOptions)),
                Some(_) => unexpected_argument(command),
            }
        } else if str_eq(command, "/set_variable") {
            match arg {
                Some(arg) => Ok(Some(Command::SetVariable(arg.to_owned()))),
                None => missing_argument(command),
            }
        } else if str_eq(command, "/unset_variable") {
            match arg {
                Some(arg) => Ok(Some(Command::UnsetVariable(arg.to_owned()))),
                None => missing_argument(command),
            }
        } else if str_eq(command, "/get_variables") {
            match arg {
                None => Ok(Some(Command::GetVariables)),
                Some(_) => unexpected_argument(command),
            }
        } else if str_eq(command, "/get_message_variables") {
            match arg {
                None => Ok(Some(Command::GetMessageVariables)),
                Some(_) => unexpected_argument(command),
            }
        } else if str_eq(command, "/eval") {
            match arg {
                Some(arg) => Ok(Some(Command::Eval(arg.to_owned()))),
                None => missing_argument(command),
            }
        } else if str_eq(command, "/help") {
            match arg {
                None => Ok(Some(Command::Help)),
                Some(_) => unexpected_argument(command),
            }
        } else {
            Err(CommandError::new_invalid_command(command.to_owned()))
        }
    }

    /// Whether only an administrator of the chat may give the command.
    pub fn requires_admin_rights(&self) -> (r: bool)
        ensures
            r == self@.requires_admin_rights(),
    {
        match self {
            Command::SetFilter(_) => true,
            Command::SetOption(_) => true,
            Command::GetMessageVariables => false,
            Command::Help => false,
            Command::SetVariable(_) => true,
            Command::UnsetVariable(_) => true,
            Command::GetVariables => false,
            Command::GetOptions => false,
            Command::GetFilter => false,
            Command::Eval(_) => false,
        }
    }
}

} // verus!

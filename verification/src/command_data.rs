//! The options that a command was called with.

use vstd::prelude::*;
use vstd::std_specs::convert::FromSpecImpl;

verus! {

/// The value of one option of a command.
#[derive(Clone, Debug, PartialEq, Eq)]
pub enum CommandDataOptionValue {
    String(String),
    Integer(i64),
    Boolean(bool),
    /// A user, by number.
    User(u64),
    /// A channel, by number.
    Channel(u64),
    /// A role, by number.
    Role(u64),
    /// A number that is not whole.
    Number,
    /// An attached file, by number.
    Attachment(u64),
}

/// [`CommandDataOptionValue`] with its text as a sequence of characters.
pub enum CommandDataOptionValueView {
    String(Seq<char>),
    Integer(i64),
    Boolean(bool),
    User(u64),
    Channel(u64),
    Role(u64),
    Number,
    Attachment(u64),
}

impl View for CommandDataOptionValue {
    type V = CommandDataOptionValueView;

    open spec fn view(&self) -> CommandDataOptionValueView {
        match self {
            CommandDataOptionValue::String(text) => CommandDataOptionValueView::String(text@),
            CommandDataOptionValue::Integer(n) => CommandDataOptionValueView::Integer(*n),
            CommandDataOptionValue::Boolean(b) => CommandDataOptionValueView::Boolean(*b),
            CommandDataOptionValue::User(id) => CommandDataOptionValueView::User(*id),
            CommandDataOptionValue::Channel(id) => CommandDataOptionValueView::Channel(*id),
            CommandDataOptionValue::Role(id) => CommandDataOptionValueView::Role(*id),
            CommandDataOptionValue::Number => CommandDataOptionValueView::Number,
            CommandDataOptionValue::Attachment(id) => CommandDataOptionValueView::Attachment(*id),
        }
    }
}

impl CommandDataOptionValue {
    /// A copy of the value.
    pub fn duplicate(&self) -> (copy: Self)
        ensures
            copy@ == self@,
    {
        match self {
            CommandDataOptionValue::String(text) => CommandDataOptionValue::String(text.clone()),
            CommandDataOptionValue::Integer(n) => CommandDataOptionValue::Integer(*n),
            CommandDataOptionValue::Boolean(b) => CommandDataOptionValue::Boolean(*b),
            CommandDataOptionValue::User(id) => CommandDataOptionValue::User(*id),
            CommandDataOptionValue::Channel(id) => CommandDataOptionValue::Channel(*id),
            CommandDataOptionValue::Role(id) => CommandDataOptionValue::Role(*id),
            CommandDataOptionValue::Number => CommandDataOptionValue::Number,
            CommandDataOptionValue::Attachment(id) => CommandDataOptionValue::Attachment(*id),
        }
    }
}

/// One option of a command: its name, and its value where the platform
/// could make sense of what the user gave.
#[derive(Clone, Debug, PartialEq, Eq)]
pub struct CommandDataOption {
    pub name: String,
    pub resolved: Option<CommandDataOptionValue>,
}

/// The value of the option at one position, if there is an option there and
/// it has a value.
#[derive(Clone, Debug, PartialEq, Eq)]
pub struct DataWrapper {
    pub data: Option<CommandDataOptionValue>,
}

/// The value at position `idx` of `options`.
pub open spec fn option_at(options: Seq<CommandDataOption>, idx: int) -> Option<
    CommandDataOptionValueView,
> {
    if 0 <= idx < options.len() {
        match options[idx].resolved {
            Some(value) => Some(value@),
            None => None,
        }
    } else {
        None
    }
}

/// The text at position `idx` of `options`, if the value there is a text.
pub open spec fn text_at(options: Seq<CommandDataOption>, idx: int) -> Option<Seq<char>> {
    match option_at(options, idx) {
        Some(CommandDataOptionValueView::String(text)) => Some(text),
        _ => None,
    }
}

/// The whole number at position `idx` of `options`, if the value there is
/// one.
pub open spec fn integer_at(options: Seq<CommandDataOption>, idx: int) -> Option<i64> {
    match option_at(options, idx) {
        Some(CommandDataOptionValueView::Integer(n)) => Some(n),
        _ => None,
    }
}

impl View for DataWrapper {
    type V = Option<CommandDataOptionValueView>;

    open spec fn view(&self) -> Option<CommandDataOptionValueView> {
        match self.data {
            Some(value) => Some(value@),
            None => None,
        }
    }
}

impl DataWrapper {
    /// Picks the value of the option at position `idx`.
    pub fn from(options: &[CommandDataOption], idx: usize) -> (wrapper: DataWrapper)
        ensures
            wrapper@ == option_at(options@, idx as int),
    {
        if idx < options.len() {
            match &options[idx].resolved {
                Some(value) => DataWrapper { data: Some(value.duplicate()) },
                None => DataWrapper { data: None },
            }
        } else {
            DataWrapper { data: None }
        }
    }
}

impl From<DataWrapper> for Option<String> {
    fn from(item: DataWrapper) -> (text: Option<String>) {
        match item.data {
            Some(CommandDataOptionValue::String(data)) => Some(data),
            _ => None,
        }
    }
}

impl FromSpecImpl<DataWrapper> for Option<String> {
    open spec fn obeys_from_spec() -> bool {
        true
    }

    open spec fn from_spec(item: DataWrapper) -> Option<String> {
        match item.data {
            Some(CommandDataOptionValue::String(data)) => Some(data),
            _ => None,
        }
    }
}

impl From<DataWrapper> for Option<i64> {
    fn from(item: DataWrapper) -> (number: Option<i64>) {
        match item.data {
            Some(CommandDataOptionValue::Integer(data)) => Some(data),
            _ => None,
        }
    }
}

impl FromSpecImpl<DataWrapper> for Option<i64> {
    open spec fn obeys_from_spec() -> bool {
        true
    }

    open spec fn from_spec(item: DataWrapper) -> Option<i64> {
        match item.data {
            Some(CommandDataOptionValue::Integer(data)) => Some(data),
            _ => None,
        }
    }
}

impl From<DataWrapper> for Option<bool> {
    fn from(item: DataWrapper) -> (flag: Option<bool>) {
        match item.data {
            Some(CommandDataOptionValue::Boolean(data)) => Some(data),
            _ => None,
        }
    }
}

impl FromSpecImpl<DataWrapper> for Option<bool> {
    open spec fn obeys_from_spec() -> bool {
        true
    }

    open spec fn from_spec(item: DataWrapper) -> Option<bool> {
        match item.data {
            Some(CommandDataOptionValue::Boolean(data)) => Some(data),
            _ => None,
        }
    }
}

/// Reads the text at position `idx` of `options`.
pub fn text_option(options: &[CommandDataOption], idx: usize) -> (text: Option<String>)
    ensures
        text.deep_view() == text_at(options@, idx as int),
{
    Option::<String>::from(DataWrapper::from(options, idx))
}

/// Reads the whole number at position `idx` of `options`.
pub fn integer_option(options: &[CommandDataOption], idx: usize) -> (number: Option<i64>)
    ensures
        number == integer_at(options@, idx as int),
{
    Option::<i64>::from(DataWrapper::from(options, idx))
}

} // verus!

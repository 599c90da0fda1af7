use vstd::prelude::*;
use vstd::string::*;

verus! {

/// The kinds of failure an operation of this crate can report.
#[derive(Debug, Clone, Copy, PartialEq, Eq, Structural)]
pub enum ErrorKind {
    /// An operation was invoked in a state that does not permit it.
    InvalidOperation,
    /// A schedule was built while a mandatory property was still unset.
    RequiredProperty,
    /// A calendar value lies outside its valid domain.
    OutOfRange,
}

/// The `InvalidOperationError` identifies errors where operations (function calls) are made with
/// invalid or incomplete data.
#[derive(Debug)]
pub struct InvalidOperationError {
    /// A message with additional information on the error.
    pub message: String,
}

/// The `RequiredPropertyError` identifies errors when attempting to build a
/// [Schedule](crate::schedule::Schedule) where required builder functions have not been called.
#[derive(Debug)]
pub struct RequiredPropertyError {
    /// A message with additional information on the error.
    pub message: String,
}

/// The `OutOfRangeError` identifies calendar values outside their valid domain.
#[derive(Debug)]
pub struct OutOfRangeError {
    /// A message with additional information on the error.
    pub message: String,
}

/// Any failure reported by this crate.
#[derive(Debug)]
pub enum ScheduleError {
    /// See [`InvalidOperationError`].
    InvalidOperation(InvalidOperationError),
    /// See [`RequiredPropertyError`].
    RequiredProperty(RequiredPropertyError),
    /// See [`OutOfRangeError`].
    OutOfRange(OutOfRangeError),
}

/// What an error is, as mathematics: its kind and the characters of its message.
pub ghost struct ErrorView {
    pub kind: ErrorKind,
    pub message: Seq<char>,
}

/// What the shown text of an invalid-operation error starts with.
pub open spec fn invalid_operation_prefix() -> Seq<char> {
    "Invalid Operation Error: "@
}

/// What the shown text of a required-property error starts with.
pub open spec fn required_property_prefix() -> Seq<char> {
    "Required Property Error: "@
}

/// What the shown text of an out-of-range error starts with.
pub open spec fn out_of_range_prefix() -> Seq<char> {
    "Out Of Range Error: "@
}

impl InvalidOperationError {
    /// The text shown for this error: a fixed prefix followed by the message.
    pub fn to_string(&self) -> (text: String)
        ensures
            text@ == invalid_operation_prefix() + self.message@,
    {
        String::from_str("Invalid Operation Error: ").concat(self.message.as_str())
    }
}

impl RequiredPropertyError {
    /// The text shown for this error: a fixed prefix followed by the message.
    pub fn to_string(&self) -> (text: String)
        ensures
            text@ == required_property_prefix() + self.message@,
    {
        String::from_str("Required Property Error: ").concat(self.message.as_str())
    }
}

impl OutOfRangeError {
    /// The text shown for this error: a fixed prefix followed by the message.
    pub fn to_string(&self) -> (text: String)
        ensures
            text@ == out_of_range_prefix() + self.message@,
    {
        String::from_str("Out Of Range Error: ").concat(self.message.as_str())
    }
}

impl View for ScheduleError {
    type V = ErrorView;

    open spec fn view(&self) -> ErrorView {
        match self {
            ScheduleError::InvalidOperation(e) => ErrorView {
                kind: ErrorKind::InvalidOperation,
                message: e.message@,
            },
            ScheduleError::RequiredProperty(e) => ErrorView {
                kind: ErrorKind::RequiredProperty,
                message: e.message@,
            },
            ScheduleError::OutOfRange(e) => ErrorView {
                kind: ErrorKind::OutOfRange,
                message: e.message@,
            },
        }
    }
}

impl ErrorView {
    /// The view of an invalid-operation error with the given message.
    pub open spec fn invalid_operation(message: Seq<char>) -> ErrorView {
        ErrorView { kind: ErrorKind::InvalidOperation, message }
    }

    /// The view of a required-property error with the given message.
    pub open spec fn required_property(message: Seq<char>) -> ErrorView {
        ErrorView { kind: ErrorKind::RequiredProperty, message }
    }

    /// The view of an out-of-range error with the given message.
    pub open spec fn out_of_range(message: Seq<char>) -> ErrorView {
        ErrorView { kind: ErrorKind::OutOfRange, message }
    }

    /// The prefix that the shown text of an error of this kind starts with.
    pub open spec fn prefix(self) -> Seq<char> {
        match self.kind {
            ErrorKind::InvalidOperation => invalid_operation_prefix(),
            ErrorKind::RequiredProperty => required_property_prefix(),
            ErrorKind::OutOfRange => out_of_range_prefix(),
        }
    }
}

impl ScheduleError {
    /// An invalid-operation error carrying `message`.
    pub fn invalid_operation(message: &str) -> (e: ScheduleError)
        ensures
            e@ == ErrorView::invalid_operation(message@),
    {
        ScheduleError::InvalidOperation(
            InvalidOperationError { message: String::from_str(message) },
        )
    }

    /// A required-property error carrying `message`.
    pub fn required_property(message: &str) -> (e: ScheduleError)
        ensures
            e@ == ErrorView::required_property(message@),
    {
        ScheduleError::RequiredProperty(
            RequiredPropertyError { message: String::from_str(message) },
        )
    }

    /// An out-of-range error carrying `message`.
    pub fn out_of_range(message: &str) -> (e: ScheduleError)
        ensures
            e@ == ErrorView::out_of_range(message@),
    {
        ScheduleError::OutOfRange(OutOfRangeError { message: String::from_str(message) })
    }

    /// The kind of this error.
    pub fn kind(&self) -> (k: ErrorKind)
        ensures
            k == self@.kind,
    {
        match self {
            ScheduleError::InvalidOperation(_) => ErrorKind::InvalidOperation,
            ScheduleError::RequiredProperty(_) => ErrorKind::RequiredProperty,
            ScheduleError::OutOfRange(_) => ErrorKind::OutOfRange,
        }
    }

    /// The message of this error, without the prefix of its kind.
    pub fn message(&self) -> (m: &str)
        ensures
            m@ == self@.message,
    {
        match self {
            ScheduleError::InvalidOperation(e) => e.message.as_str(),
            ScheduleError::RequiredProperty(e) => e.message.as_str(),
            ScheduleError::OutOfRange(e) => e.message.as_str(),
        }
    }

    /// The text shown for this error: the prefix of its kind followed by the message.
    pub fn to_string(&self) -> (text: String)
        ensures
            text@ == self@.prefix() + self@.message,
    {
        match self {
            ScheduleError::InvalidOperation(e) => e.to_string(),
            ScheduleError::RequiredProperty(e) => e.to_string(),
            ScheduleError::OutOfRange(e) => e.to_string(),
        }
    }
}

} // verus!

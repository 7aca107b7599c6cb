//! The core's error type and how it is reported to the shell.
use vstd::prelude::*;

verus! {

/// What can go wrong in a core operation.
#[derive(Debug)]
pub enum CoreError {
    /// The operation did not finish within the given milliseconds.
    Timeout(u64),
    /// The caller asked for something the core cannot do.
    InvalidArgument(String),
    /// A failure reported by a lower layer, by its message.
    Other(String),
}

impl Clone for CoreError {
    fn clone(&self) -> (r: Self)
        ensures
            r == *self,
    {
        match self {
            CoreError::Timeout(ms) => CoreError::Timeout(*ms),
            CoreError::InvalidArgument(m) => CoreError::InvalidArgument(m.clone()),
            CoreError::Other(m) => CoreError::Other(m.clone()),
        }
    }
}

/// The status class under which an error reaches the shell.
#[derive(Clone, Copy, Debug, PartialEq, Eq, Structural)]
pub enum ErrorStatus {
    Cancelled,
    InvalidArg,
    GenericFailure,
}

/// What `format!("{:?}", Duration::from_millis(millis))` prints.
pub uninterp spec fn duration_debug_text(millis: u64) -> Seq<char>;

/// Renders a duration of `millis` milliseconds with `Duration`'s `Debug`
/// format (such as `10s` or `1.5s`); the contract names the text.
#[verifier::external_body]
fn duration_text(millis: u64) -> (s: String)
    ensures
        s@ == duration_debug_text(millis),
{
    format!("{:?}", std::time::Duration::from_millis(millis))
}

/// An `InvalidArgument` error with `message`.
pub fn invalid_argument(message: String) -> (e: CoreError)
    ensures
        e == CoreError::InvalidArgument(message),
{
    CoreError::InvalidArgument(message)
}

/// A `Timeout` error after `millis` milliseconds.
pub fn timeout(millis: u64) -> (e: CoreError)
    ensures
        e == CoreError::Timeout(millis),
{
    CoreError::Timeout(millis)
}

/// The text of an error, as its `Display` renders it.
pub open spec fn error_text(e: CoreError) -> Seq<char> {
    match e {
        CoreError::Timeout(ms) => "operation timed out after "@ + duration_debug_text(ms),
        CoreError::InvalidArgument(m) => "invalid argument: "@ + m@,
        CoreError::Other(m) => m@,
    }
}

/// The reason handed to the shell with an error.
pub open spec fn error_reason(e: CoreError) -> Seq<char> {
    match e {
        CoreError::Timeout(ms) => "operation timed out after "@ + duration_debug_text(ms),
        CoreError::InvalidArgument(m) => m@,
        CoreError::Other(m) => m@,
    }
}

impl CoreError {
    /// The status class: timeouts are cancellations, invalid arguments are
    /// reported as such, anything else is a generic failure.
    pub fn status(&self) -> (s: ErrorStatus)
        ensures
            s == match self {
                CoreError::Timeout(_) => ErrorStatus::Cancelled,
                CoreError::InvalidArgument(_) => ErrorStatus::InvalidArg,
                CoreError::Other(_) => ErrorStatus::GenericFailure,
            },
    {
        match self {
            CoreError::Timeout(_) => ErrorStatus::Cancelled,
            CoreError::InvalidArgument(_) => ErrorStatus::InvalidArg,
            CoreError::Other(_) => ErrorStatus::GenericFailure,
        }
    }

    /// The reason handed to the shell.
    pub fn reason(&self) -> (s: String)
        ensures
            s@ == error_reason(*self),
    {
        match self {
            CoreError::Timeout(ms) => {
                let mut s = String::from_str("operation timed out after ");
                let d = duration_text(*ms);
                s.append(d.as_str());
                s
            },
            CoreError::InvalidArgument(m) => m.clone(),
            CoreError::Other(m) => m.clone(),
        }
    }

    /// The error's text, as its `Display` renders it.
    pub fn message(&self) -> (s: String)
        ensures
            s@ == error_text(*self),
    {
        match self {
            CoreError::InvalidArgument(m) => {
                let mut s = String::from_str("invalid argument: ");
                s.append(m.as_str());
                s
            },
            _ => self.reason(),
        }
    }
}

} // verus!

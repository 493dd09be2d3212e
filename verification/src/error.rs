//! Errors of the bindings, and how the status codes and replies of the
//! platform speech bridge turn into them.
use vstd::prelude::*;
use vstd::string::*;

use crate::status;
use crate::text::{contains_nul, decimal_i32, decimal_text};

verus! {

/// An AVSpeechSynthesis error surfaced by the wrapper; each variant carries
/// a human-readable message.
#[derive(Debug, Clone, PartialEq, Eq)]
pub enum AvSpeechError {
    /// An invalid argument.
    InvalidArgument(String),
    /// An API that is unavailable on this macOS version.
    UnavailableOnThisMacOS(String),
    /// An operation that timed out.
    TimedOut(String),
    /// An I/O failure.
    Io(String),
    /// A failure reported by the speech framework.
    Framework(String),
    /// Any other failure.
    Unknown(String),
}

impl AvSpeechError {
    /// The message that the error carries, whatever its variant.
    pub open spec fn spec_message(&self) -> String {
        match self {
            AvSpeechError::InvalidArgument(m) => *m,
            AvSpeechError::UnavailableOnThisMacOS(m) => *m,
            AvSpeechError::TimedOut(m) => *m,
            AvSpeechError::Io(m) => *m,
            AvSpeechError::Framework(m) => *m,
            AvSpeechError::Unknown(m) => *m,
        }
    }

    /// Returns the message of the error; this is the text that the error
    /// displays.
    pub fn message(&self) -> (m: &str)
        ensures
            m@ == self.spec_message()@,
    {
        match self {
            AvSpeechError::InvalidArgument(m) => m.as_str(),
            AvSpeechError::UnavailableOnThisMacOS(m) => m.as_str(),
            AvSpeechError::TimedOut(m) => m.as_str(),
            AvSpeechError::Io(m) => m.as_str(),
            AvSpeechError::Framework(m) => m.as_str(),
            AvSpeechError::Unknown(m) => m.as_str(),
        }
    }
}

/// The message of a failed bridge call that brought no text of its own.
pub open spec fn fallback_message(status: i32) -> Seq<char> {
    "Swift bridge call failed with status code "@ + decimal_text(status as int)
}

/// The error variant that a bridge status code stands for, carrying `message`.
pub open spec fn error_for_status(status: i32, message: String) -> AvSpeechError {
    if status == status::INVALID_ARGUMENT {
        AvSpeechError::InvalidArgument(message)
    } else if status == status::UNAVAILABLE_ON_THIS_MACOS {
        AvSpeechError::UnavailableOnThisMacOS(message)
    } else if status == status::TIMED_OUT {
        AvSpeechError::TimedOut(message)
    } else if status == status::IO_ERROR {
        AvSpeechError::Io(message)
    } else if status == status::FRAMEWORK_ERROR {
        AvSpeechError::Framework(message)
    } else {
        AvSpeechError::Unknown(message)
    }
}

/// Whether `e` is the error that a failed call with `status` and the
/// optional bridge message `message` is reported as.
pub open spec fn is_status_error(e: AvSpeechError, status: i32, message: Option<Seq<char>>) -> bool {
    &&& e == error_for_status(status, e.spec_message())
    &&& e.spec_message()@ == match message {
        Some(m) => m,
        None => fallback_message(status),
    }
}

/// The view of an optional string.
pub open spec fn opt_view(s: Option<String>) -> Option<Seq<char>> {
    match s {
        Some(m) => Some(m@),
        None => None,
    }
}

/// Turns the status code and optional message of a failed bridge call into
/// an error: the code picks the variant, the bridge's message is kept, and
/// without one the message names the code.
pub fn error_from_status(status: i32, message: Option<String>) -> (e: AvSpeechError)
    ensures
        is_status_error(e, status, opt_view(message)),
{
    let ghost given = opt_view(message);
    let message = match message {
        Some(m) => m,
        None => {
            let mut m = "Swift bridge call failed with status code ".to_owned();
            let code = decimal_i32(status);
            m.append(code.as_str());
            m
        },
    };
    assert(message@ == match given {
        Some(m) => m,
        None => fallback_message(status),
    });
    if status == status::INVALID_ARGUMENT {
        AvSpeechError::InvalidArgument(message)
    } else if status == status::UNAVAILABLE_ON_THIS_MACOS {
        AvSpeechError::UnavailableOnThisMacOS(message)
    } else if status == status::TIMED_OUT {
        AvSpeechError::TimedOut(message)
    } else if status == status::IO_ERROR {
        AvSpeechError::Io(message)
    } else if status == status::FRAMEWORK_ERROR {
        AvSpeechError::Framework(message)
    } else {
        AvSpeechError::Unknown(message)
    }
}

/// The outcome of a bridge call that reports a status code: success exactly
/// when the code is `OK`, otherwise the error that `error_from_status` makes.
pub fn result_from_status(status: i32, message: Option<String>) -> (r: Result<(), AvSpeechError>)
    ensures
        r is Ok <==> status == status::OK,
        r matches Err(e) ==> is_status_error(e, status, opt_view(message)),
{
    if status == status::OK {
        Ok(())
    } else {
        Err(error_from_status(status, message))
    }
}

/// The text of the error for a bridge reply that should have held a value
/// and held none.
pub open spec fn missing_reply_message(context: Seq<char>) -> Seq<char> {
    "missing "@ + context + " response from Swift bridge"@
}

/// A bridge reply that must hold a string: the string when it does, an
/// `Unknown` error naming `context` when it does not.
pub fn required_reply(reply: Option<String>, context: &str) -> (r: Result<String, AvSpeechError>)
    ensures
        reply matches Some(s) ==> r == Ok::<String, AvSpeechError>(s),
        reply is None ==> (r matches Err(AvSpeechError::Unknown(m)) && m@ == missing_reply_message(context@)),
{
    match reply {
        Some(s) => Ok(s),
        None => {
            let mut m = "missing ".to_owned();
            m.append(context);
            m.append(" response from Swift bridge");
            Err(AvSpeechError::Unknown(m))
        },
    }
}

/// A bridge reply that may hold a value and may report an error message:
/// the message, when there is one, wins as an `Unknown` error; otherwise the
/// value, present or not, is the result.
pub fn optional_reply<T>(error: Option<String>, value: Option<T>) -> (r: Result<Option<T>, AvSpeechError>)
    ensures
        error matches Some(m) ==> r == Err::<Option<T>, AvSpeechError>(AvSpeechError::Unknown(m)),
        error is None ==> r == Ok::<Option<T>, AvSpeechError>(value),
{
    match error {
        Some(m) => Err(AvSpeechError::Unknown(m)),
        None => Ok(value),
    }
}

/// The text of the error for a string that a C string cannot carry.
pub open spec fn interior_nul_message() -> Seq<char> {
    "string contained an interior NUL byte"@
}

/// Checks that `value` can be handed to the bridge as a C string: it is
/// rejected with `InvalidArgument` exactly when it holds a NUL character.
pub fn check_c_string(value: &str) -> (r: Result<(), AvSpeechError>)
    ensures
        r is Ok <==> !value@.contains('\0'),
        r matches Err(e) ==> (e matches AvSpeechError::InvalidArgument(m) && m@ == interior_nul_message()),
{
    if contains_nul(value) {
        Err(AvSpeechError::InvalidArgument("string contained an interior NUL byte".to_owned()))
    } else {
        Ok(())
    }
}

} // verus!

//! The typed errors of the binding, and the marshalling of foreign return
//! codes and foreign-allocated error messages into them.
//!
//! A foreign call reports failure through a nonzero return code together
//! with an out-of-band, heap-allocated message string. The caller decodes
//! and frees that string and hands the text in as an [`ErrorSlot`]; the
//! functions here turn the pair of return code and slot into a typed error
//! and guarantee that no foreign diagnostic is dropped silently.

use vstd::prelude::*;
use vstd::string::StringExecFns;

verus! {

/// A failure of the system loader while opening a model library,
/// carrying the loader's own message.
#[derive(Debug, PartialEq, Eq)]
pub struct LoadingError(pub String);

/// Error type for the binding.
#[derive(Debug, PartialEq, Eq)]
pub enum BridgeStanError {
    /// The provided library could not be loaded.
    InvalidLibrary(LoadingError),
    /// The version of the loaded library does not match the binding's.
    /// Carries the loaded library's version text and the binding's.
    BadLibraryVersion(String, String),
    /// The model library was compiled without threading support.
    /// Carries the library's configuration text.
    StanThreads(String),
    /// The foreign side returned a string that could not be decoded.
    /// Carries a description of the decode failure.
    InvalidString(String),
    /// The model or generator could not be instantiated.
    /// Carries the decoded foreign diagnostic.
    ConstructFailed(String),
    /// A numeric operation signaled failure.
    /// Carries the decoded foreign diagnostic.
    EvaluationFailed(String),
    /// Setting a print-callback failed.
    /// Carries the decoded foreign diagnostic.
    SetCallbackFailed(String),
    /// Compiling a model into a shared library failed.
    ModelCompilingFailed(String),
    /// Fetching the source distribution failed.
    DownloadFailed(String),
}

impl From<LoadingError> for BridgeStanError {
    fn from(e: LoadingError) -> (r: BridgeStanError) {
        BridgeStanError::InvalidLibrary(e)
    }
}

impl vstd::std_specs::convert::FromSpecImpl<LoadingError> for BridgeStanError {
    open spec fn obeys_from_spec() -> bool {
        true
    }

    open spec fn from_spec(e: LoadingError) -> BridgeStanError {
        BridgeStanError::InvalidLibrary(e)
    }
}

impl BridgeStanError {
    /// Whether a caller may retry the failed operation on the same handle
    /// with different input. Only an evaluation failure leaves the handle
    /// usable as it is.
    pub fn is_recoverable(&self) -> (r: bool)
        ensures
            r == (self is EvaluationFailed),
    {
        matches!(self, BridgeStanError::EvaluationFailed(_))
    }

    /// The error rendered as one line of text, with any foreign-supplied
    /// diagnostic included verbatim.
    pub fn message(&self) -> (m: String)
        ensures
            self matches BridgeStanError::InvalidLibrary(e) ==> m@ == "Could not load target library: "@
                + e.0@,
            self matches BridgeStanError::BadLibraryVersion(got, want) ==> m@
                == "Bad Stan library version: Got "@ + got@ + " but expected "@ + want@,
            self matches BridgeStanError::StanThreads(c) ==> m@
                == "The Stan library was compiled without threading support. Config was "@ + c@,
            self is InvalidString ==> m@ == "Failed to decode string to UTF8"@,
            self matches BridgeStanError::ConstructFailed(d) ==> m@
                == "Failed to construct model: "@ + d@,
            self matches BridgeStanError::EvaluationFailed(d) ==> m@
                == "Failed during evaluation: "@ + d@,
            self matches BridgeStanError::SetCallbackFailed(d) ==> m@
                == "Failed to set a print-callback: "@ + d@,
            self matches BridgeStanError::ModelCompilingFailed(d) ==> m@
                == "Failed to compile Stan model: "@ + d@,
            self matches BridgeStanError::DownloadFailed(d) ==> m@
                == "Failed to download BridgeStan: "@ + d@,
    {
        match self {
            BridgeStanError::InvalidLibrary(e) => {
                let mut m = String::from_str("Could not load target library: ");
                m.append(e.0.as_str());
                m
            },
            BridgeStanError::BadLibraryVersion(got, want) => {
                let mut m = String::from_str("Bad Stan library version: Got ");
                m.append(got.as_str());
                m.append(" but expected ");
                m.append(want.as_str());
                m
            },
            BridgeStanError::StanThreads(c) => {
                let mut m = String::from_str(
                    "The Stan library was compiled without threading support. Config was ",
                );
                m.append(c.as_str());
                m
            },
            BridgeStanError::InvalidString(_) => String::from_str(
                "Failed to decode string to UTF8",
            ),
            BridgeStanError::ConstructFailed(d) => {
                let mut m = String::from_str("Failed to construct model: ");
                m.append(d.as_str());
                m
            },
            BridgeStanError::EvaluationFailed(d) => {
                let mut m = String::from_str("Failed during evaluation: ");
                m.append(d.as_str());
                m
            },
            BridgeStanError::SetCallbackFailed(d) => {
                let mut m = String::from_str("Failed to set a print-callback: ");
                m.append(d.as_str());
                m
            },
            BridgeStanError::ModelCompilingFailed(d) => {
                let mut m = String::from_str("Failed to compile Stan model: ");
                m.append(d.as_str());
                m
            },
            BridgeStanError::DownloadFailed(d) => {
                let mut m = String::from_str("Failed to download BridgeStan: ");
                m.append(d.as_str());
                m
            },
        }
    }
}

/// The received state of the per-call error channel: at most one decoded
/// foreign error message.
///
/// The foreign interface promises that every failing call fills the
/// channel. Reading the message of an empty slot is a contract violation
/// of that interface, so [`ErrorSlot::message`] requires the slot to be
/// filled; a caller that finds the slot empty after a failure must fail
/// loudly rather than invent a diagnostic.
pub struct ErrorSlot {
    msg: Option<String>,
}

impl ErrorSlot {
    /// Whether a message was received.
    pub closed spec fn has_message(&self) -> bool {
        self.msg is Some
    }

    /// The received message's characters; meaningful only if
    /// [`ErrorSlot::has_message`] holds.
    pub closed spec fn spec_message(&self) -> Seq<char> {
        match self.msg {
            Some(s) => s@,
            None => Seq::empty(),
        }
    }

    /// A slot in which the foreign call left no message.
    pub fn empty() -> (r: ErrorSlot)
        ensures
            !r.has_message(),
    {
        ErrorSlot { msg: None }
    }

    /// A slot holding the decoded text of a received message.
    pub fn with_message(text: String) -> (r: ErrorSlot)
        ensures
            r.has_message(),
            r.spec_message() == text@,
    {
        ErrorSlot { msg: Some(text) }
    }

    /// Whether a message was received.
    pub fn is_set(&self) -> (r: bool)
        ensures
            r == self.has_message(),
    {
        self.msg.is_some()
    }

    /// Take the received message. May only be called once the foreign
    /// call has reported failure and the slot is known to be filled.
    pub fn message(self) -> (m: String)
        requires
            self.has_message(),
        ensures
            m@ == self.spec_message(),
    {
        match self.msg {
            Some(s) => s,
            None => vstd::pervasive::unreached(),
        }
    }
}

/// Interpret the outcome of a foreign numeric operation: a zero return
/// code is success, anything else is an evaluation failure carrying the
/// received diagnostic verbatim.
pub fn evaluation_outcome(rc: i32, err: ErrorSlot) -> (r: Result<(), BridgeStanError>)
    requires
        rc != 0 ==> err.has_message(),
    ensures
        r is Ok <==> rc == 0,
        rc != 0 ==> (r matches Err(BridgeStanError::EvaluationFailed(m)) && m@
            == err.spec_message()),
{
    if rc == 0 {
        Ok(())
    } else {
        Err(BridgeStanError::EvaluationFailed(err.message()))
    }
}

/// Interpret the outcome of registering a print callback: a zero return
/// code is success, anything else carries the received diagnostic.
pub fn print_callback_outcome(rc: i32, err: ErrorSlot) -> (r: Result<(), BridgeStanError>)
    requires
        rc != 0 ==> err.has_message(),
    ensures
        r is Ok <==> rc == 0,
        rc != 0 ==> (r matches Err(BridgeStanError::SetCallbackFailed(m)) && m@
            == err.spec_message()),
{
    if rc == 0 {
        Ok(())
    } else {
        Err(BridgeStanError::SetCallbackFailed(err.message()))
    }
}

} // verus!

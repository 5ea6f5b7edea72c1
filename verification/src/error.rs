//! The error type shared by every operation.

use vstd::prelude::*;
use vstd::string::*;

verus! {

/// What went wrong.
#[derive(Clone, Copy, Debug, PartialEq, Eq, Structural)]
pub enum ErrorKind {
    /// The foreign side handed back no interpreter.
    CreationFailed,
    /// The interpreter was used after its deletion.
    InterpreterDeleted,
    /// An argument cannot be handed to the interpreter, or the call cannot be
    /// made from the calling thread.
    InvalidArgument,
    /// The interpreter reported an error; the text is its own.
    ForeignError,
    /// The foreign side handed back a null object.
    ForeignObjectNull,
    /// A command of that name is registered already.
    DuplicateCommand,
    /// No command of that name is registered.
    NoSuchCommand,
    /// Bytes on the relay channel are no message of the protocol.
    ProtocolCorruption,
}

/// An error of this layer or of the interpreter: its text and its kind.
#[derive(Debug)]
pub struct TclError(pub String, pub ErrorKind);

/// The mathematical value of a [`TclError`].
pub struct ErrorView {
    pub text: Seq<char>,
    pub kind: ErrorKind,
}

impl View for TclError {
    type V = ErrorView;

    open spec fn view(&self) -> ErrorView {
        ErrorView { text: self.0@, kind: self.1 }
    }
}

/// The error of every operation on a deleted interpreter.
pub open spec fn deleted_error() -> ErrorView {
    ErrorView {
        text: "Tried to use interpreter after deletion"@,
        kind: ErrorKind::InterpreterDeleted,
    }
}

/// The error of an operation that only the owning thread may start.
pub open spec fn thread_error() -> ErrorView {
    ErrorView {
        text: "This method can only be called from the thread that owns the interpreter"@,
        kind: ErrorKind::InvalidArgument,
    }
}

/// The error of an evaluation from another thread before the relay is open.
pub open spec fn relay_closed_error() -> ErrorView {
    ErrorView {
        text: "Can not call methods from other threads before init_threads()"@,
        kind: ErrorKind::InvalidArgument,
    }
}

/// The error of a code string with a NUL byte in it.
pub open spec fn code_nul_error() -> ErrorView {
    ErrorView { text: "code must not contain NUL bytes."@, kind: ErrorKind::InvalidArgument }
}

/// The error of an argument string with a NUL byte in it.
pub open spec fn argument_nul_error() -> ErrorView {
    ErrorView { text: "Argument must not contain NUL bytes."@, kind: ErrorKind::InvalidArgument }
}

/// The error of a command name with a NUL byte in it.
pub open spec fn name_nul_error() -> ErrorView {
    ErrorView { text: "name must not contain NUL bytes."@, kind: ErrorKind::InvalidArgument }
}

/// The error of an argument list, or a list in it, with more items than the
/// foreign side can count.
pub open spec fn too_long_error() -> ErrorView {
    ErrorView { text: "Too many list elements."@, kind: ErrorKind::InvalidArgument }
}

/// The error of a null interpreter handle.
pub open spec fn creation_error() -> ErrorView {
    ErrorView { text: "Tcl_CreateInterp() returned NULL"@, kind: ErrorKind::CreationFailed }
}

/// The error of a null object where a foreign object was wrapped.
pub open spec fn null_object_error() -> ErrorView {
    ErrorView { text: "Tried to wrap a NULL object"@, kind: ErrorKind::ForeignObjectNull }
}

/// The error of a null result object.
pub open spec fn null_result_error() -> ErrorView {
    ErrorView { text: "Tcl_GetObjResult() returned NULL"@, kind: ErrorKind::ForeignObjectNull }
}

/// The error of a command that the interpreter did not install.
pub open spec fn install_error() -> ErrorView {
    ErrorView { text: "Tcl_CreateCommand returned NULL"@, kind: ErrorKind::ForeignObjectNull }
}

/// The error of registering a name twice.
pub open spec fn duplicate_error(name: Seq<char>) -> ErrorView {
    ErrorView {
        text: "Command with name \""@ + name + "\" already exists."@,
        kind: ErrorKind::DuplicateCommand,
    }
}

/// The error of unregistering a name that is not registered.
pub open spec fn missing_error(name: Seq<char>) -> ErrorView {
    ErrorView {
        text: "Command with name \""@ + name + "\" does not exist."@,
        kind: ErrorKind::NoSuchCommand,
    }
}

/// The error of a variable that the interpreter does not have.
pub open spec fn variable_error(name: Seq<char>) -> ErrorView {
    ErrorView {
        text: "Could not get variable with name \""@ + name + "\""@,
        kind: ErrorKind::ForeignObjectNull,
    }
}

/// The error of bytes that are no message of the relay protocol, and of a
/// reply that does not answer the call that was pending.
pub open spec fn corruption_error() -> ErrorView {
    ErrorView { text: "Corrupt message"@, kind: ErrorKind::ProtocolCorruption }
}

/// The error text with which the owning thread answers a relayed request
/// that the relay does not carry.
pub open spec fn unsupported_text() -> Seq<char> {
    "This request is not supported across threads"@
}

/// An error with the interpreter's own text.
pub open spec fn foreign_error(text: Seq<char>) -> ErrorView {
    ErrorView { text, kind: ErrorKind::ForeignError }
}

impl TclError {
    /// An error that carries the interpreter's own text.
    pub fn new(s: &str) -> (e: TclError)
        ensures
            e@ == foreign_error(s@),
    {
        TclError(String::from_str(s), ErrorKind::ForeignError)
    }

    /// An error of the given kind.
    pub fn with_kind(kind: ErrorKind, s: &str) -> (e: TclError)
        ensures
            e@ == (ErrorView { text: s@, kind }),
    {
        TclError(String::from_str(s), kind)
    }

    /// An error of the given kind whose text is `head`, the name between
    /// double quotes, and `tail`.
    pub fn naming(kind: ErrorKind, head: &str, name: &str, tail: &str) -> (e: TclError)
        ensures
            e@ == (ErrorView { text: head@ + name@ + tail@, kind }),
    {
        let mut text = String::from_str(head);
        text.append(name);
        text.append(tail);
        TclError(text, kind)
    }

    /// The kind of the error.
    pub fn kind(&self) -> (kind: ErrorKind)
        ensures
            kind == self@.kind,
    {
        self.1
    }

    /// The text of the error.
    pub fn to_string(&self) -> (text: String)
        ensures
            text@ == self@.text,
    {
        self.0.clone()
    }

    /// The error of every operation on a deleted interpreter.
    pub fn deleted() -> (e: TclError)
        ensures
            e@ == deleted_error(),
    {
        TclError::with_kind(
            ErrorKind::InterpreterDeleted,
            "Tried to use interpreter after deletion",
        )
    }

    /// The error of an operation that only the owning thread may start.
    pub fn wrong_thread() -> (e: TclError)
        ensures
            e@ == thread_error(),
    {
        TclError::with_kind(
            ErrorKind::InvalidArgument,
            "This method can only be called from the thread that owns the interpreter",
        )
    }

    /// The error of an evaluation from another thread before the relay is open.
    pub fn relay_closed() -> (e: TclError)
        ensures
            e@ == relay_closed_error(),
    {
        TclError::with_kind(
            ErrorKind::InvalidArgument,
            "Can not call methods from other threads before init_threads()",
        )
    }

    /// The error of a code string with a NUL byte in it.
    pub fn code_nul() -> (e: TclError)
        ensures
            e@ == code_nul_error(),
    {
        TclError::with_kind(ErrorKind::InvalidArgument, "code must not contain NUL bytes.")
    }

    /// The error of an argument string with a NUL byte in it.
    pub fn argument_nul() -> (e: TclError)
        ensures
            e@ == argument_nul_error(),
    {
        TclError::with_kind(ErrorKind::InvalidArgument, "Argument must not contain NUL bytes.")
    }

    /// The error of a command name with a NUL byte in it.
    pub fn name_nul() -> (e: TclError)
        ensures
            e@ == name_nul_error(),
    {
        TclError::with_kind(ErrorKind::InvalidArgument, "name must not contain NUL bytes.")
    }

    /// The error of a list with more items than the foreign side can count.
    pub fn too_long() -> (e: TclError)
        ensures
            e@ == too_long_error(),
    {
        TclError::with_kind(ErrorKind::InvalidArgument, "Too many list elements.")
    }

    /// The error of a null interpreter handle.
    pub fn creation() -> (e: TclError)
        ensures
            e@ == creation_error(),
    {
        TclError::with_kind(ErrorKind::CreationFailed, "Tcl_CreateInterp() returned NULL")
    }

    /// The error of a null object where a foreign object was wrapped.
    pub fn null_object() -> (e: TclError)
        ensures
            e@ == null_object_error(),
    {
        TclError::with_kind(ErrorKind::ForeignObjectNull, "Tried to wrap a NULL object")
    }

    /// The error of a null result object.
    pub fn null_result() -> (e: TclError)
        ensures
            e@ == null_result_error(),
    {
        TclError::with_kind(ErrorKind::ForeignObjectNull, "Tcl_GetObjResult() returned NULL")
    }

    /// The error of a command that the interpreter did not install.
    pub fn install() -> (e: TclError)
        ensures
            e@ == install_error(),
    {
        TclError::with_kind(ErrorKind::ForeignObjectNull, "Tcl_CreateCommand returned NULL")
    }

    /// The error of registering a name twice.
    pub fn duplicate(name: &str) -> (e: TclError)
        ensures
            e@ == duplicate_error(name@),
    {
        TclError::naming(
            ErrorKind::DuplicateCommand,
            "Command with name \"",
            name,
            "\" already exists.",
        )
    }

    /// The error of unregistering a name that is not registered.
    pub fn missing(name: &str) -> (e: TclError)
        ensures
            e@ == missing_error(name@),
    {
        TclError::naming(
            ErrorKind::NoSuchCommand,
            "Command with name \"",
            name,
            "\" does not exist.",
        )
    }

    /// The error of a variable that the interpreter does not have.
    pub fn variable(name: &str) -> (e: TclError)
        ensures
            e@ == variable_error(name@),
    {
        TclError::naming(
            ErrorKind::ForeignObjectNull,
            "Could not get variable with name \"",
            name,
            "\"",
        )
    }

    /// The error of bytes that are no message of the relay protocol.
    pub fn corruption() -> (e: TclError)
        ensures
            e@ == corruption_error(),
    {
        TclError::with_kind(ErrorKind::ProtocolCorruption, "Corrupt message")
    }
}

} // verus!

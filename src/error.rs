use vstd::prelude::*;
use crate::registry::Module;
use crate::value::ValueKind;

verus! {

/// What was wrong with one argument of an invocation.
#[derive(Clone, Copy, Debug, PartialEq, Eq, Structural)]
pub enum ArgProblem {
    Missing,
    WrongType { expected: ValueKind, found: ValueKind },
}

/// A recoverable failure of one invocation, sent back to the caller as a
/// typed error reply.
#[derive(Debug)]
pub enum InvokeError {
    /// No handler is registered under the name.
    UnknownCommand { name: String },
    /// An argument is missing or has the wrong type.
    InvalidArguments { field: String, problem: ArgProblem },
    /// The handler itself reported a failure.
    Handler { message: String },
}

/// The wire name of an error's kind.
pub open spec fn error_kind(e: InvokeError) -> Seq<char> {
    match e {
        InvokeError::UnknownCommand { .. } => "unknown_command"@,
        InvokeError::InvalidArguments { .. } => "invalid_arguments"@,
        InvokeError::Handler { .. } => "handler_error"@,
    }
}

/// The human-readable message sent along with an error's kind.
pub open spec fn error_message(e: InvokeError) -> Seq<char> {
    match e {
        InvokeError::UnknownCommand { name } => "unknown command: "@ + name@,
        InvokeError::InvalidArguments { field, problem } => match problem {
            ArgProblem::Missing => "missing argument: "@ + field@,
            ArgProblem::WrongType { .. } => "wrong type for argument: "@ + field@,
        },
        InvokeError::Handler { message } => message@,
    }
}

impl InvokeError {
    /// The wire name of this error's kind.
    pub fn kind(&self) -> (r: &'static str)
        ensures
            r@ == error_kind(*self),
    {
        match self {
            InvokeError::UnknownCommand { .. } => "unknown_command",
            InvokeError::InvalidArguments { .. } => "invalid_arguments",
            InvokeError::Handler { .. } => "handler_error",
        }
    }

    /// The message sent along with the kind.
    pub fn message(&self) -> (r: String)
        ensures
            r@ == error_message(*self),
    {
        match self {
            InvokeError::UnknownCommand { name } => {
                String::from_str("unknown command: ").concat(name.as_str())
            },
            InvokeError::InvalidArguments { field, problem } => match problem {
                ArgProblem::Missing => String::from_str("missing argument: ").concat(
                    field.as_str(),
                ),
                ArgProblem::WrongType { .. } => String::from_str(
                    "wrong type for argument: ",
                ).concat(field.as_str()),
            },
            InvokeError::Handler { message } => message.clone(),
        }
    }
}

/// A configuration failure: fatal, it ends the bootstrap.
#[derive(Debug)]
pub enum StartupError {
    /// A command name was registered twice.
    DuplicateCommand { name: String },
    /// A capability module could not be installed.
    ModuleInstall { module: Module, message: String },
}

} // verus!

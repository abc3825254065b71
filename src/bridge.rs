use vstd::prelude::*;
use crate::error::{ArgProblem, InvokeError};
use crate::greet::{greet, greeting};
use crate::registry::{lookup_command, Handler, Module, Registry};
use crate::value::{kind_of, lookup_arg, Args, Value, ValueKind};

verus! {

/// Where an invocation goes: answered here, or handed to the module that
/// registered the command.
#[derive(Debug)]
pub enum Routed {
    Reply(Result<Value, InvokeError>),
    Forward { module: Module, command: usize },
}

/// `r` is the outcome of reading argument `field` of `args` as a string.
pub open spec fn string_arg_outcome(
    args: Seq<(String, Value)>,
    field: Seq<char>,
    r: Result<String, InvokeError>,
) -> bool {
    match lookup_arg(args, field) {
        None => r matches Err(InvokeError::InvalidArguments { field: f, problem }) && f@ == field
            && problem == ArgProblem::Missing,
        Some(Value::Str(s)) => r matches Ok(t) && t@ == s@,
        Some(v) => r matches Err(InvokeError::InvalidArguments { field: f, problem }) && f@
            == field && problem == (ArgProblem::WrongType {
            expected: ValueKind::Str,
            found: kind_of(v),
        }),
    }
}

/// Reads argument `field` as a string; a missing or wrong-typed argument is
/// an "invalid arguments" error that names the field.
pub fn string_arg(args: &Args, field: &str) -> (r: Result<String, InvokeError>)
    ensures
        string_arg_outcome(args@, field@, r),
{
    match args.get(field) {
        None => Err(
            InvokeError::InvalidArguments {
                field: String::from_str(field),
                problem: ArgProblem::Missing,
            },
        ),
        Some(Value::Str(s)) => Ok(s.clone()),
        Some(v) => Err(
            InvokeError::InvalidArguments {
                field: String::from_str(field),
                problem: ArgProblem::WrongType { expected: ValueKind::Str, found: v.kind() },
            },
        ),
    }
}

/// `r` is the reply of `greet` to `args`.
pub open spec fn greet_reply(args: Seq<(String, Value)>, r: Result<Value, InvokeError>) -> bool {
    match lookup_arg(args, "name"@) {
        None => r matches Err(InvokeError::InvalidArguments { field, problem }) && field@
            == "name"@ && problem == ArgProblem::Missing,
        Some(Value::Str(n)) => r matches Ok(Value::Str(s)) && s@ == greeting(n@),
        Some(v) => r matches Err(InvokeError::InvalidArguments { field, problem }) && field@
            == "name"@ && problem == (ArgProblem::WrongType {
            expected: ValueKind::Str,
            found: kind_of(v),
        }),
    }
}

/// Runs `greet` on an argument payload: its one argument is the string
/// `name`, which may be empty.
pub fn invoke_greet(args: &Args) -> (r: Result<Value, InvokeError>)
    ensures
        greet_reply(args@, r),
{
    match string_arg(args, "name") {
        Ok(name) => Ok(Value::Str(greet(name.as_str()))),
        Err(e) => Err(e),
    }
}

/// The single entry point for an invocation: every invocation gets exactly
/// one outcome, and an unknown name is a typed error.
pub fn dispatch(registry: &Registry, command: &str, args: &Args) -> (r: Routed)
    ensures
        match lookup_command(registry@, command@) {
            None => r matches Routed::Reply(Err(InvokeError::UnknownCommand { name })) && name@
                == command@,
            Some(Handler::Greet) => r matches Routed::Reply(reply) && greet_reply(args@, reply),
            Some(Handler::Module { module, command: c }) => r matches Routed::Forward {
                module: m,
                command: k,
            } && m == module && k == c,
        },
{
    match registry.resolve(command) {
        Err(e) => Routed::Reply(Err(e)),
        Ok(Handler::Greet) => Routed::Reply(invoke_greet(args)),
        Ok(Handler::Module { module, command }) => Routed::Forward { module, command },
    }
}

} // verus!

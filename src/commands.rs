//! The command gateway: named entry points that the content layer invokes,
//! each with a declared argument shape, answering with a value or a typed
//! failure. The gateway keeps no state between calls.
use vstd::prelude::*;
use crate::text::same_text;

verus! {

/// Name of the liveness probe.
pub const READINESS_COMMAND: &'static str = "ping";

/// What the liveness probe always answers.
pub const READINESS_TOKEN: &'static str = "pong";

/// Why an invocation was refused.
#[derive(Clone, Copy, Debug, PartialEq, Eq, Structural)]
pub enum CommandError {
    /// No command of that name is registered.
    UnknownCommand,
    /// The command takes `expected` arguments and was given `given`.
    InvalidArguments { expected: usize, given: usize },
}

/// What invoking a command by name with a number of arguments answers.
pub open spec fn invoke_spec(name: Seq<char>, arg_count: nat) -> Result<Seq<char>, CommandError> {
    if name == READINESS_COMMAND@ {
        if arg_count == 0 {
            Ok(READINESS_TOKEN@)
        } else {
            Err(CommandError::InvalidArguments { expected: 0, given: arg_count as usize })
        }
    } else {
        Err(CommandError::UnknownCommand)
    }
}

/// The text of an answer.
pub open spec fn answer_text(r: Result<String, CommandError>) -> Result<Seq<char>, CommandError> {
    match r {
        Ok(s) => Ok(s@),
        Err(e) => Err(e),
    }
}

/// The liveness probe: answers the readiness token.
pub fn readiness_probe() -> (r: String)
    ensures
        r@ == READINESS_TOKEN@,
{
    READINESS_TOKEN.to_owned()
}

/// Invokes the command of the given name with the given arguments, after
/// checking them against the command's declared shape.
pub fn invoke_command(name: &str, args: &Vec<String>) -> (r: Result<String, CommandError>)
    ensures
        answer_text(r) == invoke_spec(name@, args@.len()),
{
    if same_text(name, READINESS_COMMAND) {
        if args.len() == 0 {
            Ok(readiness_probe())
        } else {
            Err(CommandError::InvalidArguments { expected: 0, given: args.len() })
        }
    } else {
        Err(CommandError::UnknownCommand)
    }
}

/// The answers to a run of invocations, each a name and a number of arguments.
pub open spec fn invocation_trace(calls: Seq<(Seq<char>, nat)>) -> Seq<
    Result<Seq<char>, CommandError>,
> {
    calls.map_values(|c: (Seq<char>, nat)| invoke_spec(c.0, c.1))
}

/// In any run of invocations, every call of the liveness probe with no
/// arguments answers the same readiness token, whatever came before it.
pub proof fn lemma_readiness_probe_fixed(calls: Seq<(Seq<char>, nat)>)
    ensures
        invoke_spec(READINESS_COMMAND@, 0) == Ok::<Seq<char>, CommandError>(READINESS_TOKEN@),
        forall|i: int|
            0 <= i < calls.len() && #[trigger] calls[i] == (READINESS_COMMAND@, 0nat)
                ==> invocation_trace(calls)[i] == Ok::<Seq<char>, CommandError>(
                READINESS_TOKEN@,
            ),
{
}

} // verus!

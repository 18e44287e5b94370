//! What the script is told when it misuses the host, and how an exception
//! that escapes the script is described to the front-end.

use vstd::prelude::*;
use vstd::string::StringExecFns;
use crate::http::Response;
use crate::text::{decimal, decimal_string};

verus! {

/// An exception: the name of its class and its text.
#[derive(Debug, PartialEq, Eq)]
pub struct ScriptError {
    pub name: String,
    pub text: String,
}

/// The text of the exception for an argument that is no function.
pub open spec fn not_a_function_text(parameter: u32) -> Seq<char> {
    "Parameter "@ + decimal(parameter as nat) + " is not of type 'Function'"@
}

/// Checks the callback that the script handed to `queueMicrotask`, which is
/// its parameter 1. Anything but a function raises a `TypeError` at the
/// call.
pub fn check_callback(is_function: bool) -> (r: Result<(), ScriptError>)
    ensures
        r is Ok <==> is_function,
        r matches Err(e) ==> e.name@ == "TypeError"@ && e.text@ == not_a_function_text(1),
{
    if is_function {
        Ok(())
    } else {
        let mut text = String::from_str("Parameter ");
        text.append(decimal_string(1).as_str());
        text.append(" is not of type 'Function'");
        Err(ScriptError { name: String::from_str("TypeError"), text })
    }
}

/// How the promise of a `fetch` settles.
#[derive(Debug, PartialEq, Eq)]
pub enum Fetched {
    /// It resolves with the response.
    Resolve(Response),
    /// It rejects with the exception.
    Reject(ScriptError),
}

/// Settles the promise of a `fetch`. `outcome` is what the HTTP call
/// gave: a response, or the description of a network error. A response
/// resolves the promise whatever its status, 4xx and 5xx included; a
/// network error rejects it with a `TypeError`.
pub fn fetch_outcome(outcome: Result<Response, String>) -> (r: Fetched)
    ensures
        match outcome {
            Ok(response) => r == Fetched::Resolve(response),
            Err(message) => r matches Fetched::Reject(e) && e.name@ == "TypeError"@ && e.text
                == message,
        },
{
    match outcome {
        Ok(response) => Fetched::Resolve(response),
        Err(message) => Fetched::Reject(
            ScriptError { name: String::from_str("TypeError"), text: message },
        ),
    }
}

/// The description of an uncaught exception: `Uncaught`, the name of the
/// class, a colon, the text, and on a line of its own the frame in which it
/// was thrown with its line and column in the user's source, both counted
/// from 1.
pub open spec fn uncaught(
    name: Seq<char>,
    text: Seq<char>,
    frame: Seq<char>,
    line: u32,
    column: u32,
) -> Seq<char> {
    "Uncaught "@ + name + ": "@ + text + "\n  at "@ + frame + " ("@ + decimal(line as nat)
        + ":"@ + decimal(column as nat) + ")"@
}

/// Describes an exception that escaped the script.
pub fn uncaught_message(error: &ScriptError, frame: &str, line: u32, column: u32) -> (r: String)
    ensures
        r@ == uncaught(error.name@, error.text@, frame@, line, column),
{
    let mut out = String::from_str("Uncaught ");
    out.append(error.name.as_str());
    out.append(": ");
    out.append(error.text.as_str());
    out.append("\n  at ");
    out.append(frame);
    out.append(" (");
    out.append(decimal_string(line as u64).as_str());
    out.append(":");
    out.append(decimal_string(column as u64).as_str());
    out.append(")");
    out
}

} // verus!

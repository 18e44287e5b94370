//! The development server's own choices: where it listens, what its isolate
//! is made with, which file events rebuild the function, and what it says
//! when it starts.

use vstd::prelude::*;
use vstd::string::StringExecFns;
use vstd::utf8::{encode_utf8, valid_utf8};
use crate::options::{Environment, IsolateOptions};
use crate::text::{decimal, decimal_string};

verus! {

/// The host name that the server binds where none is given.
pub const DEFAULT_HOSTNAME: &'static str = "127.0.0.1";

/// The port that the server binds where none is given.
pub const DEFAULT_PORT: u16 = 1234;

/// The wall-clock budget of a request on the development host, in milliseconds.
pub const REQUEST_TIMEOUT_MS: u64 = 1000;

/// The budget for evaluating the script on the development host, in milliseconds.
pub const STARTUP_TIMEOUT_MS: u64 = 2000;

/// The address `host:port` with the defaults filled in.
pub open spec fn address_of(hostname: Option<Seq<char>>, port: Option<u16>) -> Seq<char> {
    let host = match hostname {
        Some(name) => name,
        None => DEFAULT_HOSTNAME@,
    };
    let number = match port {
        Some(p) => p,
        None => DEFAULT_PORT,
    };
    host + seq![':'] + decimal(number as nat)
}

/// The address that the server binds, in the form `host:port`. A missing
/// host name stands for 127.0.0.1 and a missing port for 1234.
pub fn bind_address(hostname: Option<String>, port: Option<u16>) -> (r: String)
    ensures
        r@ == address_of(
            match hostname {
                Some(name) => Some(name@),
                None => None,
            },
            port,
        ),
{
    let mut text = match hostname {
        Some(name) => name,
        None => String::from_str(DEFAULT_HOSTNAME),
    };
    let number = match port {
        Some(p) => p,
        None => DEFAULT_PORT,
    };
    proof {
        reveal_strlit(":");
    }
    let ghost host = text@;
    text.append(":");
    text.append(decimal_string(number as u64).as_str());
    assert(text@ =~= host + seq![':'] + decimal(number as nat));
    text
}

/// The address as the URL that the server announces.
pub fn server_url(address: &str) -> (r: String)
    ensures
        r@ == "http://"@ + address@,
{
    let mut text = String::from_str("http://");
    text.append(address);
    text
}

/// `String::from_utf8`: the string whose bytes are `bytes` where these are
/// valid UTF-8, and an error, given here as `None`, where they are not.
#[verifier::external_body]
pub(crate) fn text_of(bytes: Vec<u8>) -> (r: Option<String>)
    ensures
        r is Some <==> valid_utf8(bytes@),
        r matches Some(text) ==> encode_utf8(text@) == bytes@,
{
    String::from_utf8(bytes).ok()
}

/// The options of the development host's isolate for the bundled script
/// `index`: one second per request, two seconds to start, an empty pair of
/// metadata, and the given environment. `None` where the script is not
/// UTF-8.
pub fn isolate_options(index: Vec<u8>, environment: Environment) -> (r: Option<IsolateOptions>)
    ensures
        r is Some <==> valid_utf8(index@),
        r matches Some(options) ==> {
            &&& encode_utf8(options.source@) == index@
            &&& options.timeout_ms == REQUEST_TIMEOUT_MS
            &&& options.startup_timeout_ms == STARTUP_TIMEOUT_MS
            &&& options.heap_limit is None
            &&& !options.allow_code_generation
            &&& options.metadata matches Some(pair) && pair.0@.len() == 0 && pair.1@.len() == 0
            &&& options.environment == environment
            &&& options.snapshot is None
        },
{
    match text_of(index) {
        Some(source) => Some(
            IsolateOptions::new(source).timeout(REQUEST_TIMEOUT_MS).startup_timeout(
                STARTUP_TIMEOUT_MS,
            ).metadata(Some((String::new(), String::new()))).environment_variables(environment),
        ),
        None => None,
    }
}

/// How a watched file changed.
#[derive(Clone, Copy, Debug, PartialEq, Eq, Structural)]
pub enum Change {
    /// Its content changed.
    Data,
    /// It was renamed.
    Name,
    /// Its metadata changed.
    Metadata,
    /// It changed in a way that the watcher could not tell.
    Unknown,
}

/// What the watcher reports of the entry file.
#[derive(Clone, Copy, Debug, PartialEq, Eq, Structural)]
pub enum WatchEvent {
    /// The file was read or opened.
    Access,
    /// The file was created.
    Create,
    /// The file was modified.
    Modify(Change),
    /// The file was removed.
    Remove,
    /// Anything else.
    Other,
}

/// The function is rebuilt when the entry file was renamed or its content
/// changed.
pub open spec fn rebuilds(event: WatchEvent) -> bool {
    event == WatchEvent::Modify(Change::Name) || event == WatchEvent::Modify(Change::Data)
}

/// Whether an event of the watcher rebuilds the function.
pub fn should_update(event: WatchEvent) -> (r: bool)
    ensures
        r == rebuilds(event),
{
    match event {
        WatchEvent::Modify(change) => match change {
            Change::Name => true,
            Change::Data => true,
            _ => false,
        },
        _ => false,
    }
}

/// The warning that the server prints when it starts with code generation
/// allowed.
pub fn code_generation_notice(allow_code_generation: bool) -> (r: Option<String>)
    ensures
        r is Some <==> allow_code_generation,
        r matches Some(text) ==> text@
            == "Code generation is allowed due to `--allow-code-generation`"@,
{
    if allow_code_generation {
        Some(String::from_str("Code generation is allowed due to `--allow-code-generation`"))
    } else {
        None
    }
}

} // verus!

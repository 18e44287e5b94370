//! A local development host for edge functions: the decisions that the
//! front-end, the supervisor and the isolate take, stated and proved over
//! plain values. The engine, the sockets and the file watcher stay with the
//! caller, which performs the actions that this library hands out.
//!
//! - `http`, `reply`: requests, responses, results, and the order of the
//!   items on a reply channel.
//! - `frontend`, `receiver`, `server`, `logger`: what the HTTP front-end and
//!   the development server decide.
//! - `timers`, `context`, `event_loop`, `lifecycle`, `isolate`: one isolate,
//!   from its timers and async contexts to the life of its requests.
//! - `supervisor`, `engine`: the replacement of the isolate and the engine
//!   host.
//! - `timer_laws`, `lifecycle_laws`: what holds over any sequence of
//!   operations.

pub mod context;
pub mod engine;
pub mod errors;
pub mod event_loop;
pub mod frontend;
pub mod http;
pub mod isolate;
pub mod lifecycle;
pub mod lifecycle_laws;
pub mod logger;
pub mod options;
pub mod receiver;
pub mod reply;
pub mod server;
pub mod supervisor;
pub mod text;
pub mod timer_laws;
pub mod timers;

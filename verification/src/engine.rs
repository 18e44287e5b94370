//! The engine host: the process-wide engine from which isolates are made.

use vstd::prelude::*;
use crate::context::ContextModel;
use crate::event_loop::LoopModel;
use crate::isolate::Isolate;
use crate::lifecycle::LifecycleModel;
use crate::options::IsolateOptions;
use crate::timers::MAX_PERIOD;

verus! {

/// Why no isolate was made.
#[derive(Clone, Copy, Debug, PartialEq, Eq, Structural)]
pub enum EngineError {
    /// The engine host was torn down.
    EngineDown,
    /// A budget is larger than the clock can count.
    TimeoutTooLong,
}

/// The engine host. It is up from its making to its disposal.
#[derive(Debug)]
pub struct EngineHost {
    up: bool,
    allow_code_generation: bool,
}

impl EngineHost {
    /// Whether the host is up.
    pub closed spec fn is_up(&self) -> bool {
        self.up
    }

    /// Whether scripts may generate code at run time.
    pub closed spec fn allows_code_generation(&self) -> bool {
        self.allow_code_generation
    }

    /// Brings the engine up, with run-time code generation permitted or not.
    pub fn new(allow_code_generation: bool) -> (r: EngineHost)
        ensures
            r.is_up(),
            r.allows_code_generation() == allow_code_generation,
    {
        EngineHost { up: true, allow_code_generation }
    }

    /// Whether the host is up.
    pub fn up(&self) -> (r: bool)
        ensures
            r == self.is_up(),
    {
        self.up
    }

    /// Whether `eval` and `new Function` are to work. Where they are not,
    /// the engine is started with code generation from strings switched
    /// off.
    pub fn code_generation(&self) -> (r: bool)
        ensures
            r == self.allows_code_generation(),
    {
        self.allow_code_generation
    }

    /// Tears the host down. No isolate is made afterwards.
    pub fn dispose(&mut self)
        ensures
            !final(self).is_up(),
            final(self).allows_code_generation() == old(self).allows_code_generation(),
    {
        self.up = false;
    }

    /// Makes an isolate for `options`. It fails with `EngineDown` after the
    /// host was torn down, and with `TimeoutTooLong` where the budget per
    /// request or the budget for evaluating is beyond the largest period
    /// that a timer can have.
    pub fn isolate(&self, options: IsolateOptions) -> (r: Result<Isolate, EngineError>)
        ensures
            match r {
                Ok(isolate) => {
                    &&& self.is_up()
                    &&& options.timeout_ms <= MAX_PERIOD
                    &&& options.startup_timeout_ms <= MAX_PERIOD
                    &&& isolate.wf()
                    &&& isolate.settings() == options
                    &&& isolate.life() == LifecycleModel::initial(options.timeout_ms)
                    &&& isolate.schedule() == LoopModel::initial()
                    &&& isolate.contexts()@ == ContextModel::initial()
                },
                Err(EngineError::EngineDown) => !self.is_up(),
                Err(EngineError::TimeoutTooLong) => self.is_up() && (options.timeout_ms > MAX_PERIOD
                    || options.startup_timeout_ms > MAX_PERIOD),
            },
    {
        if !self.up {
            Err(EngineError::EngineDown)
        } else if options.timeout_ms > MAX_PERIOD || options.startup_timeout_ms > MAX_PERIOD {
            Err(EngineError::TimeoutTooLong)
        } else {
            Ok(Isolate::new(options))
        }
    }
}

} // verus!

//! The process-wide logger registry: the single point of global state.
//!
//! The registry holds the dispatcher once it is set, and it can be set at
//! most once: a second attempt fails with a distinct error and leaves the
//! first dispatcher in place. The host wraps one registry value in its
//! process-wide cell and routes every log call through it.

use vstd::prelude::*;

use crate::Record;
use crate::dispatch::Action;
use crate::dispatch::DefaultLogger;
use crate::dispatch::LoggerData;
use crate::dispatch::abort_actions_spec;
use crate::dispatch::abort_state_spec;
use crate::dispatch::enabled_spec;
use crate::dispatch::log_spec;
use crate::error::Error;
use crate::hooks::HookSystem;
use crate::level::LogLevel;

verus! {

/// What setting the logger does to the registry: an empty registry takes
/// the logger and reports success; an occupied one is left unchanged and
/// reports `AlreadyInitialized`.
pub open spec fn set_logger_spec(s: Option<LoggerData>, l: LoggerData) -> (
    Option<LoggerData>,
    Result<(), Error>,
) {
    match s {
        None => (Some(l), Ok(())),
        Some(_) => (s, Err(Error::AlreadyInitialized)),
    }
}

/// The error retrieval reports: `NotInitialized` exactly when no logger
/// has been set.
pub open spec fn retrieval_error_spec(s: Option<LoggerData>) -> Option<Error> {
    match s {
        None => Some(Error::NotInitialized),
        Some(_) => None,
    }
}

/// The set-at-most-once holder of the global dispatcher.
pub struct Registry {
    logger: Option<DefaultLogger>,
}

impl View for Registry {
    type V = Option<LoggerData>;

    closed spec fn view(&self) -> Option<LoggerData> {
        match self.logger {
            Some(ref l) => Some(l@),
            None => None,
        }
    }
}

impl Registry {
    /// Creates an empty registry: no logger is set.
    pub fn new() -> (r: Registry)
        ensures
            r@ is None,
    {
        Registry { logger: None }
    }

    /// Sets the global logger. Succeeds at most once: a second call
    /// fails with `AlreadyInitialized` and leaves the first logger in
    /// place.
    pub fn set_logger(&mut self, logger: DefaultLogger) -> (r: Result<(), Error>)
        ensures
            (final(self)@, r) == set_logger_spec(old(self)@, logger@),
    {
        match self.logger {
            None => {
                self.logger = Some(logger);
                Ok(())
            },
            Some(_) => Err(Error::AlreadyInitialized),
        }
    }

    /// The logger, or `NotInitialized` before the first successful
    /// `set_logger`.
    pub fn logger(&self) -> (r: Result<&DefaultLogger, Error>)
        ensures
            match self@ {
                Some(d) => r matches Ok(l) && l@ == d,
                None => r matches Err(e) && Some(e) == retrieval_error_spec(self@),
            },
    {
        match self.logger {
            Some(ref l) => Ok(l),
            None => Err(Error::NotInitialized),
        }
    }

    /// Whether a message of the given level would be processed, or
    /// `NotInitialized` when no logger is set.
    pub fn enabled(&self, level: LogLevel) -> (r: Result<bool, Error>)
        ensures
            match self@ {
                Some(d) => r matches Ok(b) && b == enabled_spec(d.config, level),
                None => r matches Err(e) && Some(e) == retrieval_error_spec(self@),
            },
    {
        match self.logger {
            Some(ref l) => Ok(l.enabled(level)),
            None => Err(Error::NotInitialized),
        }
    }

    /// Submits a record to the logger, or reports `NotInitialized` when
    /// no logger is set; a host that logs before initializing gets the
    /// error and typically skips that one call without crashing.
    pub fn log(&mut self, record: &Record) -> (r: Result<(), Error>)
        ensures
            match old(self)@ {
                Some(d) => final(self)@ == Some(log_spec(d, record@)) && r is Ok,
                None => final(self)@ == old(self)@ && (r matches Err(e) && Some(e)
                    == retrieval_error_spec(old(self)@)),
            },
    {
        match self.logger {
            Some(ref mut l) => {
                l.log(record);
                Ok(())
            },
            None => Err(Error::NotInitialized),
        }
    }

    /// Shuts the logger down, draining its queue, and hands back the
    /// drain's delivery work; `NotInitialized` when no logger is set.
    pub fn abort(&mut self, hooks: &HookSystem) -> (r: Result<Vec<Action>, Error>)
        ensures
            match old(self)@ {
                Some(d) => final(self)@ == Some(abort_state_spec(d)) && (r matches Ok(acts)
                    && acts.deep_view() == abort_actions_spec(d, hooks@)),
                None => final(self)@ == old(self)@ && (r matches Err(e) && Some(e)
                    == retrieval_error_spec(old(self)@)),
            },
    {
        match self.logger {
            Some(ref mut l) => Ok(l.abort(hooks)),
            None => Err(Error::NotInitialized),
        }
    }
}

/// Initializing twice and logging before any initialization fail in two
/// different, distinguishable ways: starting from an empty registry, the
/// first set succeeds, a second set fails with `AlreadyInitialized`
/// leaving the first logger in place, while retrieval from an empty
/// registry fails with `NotInitialized` — and the two errors differ.
pub proof fn lemma_double_init_distinct_from_uninitialized_use(
    s0: Option<LoggerData>,
    l1: LoggerData,
    l2: LoggerData,
)
    requires
        s0 is None,
    ensures
        set_logger_spec(s0, l1).1 is Ok,
        set_logger_spec(s0, l1).0 == Some(l1),
        set_logger_spec(set_logger_spec(s0, l1).0, l2) == (
            Some(l1),
            Err::<(), Error>(Error::AlreadyInitialized),
        ),
        retrieval_error_spec(s0) == Some(Error::NotInitialized),
        Error::AlreadyInitialized != Error::NotInitialized,
{
}

} // verus!

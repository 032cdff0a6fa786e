//! Configuration for spawning a thread under a chosen scheduling request.
//!
//! A [`Builder`] gathers an optional thread name, an optional stack size and
//! the scheduling request to apply inside the new thread before the caller's
//! work runs. Creating the OS thread itself is left to the surrounding
//! application code, which reads the finished configuration.

use vstd::prelude::*;

use crate::sched::{IntoSchedParams, ParameterizedScheduler, Scheduler};

verus! {

/// Configuration for a thread to spawn: optional name, optional stack size,
/// and the scheduling request to apply inside the new thread, before the
/// caller-supplied work begins.
#[must_use]
#[derive(Debug)]
pub struct Builder {
    /// Name for the new thread, if any.
    pub name: Option<String>,
    /// Stack size for the new thread in bytes, if any.
    pub stack_size: Option<usize>,
    /// The scheduling request the new thread applies to itself first.
    pub parameterized_scheduler: ParameterizedScheduler,
}

impl Builder {
    /// A fresh configuration: no name, no stack size, and the given policy
    /// paired with the given parameters (a bare priority normalizes to a
    /// parameter record; an absent one to priority 0).
    pub fn new<P: IntoSchedParams>(scheduler: Scheduler, params: P) -> (r: Builder)
        ensures
            r.name is None,
            r.stack_size is None,
            r.parameterized_scheduler.scheduler == scheduler,
            r.parameterized_scheduler.params == params.spec_sched_params(),
    {
        Builder {
            name: None,
            stack_size: None,
            parameterized_scheduler: scheduler.with_params(params.into_sched_params()),
        }
    }

    /// Sets the thread's name, leaving the rest of the configuration as it
    /// was.
    pub fn name(self, name: &str) -> (r: Builder)
        ensures
            r.name matches Some(n) && n@ == name@,
            r.stack_size == self.stack_size,
            r.parameterized_scheduler == self.parameterized_scheduler,
    {
        Builder {
            name: Some(name.to_owned()),
            stack_size: self.stack_size,
            parameterized_scheduler: self.parameterized_scheduler,
        }
    }

    /// Sets the thread's stack size in bytes, leaving the rest of the
    /// configuration as it was.
    pub fn stack_size(self, stack_size: usize) -> (r: Builder)
        ensures
            r.stack_size == Some(stack_size),
            r.name == self.name,
            r.parameterized_scheduler == self.parameterized_scheduler,
    {
        Builder {
            name: self.name,
            stack_size: Some(stack_size),
            parameterized_scheduler: self.parameterized_scheduler,
        }
    }
}

} // verus!

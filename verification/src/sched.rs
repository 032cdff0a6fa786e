//! Scheduling policies, priority-bound validation, and interpretation of the
//! host's raw call results.

use vstd::prelude::*;

verus! {

/// Result type for every scheduling operation.
pub type RtResult<T> = Result<T, PreemptRtError>;

/// Error taxonomy: OS-reported failures, catalog misses, bound violations,
/// and hosts without the scheduling facility.
#[derive(Debug)]
pub enum PreemptRtError {
    /// A host call returned its failure sentinel; the payload is the errno
    /// value fetched immediately after that call.
    Errno(i32),
    /// A native policy integer that matches no catalog entry.
    UnknownScheduler(i32),
    /// A requested priority above the policy's maximum: (requested, max).
    PriorityAboveMax(i32, i32),
    /// A requested priority below the policy's minimum: (requested, min).
    PriorityBelowMin(i32, i32),
    /// The host has no usable scheduling facility.
    NonLinuxPlatform(&'static str),
}

/// The scheduling policies of the catalog. Each corresponds to one native
/// integer identifier of the host; see [`Scheduler::as_native`].
#[allow(non_camel_case_types)]
#[derive(Debug, Copy, Clone, PartialEq, Eq, Structural, PartialOrd, Ord, Hash)]
pub enum Scheduler {
    /// The default time-sharing policy, also known as SCHED_OTHER.
    SCHED_NORMAL,
    /// The real-time first-in-first-out policy: fixed priorities above the
    /// time-sharing threads, equal priorities served in arrival order.
    SCHED_FIFO,
    /// The real-time round-robin policy: SCHED_FIFO with a time quantum.
    SCHED_RR,
    /// The batch policy: time-sharing for CPU-intensive work; its only valid
    /// priority is 0.
    SCHED_BATCH,
    /// The idle policy: runs only on otherwise idle CPUs.
    SCHED_IDLE,
    /// The deadline policy. It cannot be applied through the priority-based
    /// set call modeled here; it needs the extended attribute call.
    SCHED_DEADLINE,
}

impl Scheduler {
    /// The native integer identifier the host uses for this policy.
    pub open spec fn spec_native(self) -> int {
        match self {
            Scheduler::SCHED_NORMAL => 0,
            Scheduler::SCHED_FIFO => 1,
            Scheduler::SCHED_RR => 2,
            Scheduler::SCHED_BATCH => 3,
            Scheduler::SCHED_IDLE => 5,
            Scheduler::SCHED_DEADLINE => 6,
        }
    }

    /// The catalog entry for a native identifier, if any.
    pub open spec fn spec_from_native(value: int) -> Option<Scheduler> {
        if value == 0 {
            Some(Scheduler::SCHED_NORMAL)
        } else if value == 1 {
            Some(Scheduler::SCHED_FIFO)
        } else if value == 2 {
            Some(Scheduler::SCHED_RR)
        } else if value == 3 {
            Some(Scheduler::SCHED_BATCH)
        } else if value == 5 {
            Some(Scheduler::SCHED_IDLE)
        } else if value == 6 {
            Some(Scheduler::SCHED_DEADLINE)
        } else {
            None
        }
    }

    /// What the reverse lookup returns: the catalog entry, or
    /// `UnknownScheduler` carrying the unmatched value.
    pub open spec fn spec_try_from(value: i32) -> RtResult<Scheduler> {
        match Scheduler::spec_from_native(value as int) {
            Some(s) => Ok(s),
            None => Err(PreemptRtError::UnknownScheduler(value)),
        }
    }

    /// Native integer identifier for this policy, as handed to the host's
    /// get/set scheduling calls.
    pub fn as_native(self) -> (r: i32)
        ensures
            r as int == self.spec_native(),
    {
        match self {
            Scheduler::SCHED_NORMAL => 0,
            Scheduler::SCHED_FIFO => 1,
            Scheduler::SCHED_RR => 2,
            Scheduler::SCHED_BATCH => 3,
            Scheduler::SCHED_IDLE => 5,
            Scheduler::SCHED_DEADLINE => 6,
        }
    }

    /// Reverse lookup in the policy catalog: the policy whose native
    /// identifier is `value`, or `UnknownScheduler(value)` when none matches.
    pub fn try_from(value: i32) -> (r: RtResult<Scheduler>)
        ensures
            r == Scheduler::spec_try_from(value),
    {
        match value {
            0 => Ok(Scheduler::SCHED_NORMAL),
            1 => Ok(Scheduler::SCHED_FIFO),
            2 => Ok(Scheduler::SCHED_RR),
            3 => Ok(Scheduler::SCHED_BATCH),
            5 => Ok(Scheduler::SCHED_IDLE),
            6 => Ok(Scheduler::SCHED_DEADLINE),
            _ => Err(PreemptRtError::UnknownScheduler(value)),
        }
    }
}

/// Mapping a policy to its native identifier and back returns the policy:
/// the catalog's reverse lookup undoes the forward one.
pub proof fn lemma_native_round_trip(s: Scheduler)
    ensures
        Scheduler::spec_from_native(s.spec_native()) == Some(s),
{
}

/// A native integer that matches no catalog entry is rejected as
/// `UnknownScheduler` carrying exactly that integer.
pub proof fn lemma_unmatched_native_rejected(value: i32)
    requires
        forall|s: Scheduler| s.spec_native() != value as int,
    ensures
        Scheduler::spec_try_from(value) == Err::<Scheduler, PreemptRtError>(
            PreemptRtError::UnknownScheduler(value),
        ),
{
    assert(Scheduler::SCHED_NORMAL.spec_native() != value as int);
    assert(Scheduler::SCHED_FIFO.spec_native() != value as int);
    assert(Scheduler::SCHED_RR.spec_native() != value as int);
    assert(Scheduler::SCHED_BATCH.spec_native() != value as int);
    assert(Scheduler::SCHED_IDLE.spec_native() != value as int);
    assert(Scheduler::SCHED_DEADLINE.spec_native() != value as int);
}

/// Identifies which thread a scheduling call acts on.
#[derive(Debug, Copy, Clone, PartialEq, Eq, Structural, PartialOrd, Ord, Hash)]
pub struct Pid(i32);

impl Pid {
    /// The raw value handed to the host's scheduling calls.
    pub closed spec fn spec_raw(self) -> i32 {
        self.0
    }

    /// The calling thread is represented by `0` in the host's scheduling
    /// calls. Note that this differs from the value a get-process-id call
    /// returns, which identifies the current process.
    pub fn current_thread() -> (r: Pid)
        ensures
            r.spec_raw() == 0,
    {
        Pid(0)
    }

    /// The raw identifier, for handing to a host call.
    pub fn raw(self) -> (r: i32)
        ensures
            r == self.spec_raw(),
    {
        self.0
    }
}

/// What classifying a host call's return value yields: `-1` is the failure
/// sentinel and surfaces the errno value fetched right after the call; any
/// other value is the call's result.
pub open spec fn spec_handle_errno(result: i32, errno: i32) -> RtResult<i32> {
    if result == -1 {
        Err(PreemptRtError::Errno(errno))
    } else {
        Ok(result)
    }
}

/// Classifies a host call's return value. `errno` must be the value of the
/// host's last-error register fetched immediately after the call returned
/// `-1`, before any other operation that could overwrite it.
pub fn handle_errno(result: i32, errno: i32) -> (r: RtResult<i32>)
    ensures
        r == spec_handle_errno(result, errno),
{
    if result == -1 {
        Err(PreemptRtError::Errno(errno))
    } else {
        Ok(result)
    }
}

/// What the get-scheduler operation returns once the host call came back:
/// errno classification followed by the catalog's reverse lookup.
pub fn scheduler_from_result(result: i32, errno: i32) -> (r: RtResult<Scheduler>)
    ensures
        result == -1 ==> r == Err::<Scheduler, PreemptRtError>(PreemptRtError::Errno(errno)),
        result != -1 ==> r == Scheduler::spec_try_from(result),
{
    match handle_errno(result, errno) {
        Ok(value) => Scheduler::try_from(value),
        Err(e) => Err(e),
    }
}

/// What a mutating scheduling call returns once the host call came back:
/// errno classification with the successful result discarded.
pub fn status_from_result(result: i32, errno: i32) -> (r: RtResult<()>)
    ensures
        result == -1 ==> r == Err::<(), PreemptRtError>(PreemptRtError::Errno(errno)),
        result != -1 ==> r == Ok::<(), PreemptRtError>(()),
{
    match handle_errno(result, errno) {
        Ok(_) => Ok(()),
        Err(e) => Err(e),
    }
}

/// Scheduling parameters for a thread. Priority is the only parameter the
/// priority-based scheduling calls support.
#[derive(Debug, Clone, Copy, PartialEq, Eq, Structural, PartialOrd, Ord)]
pub struct SchedulerParams {
    /// Priority of the schedule, meaningful only within one policy's bounds.
    pub priority: i32,
}

/// Anything accepted as scheduling parameters: a parameter record, a bare
/// priority integer, or an optional one of either (absence normalizes to
/// priority 0).
pub trait IntoSchedParams: Sized {
    /// The parameter record this input stands for.
    spec fn spec_sched_params(self) -> SchedulerParams;

    /// Normalizes the input to a parameter record.
    fn into_sched_params(self) -> (r: SchedulerParams)
        ensures
            r == self.spec_sched_params(),
    ;
}

impl IntoSchedParams for SchedulerParams {
    open spec fn spec_sched_params(self) -> SchedulerParams {
        self
    }

    fn into_sched_params(self) -> (r: SchedulerParams) {
        self
    }
}

impl IntoSchedParams for i32 {
    open spec fn spec_sched_params(self) -> SchedulerParams {
        SchedulerParams { priority: self }
    }

    fn into_sched_params(self) -> (r: SchedulerParams) {
        SchedulerParams { priority: self }
    }
}

impl<T: IntoSchedParams> IntoSchedParams for Option<T> {
    open spec fn spec_sched_params(self) -> SchedulerParams {
        match self {
            None => SchedulerParams { priority: 0 },
            Some(param) => param.spec_sched_params(),
        }
    }

    fn into_sched_params(self) -> (r: SchedulerParams) {
        match self {
            None => SchedulerParams { priority: 0 },
            Some(param) => param.into_sched_params(),
        }
    }
}

/// What validating a requested priority against host-reported bounds yields:
/// the maximum is checked first, then the minimum; a priority within the
/// inclusive range passes. Validation alone never touches the host.
pub open spec fn spec_validate(priority: i32, min: i32, max: i32) -> RtResult<()> {
    if priority > max {
        Err(PreemptRtError::PriorityAboveMax(priority, max))
    } else if priority < min {
        Err(PreemptRtError::PriorityBelowMin(priority, min))
    } else {
        Ok(())
    }
}

/// A priority within the host-reported inclusive bounds always validates.
pub proof fn lemma_in_bounds_accepted(priority: i32, min: i32, max: i32)
    requires
        min <= priority,
        priority <= max,
    ensures
        spec_validate(priority, min, max) == Ok::<(), PreemptRtError>(()),
{
}

/// A priority above the host-reported maximum is rejected as
/// `PriorityAboveMax` carrying the priority and that maximum, whatever the
/// minimum is.
pub proof fn lemma_above_max_rejected(priority: i32, min: i32, max: i32)
    requires
        priority > max,
    ensures
        spec_validate(priority, min, max) == Err::<(), PreemptRtError>(
            PreemptRtError::PriorityAboveMax(priority, max),
        ),
{
}

/// A priority below the minimum of well-formed host bounds (minimum at most
/// maximum) is rejected as `PriorityBelowMin` carrying the priority and that
/// minimum.
pub proof fn lemma_below_min_rejected(priority: i32, min: i32, max: i32)
    requires
        min <= max,
        priority < min,
    ensures
        spec_validate(priority, min, max) == Err::<(), PreemptRtError>(
            PreemptRtError::PriorityBelowMin(priority, min),
        ),
{
}

/// A policy paired with the parameters to apply with it.
#[derive(Debug, Clone)]
pub struct ParameterizedScheduler {
    /// The policy to apply.
    pub scheduler: Scheduler,
    /// The parameters to apply with it.
    pub params: SchedulerParams,
}

impl Scheduler {
    /// Pairs this policy with the given parameters.
    pub fn with_params(self, params: SchedulerParams) -> (r: ParameterizedScheduler)
        ensures
            r.scheduler == self,
            r.params == params,
    {
        ParameterizedScheduler { scheduler: self, params }
    }
}

impl ParameterizedScheduler {
    /// The bound check that must pass before the mutating host call is
    /// attempted: succeeds exactly when the priority lies within the
    /// host-reported inclusive bounds, and otherwise names the violated
    /// bound. Read-only: a failed validation leaves every thread's
    /// scheduling state untouched.
    pub fn validate(&self, min: i32, max: i32) -> (r: RtResult<()>)
        ensures
            r == spec_validate(self.params.priority, min, max),
            r is Ok <==> min <= self.params.priority && self.params.priority <= max,
    {
        let priority = self.params.priority;
        if priority > max {
            Err(PreemptRtError::PriorityAboveMax(priority, max))
        } else if priority < min {
            Err(PreemptRtError::PriorityBelowMin(priority, min))
        } else {
            Ok(())
        }
    }

    /// What applying this request decides once the host has answered the two
    /// bound queries, maximum first: a failed maximum query propagates, then
    /// a failed minimum query, and with both bounds in hand the priority is
    /// validated against them. `Ok` means the mutating host call may now be
    /// issued; until then nothing has touched any thread's scheduling state.
    pub fn prepare_apply(&self, max_result: RtResult<i32>, min_result: RtResult<i32>) -> (r:
        RtResult<()>)
        ensures
            max_result matches Err(e) ==> r == Err::<(), PreemptRtError>(e),
            max_result is Ok ==> (min_result matches Err(e) ==> r == Err::<(), PreemptRtError>(e)),
            max_result matches Ok(max) ==> (min_result matches Ok(min) ==> r == spec_validate(
                self.params.priority,
                min,
                max,
            )),
    {
        match (max_result, min_result) {
            (Err(e), _) => Err(e),
            (Ok(_), Err(e)) => Err(e),
            (Ok(max), Ok(min)) => self.validate(min, max),
        }
    }
}

} // verus!

//! The logical clock and time-stamped event records.

use vstd::prelude::*;

verus! {

/// Logical time: a monotonically supplied tick counter, passed explicitly
/// into every time-dependent operation. Not wall-clock time.
pub type Clock = u64;

/// A callback together with the absolute tick at which it is meant to run.
/// The record itself never inspects a clock; the embedding loop compares
/// `get_scheduled` against its own tick and decides when to call.
pub struct ScheduledEvent<Args, F: Fn(Args) -> Result<(), &'static str>> {
    run_time: Clock,
    func: F,
    _args: std::marker::PhantomData<Args>,
}

impl<Args, F: Fn(Args) -> Result<(), &'static str>> ScheduledEvent<Args, F> {
    /// The stored callback, for stating pre- and postconditions about calls.
    pub closed spec fn func_spec(&self) -> F {
        self.func
    }

    /// The tick the event was scheduled for.
    pub closed spec fn scheduled_spec(&self) -> Clock {
        self.run_time
    }

    pub fn new(func: F, call_abs: Clock) -> (e: ScheduledEvent<Args, F>)
        ensures
            e.func_spec() == func,
            e.scheduled_spec() == call_abs,
    {
        ScheduledEvent { run_time: call_abs, func, _args: std::marker::PhantomData }
    }

    pub fn call_event(&self, args: Args) -> (r: Result<(), &'static str>)
        requires
            call_requires(self.func_spec(), (args,)),
        ensures
            call_ensures(self.func_spec(), (args,), r),
    {
        (self.func)(args)
    }

    pub fn get_scheduled(&self) -> (t: Clock)
        ensures
            t == self.scheduled_spec(),
    {
        self.run_time
    }
}

} // verus!

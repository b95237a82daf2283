//! Hooks observed around every delivery of a message to a target.
//!
//! Hooks can be used to perform custom actions, for example clearing the
//! console or sending notifications. The host registers each callback
//! under a numeric handle and keeps the callbacks themselves; the hook
//! system here holds the handles, in registration order, and for each
//! delivery produces the exact ordered list of calls the host must make.
//! The host guards the system with a read/write lock: triggering takes a
//! shared lock, registration an exclusive one, so registration is done
//! before the dispatcher starts consuming messages.

use vstd::prelude::*;

use crate::level::LogLevel;
use crate::target::TargetId;
use crate::target::TargetIdData;

verus! {

/// A hook registration: the handle of a host-kept callback, tagged with
/// the point in the logging process where it fires.
///
/// Hooks are executed in the order they are added.
#[derive(Debug, Clone, Copy, PartialEq, Eq, Structural)]
pub enum Hook {
    /// Fires before a log message is written to a target.
    BeforeLog(u64),
    /// Fires after a log message is written to a target. Useful for
    /// post-processing or additional actions.
    AfterLog(u64),
}

/// One callback invocation the host must perform: the callback's handle
/// and the arguments to hand it.
#[derive(Debug)]
pub struct HookCall {
    /// The handle of the registered callback.
    pub hook: u64,
    /// The severity of the message being delivered.
    pub level: LogLevel,
    /// The identity of the target being written.
    pub target: TargetId,
}

/// The mathematical content of a [`HookCall`].
pub struct HookCallData {
    /// The handle of the registered callback.
    pub hook: u64,
    /// The severity of the message being delivered.
    pub level: LogLevel,
    /// The identity of the target being written.
    pub target: TargetIdData,
}

impl View for HookCall {
    type V = HookCallData;

    open spec fn view(&self) -> HookCallData {
        HookCallData { hook: self.hook, level: self.level, target: self.target@ }
    }
}

impl DeepView for HookCall {
    type V = HookCallData;

    open spec fn deep_view(&self) -> HookCallData {
        self.view()
    }
}

impl Clone for HookCall {
    /// A cloned call denotes the same invocation.
    fn clone(&self) -> (r: Self)
        ensures
            r@ == self@,
    {
        HookCall { hook: self.hook, level: self.level, target: self.target.clone() }
    }
}

/// The calls made when a phase's hooks fire for one delivery: one call
/// per registered handle, in registration order, all with the same
/// severity and target identity.
pub open spec fn calls_spec(hooks: Seq<u64>, level: LogLevel, target: TargetIdData) -> Seq<
    HookCallData,
> {
    hooks.map_values(|h: u64| HookCallData { hook: h, level, target })
}

/// The mathematical content of a [`HookSystem`]: the before- and
/// after-delivery handles, each in registration order.
pub struct HookSystemData {
    /// Handles that fire before a write, in registration order.
    pub before: Seq<u64>,
    /// Handles that fire after a write, in registration order.
    pub after: Seq<u64>,
}

/// The ordered before- and after-delivery hook registrations.
#[derive(Debug, Clone)]
pub struct HookSystem {
    before_log_hooks: Vec<u64>,
    after_log_hooks: Vec<u64>,
}

impl View for HookSystem {
    type V = HookSystemData;

    closed spec fn view(&self) -> HookSystemData {
        HookSystemData { before: self.before_log_hooks@, after: self.after_log_hooks@ }
    }
}

impl HookSystem {
    /// Creates a hook system with no registrations.
    pub fn new() -> (r: HookSystem)
        ensures
            r@.before == Seq::<u64>::empty(),
            r@.after == Seq::<u64>::empty(),
    {
        let r = HookSystem { before_log_hooks: Vec::new(), after_log_hooks: Vec::new() };
        proof {
            assert(r@.before =~= Seq::<u64>::empty());
            assert(r@.after =~= Seq::<u64>::empty());
        }
        r
    }

    /// Appends the hook to the sequence of its phase; hooks fire in the
    /// order they were added.
    pub fn add_hook(&mut self, hook: Hook)
        ensures
            match hook {
                Hook::BeforeLog(h) => final(self)@.before == old(self)@.before.push(h)
                    && final(self)@.after == old(self)@.after,
                Hook::AfterLog(h) => final(self)@.after == old(self)@.after.push(h)
                    && final(self)@.before == old(self)@.before,
            },
    {
        match hook {
            Hook::BeforeLog(h) => self.before_log_hooks.push(h),
            Hook::AfterLog(h) => self.after_log_hooks.push(h),
        }
    }

    /// The calls that fire before a write of severity `level` to the
    /// target identified by `target_id`: every before-hook, in
    /// registration order. The host performs them while holding its read
    /// lock on the hook system.
    pub fn trigger_before_log(&self, level: LogLevel, target_id: &TargetId) -> (r: Vec<HookCall>)
        ensures
            r.deep_view() == calls_spec(self@.before, level, target_id@),
    {
        Self::calls_for(&self.before_log_hooks, level, target_id)
    }

    /// The calls that fire after a write of severity `level` to the
    /// target identified by `target_id`: every after-hook, in
    /// registration order.
    pub fn trigger_after_log(&self, level: LogLevel, target_id: &TargetId) -> (r: Vec<HookCall>)
        ensures
            r.deep_view() == calls_spec(self@.after, level, target_id@),
    {
        Self::calls_for(&self.after_log_hooks, level, target_id)
    }

    /// One call per handle, in order, with the given arguments.
    fn calls_for(hooks: &Vec<u64>, level: LogLevel, target_id: &TargetId) -> (r: Vec<HookCall>)
        ensures
            r.deep_view() == calls_spec(hooks@, level, target_id@),
    {
        let n = hooks.len();
        let mut r: Vec<HookCall> = Vec::new();
        let mut i: usize = 0;
        while i < n
            invariant
                i <= n,
                n == hooks@.len(),
                r.deep_view() =~= calls_spec(hooks@.take(i as int), level, target_id@),
            decreases n - i,
        {
            let ghost prev = r.deep_view();
            r.push(HookCall { hook: hooks[i], level, target: target_id.clone() });
            proof {
                assert(r.deep_view() =~= prev.push(
                    HookCallData { hook: hooks@[i as int], level, target: target_id@ },
                ));
                assert(r.deep_view() =~= calls_spec(hooks@.take(i + 1), level, target_id@));
            }
            i += 1;
        }
        proof {
            assert(hooks@.take(n as int) =~= hooks@);
        }
        r
    }
}

} // verus!

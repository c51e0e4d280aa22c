//! The process-count controller.
use crate::controller::{Controller, ControllerError, ControllerOpt, PropertySet, PropertyValue};
use crate::runtime::LinuxPids;
use vstd::prelude::*;

verus! {

/// The property that holds the process-count ceiling.
pub const TASKS_MAX: &'static str = "TasksMax";

/// The ceiling enforced for a limit: a positive limit as it is; zero or a
/// negative limit means no limit, the largest value.
pub open spec fn tasks_max(limit: i64) -> u64 {
    if limit > 0 {
        limit as u64
    } else {
        u64::MAX
    }
}

/// Limits the number of processes in the container.
pub struct Pids {}

impl Controller for Pids {
    fn apply(options: &ControllerOpt, _pid: u32, properties: &mut PropertySet) -> (r: Result<
        (),
        ControllerError,
    >)
        ensures
            r is Ok,
            options.resources.pids matches Some(p) ==> final(properties)@ == old(properties)@.insert(
                TASKS_MAX@,
                PropertyValue::UInt64(tasks_max(p.limit)),
            ),
            options.resources.pids is None ==> final(properties)@ == old(properties)@,
    {
        if let Some(pids) = &options.resources.pids {
            return Self::apply_limit(pids, properties);
        }
        Ok(())
    }
}

impl Pids {
    /// Sets `TasksMax` to the ceiling for `pids.limit`.
    pub fn apply_limit(pids: &LinuxPids, properties: &mut PropertySet) -> (r: Result<(), ControllerError>)
        requires
            old(properties).wf(),
        ensures
            r is Ok,
            final(properties).wf(),
            final(properties)@ == old(properties)@.insert(
                TASKS_MAX@,
                PropertyValue::UInt64(tasks_max(pids.limit)),
            ),
            pids.limit > 0 ==> final(properties)@[TASKS_MAX@] == PropertyValue::UInt64(
                pids.limit as u64,
            ),
            pids.limit <= 0 ==> final(properties)@[TASKS_MAX@] == PropertyValue::UInt64(u64::MAX),
    {
        let limit: u64 = if pids.limit > 0 {
            pids.limit as u64
        } else {
            u64::MAX
        };
        properties.insert(TASKS_MAX.to_owned(), PropertyValue::UInt64(limit));
        Ok(())
    }
}

} // verus!

//! Control-side scheduling state of a buffer source handle: `start` at most
//! once, `stop` at most once and only after `start`, and a buffer set at most
//! once.
use vstd::prelude::*;

verus! {

/// Where a source handle is in its start / stop sequence.
#[derive(Debug, Clone, Copy, PartialEq, Eq)]
pub enum Schedule {
    Unscheduled,
    Started,
    Stopped,
}

/// The scheduling state that the control handle of a buffer source keeps.
#[derive(Debug, Clone, Copy, PartialEq, Eq)]
pub struct SourceControl {
    schedule: Schedule,
    has_buffer: bool,
    is_looping: bool,
}

impl SourceControl {
    pub closed spec fn schedule_spec(&self) -> Schedule {
        self.schedule
    }

    pub closed spec fn has_buffer_spec(&self) -> bool {
        self.has_buffer
    }

    pub closed spec fn loop_spec(&self) -> bool {
        self.is_looping
    }

    /// A handle that is neither started nor given a buffer.
    pub fn new(is_looping: bool) -> (r: Self)
        ensures
            r.schedule_spec() == Schedule::Unscheduled,
            !r.has_buffer_spec(),
            r.loop_spec() == is_looping,
    {
        SourceControl { schedule: Schedule::Unscheduled, has_buffer: false, is_looping }
    }

    pub fn schedule(&self) -> (r: Schedule)
        ensures
            r == self.schedule_spec(),
    {
        self.schedule
    }

    /// Whether `start` may be called: it was never called before.
    pub fn can_start(&self) -> (r: bool)
        ensures
            r == (self.schedule_spec() == Schedule::Unscheduled),
    {
        matches!(self.schedule, Schedule::Unscheduled)
    }

    /// Whether `stop` may be called: `start` was, and `stop` was not.
    pub fn can_stop(&self) -> (r: bool)
        ensures
            r == (self.schedule_spec() == Schedule::Started),
    {
        matches!(self.schedule, Schedule::Started)
    }

    pub fn has_buffer(&self) -> (r: bool)
        ensures
            r == self.has_buffer_spec(),
    {
        self.has_buffer
    }

    pub fn loop_(&self) -> (r: bool)
        ensures
            r == self.loop_spec(),
    {
        self.is_looping
    }

    /// Records the one call of `start`.
    pub fn start(&mut self)
        requires
            old(self).schedule_spec() == Schedule::Unscheduled,
        ensures
            final(self).schedule_spec() == Schedule::Started,
            final(self).has_buffer_spec() == old(self).has_buffer_spec(),
            final(self).loop_spec() == old(self).loop_spec(),
    {
        self.schedule = Schedule::Started;
    }

    /// Records the one call of `stop`.
    pub fn stop(&mut self)
        requires
            old(self).schedule_spec() == Schedule::Started,
        ensures
            final(self).schedule_spec() == Schedule::Stopped,
            final(self).has_buffer_spec() == old(self).has_buffer_spec(),
            final(self).loop_spec() == old(self).loop_spec(),
    {
        self.schedule = Schedule::Stopped;
    }

    /// Records the one assignment of a buffer.
    pub fn set_buffer(&mut self)
        requires
            !old(self).has_buffer_spec(),
        ensures
            final(self).has_buffer_spec(),
            final(self).schedule_spec() == old(self).schedule_spec(),
            final(self).loop_spec() == old(self).loop_spec(),
    {
        self.has_buffer = true;
    }

    pub fn set_loop(&mut self, value: bool)
        ensures
            final(self).loop_spec() == value,
            final(self).schedule_spec() == old(self).schedule_spec(),
            final(self).has_buffer_spec() == old(self).has_buffer_spec(),
    {
        self.is_looping = value;
    }
}

} // verus!

//! Render-side lifecycle of a buffer source: the started / aligned / looping
//! flags and the terminal `ended` latch with its one-shot event.
use vstd::prelude::*;

verus! {

/// Decision taken at the top of a render call, before any sample is computed.
#[derive(Debug, Clone, Copy, PartialEq, Eq)]
pub enum BlockEntry {
    /// Write silence and return `tail` from the render call.
    Silent { tail: bool },
    /// Go on and render this block.
    Render,
}

/// The boolean part of the render-side state of a buffer source.
#[derive(Debug, Clone, Copy, PartialEq, Eq)]
pub struct RenderFlags {
    started: bool,
    entered_loop: bool,
    is_aligned: bool,
    ended: bool,
}

/// What the entry of a block decides, given the state and the facts of the block.
pub open spec fn entry_spec(
    ended: bool,
    start_in_later_block: bool,
    start_unscheduled: bool,
    has_buffer: bool,
) -> BlockEntry {
    if ended {
        BlockEntry::Silent { tail: false }
    } else if start_in_later_block {
        BlockEntry::Silent { tail: !start_unscheduled }
    } else if !has_buffer {
        BlockEntry::Silent { tail: false }
    } else {
        BlockEntry::Render
    }
}

/// The facts, decided on the playhead and the clock, that the first render
/// step compares to reach its fast-path decision.
#[derive(Debug, Clone, Copy, PartialEq, Eq)]
pub struct AlignmentFacts {
    /// The start time is this block's first frame and the offset is zero.
    pub starts_on_block_without_offset: bool,
    /// The buffer's sample rate equals the context's.
    pub same_sample_rate: bool,
    /// The computed playback rate is exactly one.
    pub unit_playback_rate: bool,
    /// The loop points are zero and the buffer's duration.
    pub default_loop_points: bool,
    /// No requested duration ends inside this block.
    pub duration_after_block: bool,
    /// No stop time falls inside this block.
    pub stop_after_block: bool,
}

/// Whether the fast path runs this block: it is entered on a start that falls
/// on a block boundary without offset, and left for good as soon as one of
/// its conditions fails.
pub open spec fn aligned_after(was_aligned: bool, f: AlignmentFacts) -> bool {
    (was_aligned || f.starts_on_block_without_offset) && f.same_sample_rate
        && f.unit_playback_rate && f.default_loop_points && f.duration_after_block
        && f.stop_after_block
}

/// The facts, decided on the playhead and the clock, that end a source at the
/// end of a rendered block.
#[derive(Debug, Clone, Copy, PartialEq, Eq)]
pub struct EndFacts {
    /// The next block starts at or after the stop time.
    pub reached_stop: bool,
    /// The elapsed buffer time has reached the requested duration.
    pub reached_duration: bool,
    /// The source loops.
    pub is_looping: bool,
    /// The rate is positive and the playhead is at or past the buffer's end.
    pub forward_past_end: bool,
    /// The rate is negative and the playhead is before the buffer's start.
    pub backward_before_start: bool,
}

/// Whether the source ends with the block: stop time or duration reached, or
/// a non-looping playhead that left the buffer in its direction of play.
pub open spec fn block_ends(f: EndFacts) -> bool {
    f.reached_stop || f.reached_duration || (!f.is_looping && (f.forward_past_end
        || f.backward_before_start))
}

/// Whether the end of a rendered block emits the `ended` event.
pub open spec fn end_of_block_emits(ended: bool, f: EndFacts) -> bool {
    !ended && block_ends(f)
}

/// Whether dropping the control handle emits the `ended` event.
pub open spec fn drop_emits(ended: bool, start_reached: bool) -> bool {
    !ended && start_reached
}

impl RenderFlags {
    pub closed spec fn started_spec(&self) -> bool {
        self.started
    }

    pub closed spec fn entered_loop_spec(&self) -> bool {
        self.entered_loop
    }

    pub closed spec fn is_aligned_spec(&self) -> bool {
        self.is_aligned
    }

    pub closed spec fn ended_spec(&self) -> bool {
        self.ended
    }

    /// The state of a freshly created source: nothing started, nothing ended.
    pub fn new() -> (r: Self)
        ensures
            !r.started_spec(),
            !r.entered_loop_spec(),
            !r.is_aligned_spec(),
            !r.ended_spec(),
    {
        RenderFlags { started: false, entered_loop: false, is_aligned: false, ended: false }
    }

    pub fn started(&self) -> (r: bool)
        ensures
            r == self.started_spec(),
    {
        self.started
    }

    pub fn entered_loop(&self) -> (r: bool)
        ensures
            r == self.entered_loop_spec(),
    {
        self.entered_loop
    }

    pub fn is_aligned(&self) -> (r: bool)
        ensures
            r == self.is_aligned_spec(),
    {
        self.is_aligned
    }

    pub fn ended(&self) -> (r: bool)
        ensures
            r == self.ended_spec(),
    {
        self.ended
    }

    /// Early exits of a render call: an ended source, a start that lies in a
    /// later block (collectable only when no start was ever scheduled), and a
    /// source without a buffer are all silent.
    pub fn block_entry(
        &self,
        start_in_later_block: bool,
        start_unscheduled: bool,
        has_buffer: bool,
    ) -> (r: BlockEntry)
        ensures
            r == entry_spec(self.ended_spec(), start_in_later_block, start_unscheduled, has_buffer),
    {
        if self.ended {
            BlockEntry::Silent { tail: false }
        } else if start_in_later_block {
            BlockEntry::Silent { tail: !start_unscheduled }
        } else if !has_buffer {
            BlockEntry::Silent { tail: false }
        } else {
            BlockEntry::Render
        }
    }

    /// Records that the playhead has reached the start time.
    pub fn mark_started(&mut self)
        ensures
            final(self).started_spec(),
            final(self).entered_loop_spec() == old(self).entered_loop_spec(),
            final(self).is_aligned_spec() == old(self).is_aligned_spec(),
            final(self).ended_spec() == old(self).ended_spec(),
    {
        self.started = true;
    }

    /// Records whether the playhead has entered the loop.
    pub fn set_entered_loop(&mut self, entered: bool)
        ensures
            final(self).entered_loop_spec() == entered,
            final(self).started_spec() == old(self).started_spec(),
            final(self).is_aligned_spec() == old(self).is_aligned_spec(),
            final(self).ended_spec() == old(self).ended_spec(),
    {
        self.entered_loop = entered;
    }

    /// Records the playhead entering the loop: playback that began before
    /// the loop end enters it on reaching the loop start, playback that began
    /// past the loop end enters it on coming back before the loop end.
    /// Returns whether the playhead is in the loop now.
    pub fn detect_loop_entry(&mut self, began_before_loop_end: bool, at_or_after_loop_start: bool, before_loop_end: bool) -> (r: bool)
        ensures
            r == (old(self).entered_loop_spec() || (began_before_loop_end && at_or_after_loop_start)
                || (!began_before_loop_end && before_loop_end)),
            final(self).entered_loop_spec() == r,
            final(self).started_spec() == old(self).started_spec(),
            final(self).is_aligned_spec() == old(self).is_aligned_spec(),
            final(self).ended_spec() == old(self).ended_spec(),
    {
        if !self.entered_loop {
            if began_before_loop_end && at_or_after_loop_start {
                self.entered_loop = true;
            }
            if !began_before_loop_end && before_loop_end {
                self.entered_loop = true;
            }
        }
        self.entered_loop
    }

    /// Decides whether this block runs on the fast path, and returns that
    /// decision.
    pub fn update_alignment(&mut self, facts: AlignmentFacts) -> (r: bool)
        ensures
            r == aligned_after(old(self).is_aligned_spec(), facts),
            final(self).is_aligned_spec() == r,
            final(self).started_spec() == old(self).started_spec(),
            final(self).entered_loop_spec() == old(self).entered_loop_spec(),
            final(self).ended_spec() == old(self).ended_spec(),
    {
        let mut aligned = self.is_aligned;
        if facts.starts_on_block_without_offset {
            aligned = true;
        }
        if !facts.same_sample_rate || !facts.unit_playback_rate {
            aligned = false;
        }
        if !facts.default_loop_points {
            aligned = false;
        }
        if !facts.duration_after_block || !facts.stop_after_block {
            aligned = false;
        }
        self.is_aligned = aligned;
        aligned
    }

    /// End-of-block bookkeeping: latches `ended` when the block ends the
    /// source, and returns whether the `ended` event is to be sent now.
    pub fn finish_block(&mut self, facts: EndFacts) -> (r: bool)
        ensures
            r == end_of_block_emits(old(self).ended_spec(), facts),
            final(self).ended_spec() == (old(self).ended_spec() || block_ends(facts)),
            final(self).started_spec() == old(self).started_spec(),
            final(self).entered_loop_spec() == old(self).entered_loop_spec(),
            final(self).is_aligned_spec() == old(self).is_aligned_spec(),
    {
        let ends = facts.reached_stop || facts.reached_duration || (!facts.is_looping && (
        facts.forward_past_end || facts.backward_before_start));
        let emit = !self.ended && ends;
        if ends {
            self.ended = true;
        }
        emit
    }

    /// The control handle is going away: a source whose start time has been
    /// reached and that has not ended yet ends now. Returns whether the
    /// `ended` event is to be sent.
    pub fn before_drop(&mut self, start_reached: bool) -> (r: bool)
        ensures
            r == drop_emits(old(self).ended_spec(), start_reached),
            final(self).ended_spec() == (old(self).ended_spec() || r),
            final(self).started_spec() == old(self).started_spec(),
            final(self).entered_loop_spec() == old(self).entered_loop_spec(),
            final(self).is_aligned_spec() == old(self).is_aligned_spec(),
    {
        let emit = !self.ended && start_reached;
        if emit {
            self.ended = true;
        }
        emit
    }
}

/// A block that ends at or before the start time is silent, and keeps a
/// scheduled source alive.
pub proof fn lemma_silent_before_start(ended: bool, has_buffer: bool)
    ensures
        entry_spec(ended, true, false, has_buffer) is Silent,
        !ended ==> entry_spec(ended, true, false, has_buffer) == (BlockEntry::Silent {
            tail: true,
        }),
{
}

/// The block that contains the stop time ends the source and sends `ended`,
/// and it never runs on the fast path.
pub proof fn lemma_stop_ends_its_block(was_aligned: bool, alignment: AlignmentFacts, end: EndFacts)
    requires
        !alignment.stop_after_block,
        end.reached_stop,
    ensures
        !aligned_after(was_aligned, alignment),
        block_ends(end),
        end_of_block_emits(false, end),
{
}

/// Takes a buffer that arrived from the control side. A source that has one
/// already swaps the two, so that the old buffer travels back in `incoming`
/// and is released off the render thread; a source without one installs it
/// and leaves `empty` in its place. Returns whether the buffer was installed.
pub fn receive_buffer<T>(slot: &mut Option<T>, incoming: &mut T, empty: T) -> (installed: bool)
    ensures
        installed == old(slot).is_none(),
        *final(slot) == Some(*old(incoming)),
        *final(incoming) == (match *old(slot) {
            Some(current) => current,
            None => empty,
        }),
{
    match slot {
        Some(current) => {
            std::mem::swap(current, incoming);
            false
        },
        None => {
            let mut taken = empty;
            std::mem::swap(&mut taken, incoming);
            *slot = Some(taken);
            true
        },
    }
}

/// One thing that happens to a source on the render side: a render call
/// with the facts of its block, or the drop of the control handle.
pub enum LifecycleEvent {
    Block {
        start_in_later_block: bool,
        start_unscheduled: bool,
        has_buffer: bool,
        end: EndFacts,
    },
    Drop { start_reached: bool },
}

/// The `ended` latch after one event, and whether the event sent `ended`.
pub open spec fn lifecycle_step(ended: bool, e: LifecycleEvent) -> (bool, bool) {
    match e {
        LifecycleEvent::Block { start_in_later_block, start_unscheduled, has_buffer, end } => {
            match entry_spec(ended, start_in_later_block, start_unscheduled, has_buffer) {
                BlockEntry::Silent { .. } => (ended, false),
                BlockEntry::Render => (ended || block_ends(end), end_of_block_emits(ended, end)),
            }
        },
        LifecycleEvent::Drop { start_reached } => (
            ended || drop_emits(ended, start_reached),
            drop_emits(ended, start_reached),
        ),
    }
}

/// The `ended` latch after a run of events.
pub open spec fn ended_after(ended: bool, events: Seq<LifecycleEvent>) -> bool
    decreases events.len(),
{
    if events.len() == 0 {
        ended
    } else {
        ended_after(lifecycle_step(ended, events[0]).0, events.drop_first())
    }
}

/// How many times a run of events sends `ended`.
pub open spec fn ended_events(ended: bool, events: Seq<LifecycleEvent>) -> nat
    decreases events.len(),
{
    if events.len() == 0 {
        0
    } else {
        let (next, sent) = lifecycle_step(ended, events[0]);
        (if sent { 1nat } else { 0nat }) + ended_events(next, events.drop_first())
    }
}

proof fn lemma_ended_run(ended: bool, events: Seq<LifecycleEvent>)
    ensures
        ended ==> ended_events(ended, events) == 0,
        ended_events(ended, events) <= 1,
        ended_events(ended, events) == 1 ==> ended_after(ended, events),
        ended ==> ended_after(ended, events),
    decreases events.len(),
{
    if events.len() > 0 {
        let (next, sent) = lifecycle_step(ended, events[0]);
        lemma_ended_run(next, events.drop_first());
    }
}

/// Over any run of render calls and handle drops, a source sends `ended` at
/// most once, and once it has, every later render call is silent and lets
/// the source be collected.
pub proof fn lemma_ended_at_most_once(events: Seq<LifecycleEvent>)
    ensures
        ended_events(false, events) <= 1,
        ended_events(false, events) == 1 ==> ended_after(false, events),
        ended_after(false, events) ==> forall|later: bool, unscheduled: bool, has_buffer: bool|
            #[trigger] entry_spec(true, later, unscheduled, has_buffer) == (BlockEntry::Silent {
                tail: false,
            }),
{
    lemma_ended_run(false, events);
}

/// An ended source stays ended and sends nothing more, whatever happens next,
/// looping switched back on included.
pub proof fn lemma_ended_is_terminal(events: Seq<LifecycleEvent>)
    ensures
        ended_after(true, events),
        ended_events(true, events) == 0,
{
    lemma_ended_run(true, events);
}

} // verus!

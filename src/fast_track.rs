//! The sample-aligned fast path of a buffer source: when playback starts on a
//! block boundary, at rate one, at the context's sample rate and with the
//! default loop points, every output frame is a plain copy of one buffer frame.
//! This module plans which buffer frame lands in which output slot.
use vstd::prelude::*;
use vstd::arithmetic::div_mod::{
    lemma_add_mod_noop,
    lemma_mod_add_multiples_vanish,
    lemma_small_mod,
    lemma_mod_self_0,
};
use crate::RENDER_QUANTUM_SIZE;

verus! {

/// The frames of one fast-path block, one entry per output slot
/// (`None` is silence), and the playhead, in frames, for the next block.
#[derive(Debug, PartialEq, Eq)]
pub struct FastTrackBlock {
    pub frames: Vec<Option<usize>>,
    pub next_position: usize,
}

pub open spec fn quantum() -> nat {
    RENDER_QUANTUM_SIZE as nat
}

pub open spec fn frame_view(f: Option<usize>) -> Option<nat> {
    match f {
        Some(n) => Some(n as nat),
        None => None,
    }
}

/// The buffer frame read in output slot `i` when the block starts with the
/// playhead on frame `position` of a buffer of `length` frames. Past the end
/// of the buffer a looping source reads on from frame zero, and a
/// non-looping one is silent.
pub open spec fn fast_frame(position: nat, length: nat, is_looping: bool, i: nat) -> Option<nat> {
    if position + i < length {
        Some(position + i)
    } else if is_looping && length > 0 {
        let from = if position <= length { position } else { length };
        Some(((from + i - length) as nat) % length)
    } else {
        None
    }
}

/// The playhead after a fast-path block: a block that stays inside the buffer
/// or does not loop moves it on by one quantum; a looping block that passes
/// the end leaves it on the frame that slot `Q` would read.
pub open spec fn fast_next_position(position: nat, length: nat, is_looping: bool) -> nat {
    if position + quantum() <= length || !is_looping || length == 0 {
        position + quantum()
    } else {
        fast_frame(position, length, true, quantum()).unwrap()
    }
}

/// Plans one fast-path block.
pub fn plan_fast_track(position: usize, length: usize, is_looping: bool) -> (r: FastTrackBlock)
    requires
        position + RENDER_QUANTUM_SIZE <= usize::MAX,
    ensures
        r.frames@.len() == quantum(),
        forall|i: int|
            0 <= i < quantum() ==> #[trigger] frame_view(r.frames@[i]) == fast_frame(
                position as nat,
                length as nat,
                is_looping,
                i as nat,
            ),
        r.next_position == fast_next_position(position as nat, length as nat, is_looping),
{
    let mut frames: Vec<Option<usize>> = Vec::with_capacity(RENDER_QUANTUM_SIZE);
    let from: usize = if position <= length { position } else { length };
    let mut i: usize = 0;
    while i < RENDER_QUANTUM_SIZE
        invariant
            i <= RENDER_QUANTUM_SIZE,
            from == (if position <= length { position } else { length }),
            position + RENDER_QUANTUM_SIZE <= usize::MAX,
            frames@.len() == i,
            forall|j: int|
                0 <= j < i ==> #[trigger] frame_view(frames@[j]) == fast_frame(
                    position as nat,
                    length as nat,
                    is_looping,
                    j as nat,
                ),
        decreases RENDER_QUANTUM_SIZE - i,
    {
        let frame: Option<usize> = if position + i < length {
            Some(position + i)
        } else if is_looping && length > 0 {
            Some((from + i - length) % length)
        } else {
            None
        };
        frames.push(frame);
        i += 1;
    }
    let next_position: usize = if position + RENDER_QUANTUM_SIZE <= length || !is_looping || length
        == 0 {
        position + RENDER_QUANTUM_SIZE
    } else {
        (from + RENDER_QUANTUM_SIZE - length) % length
    };
    FastTrackBlock { frames, next_position }
}

/// The playhead, in frames, after `blocks` fast-path blocks of a looping
/// source that started on frame zero.
pub open spec fn fast_run_position(length: nat, blocks: nat) -> nat
    decreases blocks,
{
    if blocks == 0 {
        0
    } else {
        fast_next_position(fast_run_position(length, (blocks - 1) as nat), length, true)
    }
}

/// Inside the buffer, a looping fast-path block reads frame `position + i`
/// taken modulo the buffer length.
proof fn lemma_looped_frame_is_modular(position: nat, length: nat, i: nat)
    requires
        0 < length,
        position <= length,
    ensures
        fast_frame(position, length, true, i) == Some((position + i) % length),
{
    if position + i < length {
        lemma_small_mod(position + i, length);
    } else {
        lemma_mod_add_multiples_vanish(position + i - length, length as int);
    }
}

/// A looping fast-path block keeps the playhead within the buffer and moves it
/// on by one quantum, modulo the buffer length.
proof fn lemma_looped_step(position: nat, length: nat)
    requires
        0 < length,
        position <= length,
    ensures
        fast_next_position(position, length, true) <= length,
        fast_next_position(position, length, true) % length == (position + quantum()) % length,
{
    if position + quantum() > length {
        lemma_looped_frame_is_modular(position, length, quantum());
        let next = fast_next_position(position, length, true);
        assert(next == (position + quantum()) % length);
        lemma_small_mod(next, length);
    }
}

proof fn lemma_looped_run(length: nat, blocks: nat)
    requires
        0 < length,
    ensures
        fast_run_position(length, blocks) <= length,
        fast_run_position(length, blocks) % length == (blocks * quantum()) % length,
    decreases blocks,
{
    if blocks == 0 {
        lemma_mod_self_0(length as int);
        lemma_small_mod(0, length);
    } else {
        let before = fast_run_position(length, (blocks - 1) as nat);
        lemma_looped_run(length, (blocks - 1) as nat);
        lemma_looped_step(before, length);
        lemma_add_mod_noop(before as int, quantum() as int, length as int);
        lemma_add_mod_noop(((blocks - 1) * quantum()) as int, quantum() as int, length as int);
        assert(((blocks - 1) * quantum()) + quantum() == blocks * quantum()) by (nonlinear_arith)
            requires
                blocks > 0,
        ;
    }
}

/// A looping source played on the fast path from frame zero reads, in output
/// frame `j` counted from the start, buffer frame `j` modulo the buffer length:
/// block `block`, slot `i` is output frame `block * Q + i`.
pub proof fn lemma_fast_loop_periodic(length: nat, block: nat, i: nat)
    requires
        0 < length,
        i < quantum(),
    ensures
        fast_frame(fast_run_position(length, block), length, true, i) == Some(
            (block * quantum() + i) % length,
        ),
{
    let position = fast_run_position(length, block);
    lemma_looped_run(length, block);
    lemma_looped_frame_is_modular(position, length, i);
    lemma_add_mod_noop(position as int, i as int, length as int);
    lemma_add_mod_noop((block * quantum()) as int, i as int, length as int);
}

/// A fast-path block that lies inside the buffer is an exact copy of the
/// buffer's frames `position .. position + Q`, and moves the playhead on by
/// one quantum.
pub proof fn lemma_fast_block_inside_buffer_is_copy(
    position: nat,
    length: nat,
    is_looping: bool,
    i: nat,
)
    requires
        position + quantum() <= length,
        i < quantum(),
    ensures
        fast_frame(position, length, is_looping, i) == Some(position + i),
        fast_next_position(position, length, is_looping) == position + quantum(),
{
}

} // verus!

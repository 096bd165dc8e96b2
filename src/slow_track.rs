//! The interpolating slow path of a buffer source: which buffer frames an
//! output sample is interpolated between. The playhead itself, and the
//! interpolation weight, are computed by the caller.
use vstd::prelude::*;

verus! {

/// Where the second sample of an interpolation comes from; the first one is
/// always the frame just before the playhead.
#[derive(Debug, Clone, Copy, PartialEq, Eq)]
pub enum NextSample {
    /// The buffer frame with this index.
    Frame(usize),
    /// A zero sample.
    Zero,
    /// Linear extrapolation from the last two frames: twice the previous
    /// frame's sample minus the sample of the frame with this index.
    Extrapolate(usize),
}

/// The loop points of a looping source as frame indices: the first frame at
/// or after the loop start, and the frame on or before the loop end.
#[derive(Debug, Clone, Copy, PartialEq, Eq)]
pub struct LoopFrames {
    pub start: usize,
    pub end: usize,
}

/// The source of the sample that follows frame `prev` of a buffer of
/// `length` frames. Inside the buffer it is the next frame. On the last frame
/// a looping source goes on from the loop point in its direction of play; a
/// frame index outside the buffer there gives silence. A non-looping source
/// extrapolates from its last two frames, except on a one-frame buffer or
/// when the playhead sits on the next frame already.
pub open spec fn next_sample_spec(
    prev: nat,
    length: nat,
    looping: Option<LoopFrames>,
    forward: bool,
    weight_near_one: bool,
) -> NextSample {
    if prev + 1 < length {
        NextSample::Frame((prev + 1) as usize)
    } else {
        match looping {
            Some(frames) => {
                let at = if forward { frames.start } else { frames.end };
                if at < length { NextSample::Frame(at) } else { NextSample::Zero }
            },
            None => {
                if weight_near_one || prev == 0 {
                    NextSample::Zero
                } else {
                    NextSample::Extrapolate((prev - 1) as usize)
                }
            },
        }
    }
}

/// Picks the second sample of the interpolation at frame `prev`.
pub fn next_sample(
    prev: usize,
    length: usize,
    looping: Option<LoopFrames>,
    forward: bool,
    weight_near_one: bool,
) -> (r: NextSample)
    requires
        prev < length,
    ensures
        r == next_sample_spec(prev as nat, length as nat, looping, forward, weight_near_one),
        r matches NextSample::Frame(i) ==> i < length,
        r matches NextSample::Extrapolate(i) ==> i + 1 == prev,
{
    if prev + 1 < length {
        NextSample::Frame(prev + 1)
    } else {
        match looping {
            Some(frames) => {
                let at = if forward { frames.start } else { frames.end };
                if at < length {
                    NextSample::Frame(at)
                } else {
                    NextSample::Zero
                }
            },
            None => {
                if weight_near_one || prev == 0 {
                    NextSample::Zero
                } else {
                    NextSample::Extrapolate(prev - 1)
                }
            },
        }
    }
}

/// The frame before the playhead, kept only when it lies inside the buffer:
/// drift in the playhead can point one frame past the end.
pub fn frame_before_playhead(floored: usize, length: usize) -> (r: Option<usize>)
    ensures
        r == (if floored < length { Some(floored) } else { None::<usize> }),
{
    if floored < length {
        Some(floored)
    } else {
        None
    }
}

} // verus!

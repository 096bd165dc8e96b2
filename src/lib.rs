use vstd::prelude::*;

pub mod context;
pub mod control;
pub mod fast_track;
pub mod lifecycle;
pub mod slow_track;
pub mod topology;

verus! {

/// Number of sample frames in one render quantum: every processor consumes and
/// produces blocks of exactly this many frames per channel.
pub const RENDER_QUANTUM_SIZE: usize = 128;

/// Input or output with this index does not exist.
#[derive(Debug, Clone, Copy, PartialEq, Eq)]
pub struct IndexSizeError {}

} // verus!

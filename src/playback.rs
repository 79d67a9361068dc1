//! The playback side: filling each output block from the ring.

use vstd::prelude::*;
use crate::ring::SampleConsumer;

verus! {

/// Fills the staging buffer with the next `block_len` samples of the ring,
/// padding with silence (`0`) where the ring runs dry, and returns how many
/// samples came from the ring.
///
/// The staging buffer is reused from one block to the next: it allocates
/// only when a block is longer than any before it.
pub fn render_block(consumer: &mut SampleConsumer, staging: &mut Vec<u32>, block_len: usize) -> (n: usize)
    ensures
        final(staging)@.len() == block_len,
        n <= block_len,
        final(consumer)@ == old(consumer)@ + final(staging)@.subrange(0, n as int),
        forall|i: int| n <= i < block_len ==> final(staging)@[i] == 0u32,
        final(consumer).ring() == old(consumer).ring(),
        final(consumer).in_step(),
{
    staging.resize(block_len, 0);
    consumer.pop_fill(staging.as_mut_slice())
}

} // verus!

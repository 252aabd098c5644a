//! The memory scrubbing of an emergency shutdown: random bytes over scratch
//! memory, then zeros.
use vstd::prelude::*;

use crate::crypto::primitives::{rng_fill_bytes, thread_rng_handle, zeroize_array, zeroize_vec};

verus! {

/// The size of each scratch frame on the stack.
pub const WIPE_FRAME_BYTES: usize = 131072;

/// The size of the scratch region on the heap.
pub const HEAP_DECOY_BYTES: usize = 2097152;

/// The emergency shutdown. Ending the Tor processes and the program itself is
/// left to the caller; this scrubs scratch memory.
pub struct PanicEngine;

impl PanicEngine {
    /// Fills two stack frames of `WIPE_FRAME_BYTES` with random bytes, then
    /// zeroes both.
    pub fn wipe_stack_entropy_frames() {
        let mut rng = thread_rng_handle();
        let mut frame_a = [0u8; 131072];
        let mut frame_b = [0u8; 131072];
        rng_fill_bytes(&mut rng, &mut frame_a);
        rng_fill_bytes(&mut rng, &mut frame_b);
        zeroize_array(&mut frame_a);
        zeroize_array(&mut frame_b);
    }

    /// Fills a heap region of `HEAP_DECOY_BYTES` with random bytes, then
    /// zeroes and clears it.
    pub fn wipe_heap_decoy_region() {
        let mut rng = thread_rng_handle();
        let mut region = vec![0u8; HEAP_DECOY_BYTES];
        rng_fill_bytes(&mut rng, region.as_mut_slice());
        zeroize_vec(&mut region);
    }
}

} // verus!

//! Secure deletion: the overwrite passes of a file and the wiping of a
//! buffer.
use vstd::prelude::*;

use crate::crypto::primitives::{rng_fill_bytes, thread_rng_handle};

verus! {

/// Why a secure deletion failed.
#[derive(Debug)]
pub enum SecureDeleteError {
    NotFound(String),
    Io(std::io::Error),
}

/// One overwrite pass over a file.
#[derive(Debug, Clone, Copy)]
pub enum WipePass {
    /// Every byte set to the given value.
    Fill(u8),
    /// Random bytes.
    Random,
}

/// The size of the chunks that a pass writes.
pub const WIPE_CHUNK_BYTES: usize = 4096;

/// The passes of a file wipe, in order: three DoD 5220.22-M passes (0x00,
/// 0xFF, 0x00), three random passes and a final zero pass.
pub open spec fn wipe_plan_spec() -> Seq<WipePass> {
    seq![
        WipePass::Fill(0x00),
        WipePass::Fill(0xFF),
        WipePass::Fill(0x00),
        WipePass::Random,
        WipePass::Random,
        WipePass::Random,
        WipePass::Fill(0x00),
    ]
}

fn fill_zero(buf: &mut [u8])
    ensures
        final(buf)@.len() == old(buf)@.len(),
        forall|i: int| 0 <= i < final(buf)@.len() ==> final(buf)@[i] == 0,
{
    let n = buf.len();
    let mut i: usize = 0;
    while i < n
        invariant
            n == buf@.len(),
            buf@.len() == old(buf)@.len(),
            i <= n,
            forall|j: int| 0 <= j < i ==> buf@[j] == 0,
        decreases n - i,
    {
        buf[i] = 0u8;
        i = i + 1;
    }
}

/// Secure deletion of files and buffers.
pub struct SecureDelete;

impl SecureDelete {
    /// Zeroes `buf`, fills it with random bytes, then zeroes it again: it
    /// ends all zero.
    pub fn wipe_buffer(buf: &mut [u8])
        ensures
            final(buf)@.len() == old(buf)@.len(),
            forall|i: int| 0 <= i < final(buf)@.len() ==> final(buf)@[i] == 0,
    {
        let mut rng = thread_rng_handle();
        fill_zero(buf);
        rng_fill_bytes(&mut rng, buf);
        fill_zero(buf);
    }

    /// The passes of a file wipe, in order.
    pub fn wipe_plan() -> (res: Vec<WipePass>)
        ensures
            res@ == wipe_plan_spec(),
    {
        let res = vec![
            WipePass::Fill(0x00),
            WipePass::Fill(0xFF),
            WipePass::Fill(0x00),
            WipePass::Random,
            WipePass::Random,
            WipePass::Random,
            WipePass::Fill(0x00),
        ];
        assert(res@ =~= wipe_plan_spec());
        res
    }

    /// The bytes that one write of `pass` puts down: `len` copies of the fill
    /// byte, or `len` random bytes.
    pub fn pass_chunk(pass: WipePass, len: usize) -> (res: Vec<u8>)
        ensures
            res@.len() == len,
            pass matches WipePass::Fill(b) ==> forall|i: int| 0 <= i < len ==> res@[i] == b,
    {
        match pass {
            WipePass::Fill(b) => {
                let mut chunk: Vec<u8> = Vec::with_capacity(len);
                let mut i: usize = 0;
                while i < len
                    invariant
                        i <= len,
                        chunk@.len() == i,
                        forall|j: int| 0 <= j < i ==> chunk@[j] == b,
                    decreases len - i,
                {
                    chunk.push(b);
                    i = i + 1;
                }
                chunk
            },
            WipePass::Random => {
                let mut rng = thread_rng_handle();
                let mut chunk = vec![0u8; len];
                rng_fill_bytes(&mut rng, chunk.as_mut_slice());
                chunk
            },
        }
    }

    /// How many bytes the next write of a pass over `len` bytes writes once
    /// `written` bytes are written: the rest, at most one chunk.
    pub fn next_chunk_len(len: usize, written: usize) -> (res: usize)
        requires
            written <= len,
        ensures
            res == if len - written < WIPE_CHUNK_BYTES { len - written } else { WIPE_CHUNK_BYTES as int },
    {
        let rest = len - written;
        if rest < WIPE_CHUNK_BYTES {
            rest
        } else {
            WIPE_CHUNK_BYTES
        }
    }
}

} // verus!

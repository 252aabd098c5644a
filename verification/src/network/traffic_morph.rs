//! Traffic morphing: padding of outbound packets to a few uniform sizes,
//! random send delays and dummy packets.
use vstd::prelude::*;

use crate::crypto::primitives::{rng_below, rng_fill, thread_rng_handle};

verus! {

/// `len` random bytes drawn with `Rng::fill`.
fn random_vec(rng: &mut rand::rngs::ThreadRng, len: usize) -> (res: Vec<u8>)
    ensures
        res@.len() == len,
{
    let mut buf = vec![0u8; len];
    rng_fill(rng, buf.as_mut_slice());
    buf
}

/// The smallest padding target.
pub const PADDING_SMALL: usize = 1024;

/// The middle padding target.
pub const PADDING_MEDIUM: usize = 5120;

/// The largest padding target.
pub const PADDING_LARGE: usize = 10240;

/// The size that a payload of `len` bytes is padded to: the smallest of
/// 1024, 5120 and 10240 that holds it, and above 10240 the next multiple of
/// 10240 beyond `len` (a full 10240 more when `len` is a multiple).
pub open spec fn padding_target_of(len: nat) -> nat {
    if len <= 1024 {
        1024
    } else if len <= 5120 {
        5120
    } else if len <= 10240 {
        10240
    } else {
        (len + (10240 - len % 10240)) as nat
    }
}

/// The two little-endian bytes of a 16-bit number.
pub open spec fn le_u16(x: u16) -> Seq<u8> {
    seq![(x % 256) as u8, (x / 256) as u8]
}

/// A padded packet: the payload, a zero byte, the padding's length as two
/// little-endian bytes, then the padding.
pub open spec fn padded_frame(payload: Seq<u8>, padding: Seq<u8>) -> Seq<u8> {
    payload + seq![0u8] + le_u16(padding.len() as u16) + padding
}

/// The index of the last byte of `s` that is not zero.
pub open spec fn last_nonzero(s: Seq<u8>) -> Option<int>
    decreases s.len(),
{
    if s.len() == 0 {
        None
    } else if s.last() != 0 {
        Some(s.len() - 1)
    } else {
        last_nonzero(s.drop_last())
    }
}

/// What stripping the padding of `padded` gives: nothing below three bytes
/// or when every byte is zero; otherwise the prefix that ends the padding
/// length plus three bytes before the end, where the padding length is read
/// little-endian from the two bytes that start two before the last non-zero
/// byte (or at the start).
pub open spec fn stripped_len(padded: Seq<u8>) -> Option<nat> {
    if padded.len() < 3 {
        None
    } else {
        match last_nonzero(padded) {
            None => None,
            Some(end) => {
                let len_start = if end >= 2 { end - 2 } else { 0 };
                let padding_len = padded[len_start] + 256 * padded[len_start + 1];
                Some(if padded.len() >= padding_len + 3 { (padded.len() - (padding_len + 3)) as nat } else { 0 })
            },
        }
    }
}

/// The size that a payload of `len` bytes is padded to.
pub fn padding_target(len: usize) -> (res: usize)
    requires
        len <= usize::MAX - PADDING_LARGE,
    ensures
        res == padding_target_of(len as nat),
        res >= len,
        res - len <= PADDING_LARGE,
        len <= PADDING_LARGE ==> res == PADDING_SMALL || res == PADDING_MEDIUM || res == PADDING_LARGE,
        len > PADDING_LARGE ==> res % PADDING_LARGE == 0 && res > len,
{
    if len <= PADDING_SMALL {
        PADDING_SMALL
    } else if len <= PADDING_MEDIUM {
        PADDING_MEDIUM
    } else if len <= PADDING_LARGE {
        PADDING_LARGE
    } else {
        let excess = len % PADDING_LARGE;
        len + (PADDING_LARGE - excess)
    }
}

/// Frames `payload` with `padding`: the payload, a zero byte, the padding's
/// length little-endian, then the padding.
pub fn frame_padded(payload: &[u8], padding: &[u8]) -> (res: Vec<u8>)
    requires
        padding@.len() <= u16::MAX,
        payload@.len() + padding@.len() + 3 <= usize::MAX,
    ensures
        res@ == padded_frame(payload@, padding@),
{
    let mut padded: Vec<u8> = Vec::with_capacity(payload.len() + padding.len() + 3);
    let mut i: usize = 0;
    while i < payload.len()
        invariant
            i <= payload@.len(),
            padded@ == payload@.subrange(0, i as int),
        decreases payload@.len() - i,
    {
        padded.push(payload[i]);
        i = i + 1;
        assert(padded@ =~= payload@.subrange(0, i as int));
    }
    padded.push(0u8);
    let n: u16 = padding.len() as u16;
    padded.push((n % 256) as u8);
    padded.push((n / 256) as u8);
    let ghost prefix = padded@;
    assert(prefix =~= payload@ + seq![0u8] + le_u16(padding@.len() as u16));
    let mut j: usize = 0;
    while j < padding.len()
        invariant
            j <= padding@.len(),
            padded@ == prefix + padding@.subrange(0, j as int),
        decreases padding@.len() - j,
    {
        padded.push(padding[j]);
        j = j + 1;
        assert(padded@ =~= prefix + padding@.subrange(0, j as int));
    }
    assert(padding@.subrange(0, padding@.len() as int) =~= padding@);
    padded
}

/// Produces traffic shapes from the thread's random generator.
pub struct TrafficMorpher {
    rng: rand::rngs::ThreadRng,
}

impl TrafficMorpher {
    /// A morpher over the thread's random generator.
    pub fn new() -> (res: Self) {
        TrafficMorpher { rng: thread_rng_handle() }
    }

    /// Pads `payload` with random padding and frames it so that the whole
    /// packet, its zero byte and two length bytes included, has the padding
    /// target of the payload and those three bytes: 1024, 5120 or 10240
    /// bytes, or a multiple of 10240 above that.
    pub fn pad_to_uniform(&mut self, payload: &[u8]) -> (res: Vec<u8>)
        requires
            payload@.len() <= usize::MAX - PADDING_LARGE - 3,
        ensures
            exists|padding: Seq<u8>|
                padding.len() == padding_target_of(payload@.len() + 3) - payload@.len() - 3 && res@
                    == #[trigger] padded_frame(payload@, padding),
            res@.len() == padding_target_of(payload@.len() + 3),
            payload@.len() + 3 <= PADDING_LARGE ==> res@.len() == PADDING_SMALL || res@.len()
                == PADDING_MEDIUM || res@.len() == PADDING_LARGE,
            payload@.len() + 3 > PADDING_LARGE ==> res@.len() % (PADDING_LARGE as nat) == 0,
    {
        let framed_len = payload.len() + 3;
        let target_size = padding_target(framed_len);
        let padding_needed = target_size - framed_len;
        let padding = random_vec(&mut self.rng, padding_needed);
        let res = frame_padded(payload, &padding);
        assert(res@ == padded_frame(payload@, padding@));
        res
    }

    /// Strips the padding that `padded` is read to carry; see
    /// `stripped_len` for what is read.
    pub fn strip_padding(padded: &[u8]) -> (res: Option<&[u8]>)
        ensures
            match stripped_len(padded@) {
                None => res is None,
                Some(n) => res matches Some(s) && s@ == padded@.subrange(0, n as int),
            },
    {
        if padded.len() < 3 {
            return None;
        }
        let mut k: usize = padded.len();
        assert(padded@.subrange(0, k as int) =~= padded@);
        while k > 0 && padded[k - 1] == 0
            invariant
                k <= padded@.len(),
                forall|j: int| k <= j < padded@.len() ==> padded@[j] == 0,
                last_nonzero(padded@) == last_nonzero(padded@.subrange(0, k as int)),
            decreases k,
        {
            assert(padded@.subrange(0, k as int).drop_last() =~= padded@.subrange(0, k - 1));
            k = k - 1;
        }
        if k == 0 {
            assert(padded@.subrange(0, 0) =~= Seq::<u8>::empty());
            return None;
        }
        assert(padded@.subrange(0, k as int).last() == padded@[k - 1]);
        assert(last_nonzero(padded@) == Some((k - 1) as int));
        assert(padded@ =~= padded@.subrange(0, padded@.len() as int));
        let payload_end = k - 1;
        let len_start = payload_end.saturating_sub(2);
        let padding_len = (padded[len_start] as usize) + 256 * (padded[len_start + 1] as usize);
        let real_end = padded.len().saturating_sub(padding_len + 3);
        Some(vstd::slice::slice_subrange(padded, 0, real_end))
    }

    /// A send delay in milliseconds, between 50 and 500.
    pub fn delay_ms(&mut self) -> (res: u64)
        ensures
            50 <= res <= 500,
    {
        let d = rng_below(&mut self.rng, 50, 501);
        d as u64
    }

    /// A packet of random bytes of one of the three padding targets.
    pub fn dummy_packet(&mut self) -> (res: Vec<u8>)
        ensures
            res@.len() == PADDING_SMALL || res@.len() == PADDING_MEDIUM || res@.len() == PADDING_LARGE,
    {
        let idx = rng_below(&mut self.rng, 0, 3);
        let size = if idx == 0 {
            PADDING_SMALL
        } else if idx == 1 {
            PADDING_MEDIUM
        } else {
            PADDING_LARGE
        };
        random_vec(&mut self.rng, size)
    }
}

} // verus!

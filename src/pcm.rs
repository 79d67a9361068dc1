//! Integer PCM payloads: little-endian 16- and 32-bit signed samples.

use vstd::prelude::*;

verus! {

/// The 16-bit signed value of two little-endian bytes.
pub open spec fn i16_le(lo: u8, hi: u8) -> i16 {
    let u = lo as int + 256 * hi as int;
    (if u >= 0x8000 { u - 0x1_0000 } else { u }) as i16
}

/// The 32-bit signed value of four little-endian bytes.
pub open spec fn i32_le(b0: u8, b1: u8, b2: u8, b3: u8) -> i32 {
    let u = b0 as int + 0x100 * b1 as int + 0x1_0000 * b2 as int + 0x100_0000 * b3 as int;
    (if u >= 0x8000_0000 { u - 0x1_0000_0000 } else { u }) as i32
}

/// The 16-bit samples of a payload; a trailing odd byte is ignored.
pub open spec fn pcm16_of(b: Seq<u8>) -> Seq<i16> {
    Seq::new(b.len() / 2, |i: int| i16_le(b[2 * i], b[2 * i + 1]))
}

/// The 32-bit samples of a payload; up to three trailing bytes are ignored.
pub open spec fn pcm32_of(b: Seq<u8>) -> Seq<i32> {
    Seq::new(
        b.len() / 4,
        |i: int| i32_le(b[4 * i], b[4 * i + 1], b[4 * i + 2], b[4 * i + 3]),
    )
}

/// A decoded payload, in the interleaved order in which it arrived.
#[derive(Debug)]
pub enum Pcm {
    Pcm16(Vec<i16>),
    Pcm32(Vec<i32>),
    /// A width other than 16 or 32 bits: the payload is dropped.
    Unsupported,
}

/// What a payload of the given width decodes to.
pub open spec fn pcm_matches(p: Pcm, width: u8, b: Seq<u8>) -> bool {
    match p {
        Pcm::Pcm16(v) => width == 16 && v@ == pcm16_of(b),
        Pcm::Pcm32(v) => width == 32 && v@ == pcm32_of(b),
        Pcm::Unsupported => width != 16 && width != 32,
    }
}

/// The number of samples that a payload of `len` bytes at `width` bits holds.
pub open spec fn sample_count_of(width: u8, len: nat) -> nat {
    if width == 16 {
        len / 2
    } else if width == 32 {
        len / 4
    } else {
        0
    }
}

/// The number of samples held by a decoded payload.
pub open spec fn pcm_len(p: Pcm) -> nat {
    match p {
        Pcm::Pcm16(v) => v@.len(),
        Pcm::Pcm32(v) => v@.len(),
        Pcm::Unsupported => 0,
    }
}

impl Pcm {
    /// The number of decoded samples.
    pub fn len(&self) -> (r: usize)
        ensures
            r == pcm_len(*self),
    {
        match self {
            Pcm::Pcm16(v) => v.len(),
            Pcm::Pcm32(v) => v.len(),
            Pcm::Unsupported => 0,
        }
    }
}

/// Reads a little-endian 16-bit signed sample.
pub fn read_i16_le(lo: u8, hi: u8) -> (r: i16)
    ensures
        r == i16_le(lo, hi),
{
    let u: i32 = lo as i32 + 256 * hi as i32;
    if u >= 0x8000 {
        (u - 0x1_0000) as i16
    } else {
        u as i16
    }
}

/// Reads a little-endian 32-bit signed sample.
pub fn read_i32_le(b0: u8, b1: u8, b2: u8, b3: u8) -> (r: i32)
    ensures
        r == i32_le(b0, b1, b2, b3),
{
    let u: i64 = b0 as i64 + 0x100 * b1 as i64 + 0x1_0000 * b2 as i64 + 0x100_0000 * b3 as i64;
    if u >= 0x8000_0000 {
        (u - 0x1_0000_0000) as i32
    } else {
        u as i32
    }
}

/// Decodes a payload of little-endian 16-bit samples.
pub fn decode_pcm16(payload: &[u8]) -> (r: Vec<i16>)
    ensures
        r@ == pcm16_of(payload@),
{
    let len = payload.len();
    let n = len / 2;
    let mut out: Vec<i16> = Vec::with_capacity(n);
    let mut i: usize = 0;
    while i < n
        invariant
            len == payload@.len(),
            n == len / 2,
            2 * n <= len,
            i <= n,
            out@.len() == i,
            forall|j: int| 0 <= j < i ==> out@[j] == i16_le(payload@[2 * j], payload@[2 * j + 1]),
        decreases n - i,
    {
        out.push(read_i16_le(payload[2 * i], payload[2 * i + 1]));
        i += 1;
    }
    assert(out@ =~= pcm16_of(payload@));
    out
}

/// Decodes a payload of little-endian 32-bit samples.
pub fn decode_pcm32(payload: &[u8]) -> (r: Vec<i32>)
    ensures
        r@ == pcm32_of(payload@),
{
    let len = payload.len();
    let n = len / 4;
    let mut out: Vec<i32> = Vec::with_capacity(n);
    let mut i: usize = 0;
    while i < n
        invariant
            len == payload@.len(),
            n == len / 4,
            4 * n <= len,
            i <= n,
            out@.len() == i,
            forall|j: int|
                0 <= j < i ==> out@[j] == i32_le(
                    payload@[4 * j],
                    payload@[4 * j + 1],
                    payload@[4 * j + 2],
                    payload@[4 * j + 3],
                ),
        decreases n - i,
    {
        let k = 4 * i;
        out.push(read_i32_le(payload[k], payload[k + 1], payload[k + 2], payload[k + 3]));
        i += 1;
    }
    assert(out@ =~= pcm32_of(payload@));
    out
}

/// Decodes a payload at the given sample width. Widths other than 16 and 32
/// bits are not recognised: the payload is dropped and no sample comes out.
pub fn decode_payload(width: u8, payload: &[u8]) -> (r: Pcm)
    ensures
        pcm_matches(r, width, payload@),
        pcm_len(r) == sample_count_of(width, payload@.len()),
{
    if width == 16 {
        Pcm::Pcm16(decode_pcm16(payload))
    } else if width == 32 {
        Pcm::Pcm32(decode_pcm32(payload))
    } else {
        Pcm::Unsupported
    }
}

/// Every decoded payload holds `floor(len / (width / 8))` samples for the
/// two recognised widths.
pub proof fn lemma_sample_count(p: Pcm, width: u8, b: Seq<u8>)
    requires
        pcm_matches(p, width, b),
        width == 16 || width == 32,
    ensures
        pcm_len(p) == b.len() / (width as nat / 8),
{
}

/// The divisor that scales a 32-bit sample into `[-1, 1]`: `2^31` for a
/// negative sample, `2^31 - 1` for any other. Dividing by the magnitude of the
/// smallest value on the negative side means no value has to be negated.
pub open spec fn pcm32_divisor_of(s: i32) -> u32 {
    if s < 0 { 0x8000_0000 } else { 0x7fff_ffff }
}

/// Picks the divisor for a 32-bit sample; see [`pcm32_divisor_of`].
pub fn pcm32_divisor(s: i32) -> (r: u32)
    ensures
        r == pcm32_divisor_of(s),
{
    if s < 0 {
        0x8000_0000
    } else {
        0x7fff_ffff
    }
}

/// The scale of a 32-bit sample over its divisor: the smallest sample is
/// exactly `-1`, zero is exactly `0`, every sample lies in `[-1, 1]`, and
/// every sample below the largest lies strictly below `1`.
pub proof fn lemma_pcm32_scale(s: i32)
    ensures
        s == i32::MIN ==> s as int == -(pcm32_divisor_of(s) as int),
        s == 0 ==> s as int == 0,
        -(pcm32_divisor_of(s) as int) <= s as int <= pcm32_divisor_of(s) as int,
        s < i32::MAX ==> (s as int) < pcm32_divisor_of(s) as int,
{
}

} // verus!

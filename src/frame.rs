//! The datagram header: output rate, sample width, channel count, channel map.

use vstd::prelude::*;
use vstd::slice::slice_subrange;
use crate::pcm::{decode_payload, pcm_matches, Pcm};

verus! {

/// Length of the header that precedes the PCM payload of every datagram.
pub const HEADER_LEN: usize = 5;

/// Sample rate announced by a header whose first byte has its high bit set.
pub const RATE_44100: u32 = 44100;

/// Sample rate announced by a header whose first byte has its high bit clear.
pub const RATE_48000: u32 = 48000;

/// The part of a header that decides which output stream is needed.
///
/// The sample width is deliberately not part of it: a change of width alone
/// does not rebuild the stream.
#[derive(Clone, Copy, Debug, PartialEq, Eq, Structural)]
pub struct AudioSettings {
    pub sample_rate: u32,
    pub channels: u8,
    pub channel_map: u16,
}

/// A parsed header: the settings, and the width of each sample in bits.
#[derive(Clone, Copy, Debug, PartialEq, Eq, Structural)]
pub struct FrameHeader {
    pub settings: AudioSettings,
    pub sample_width: u8,
}

/// The sample rate selected by the first header byte: its high bit alone decides.
pub open spec fn rate_of(b0: u8) -> u32 {
    if b0 >= 128 { RATE_44100 } else { RATE_48000 }
}

/// The channel map: header bytes 3 and 4, big-endian.
pub open spec fn channel_map_of(hi: u8, lo: u8) -> u16 {
    (hi as int * 256 + lo as int) as u16
}

/// Whether a datagram of this many bytes carries a frame at all.
pub open spec fn is_frame(len: nat) -> bool {
    len > HEADER_LEN
}

/// The header that a datagram of more than five bytes carries.
pub open spec fn header_of(d: Seq<u8>) -> FrameHeader
    recommends
        d.len() > HEADER_LEN,
{
    FrameHeader {
        settings: AudioSettings {
            sample_rate: rate_of(d[0]),
            channels: d[2],
            channel_map: channel_map_of(d[3], d[4]),
        },
        sample_width: d[1],
    }
}

/// The payload of a datagram: everything after the header.
pub open spec fn payload_of(d: Seq<u8>) -> Seq<u8> {
    d.subrange(HEADER_LEN as int, d.len() as int)
}

/// Selects the sample rate from the first header byte.
pub fn sample_rate_from(b0: u8) -> (r: u32)
    ensures
        r == rate_of(b0),
{
    if b0 >= 128 {
        RATE_44100
    } else {
        RATE_48000
    }
}

/// Parses the header of a datagram.
///
/// Datagrams of five bytes or fewer carry no frame and give `None`. The
/// channel count and the channel map are passed through as they stand.
pub fn parse_header(datagram: &[u8]) -> (r: Option<FrameHeader>)
    ensures
        r is None <==> !is_frame(datagram@.len()),
        r matches Some(h) ==> h == header_of(datagram@),
{
    if datagram.len() <= HEADER_LEN {
        return None;
    }
    let hi = datagram[3];
    let lo = datagram[4];
    let channel_map: u16 = hi as u16 * 256 + lo as u16;
    Some(FrameHeader {
        settings: AudioSettings {
            sample_rate: sample_rate_from(datagram[0]),
            channels: datagram[2],
            channel_map,
        },
        sample_width: datagram[1],
    })
}

/// The rate depends on the high bit of the first header byte only: two bytes
/// that agree on that bit select the same rate, whatever their other seven bits.
pub proof fn lemma_rate_ignores_low_bits(a: u8, b: u8)
    requires
        a & 0x80u8 == b & 0x80u8,
    ensures
        rate_of(a) == rate_of(b),
{
    assert(a >= 128 <==> a & 0x80u8 == 0x80u8) by (bit_vector);
    assert(b >= 128 <==> b & 0x80u8 == 0x80u8) by (bit_vector);
}

/// A set high bit selects 44100 Hz, a clear one 48000 Hz.
pub proof fn lemma_rate_by_high_bit(a: u8)
    ensures
        a & 0x80u8 != 0 ==> rate_of(a) == RATE_44100,
        a & 0x80u8 == 0 ==> rate_of(a) == RATE_48000,
{
    assert(a >= 128 <==> a & 0x80u8 != 0) by (bit_vector);
}

/// A decoded datagram: its header and its samples.
#[derive(Debug)]
pub struct Frame {
    pub header: FrameHeader,
    pub samples: Pcm,
}

/// Decodes a datagram. Datagrams of five bytes or fewer carry no frame and
/// give `None`; otherwise the payload is decoded at the width the header
/// gives, and an unrecognised width yields no samples.
pub fn decode_frame(datagram: &[u8]) -> (r: Option<Frame>)
    ensures
        r is None <==> !is_frame(datagram@.len()),
        r matches Some(f) ==> {
            &&& f.header == header_of(datagram@)
            &&& pcm_matches(f.samples, f.header.sample_width, payload_of(datagram@))
        },
{
    match parse_header(datagram) {
        None => None,
        Some(header) => {
            let payload = slice_subrange(datagram, HEADER_LEN, datagram.len());
            let samples = decode_payload(header.sample_width, payload);
            Some(Frame { header, samples })
        },
    }
}

} // verus!

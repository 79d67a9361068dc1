//! Decoding, buffering and stream-lifecycle logic of a multicast PCM audio receiver.
//!
//! Datagrams carry a five-byte header followed by interleaved integer PCM.
//! [`frame`] parses the header, [`pcm`] decodes the payload into integer
//! samples, [`ring`] is the lock-free sample queue between the network loop
//! and the playback callback, [`session`] decides when the output stream is
//! rebuilt and when playback starts, and [`playback`] fills the device's
//! output blocks.
//!
//! Samples travel through the queue as 32-bit words that hold the bit pattern
//! of a single-precision float; the all-zero word is silence.

use vstd::prelude::*;

pub mod frame;
pub mod pcm;
pub mod ring;
pub mod session;
pub mod playback;

//! The stream lifecycle: when the output stream is rebuilt, and when it starts.
//!
//! A [`Session`] belongs to the network loop. It remembers the settings of the
//! current stream and holds the producer half of that stream's ring. The
//! caller owns the stream itself: [`Session::negotiate`] hands it the consumer
//! half of a fresh ring whenever a new stream is needed, and
//! [`Session::enqueue`] tells it when to start playing.

use vstd::prelude::*;
use crate::frame::{header_of, is_frame, AudioSettings};
use crate::ring::{common_prefix, sample_ring, SampleConsumer, SampleProducer};

verus! {

/// The number of samples each new ring holds.
pub const RING_CAPACITY: usize = 16384;

/// Playback starts once the ring holds this many times the samples of the
/// latest packet.
pub const PREBUFFER_PACKETS: usize = 4;

/// Whether a frame with `next` settings needs a new stream, given the settings
/// of the current one (none before the first frame).
pub open spec fn needs_rebuild(current: Option<AudioSettings>, next: AudioSettings) -> bool {
    current != Some(next)
}

/// Whether a stream that is not yet playing should start, given what the ring
/// holds and the number of samples in the latest packet.
pub open spec fn start_due(playing: bool, buffered: nat, packet_samples: nat) -> bool {
    !playing && buffered >= PREBUFFER_PACKETS * packet_samples
}

/// Decides whether playback should start now; see [`start_due`].
pub fn should_start(playing: bool, buffered: usize, packet_samples: usize) -> (r: bool)
    ensures
        r == start_due(playing, buffered as nat, packet_samples as nat),
{
    !playing && buffered / PREBUFFER_PACKETS >= packet_samples
}

/// The outcome of [`Session::enqueue`].
#[derive(Clone, Copy, Debug, PartialEq, Eq, Structural)]
pub struct Enqueued {
    /// How many of the offered samples the ring accepted.
    pub accepted: usize,
    /// How many samples the ring held after the push, as the producer saw it.
    pub buffered: usize,
    /// Whether the caller must start the stream now.
    pub start: bool,
}

/// The state of the network loop: the current settings, the producer half of
/// the current stream's ring, and whether that stream plays.
pub struct Session {
    current: Option<AudioSettings>,
    producer: Option<SampleProducer>,
    playing: bool,
}

impl Session {
    /// The settings of the current stream; none before the first frame.
    pub closed spec fn current(&self) -> Option<AudioSettings> {
        self.current
    }

    /// Whether the current stream has been started.
    pub closed spec fn playing(&self) -> bool {
        self.playing
    }

    /// The samples accepted into the current stream's ring so far.
    pub closed spec fn sent(&self) -> Seq<u32> {
        match self.producer {
            Some(p) => p@,
            None => Seq::empty(),
        }
    }

    /// The ring of the current stream.
    pub closed spec fn ring(&self) -> int {
        match self.producer {
            Some(p) => p.ring(),
            None => 0,
        }
    }

    /// A stream exists exactly when settings are known, its ring holds
    /// [`RING_CAPACITY`] samples, and only an existing stream can play.
    pub closed spec fn wf(&self) -> bool {
        &&& (self.current is Some <==> self.producer is Some)
        &&& (self.playing ==> self.current is Some)
        &&& (self.producer matches Some(p) ==> p.capacity() == RING_CAPACITY)
    }

    /// A session before the first frame: no settings, no stream.
    pub fn new() -> (r: Session)
        ensures
            r.wf(),
            r.current() is None,
            !r.playing(),
            r.sent() == Seq::<u32>::empty(),
    {
        Session { current: None, producer: None, playing: false }
    }

    /// Whether a stream is playing.
    pub fn is_playing(&self) -> (r: bool)
        ensures
            r == self.playing(),
    {
        self.playing
    }

    /// The settings of the current stream, if any.
    pub fn current_settings(&self) -> (r: Option<AudioSettings>)
        ensures
            r == self.current(),
    {
        self.current
    }

    /// Takes the settings of a new frame. Where they differ from the current
    /// ones, or none are known yet, the old ring is dropped, a new empty one
    /// is made, the settings are recorded, playback is marked stopped, and the
    /// consumer half of the new ring is returned: the caller discards its old
    /// stream and builds one for these settings around it. Otherwise nothing
    /// changes and `None` comes back.
    pub fn negotiate(&mut self, settings: AudioSettings) -> (r: Option<SampleConsumer>)
        requires
            old(self).wf(),
        ensures
            final(self).wf(),
            final(self).current() == Some(settings),
            r is Some <==> needs_rebuild(old(self).current(), settings),
            r matches Some(c) ==> {
                &&& c@ == Seq::<u32>::empty()
                &&& c.ring() == final(self).ring()
                &&& c.in_step()
                &&& final(self).sent() == Seq::<u32>::empty()
                &&& !final(self).playing()
            },
            r is None ==> {
                &&& final(self).playing() == old(self).playing()
                &&& final(self).sent() == old(self).sent()
                &&& final(self).ring() == old(self).ring()
            },
    {
        let unchanged = match self.current {
            Some(c) => c == settings,
            None => false,
        };
        if unchanged {
            return None;
        }
        let (producer, consumer) = sample_ring(RING_CAPACITY);
        self.producer = Some(producer);
        self.current = Some(settings);
        self.playing = false;
        Some(consumer)
    }

    /// Pushes the converted samples of a packet into the current ring without
    /// blocking (those that do not fit are dropped), then applies the start
    /// gate: a stream that is not playing starts once the ring holds
    /// [`PREBUFFER_PACKETS`] times `packet_samples`. Once started it stays
    /// started. Without a stream nothing happens.
    pub fn enqueue(&mut self, samples: &[u32], packet_samples: usize) -> (r: Enqueued)
        requires
            old(self).wf(),
        ensures
            final(self).wf(),
            final(self).current() == old(self).current(),
            final(self).ring() == old(self).ring(),
            old(self).current() is None ==> {
                &&& r == (Enqueued { accepted: 0, buffered: 0, start: false })
                &&& !final(self).playing()
            },
            old(self).current() is Some ==> {
                &&& r.accepted <= samples@.len()
                &&& (r.accepted == samples@.len() || r.accepted as int >= RING_CAPACITY
                    - old(self).sent().len())
                &&& r.buffered <= final(self).sent().len()
                &&& r.buffered <= RING_CAPACITY
                &&& final(self).sent() == old(self).sent() + samples@.subrange(
                    0,
                    r.accepted as int,
                )
                &&& r.start == start_due(
                    old(self).playing(),
                    r.buffered as nat,
                    packet_samples as nat,
                )
                &&& final(self).playing() == (old(self).playing() || r.start)
            },
    {
        match &mut self.producer {
            None => Enqueued { accepted: 0, buffered: 0, start: false },
            Some(p) => {
                let accepted = p.push(samples);
                let buffered = p.buffered();
                let start = should_start(self.playing, buffered, packet_samples);
                if start {
                    self.playing = true;
                }
                Enqueued { accepted, buffered, start }
            },
        }
    }
}

/// Two frames whose headers agree on the high bit of the first byte, the
/// channel count and the channel map never rebuild the stream, whatever else
/// in the header (its other bits, the sample width) differs.
pub proof fn lemma_same_settings_keep_stream(d1: Seq<u8>, d2: Seq<u8>)
    requires
        is_frame(d1.len()),
        is_frame(d2.len()),
        d1[0] & 0x80u8 == d2[0] & 0x80u8,
        d1[2] == d2[2],
        d1[3] == d2[3],
        d1[4] == d2[4],
    ensures
        !needs_rebuild(Some(header_of(d1).settings), header_of(d2).settings),
{
    crate::frame::lemma_rate_ignores_low_bits(d1[0], d2[0]);
}

/// What a consumer handed out by [`Session::negotiate`] has taken out of the
/// ring agrees, sample for sample, with what the session has put in since.
pub proof fn lemma_consumer_follows_session(s: &Session, c: &SampleConsumer)
    requires
        s.wf(),
        s.current() is Some,
        c.in_step(),
        c.ring() == s.ring(),
    ensures
        common_prefix(c@, s.sent()),
{
    let p = s.producer.unwrap();
    assert(p.ring() == c.ring());
}

/// A stream that was just rebuilt does not start on its first packet: the
/// ring holds at most that packet's samples, short of four packets' worth.
pub proof fn lemma_no_start_on_first_packet(buffered: nat, packet_samples: nat)
    requires
        buffered <= packet_samples,
        packet_samples >= 1,
    ensures
        !start_due(false, buffered, packet_samples),
{
}

/// Any difference in rate, channel count or channel map between successive
/// frames rebuilds the stream.
pub proof fn lemma_change_rebuilds(prev: AudioSettings, next: AudioSettings)
    requires
        prev.sample_rate != next.sample_rate || prev.channels != next.channels
            || prev.channel_map != next.channel_map,
    ensures
        needs_rebuild(Some(prev), next),
{
}

} // verus!

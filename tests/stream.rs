use mcast_audio::frame::{decode_frame, parse_header, AudioSettings};
use mcast_audio::pcm::{pcm32_divisor, Pcm};
use mcast_audio::playback::render_block;
use mcast_audio::ring::sample_ring;
use mcast_audio::session::{should_start, Session, RING_CAPACITY};

const S1: AudioSettings = AudioSettings { sample_rate: 48000, channels: 2, channel_map: 3 };

#[test]
fn push_drops_trailing_overflow() {
    let (mut p, mut c) = sample_ring(4);
    assert_eq!(p.push(&[1, 2, 3]), 3);
    assert_eq!(p.push(&[4, 5, 6]), 1);
    assert_eq!(p.buffered(), 4);
    let mut out = [9u32; 4];
    assert_eq!(c.pop_fill(&mut out), 4);
    assert_eq!(out, [1, 2, 3, 4]);
}

#[test]
fn pop_pads_underrun_with_silence() {
    let (mut p, mut c) = sample_ring(8);
    p.push(&[7, 8]);
    let mut out = [5u32; 5];
    assert_eq!(c.pop_fill(&mut out), 2);
    assert_eq!(out, [7, 8, 0, 0, 0]);
    assert_eq!(c.pop_fill(&mut out), 0);
    assert_eq!(out, [0; 5]);
}

#[test]
fn render_block_reuses_staging() {
    let (mut p, mut c) = sample_ring(8);
    p.push(&[1, 2, 3]);
    let mut staging = vec![42u32; 2];
    assert_eq!(render_block(&mut c, &mut staging, 4), 3);
    assert_eq!(staging, vec![1, 2, 3, 0]);
    assert_eq!(render_block(&mut c, &mut staging, 2), 0);
    assert_eq!(staging, vec![0, 0]);
}

#[test]
fn first_frame_builds_stream() {
    let mut s = Session::new();
    assert_eq!(s.current_settings(), None);
    assert!(s.negotiate(S1).is_some());
    assert_eq!(s.current_settings(), Some(S1));
    assert!(!s.is_playing());
}

#[test]
fn equal_settings_keep_stream() {
    let mut s = Session::new();
    let a = parse_header(&[0x00, 16, 2, 0, 3, 0]).unwrap();
    let b = parse_header(&[0x7f, 32, 2, 0, 3, 0]).unwrap();
    assert!(s.negotiate(a.settings).is_some());
    assert!(s.negotiate(b.settings).is_none());
    assert!(s.negotiate(b.settings).is_none());
}

#[test]
fn changed_settings_rebuild_stream() {
    let mut s = Session::new();
    let mut c = s.negotiate(S1).unwrap();
    let r = s.enqueue(&[1, 2, 3, 4], 1);
    assert!(r.start);
    assert!(s.is_playing());
    for next in [
        AudioSettings { sample_rate: 44100, ..S1 },
        AudioSettings { channels: 1, ..S1 },
        AudioSettings { channel_map: 1, ..S1 },
    ] {
        let mut fresh = s.negotiate(next).expect("rebuild");
        assert!(!s.is_playing());
        let mut out = [7u32; 2];
        assert_eq!(fresh.pop_fill(&mut out), 0);
        assert_eq!(s.enqueue(&[1], 1).accepted, 1);
        s.enqueue(&[2, 3, 4], 1);
        assert!(s.is_playing());
        c = fresh;
    }
    let mut out = [0u32; 4];
    assert_eq!(c.pop_fill(&mut out), 4);
    assert_eq!(out, [1, 2, 3, 4]);
}

#[test]
fn start_waits_for_prebuffer() {
    let mut s = Session::new();
    let _c = s.negotiate(S1).unwrap();
    let r = s.enqueue(&[1, 2, 3], 2);
    assert_eq!(r, mcast_audio::session::Enqueued { accepted: 3, buffered: 3, start: false });
    let r = s.enqueue(&[4, 5, 6, 7, 8], 2);
    assert!(r.start);
    assert_eq!(r.buffered, 8);
    let r = s.enqueue(&[9, 10], 2);
    assert!(!r.start);
    assert!(s.is_playing());
}

#[test]
fn enqueue_without_stream_does_nothing() {
    let mut s = Session::new();
    let r = s.enqueue(&[1, 2], 0);
    assert_eq!(r.accepted, 0);
    assert!(!r.start);
    assert!(!s.is_playing());
}

#[test]
fn enqueue_drops_overflow() {
    let mut s = Session::new();
    let _c = s.negotiate(S1).unwrap();
    let big = vec![1u32; RING_CAPACITY + 10];
    assert_eq!(s.enqueue(&big, 1).accepted, RING_CAPACITY);
    assert_eq!(s.enqueue(&[1], 1).accepted, 0);
}

#[test]
fn start_gate_threshold() {
    assert!(should_start(false, 40, 10));
    assert!(!should_start(false, 39, 10));
    assert!(!should_start(true, 100, 10));
    assert!(should_start(false, 0, 0));
}

#[test]
fn rebuild_does_not_start_on_first_packet() {
    let mut s = Session::new();
    let _a = s.negotiate(S1).unwrap();
    assert!(s.enqueue(&[1, 2, 3, 4, 5, 6, 7, 8], 1).start);
    let _b = s.negotiate(AudioSettings { channels: 6, ..S1 }).unwrap();
    let r = s.enqueue(&[1, 2, 3], 3);
    assert!(!r.start);
    assert!(r.buffered <= 3);
    assert!(!s.is_playing());
}

#[test]
fn new_ring_never_yields_old_samples() {
    let mut s = Session::new();
    let _old = s.negotiate(S1).unwrap();
    s.enqueue(&[11, 12, 13], 100);
    let mut fresh = s.negotiate(AudioSettings { sample_rate: 44100, ..S1 }).unwrap();
    s.enqueue(&[21, 22], 100);
    let mut staging = Vec::new();
    assert_eq!(render_block(&mut fresh, &mut staging, 4), 2);
    assert_eq!(staging, vec![21, 22, 0, 0]);
}

#[test]
fn end_to_end_pcm32_block() {
    let d = [0x00, 0x20, 0x01, 0x00, 0x01, 0x00, 0x00, 0x00, 0x80, 0x00, 0x00, 0x00, 0x00];
    let f = decode_frame(&d).unwrap();
    let words: Vec<u32> = match &f.samples {
        Pcm::Pcm32(v) => v.iter().map(|&x| (x as f32 / pcm32_divisor(x) as f32).to_bits()).collect(),
        other => panic!("unexpected {:?}", other),
    };
    let mut s = Session::new();
    let mut c = s.negotiate(f.header.settings).unwrap();
    assert_eq!(s.enqueue(&words, f.samples.len()).accepted, 2);
    let mut staging = Vec::new();
    render_block(&mut c, &mut staging, 2);
    let out: Vec<f32> = staging.iter().map(|w| f32::from_bits(*w)).collect();
    assert_eq!(out, vec![-1.0, 0.0]);
}

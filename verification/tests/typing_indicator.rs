use lib::speech::{send_typing_packet, speech_request, SPEECH_HEADER_LEN, SPEECH_REQUEST_ID};
use lib::typing_indicator::{TypingIndicator, TYPING_COUNT_THRESHOLD, TYPING_DELAY_NANOS};
use std::time::Instant;

/// The text carried by a speech request, decoded from its UTF-16 units.
fn speech_text(p: &[u8]) -> String {
    let units: Vec<u16> = p[SPEECH_HEADER_LEN..p.len() - 2]
        .chunks(2)
        .map(|c| u16::from_be_bytes([c[0], c[1]]))
        .collect();
    String::from_utf16(&units).unwrap()
}

fn typing_packet() -> Vec<u8> {
    let mut p = vec![0xAD, 0x00, 0x1E, 0x00, 0x00, 0x00, 0x00, 0x03, b'E', b'N', b'U', 0x00];
    for b in "[typing]".bytes() {
        p.push(0);
        p.push(b);
    }
    p.push(0);
    p.push(0);
    p
}

/// A clock reading past the delay.
const LATE: Option<u128> = Some(TYPING_DELAY_NANOS + 1);
/// A clock reading within the delay.
const EARLY: Option<u128> = Some(TYPING_DELAY_NANOS);

#[test]
fn typing_packet_says_typing() {
    let p = send_typing_packet();
    assert_eq!(p, typing_packet());
    assert_eq!(p.len(), 30);
    assert_eq!(p[0], SPEECH_REQUEST_ID);
    assert_eq!((p[1] as usize) * 256 + p[2] as usize, p.len());
    assert_eq!(speech_text(&p), "[typing]");
}

#[test]
fn speech_request_frames_any_text() {
    let p = speech_request(b"hello");
    assert_eq!(p.len(), 12 + 10 + 2);
    assert_eq!((p[1] as usize) * 256 + p[2] as usize, p.len());
    assert_eq!(speech_text(&p), "hello");
    let empty = speech_request(b"");
    assert_eq!(empty.len(), 14);
    assert_eq!(&empty[12..], &[0, 0]);
}

#[test]
fn new_indicator_is_empty() {
    let ind = TypingIndicator::new();
    assert_eq!(ind.count(), 0);
    assert!(!ind.has_sent());
}

#[test]
fn first_announcement_on_twelfth_key() {
    let mut ind = TypingIndicator::new();
    for i in 0..11u32 {
        assert!(ind.on_key_up(None, Instant::now()).is_none());
        assert_eq!(ind.count(), i + 1);
    }
    assert_eq!(ind.count(), TYPING_COUNT_THRESHOLD + 1);
    let p = ind.on_key_up(None, Instant::now());
    assert_eq!(p, Some(typing_packet()));
    assert_eq!(ind.count(), 1);
    assert!(ind.has_sent());
}

#[test]
fn delay_is_strict() {
    let mut ind = TypingIndicator::new();
    for _ in 0..12 {
        ind.on_key_up(None, Instant::now());
    }
    assert!(ind.has_sent());
    for i in 0..30u32 {
        assert!(ind.on_key_up(EARLY, Instant::now()).is_none());
        assert_eq!(ind.count(), 2 + i);
    }
    assert!(ind.on_key_up(Some(0), Instant::now()).is_none());
    let p = ind.on_key_up(LATE, Instant::now());
    assert_eq!(p, Some(typing_packet()));
    assert_eq!(ind.count(), 1);
}

#[test]
fn threshold_count_is_not_enough() {
    let mut ind = TypingIndicator::new();
    for _ in 0..10 {
        ind.on_key_up(None, Instant::now());
    }
    assert_eq!(ind.count(), 10);
    assert!(ind.on_key_up(None, Instant::now()).is_none());
    assert_eq!(ind.count(), 11);
}

#[test]
fn reset_starts_over() {
    let mut ind = TypingIndicator::new();
    for _ in 0..15 {
        ind.on_key_up(None, Instant::now());
    }
    assert!(ind.has_sent());
    ind.reset();
    assert_eq!(ind.count(), 0);
    assert!(!ind.has_sent());
    for _ in 0..11 {
        assert!(ind.update().unwrap().is_none());
    }
    // however recent the announcement before the reset, the 12th release sends
    assert!(ind.update().unwrap().is_some());
}

#[test]
fn update_announces_on_twelfth_key_then_waits() {
    let mut ind = TypingIndicator::new();
    for _ in 0..11 {
        assert_eq!(ind.update(), Ok(None));
    }
    assert_eq!(ind.update(), Ok(Some(typing_packet())));
    assert_eq!(ind.count(), 1);
    // Well within the five-second delay: nothing more goes out.
    for i in 0..20u32 {
        assert_eq!(ind.update(), Ok(None));
        assert_eq!(ind.count(), 2 + i);
    }
}

#[test]
fn announcements_every_eleventh_key_when_always_late() {
    let mut ind = TypingIndicator::new();
    let mut sent_at = Vec::new();
    for k in 1..=100u32 {
        let elapsed = if ind.has_sent() { LATE } else { None };
        if ind.on_key_up(elapsed, Instant::now()).is_some() {
            sent_at.push(k);
        }
    }
    assert_eq!(sent_at, vec![12, 23, 34, 45, 56, 67, 78, 89, 100]);
    assert_eq!(ind.count(), 1);
    // spacing law: threshold * packets + final count <= start count + releases
    assert!(TYPING_COUNT_THRESHOLD * sent_at.len() as u32 + ind.count() <= 100);
}

#[test]
fn announcements_apart_in_simulated_time() {
    // releases every 300 ms for 60 s; announcements must be more than 5 s apart
    let mut ind = TypingIndicator::new();
    let mut last: Option<u128> = None;
    let mut sends: Vec<u128> = Vec::new();
    let mut t: u128 = 0;
    while t < 60_000_000_000 {
        let elapsed = last.map(|l| t - l);
        if ind.on_key_up(elapsed, Instant::now()).is_some() {
            sends.push(t);
            last = Some(t);
        }
        t += 300_000_000;
    }
    assert!(sends.len() >= 2);
    for w in sends.windows(2) {
        assert!(w[1] - w[0] > TYPING_DELAY_NANOS);
    }
    assert_eq!(sends[0], 11 * 300_000_000);
}

#[test]
fn quiet_below_threshold_whatever_the_clock() {
    let mut ind = TypingIndicator::new();
    for _ in 0..11u32 {
        assert!(ind.on_key_up(None, Instant::now()).is_none());
    }
    assert_eq!(ind.count(), 11);
    assert!(!ind.has_sent());
}

#[test]
fn reset_acts_as_new_over_a_run() {
    let mut a = TypingIndicator::new();
    for _ in 0..12 {
        a.on_key_up(None, Instant::now());
    }
    a.reset();
    let mut b = TypingIndicator::new();
    let readings = [None, None, None, None, None, None, None, None, None, None, None, None, None];
    for e in readings {
        let now = Instant::now();
        assert_eq!(a.on_key_up(e, now).is_some(), b.on_key_up(e, now).is_some());
        assert_eq!(a.count(), b.count());
        assert_eq!(a.has_sent(), b.has_sent());
    }
}

use lib::sdl3::{
    SDL_KeyboardEvent, SDL_EVENT_KEY_DOWN, SDL_EVENT_KEY_UP, SDL_EVENT_QUIT, SDL_SCANCODE_A,
    SDL_SCANCODE_KP_ENTER, SDL_SCANCODE_RETURN, SDL_SCANCODE_Z,
};
use lib::speech::send_typing_packet;
use lib::typing_indicator::TypingIndicator;
use lib::{handle_event, injection_route, key_effect, ArtInfo, InjectRoute, KeyEffect};

#[test]
fn every_key_release_is_typing() {
    assert_eq!(key_effect(SDL_EVENT_KEY_UP, SDL_SCANCODE_A), KeyEffect::Typed);
    assert_eq!(key_effect(SDL_EVENT_KEY_UP, 17), KeyEffect::Typed);
    assert_eq!(key_effect(SDL_EVENT_KEY_UP, SDL_SCANCODE_Z), KeyEffect::Typed);
    assert_eq!(key_effect(SDL_EVENT_KEY_UP, 3), KeyEffect::Typed);
    assert_eq!(key_effect(SDL_EVENT_KEY_UP, 30), KeyEffect::Typed);
}

#[test]
fn other_events_are_ignored() {
    assert_eq!(key_effect(SDL_EVENT_KEY_DOWN, SDL_SCANCODE_A), KeyEffect::Ignored);
    assert_eq!(key_effect(SDL_EVENT_QUIT, SDL_SCANCODE_RETURN), KeyEffect::Ignored);
    assert_eq!(key_effect(SDL_EVENT_KEY_DOWN, SDL_SCANCODE_KP_ENTER), KeyEffect::Ignored);
}

#[test]
fn enter_release_is_submit() {
    assert_eq!(key_effect(SDL_EVENT_KEY_UP, SDL_SCANCODE_RETURN), KeyEffect::Submitted);
    assert_eq!(key_effect(SDL_EVENT_KEY_UP, SDL_SCANCODE_KP_ENTER), KeyEffect::Submitted);
}

#[test]
fn handle_event_counts_every_release_and_resets_on_enter() {
    let mut ind = TypingIndicator::new();
    for _ in 0..5 {
        assert_eq!(handle_event(&mut ind, SDL_EVENT_KEY_UP, SDL_SCANCODE_A), Ok(None));
    }
    assert_eq!(ind.count(), 5);
    assert_eq!(handle_event(&mut ind, SDL_EVENT_KEY_DOWN, SDL_SCANCODE_A), Ok(None));
    assert_eq!(ind.count(), 5);
    assert_eq!(handle_event(&mut ind, SDL_EVENT_KEY_UP, 44), Ok(None));
    assert_eq!(ind.count(), 6);
    assert_eq!(handle_event(&mut ind, SDL_EVENT_KEY_UP, SDL_SCANCODE_RETURN), Ok(None));
    assert_eq!(ind.count(), 0);
    assert!(!ind.has_sent());
}

#[test]
fn handle_event_announces_after_eleven_releases() {
    let mut ind = TypingIndicator::new();
    for _ in 0..11 {
        assert_eq!(handle_event(&mut ind, SDL_EVENT_KEY_UP, 30), Ok(None));
    }
    let p = handle_event(&mut ind, SDL_EVENT_KEY_UP, SDL_SCANCODE_Z);
    assert_eq!(p, Ok(Some(send_typing_packet())));
    assert!(ind.has_sent());
    assert_eq!(handle_event(&mut ind, SDL_EVENT_KEY_UP, SDL_SCANCODE_KP_ENTER), Ok(None));
    assert!(!ind.has_sent());
    assert_eq!(ind.count(), 0);
}

#[test]
fn enter_as_twelfth_release_announces_then_resets() {
    let mut ind = TypingIndicator::new();
    for _ in 0..11 {
        assert_eq!(handle_event(&mut ind, SDL_EVENT_KEY_UP, SDL_SCANCODE_A), Ok(None));
    }
    let p = handle_event(&mut ind, SDL_EVENT_KEY_UP, SDL_SCANCODE_RETURN);
    assert_eq!(p, Ok(Some(send_typing_packet())));
    assert_eq!(ind.count(), 0);
    assert!(!ind.has_sent());
}

#[test]
fn injection_prefers_new_style() {
    assert_eq!(injection_route(true, true), InjectRoute::NewStyle);
    assert_eq!(injection_route(true, false), InjectRoute::NewStyle);
    assert_eq!(injection_route(false, true), InjectRoute::OldStyle);
    assert_eq!(injection_route(false, false), InjectRoute::Unavailable);
}

#[test]
fn event_records_carry_their_fields() {
    let k = SDL_KeyboardEvent {
        event_type: SDL_EVENT_KEY_UP,
        reserved: 0,
        timestamp: 7,
        window_id: 1,
        which: 0,
        scancode: SDL_SCANCODE_A,
        key: 97,
        mod_: 0,
        raw: 0,
        down: 0,
        repeat_: 0,
    };
    let copy = k;
    assert_eq!(key_effect(copy.event_type, copy.scancode), KeyEffect::Typed);
    let art = ArtInfo { address: 1, size: 2, compressed_size: 3 };
    assert_eq!(art.address + art.size + art.compressed_size, 6);
}

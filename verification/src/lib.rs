//! Core logic of a ClassicUO plugin for the Schattenwelt shard: the SDL3
//! event records the client hands to the plugin, the typing indicator that
//! announces to the server that the player is typing, and the choice of the
//! client's packet-injection entry point.

pub mod sdl3;
pub mod speech;
pub mod typing_indicator;

use crate::sdl3::{SDL_EVENT_KEY_UP, SDL_SCANCODE_KP_ENTER, SDL_SCANCODE_RETURN};
use crate::speech::typing_packet;
use crate::typing_indicator::{sent_outcome, timed_key_up, CountOverflow, TypingIndicator};
use vstd::prelude::*;

verus! {

/// Art information of a static tile, as the client reports it: three
/// 64-bit fields (address, size and compressed size).
pub struct ArtInfo {
    pub address: i64,
    pub size: i64,
    pub compressed_size: i64,
}

/// What a window event means to the typing indicator.
#[derive(Clone, Copy, Debug, PartialEq, Eq, Structural)]
pub enum KeyEffect {
    /// A key other than Enter came up: the player typed.
    Typed,
    /// An Enter key (main or keypad) came up: the player typed and sent
    /// the line.
    Submitted,
    /// Not a key release.
    Ignored,
}

/// The meaning of an event of type `event_type`; `scancode` is read only
/// when the event is a key release.
pub open spec fn key_effect_spec(event_type: u32, scancode: u32) -> KeyEffect {
    if event_type != SDL_EVENT_KEY_UP {
        KeyEffect::Ignored
    } else if scancode == SDL_SCANCODE_RETURN || scancode == SDL_SCANCODE_KP_ENTER {
        KeyEffect::Submitted
    } else {
        KeyEffect::Typed
    }
}

/// Only key releases matter to the typing indicator: every event that is
/// not a key release (a key press, text input, a mouse event, ...) is
/// ignored, whatever its scancode field holds.
pub proof fn lemma_only_key_releases_count(event_type: u32, scancode: u32)
    requires
        event_type != SDL_EVENT_KEY_UP,
    ensures
        key_effect_spec(event_type, scancode) == KeyEffect::Ignored,
{
}

/// Every key release counts: the release of either Enter key submits the
/// line, and the release of any other key is typing.
pub proof fn lemma_key_releases_classified(scancode: u32)
    ensures
        scancode == SDL_SCANCODE_RETURN || scancode == SDL_SCANCODE_KP_ENTER ==> key_effect_spec(
            SDL_EVENT_KEY_UP,
            scancode,
        ) == KeyEffect::Submitted,
        scancode != SDL_SCANCODE_RETURN && scancode != SDL_SCANCODE_KP_ENTER ==> key_effect_spec(
            SDL_EVENT_KEY_UP,
            scancode,
        ) == KeyEffect::Typed,
{
}

/// Classifies a window event for the typing indicator.
pub fn key_effect(event_type: u32, scancode: u32) -> (effect: KeyEffect)
    ensures
        effect == key_effect_spec(event_type, scancode),
        event_type != SDL_EVENT_KEY_UP ==> effect == KeyEffect::Ignored,
        event_type == SDL_EVENT_KEY_UP && (scancode == SDL_SCANCODE_RETURN || scancode
            == SDL_SCANCODE_KP_ENTER) ==> effect == KeyEffect::Submitted,
        event_type == SDL_EVENT_KEY_UP && scancode != SDL_SCANCODE_RETURN && scancode
            != SDL_SCANCODE_KP_ENTER ==> effect == KeyEffect::Typed,
{
    if event_type != SDL_EVENT_KEY_UP {
        KeyEffect::Ignored
    } else if scancode == SDL_SCANCODE_RETURN || scancode == SDL_SCANCODE_KP_ENTER {
        KeyEffect::Submitted
    } else {
        KeyEffect::Typed
    }
}

/// Feeds a window event to the typing indicator, before the client handles
/// it. Every key release is one `update` step (and may yield the
/// announcement packet, to be injected toward the server); an Enter release
/// then starts over with `reset`. Anything else leaves the indicator alone.
/// The event itself always goes on to the client. Fails, changing nothing,
/// when the count would overflow.
pub fn handle_event(indicator: &mut TypingIndicator, event_type: u32, scancode: u32) -> (r: Result<
    Option<Vec<u8>>,
    CountOverflow,
>)
    ensures
        r matches Ok(Some(p)) ==> p@ == typing_packet(),
        match key_effect_spec(event_type, scancode) {
            KeyEffect::Typed => exists|elapsed: Option<u128>, now: std::time::Instant|
                #[trigger] timed_key_up(
                    *old(indicator),
                    *final(indicator),
                    sent_outcome(r),
                    elapsed,
                    now,
                ),
            KeyEffect::Submitted => {
                &&& exists|mid: TypingIndicator, elapsed: Option<u128>, now: std::time::Instant|
                    #[trigger] timed_key_up(*old(indicator), mid, sent_outcome(r), elapsed, now)
                &&& r is Ok ==> final(indicator)@ == (false, 0nat) && final(indicator).sent_at() is None
                &&& r is Err ==> *final(indicator) == *old(indicator)
            },
            KeyEffect::Ignored => *final(indicator) == *old(indicator) && r matches Ok(None),
        },
        event_type != SDL_EVENT_KEY_UP ==> *final(indicator) == *old(indicator) && r matches Ok(None),
{
    match key_effect(event_type, scancode) {
        KeyEffect::Typed => indicator.update(),
        KeyEffect::Submitted => {
            let r = indicator.update();
            if r.is_ok() {
                indicator.reset();
            }
            r
        },
        KeyEffect::Ignored => Ok(None),
    }
}

/// Which of the client's entry points carries an injected packet.
#[derive(Clone, Copy, Debug, PartialEq, Eq, Structural)]
pub enum InjectRoute {
    /// The entry point that takes the packet's address.
    NewStyle,
    /// The older entry point that takes the address of a pointer to it.
    OldStyle,
    /// The client offers neither: the packet is not injected.
    Unavailable,
}

/// Chooses the entry point for injecting a packet: the newer one when the
/// client provides it, else the older one, else none.
pub fn injection_route(has_new_style: bool, has_old_style: bool) -> (route: InjectRoute)
    ensures
        route == (if has_new_style {
            InjectRoute::NewStyle
        } else if has_old_style {
            InjectRoute::OldStyle
        } else {
            InjectRoute::Unavailable
        }),
{
    if has_new_style {
        InjectRoute::NewStyle
    } else if has_old_style {
        InjectRoute::OldStyle
    } else {
        InjectRoute::Unavailable
    }
}

} // verus!

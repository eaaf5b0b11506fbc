# Typing indicator plugin core

Verified core of a ClassicUO plugin for the Schattenwelt shard.

- `src/typing_indicator.rs`: the typing indicator state machine, its model
  (`key_up_due`, `key_up_next`, `run_key_ups`, `timed_sends`) and the laws
  proved over them.
- `src/speech.rs`: the Unicode speech request (packet 0xAD) and the typing
  announcement, the request saying `[typing]`.
- `src/lib.rs`: classification of SDL events (`key_effect`), the event
  handler that drives the indicator (`handle_event`), the choice of the
  host's injection entry point (`injection_route`), and `ArtInfo`.
- `src/sdl3.rs`: the integer-only SDL3 event records and constants.
- `app/lib.rs`: the host binding (C layouts, function pointers, `Install`,
  callbacks), which performs the foreign calls the library decides on.

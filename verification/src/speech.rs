//! The Unicode speech request (packet 0xAD, client to server), which carries
//! a line the player says. The typing announcement is such a request whose
//! text is `[typing]`; the server recognises that text, drops the speech
//! and plays a typing effect instead.
//!
//! Layout, all numbers big-endian:
//! id (1 byte), packet length (2), speech type (1), hue (2), font (2),
//! language code (4, ASCII with a trailing zero), then the text as UTF-16
//! code units (2 bytes each) and a terminating zero unit (2 bytes).

use vstd::prelude::*;

verus! {

/// Packet id of the Unicode speech request.
pub const SPEECH_REQUEST_ID: u8 = 0xAD;

/// Bytes before the text: id, length, type, hue, font, language.
pub const SPEECH_HEADER_LEN: usize = 12;

/// Speech type of an ordinary spoken line.
pub const SPEECH_TYPE_REGULAR: u8 = 0x00;

/// Hue the line is requested in.
pub const SPEECH_HUE: u16 = 0x0000;

/// Font the line is requested in (the normal font).
pub const SPEECH_FONT: u16 = 0x0003;

/// Longest text a request can carry: the packet length must fit in 16 bits.
pub const SPEECH_MAX_TEXT_LEN: usize = 32760;

/// A number below 65536 as two big-endian bytes.
pub open spec fn be16(n: nat) -> Seq<u8> {
    seq![(n / 256) as u8, (n % 256) as u8]
}

/// The language code, "ENU" and a zero byte.
pub open spec fn speech_language() -> Seq<u8> {
    seq![0x45u8, 0x4Eu8, 0x55u8, 0x00u8]
}

/// Text given as Latin-1 bytes (each byte is its own code point), as UTF-16
/// big-endian code units: a zero byte before each byte.
pub open spec fn utf16_be_latin1(text: Seq<u8>) -> Seq<u8> {
    Seq::new(2 * text.len(), |i: int| if i % 2 == 0 { 0u8 } else { text[i / 2] })
}

/// Length of the speech request that carries `n` text bytes.
pub open spec fn speech_packet_len(n: nat) -> nat {
    SPEECH_HEADER_LEN as nat + 2 * n + 2
}

/// The speech request carrying `text` (Latin-1 bytes).
pub open spec fn speech_packet(text: Seq<u8>) -> Seq<u8> {
    seq![SPEECH_REQUEST_ID] + be16(speech_packet_len(text.len())) + seq![SPEECH_TYPE_REGULAR]
        + be16(SPEECH_HUE as nat) + be16(SPEECH_FONT as nat) + speech_language()
        + utf16_be_latin1(text) + seq![0u8, 0u8]
}

/// The text of the typing announcement: `[typing]`.
pub open spec fn typing_text() -> Seq<u8> {
    seq![0x5Bu8, 0x74u8, 0x79u8, 0x70u8, 0x69u8, 0x6Eu8, 0x67u8, 0x5Du8]
}

/// The typing announcement: the speech request whose text is `[typing]`.
pub open spec fn typing_packet() -> Seq<u8> {
    speech_packet(typing_text())
}

/// A speech request is well framed: it starts with its id, its length field
/// holds its own length, and after the header come the text's code units,
/// each a zero byte and the text byte, then the zero terminator.
#[verifier::rlimit(60)]
pub proof fn lemma_speech_packet_layout(text: Seq<u8>)
    requires
        text.len() <= SPEECH_MAX_TEXT_LEN,
    ensures
        speech_packet(text).len() == speech_packet_len(text.len()),
        speech_packet(text)[0] == SPEECH_REQUEST_ID,
        speech_packet(text)[1] * 256 + speech_packet(text)[2] == speech_packet(text).len(),
        forall|i: int|
            0 <= i < text.len() ==> speech_packet(text)[SPEECH_HEADER_LEN + 2 * i] == 0
                && speech_packet(text)[SPEECH_HEADER_LEN + 2 * i + 1] == text[i],
        speech_packet(text)[speech_packet(text).len() - 2] == 0,
        speech_packet(text)[speech_packet(text).len() - 1] == 0,
{
    let n = speech_packet_len(text.len());
    let header = seq![SPEECH_REQUEST_ID] + be16(n) + seq![SPEECH_TYPE_REGULAR] + be16(
        SPEECH_HUE as nat,
    ) + be16(SPEECH_FONT as nat) + speech_language();
    let units = utf16_be_latin1(text);
    let p = speech_packet(text);
    assert(header.len() == SPEECH_HEADER_LEN);
    assert(p == header + units + seq![0u8, 0u8]);
    assert(p.len() == n);
    assert(n < 65536);
    assert((n / 256) * 256 + n % 256 == n && n / 256 < 256) by (nonlinear_arith)
        requires
            n < 65536,
    ;
    assert(p[1] == header[1] && p[2] == header[2]);
    assert(header[1] == (n / 256) as u8 && header[2] == (n % 256) as u8);
    assert forall|i: int| 0 <= i < text.len() implies p[SPEECH_HEADER_LEN + 2 * i] == 0
        && p[SPEECH_HEADER_LEN + 2 * i + 1] == text[i] by {
        lemma_unit_bytes(text, i);
        assert(p[SPEECH_HEADER_LEN + 2 * i] == units[2 * i]);
        assert(p[SPEECH_HEADER_LEN + 2 * i + 1] == units[2 * i + 1]);
    }
}

/// Code unit `i` of the encoded text is a zero byte, then text byte `i`.
proof fn lemma_unit_bytes(text: Seq<u8>, i: int)
    requires
        0 <= i < text.len(),
    ensures
        utf16_be_latin1(text)[2 * i] == 0,
        utf16_be_latin1(text)[2 * i + 1] == text[i],
{
    assert((2 * i) % 2 == 0 && (2 * i) / 2 == i) by (nonlinear_arith);
    assert((2 * i + 1) % 2 == 1 && (2 * i + 1) / 2 == i) by (nonlinear_arith);
}

/// The typing announcement carries exactly the text `[typing]`, and is 30
/// bytes long.
pub proof fn lemma_typing_packet_says_typing()
    ensures
        typing_packet().len() == 30,
        forall|i: int|
            0 <= i < 8 ==> typing_packet()[SPEECH_HEADER_LEN + 2 * i] == 0 && typing_packet()[
                SPEECH_HEADER_LEN + 2 * i + 1] == typing_text()[i],
{
    lemma_speech_packet_layout(typing_text());
}

/// Builds the speech request carrying `text` (Latin-1 bytes).
pub fn speech_request(text: &[u8]) -> (packet: Vec<u8>)
    requires
        text@.len() <= SPEECH_MAX_TEXT_LEN,
    ensures
        packet@ == speech_packet(text@),
{
    let n = text.len();
    let total: usize = SPEECH_HEADER_LEN + 2 * n + 2;
    let mut packet: Vec<u8> = Vec::new();
    packet.push(SPEECH_REQUEST_ID);
    packet.push((total / 256) as u8);
    packet.push((total % 256) as u8);
    packet.push(SPEECH_TYPE_REGULAR);
    packet.push((SPEECH_HUE / 256) as u8);
    packet.push((SPEECH_HUE % 256) as u8);
    packet.push((SPEECH_FONT / 256) as u8);
    packet.push((SPEECH_FONT % 256) as u8);
    packet.push(0x45);
    packet.push(0x4E);
    packet.push(0x55);
    packet.push(0x00);
    let ghost header = seq![SPEECH_REQUEST_ID] + be16(total as nat) + seq![SPEECH_TYPE_REGULAR]
        + be16(SPEECH_HUE as nat) + be16(SPEECH_FONT as nat) + speech_language();
    assert(packet@ =~= header);
    let mut i: usize = 0;
    while i < n
        invariant
            n == text@.len(),
            i <= n,
            packet@ =~= header + utf16_be_latin1(text@.take(i as int)),
        decreases n - i,
    {
        let ghost before = packet@;
        packet.push(0);
        packet.push(text[i]);
        assert(utf16_be_latin1(text@.take(i + 1)) =~= utf16_be_latin1(text@.take(i as int))
            + seq![0u8, text@[i as int]]);
        i = i + 1;
    }
    assert(text@.take(n as int) =~= text@);
    packet.push(0);
    packet.push(0);
    assert(packet@ =~= speech_packet(text@));
    packet
}

/// Builds the typing announcement: the speech request saying `[typing]`.
/// The caller hands it to the client's injection entry point toward the
/// server.
pub fn send_typing_packet() -> (packet: Vec<u8>)
    ensures
        packet@ == typing_packet(),
{
    let mut text: Vec<u8> = Vec::new();
    text.push(0x5B);
    text.push(0x74);
    text.push(0x79);
    text.push(0x70);
    text.push(0x69);
    text.push(0x6E);
    text.push(0x67);
    text.push(0x5D);
    assert(text@ =~= typing_text());
    speech_request(text.as_slice())
}

} // verus!

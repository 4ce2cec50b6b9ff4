//! Pkt-line framing: a four-digit lowercase hex length that counts itself,
//! then the payload; a flush packet is the literal `0000`.

use vstd::prelude::*;
use vstd::string::StringSliceAdditionalSpecFns;

verus! {

/// Largest payload a single text frame may carry.
pub const MAX_PKT_PAYLOAD: usize = 65519;

/// The lowercase hex digit for a value below 16.
pub open spec fn hex_digit(d: nat) -> u8 {
    if d < 10 {
        (48 + d) as u8
    } else {
        (87 + d) as u8
    }
}

/// The four lowercase hex digits of `n`, most significant first.
pub open spec fn hex4(n: nat) -> Seq<u8> {
    seq![
        hex_digit((n / 4096) % 16),
        hex_digit((n / 256) % 16),
        hex_digit((n / 16) % 16),
        hex_digit(n % 16),
    ]
}

/// The flush packet `0000`.
pub open spec fn flush_pkt() -> Seq<u8> {
    seq![48u8, 48u8, 48u8, 48u8]
}

/// A text frame: the header `hex4(len + 4)` followed by the payload.
pub open spec fn text_frame(payload: Seq<u8>) -> Seq<u8> {
    hex4(payload.len() + 4) + payload
}

fn hex_digit_exec(d: usize) -> (r: u8)
    requires
        d < 16,
    ensures
        r == hex_digit(d as nat),
{
    if d < 10 {
        (48 + d) as u8
    } else {
        (87 + d) as u8
    }
}

/// Encodes `payload` as one text frame; the caller appends the flush packet.
/// Returns `None` when the payload is longer than `MAX_PKT_PAYLOAD` bytes.
pub fn encode_text_frame(payload: &str) -> (r: Option<Vec<u8>>)
    ensures
        payload.spec_bytes().len() <= MAX_PKT_PAYLOAD ==> (r matches Some(v) && v@ == text_frame(
            payload.spec_bytes(),
        )),
        payload.spec_bytes().len() > MAX_PKT_PAYLOAD ==> r is None,
{
    let bytes = payload.as_bytes();
    let len = bytes.len();
    if len > MAX_PKT_PAYLOAD {
        return None;
    }
    let n = len + 4;
    let mut out: Vec<u8> = Vec::new();
    out.push(hex_digit_exec((n / 4096) % 16));
    out.push(hex_digit_exec((n / 256) % 16));
    out.push(hex_digit_exec((n / 16) % 16));
    out.push(hex_digit_exec(n % 16));
    assert(out@ =~= hex4(n as nat));
    let mut i: usize = 0;
    while i < len
        invariant
            len == bytes@.len(),
            bytes@ == payload.spec_bytes(),
            i <= len,
            out@ =~= hex4(n as nat) + bytes@.subrange(0, i as int),
        decreases len - i,
    {
        out.push(bytes[i]);
        i = i + 1;
    }
    assert(bytes@.subrange(0, len as int) =~= bytes@);
    Some(out)
}

/// One decoded pkt-line: a data frame with its payload, or a flush packet.
pub enum Packet {
    Data(Seq<u8>),
    Flush,
}

/// The value of a lowercase hex digit, if `b` is one.
pub open spec fn hex_value(b: u8) -> Option<nat> {
    if 48 <= b <= 57 {
        Some((b - 48) as nat)
    } else if 97 <= b <= 102 {
        Some((b - 87) as nat)
    } else {
        None
    }
}

/// The length field held by the first four bytes of `s`.
pub open spec fn header_value(s: Seq<u8>) -> Option<nat>
    recommends
        s.len() >= 4,
{
    match (hex_value(s[0]), hex_value(s[1]), hex_value(s[2]), hex_value(s[3])) {
        (Some(a), Some(b), Some(c), Some(d)) => Some(a * 4096 + b * 256 + c * 16 + d),
        _ => None,
    }
}

/// A conformant reading of `s` as a sequence of pkt-lines: `0000` is a flush
/// packet, a length below four is malformed, any other length counts its own
/// four bytes and must not run past the end of the input.
pub open spec fn decode_pkt_lines(s: Seq<u8>) -> Option<Seq<Packet>>
    decreases s.len(),
{
    if s.len() == 0 {
        Some(Seq::empty())
    } else if s.len() < 4 {
        None
    } else {
        match header_value(s) {
            None => None,
            Some(n) => {
                if n == 0 {
                    match decode_pkt_lines(s.subrange(4, s.len() as int)) {
                        Some(rest) => Some(seq![Packet::Flush] + rest),
                        None => None,
                    }
                } else if n < 4 || n > s.len() {
                    None
                } else {
                    match decode_pkt_lines(s.subrange(n as int, s.len() as int)) {
                        Some(rest) => Some(seq![Packet::Data(s.subrange(4, n as int))] + rest),
                        None => None,
                    }
                }
            },
        }
    }
}

proof fn lemma_hex_digit_value(d: nat)
    requires
        d < 16,
    ensures
        hex_value(hex_digit(d)) == Some(d),
{
}

proof fn lemma_hex4_value(n: nat)
    requires
        n < 65536,
    ensures
        hex4(n).len() == 4,
        header_value(hex4(n)) == Some(n),
{
    let a = (n / 4096) % 16;
    let b = (n / 256) % 16;
    let c = (n / 16) % 16;
    let d = n % 16;
    lemma_hex_digit_value(a);
    lemma_hex_digit_value(b);
    lemma_hex_digit_value(c);
    lemma_hex_digit_value(d);
    assert(a * 4096 + b * 256 + c * 16 + d == n) by (nonlinear_arith)
        requires
            n < 65536,
            a == (n / 4096) % 16,
            b == (n / 256) % 16,
            c == (n / 16) % 16,
            d == n % 16,
    ;
}

/// A text frame followed by a flush packet reads back as exactly one data
/// packet holding the payload, then one flush packet; its header is the
/// four-digit hex of the payload length plus four.
pub proof fn lemma_text_frame_round_trip(payload: Seq<u8>)
    requires
        payload.len() <= MAX_PKT_PAYLOAD,
    ensures
        text_frame(payload).subrange(0, 4) == hex4(payload.len() + 4),
        text_frame(payload).subrange(4, text_frame(payload).len() as int) == payload,
        decode_pkt_lines(text_frame(payload) + flush_pkt()) == Some(
            seq![Packet::Data(payload), Packet::Flush],
        ),
{
    let n = payload.len() + 4;
    let s = text_frame(payload) + flush_pkt();
    lemma_hex4_value(n);
    assert(text_frame(payload).subrange(0, 4) =~= hex4(n));
    assert(text_frame(payload).subrange(4, text_frame(payload).len() as int) =~= payload);
    assert(s.subrange(0, 4) =~= hex4(n));
    assert(header_value(s) == header_value(hex4(n)));
    assert(s.subrange(4, n as int) =~= payload);
    let rest = s.subrange(n as int, s.len() as int);
    assert(rest =~= flush_pkt());
    assert(header_value(rest) == Some(0nat));
    assert(rest.subrange(4, 4) =~= Seq::<u8>::empty());
    assert(decode_pkt_lines(rest.subrange(4, 4)) == Some(Seq::<Packet>::empty()));
    assert(decode_pkt_lines(rest) == Some(seq![Packet::Flush] + Seq::<Packet>::empty()));
    assert(seq![Packet::Flush] + Seq::<Packet>::empty() =~= seq![Packet::Flush]);
    assert(seq![Packet::Data(payload)] + seq![Packet::Flush] =~= seq![
        Packet::Data(payload),
        Packet::Flush,
    ]);
}

} // verus!

//! The pkt-line wire codec: a line is its payload preceded by a 4-digit
//! hexadecimal length field that counts itself, and the flush marker is the
//! literal `0000`.  A payload line carries 0 to 65516 bytes, so the declared
//! length of a payload line lies between 4 and 65520.

use vstd::prelude::*;

verus! {

/// One decoded pkt-line: the flush marker, or a payload line.
#[derive(Debug, PartialEq, Eq)]
pub enum Pkt {
    /// The terminator `0000`.
    Flush,
    /// A payload line; the payload excludes the 4 length digits.
    Line(Vec<u8>),
}

/// The lower-case hexadecimal digit for a value below 16.
pub open spec fn hex_digit(n: int) -> u8
    recommends
        0 <= n < 16,
{
    if n < 10 {
        (48 + n) as u8
    } else {
        (87 + n) as u8
    }
}

/// The 4 hexadecimal digits of a length below 65536, most significant first.
pub open spec fn hex4(n: int) -> Seq<u8> {
    seq![
        hex_digit(n / 4096 % 16),
        hex_digit(n / 256 % 16),
        hex_digit(n / 16 % 16),
        hex_digit(n % 16),
    ]
}

/// The encoding of one payload line: length field, then the payload.
pub open spec fn spec_encode_line(p: Seq<u8>) -> Seq<u8> {
    hex4(p.len() as int + 4) + p
}

/// The flush marker: the four ASCII digits `0000`.
pub open spec fn spec_flush() -> Seq<u8> {
    seq![48u8, 48u8, 48u8, 48u8]
}

/// Whether a byte is an ASCII hexadecimal digit, either case.
pub open spec fn is_hex_digit(c: u8) -> bool {
    (48 <= c && c <= 57) || (97 <= c && c <= 102) || (65 <= c && c <= 70)
}

/// The value of an ASCII hexadecimal digit; 0 on other bytes.
pub open spec fn hex_val(c: u8) -> int {
    if 48 <= c && c <= 57 {
        c - 48
    } else if 97 <= c && c <= 102 {
        c - 87
    } else if 65 <= c && c <= 70 {
        c - 55
    } else {
        0
    }
}

/// Whether the first four bytes exist and are hexadecimal digits.
pub open spec fn len_field_ok(b: Seq<u8>) -> bool {
    b.len() >= 4 && is_hex_digit(b[0]) && is_hex_digit(b[1]) && is_hex_digit(b[2]) && is_hex_digit(
        b[3],
    )
}

/// The length a pkt-line declares in its first four bytes.
pub open spec fn declared_len(b: Seq<u8>) -> int {
    hex_val(b[0]) * 4096 + hex_val(b[1]) * 256 + hex_val(b[2]) * 16 + hex_val(b[3])
}

/// A well-formed flush marker: exactly four hexadecimal digits of value 0.
pub open spec fn valid_flush_pkt(b: Seq<u8>) -> bool {
    b.len() == 4 && len_field_ok(b) && declared_len(b) == 0
}

/// A well-formed payload line: the declared length counts the length field
/// itself, matches the line exactly, and stays within the wire maximum.
pub open spec fn valid_payload_pkt(b: Seq<u8>) -> bool {
    &&& len_field_ok(b)
    &&& 4 <= declared_len(b) <= 65520
    &&& b.len() == declared_len(b)
}

/// The payload of a well-formed payload line.
pub open spec fn pkt_payload(b: Seq<u8>) -> Seq<u8> {
    b.subrange(4, b.len() as int)
}

fn hex_digit_byte(d: u8) -> (r: u8)
    requires
        d < 16,
    ensures
        r == hex_digit(d as int),
{
    if d < 10 {
        48 + d
    } else {
        87 + d
    }
}

fn hex_digit_value(c: u8) -> (r: Option<u8>)
    ensures
        match r {
            Some(v) => is_hex_digit(c) && v == hex_val(c),
            None => !is_hex_digit(c),
        },
{
    if 48 <= c && c <= 57 {
        Some(c - 48)
    } else if 97 <= c && c <= 102 {
        Some(c - 87)
    } else if 65 <= c && c <= 70 {
        Some(c - 55)
    } else {
        None
    }
}

/// Encode one payload line.  The caller guarantees that the payload fits in
/// a single pkt-line; longer payloads are a caller error.
pub fn encode_line(payload: &Vec<u8>) -> (r: Vec<u8>)
    requires
        payload@.len() <= 65516,
    ensures
        r@ == spec_encode_line(payload@),
        r@.len() == payload@.len() + 4,
{
    let n: usize = payload.len() + 4;
    let mut r: Vec<u8> = Vec::new();
    r.push(hex_digit_byte((n / 4096 % 16) as u8));
    r.push(hex_digit_byte((n / 256 % 16) as u8));
    r.push(hex_digit_byte((n / 16 % 16) as u8));
    r.push(hex_digit_byte((n % 16) as u8));
    assert(r@ =~= hex4(n as int));
    let mut i: usize = 0;
    while i < payload.len()
        invariant
            i <= payload@.len(),
            r@ == hex4(payload@.len() as int + 4) + payload@.subrange(0, i as int),
        decreases payload@.len() - i,
    {
        r.push(payload[i]);
        assert(r@ =~= hex4(payload@.len() as int + 4) + payload@.subrange(0, i + 1));
        i = i + 1;
    }
    assert(r@ =~= spec_encode_line(payload@));
    r
}

/// Encode the flush marker, the literal four bytes `0000`.
pub fn encode_flush() -> (r: Vec<u8>)
    ensures
        r@ == spec_flush(),
        r@.len() == 4,
{
    let mut r: Vec<u8> = Vec::new();
    r.push(48);
    r.push(48);
    r.push(48);
    r.push(48);
    assert(r@ =~= spec_flush());
    r
}

/// Decode one complete pkt-line held in a buffer: the flush marker, a
/// payload line, or `None` when the buffer is not exactly one well-formed
/// pkt-line.
pub fn decode(bytes: &Vec<u8>) -> (r: Option<Pkt>)
    ensures
        match r {
            Some(Pkt::Flush) => valid_flush_pkt(bytes@),
            Some(Pkt::Line(p)) => valid_payload_pkt(bytes@) && p@ == pkt_payload(bytes@),
            None => !valid_flush_pkt(bytes@) && !valid_payload_pkt(bytes@),
        },
{
    if bytes.len() < 4 {
        return None;
    }
    let d0 = match hex_digit_value(bytes[0]) {
        Some(v) => v,
        None => { return None; },
    };
    let d1 = match hex_digit_value(bytes[1]) {
        Some(v) => v,
        None => { return None; },
    };
    let d2 = match hex_digit_value(bytes[2]) {
        Some(v) => v,
        None => { return None; },
    };
    let d3 = match hex_digit_value(bytes[3]) {
        Some(v) => v,
        None => { return None; },
    };
    let n: usize = (d0 as usize) * 4096 + (d1 as usize) * 256 + (d2 as usize) * 16 + (d3 as usize);
    assert(n == declared_len(bytes@));
    if n == 0 {
        if bytes.len() == 4 {
            return Some(Pkt::Flush);
        } else {
            return None;
        }
    }
    if n < 4 || n > 65520 || bytes.len() != n {
        return None;
    }
    let mut p: Vec<u8> = Vec::new();
    let mut i: usize = 4;
    while i < bytes.len()
        invariant
            4 <= i <= bytes@.len(),
            p@ == bytes@.subrange(4, i as int),
        decreases bytes@.len() - i,
    {
        p.push(bytes[i]);
        assert(p@ =~= bytes@.subrange(4, i + 1));
        i = i + 1;
    }
    assert(p@ =~= pkt_payload(bytes@));
    Some(Pkt::Line(p))
}

proof fn lemma_hex_digit_inverts(d: int)
    requires
        0 <= d < 16,
    ensures
        is_hex_digit(hex_digit(d)),
        hex_val(hex_digit(d)) == d,
{
}

proof fn lemma_hex4_reconstructs(n: int)
    requires
        0 <= n < 65536,
    ensures
        ({
            let h = hex4(n);
            &&& h.len() == 4
            &&& is_hex_digit(h[0]) && is_hex_digit(h[1]) && is_hex_digit(h[2]) && is_hex_digit(
                h[3],
            )
            &&& hex_val(h[0]) * 4096 + hex_val(h[1]) * 256 + hex_val(h[2]) * 16 + hex_val(h[3])
                == n
        }),
{
    lemma_hex_digit_inverts(n / 4096 % 16);
    lemma_hex_digit_inverts(n / 256 % 16);
    lemma_hex_digit_inverts(n / 16 % 16);
    lemma_hex_digit_inverts(n % 16);
    assert(n / 4096 % 16 * 4096 + n / 256 % 16 * 256 + n / 16 % 16 * 16 + n % 16 == n) by (nonlinear_arith)
        requires
            0 <= n < 65536,
    ;
}

/// Round trip of the codec: every payload of at most 65516 bytes encodes to
/// a well-formed payload line whose length field is 4 hexadecimal digits
/// counting themselves, and decoding gives the payload back unchanged.
pub proof fn lemma_pktline_roundtrip(p: Seq<u8>)
    requires
        p.len() <= 65516,
    ensures
        valid_payload_pkt(spec_encode_line(p)),
        pkt_payload(spec_encode_line(p)) == p,
        spec_encode_line(p).len() == p.len() + 4,
{
    let e = spec_encode_line(p);
    lemma_hex4_reconstructs(p.len() as int + 4);
    assert(e[0] == hex4(p.len() as int + 4)[0]);
    assert(e[1] == hex4(p.len() as int + 4)[1]);
    assert(e[2] == hex4(p.len() as int + 4)[2]);
    assert(e[3] == hex4(p.len() as int + 4)[3]);
    assert(declared_len(e) == p.len() as int + 4);
    assert(pkt_payload(e) =~= p);
}

} // verus!

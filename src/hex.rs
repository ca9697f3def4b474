//! Hexadecimal text: lowercase encoding of bytes, and decoding of either case
//! with an optional `0x` prefix.
use vstd::prelude::*;

verus! {

/// The lowercase hexadecimal digit for a value below 16.
pub open spec fn hex_digit(n: u8) -> char {
    if n < 10 {
        (n + 48) as char
    } else {
        (n + 87) as char
    }
}

/// The value of a hexadecimal digit of either case, or `None` for any other character.
pub open spec fn hex_value(c: char) -> Option<u8> {
    if '0' <= c && c <= '9' {
        Some((c as u32 - 48) as u8)
    } else if 'a' <= c && c <= 'f' {
        Some((c as u32 - 87) as u8)
    } else if 'A' <= c && c <= 'F' {
        Some((c as u32 - 55) as u8)
    } else {
        None
    }
}

/// Two lowercase digits per byte, high nibble first, no prefix.
pub open spec fn hex_of(b: Seq<u8>) -> Seq<char> {
    Seq::new(
        2 * b.len(),
        |i: int|
            if i % 2 == 0 {
                hex_digit(b[i / 2] / 16)
            } else {
                hex_digit(b[i / 2] % 16)
            },
    )
}

/// Every character is a digit and the digits pair up.
pub open spec fn is_hex_text(s: Seq<char>) -> bool {
    &&& s.len() % 2 == 0
    &&& forall|i: int| 0 <= i < s.len() ==> (#[trigger] hex_value(s[i])) is Some
}

/// The byte written by the digit pair starting at position `2 * i`.
pub open spec fn pair_value(s: Seq<char>, i: int) -> u8 {
    (hex_value(s[2 * i])->0 * 16 + hex_value(s[2 * i + 1])->0) as u8
}

/// The bytes that a hexadecimal text without prefix spells.
pub open spec fn decode_hex(s: Seq<char>) -> Option<Seq<u8>> {
    if is_hex_text(s) {
        Some(Seq::new(s.len() / 2, |i: int| pair_value(s, i)))
    } else {
        None
    }
}

/// The text with one leading `0x` removed, if it has one.
pub open spec fn strip_0x(s: Seq<char>) -> Seq<char> {
    if s.len() >= 2 && s[0] == '0' && s[1] == 'x' {
        s.subrange(2, s.len() as int)
    } else {
        s
    }
}

/// The bytes that a hexadecimal text spells, `0x` prefix allowed.
pub open spec fn hex_bytes(s: Seq<char>) -> Option<Seq<u8>> {
    decode_hex(strip_0x(s))
}

/// Relies on `String::push`: the character is appended at the end.
#[verifier::external_body]
fn push_char(s: &mut String, c: char)
    ensures
        final(s)@ == old(s)@.push(c),
{
    s.push(c);
}

fn digit_char(n: u8) -> (c: char)
    requires
        n < 16,
    ensures
        c == hex_digit(n),
{
    if n < 10 {
        (n + 48) as char
    } else {
        (n + 87) as char
    }
}

fn digit_value(c: char) -> (r: Option<u8>)
    ensures
        r == hex_value(c),
{
    if '0' <= c && c <= '9' {
        Some((c as u32 - 48) as u8)
    } else if 'a' <= c && c <= 'f' {
        Some((c as u32 - 87) as u8)
    } else if 'A' <= c && c <= 'F' {
        Some((c as u32 - 55) as u8)
    } else {
        None
    }
}

/// Lowercase hexadecimal text of `b`, without prefix.
pub fn encode(b: &[u8]) -> (r: String)
    requires
        2 * b@.len() <= usize::MAX,
    ensures
        r@ == hex_of(b@),
{
    let mut r = String::new();
    let mut i: usize = 0;
    while i < b.len()
        invariant
            i <= b@.len(),
            r@ =~= hex_of(b@.subrange(0, i as int)),
        decreases b@.len() - i,
    {
        let x = b[i];
        push_char(&mut r, digit_char(x / 16));
        push_char(&mut r, digit_char(x % 16));
        i = i + 1;
        assert(r@ =~= hex_of(b@.subrange(0, i as int)));
    }
    assert(b@.subrange(0, b@.len() as int) =~= b@);
    r
}

/// Decodes hexadecimal text of either case, with or without a `0x` prefix.
pub fn decode(s: &str) -> (r: Option<Vec<u8>>)
    ensures
        match r {
            Some(v) => hex_bytes(s@) == Some(v@),
            None => hex_bytes(s@) is None,
        },
{
    let n = s.unicode_len();
    let mut start: usize = 0;
    if n >= 2 && s.get_char(0) == '0' && s.get_char(1) == 'x' {
        start = 2;
    }
    let ghost t = strip_0x(s@);
    assert(t =~= s@.subrange(start as int, n as int));
    if (n - start) % 2 != 0 {
        return None;
    }
    let mut out: Vec<u8> = Vec::new();
    let mut k: usize = 0;
    while k < (n - start) / 2
        invariant
            start <= n,
            n == s@.len(),
            t == s@.subrange(start as int, n as int),
            t == strip_0x(s@),
            (n - start) % 2 == 0,
            k <= (n - start) / 2,
            out@.len() == k,
            forall|j: int| 0 <= j < 2 * k ==> (#[trigger] hex_value(t[j])) is Some,
            forall|j: int| 0 <= j < k ==> out@[j] == #[trigger] pair_value(t, j),
        decreases (n - start) / 2 - k,
    {
        let hi = digit_value(s.get_char(start + 2 * k));
        let lo = digit_value(s.get_char(start + 2 * k + 1));
        match (hi, lo) {
            (Some(h), Some(l)) => {
                out.push(h * 16 + l);
                k = k + 1;
            },
            _ => {
                assert(!is_hex_text(t)) by {
                    if hi is None {
                        assert(hex_value(t[2 * k as int]) is None);
                    } else {
                        assert(hex_value(t[2 * k + 1]) is None);
                    }
                }
                return None;
            },
        }
    }
    assert(is_hex_text(t));
    proof {
        let ghost d = decode_hex(t)->0;
        assert(out@ =~= d);
    }
    Some(out)
}

proof fn lemma_digit_value(n: u8)
    requires
        n < 16,
    ensures
        hex_value(hex_digit(n)) == Some(n),
        hex_digit(n) != 'x',
{
}

/// Decoding the lowercase text of any bytes gives those bytes back.
pub proof fn lemma_hex_round_trip(b: Seq<u8>)
    ensures
        hex_bytes(hex_of(b)) == Some(b),
{
    let t = hex_of(b);
    assert forall|i: int| 0 <= i < t.len() implies (#[trigger] hex_value(t[i])) is Some by {
        lemma_digit_value(b[i / 2] / 16);
        lemma_digit_value(b[i / 2] % 16);
    }
    if t.len() >= 2 {
        lemma_digit_value(b[0] % 16);
    }
    assert(strip_0x(t) == t);
    let d = decode_hex(t)->0;
    assert forall|i: int| 0 <= i < b.len() implies d[i] == b[i] by {
        assert(t[2 * i] == hex_digit(b[i] / 16));
        assert(t[2 * i + 1] == hex_digit(b[i] % 16));
        lemma_digit_value(b[i] / 16);
        lemma_digit_value(b[i] % 16);
    }
    assert(d =~= b);
}

} // verus!

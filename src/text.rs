//! Text encoding used when requests are assembled: decimal identifiers and
//! percent-encoded header values.

use vstd::prelude::*;

verus! {

/// The ASCII character of a decimal digit.
pub open spec fn digit_char(d: nat) -> char {
    ((d + 48) as u8) as char
}

/// The decimal representation of `n`, without leading zeros.
pub open spec fn decimal(n: nat) -> Seq<char>
    decreases n,
{
    if n < 10 {
        seq![digit_char(n)]
    } else {
        decimal(n / 10).push(digit_char(n % 10))
    }
}

/// Relies on `String::push`: appends one character.
#[verifier::external_body]
pub(crate) fn push_char(s: &mut String, c: char)
    ensures
        final(s)@ == old(s)@.push(c),
{
    s.push(c)
}

/// Appends the decimal representation of `n` to `s`.
pub fn push_decimal(s: &mut String, n: u64)
    ensures
        final(s)@ == old(s)@ + decimal(n as nat),
    decreases n,
{
    if n >= 10 {
        push_decimal(s, n / 10);
    }
    let d: u8 = (n % 10) as u8;
    push_char(s, (d + 48) as char);
    proof {
        assert(decimal(n as nat) == if n < 10 {
            seq![digit_char(n as nat)]
        } else {
            decimal((n / 10) as nat).push(digit_char((n % 10) as nat))
        });
    }
}

/// Whether `c` is an ASCII letter or digit, the characters that percent
/// encoding leaves as they are.
pub open spec fn is_ascii_alphanumeric(c: char) -> bool {
    ('0' <= c && c <= '9') || ('a' <= c && c <= 'z') || ('A' <= c && c <= 'Z')
}

/// The UTF-8 encoding of `c`.
pub open spec fn utf8_bytes(c: char) -> Seq<u8> {
    let n = c as u32;
    if n < 0x80 {
        seq![n as u8]
    } else if n < 0x800 {
        seq![(0xC0 + n / 64) as u8, (0x80 + n % 64) as u8]
    } else if n < 0x10000 {
        seq![(0xE0 + n / 4096) as u8, (0x80 + (n / 64) % 64) as u8, (0x80 + n % 64) as u8]
    } else {
        seq![
            (0xF0 + n / 262144) as u8,
            (0x80 + (n / 4096) % 64) as u8,
            (0x80 + (n / 64) % 64) as u8,
            (0x80 + n % 64) as u8,
        ]
    }
}

/// The upper-case hexadecimal digit of `d`, for `d < 16`.
pub open spec fn hex_digit(d: nat) -> char {
    if d < 10 {
        digit_char(d)
    } else {
        ((d + 55) as u8) as char
    }
}

/// `%` followed by the two hexadecimal digits of `b`.
pub open spec fn percent_byte(b: u8) -> Seq<char> {
    seq!['%', hex_digit((b / 16) as nat), hex_digit((b % 16) as nat)]
}

/// Every byte of `bs` percent-encoded.
pub open spec fn percent_bytes(bs: Seq<u8>) -> Seq<char>
    decreases bs.len(),
{
    if bs.len() == 0 {
        Seq::empty()
    } else {
        percent_bytes(bs.drop_last()) + percent_byte(bs.last())
    }
}

/// One character percent-encoded: letters and digits stay, every other
/// character becomes the escapes of its UTF-8 bytes.
pub open spec fn encode_char(c: char) -> Seq<char> {
    if is_ascii_alphanumeric(c) {
        seq![c]
    } else {
        percent_bytes(utf8_bytes(c))
    }
}

/// `s` percent-encoded, escaping every character but ASCII letters and digits.
pub open spec fn percent_encode(s: Seq<char>) -> Seq<char>
    decreases s.len(),
{
    if s.len() == 0 {
        Seq::empty()
    } else {
        percent_encode(s.drop_last()) + encode_char(s.last())
    }
}

/// Whether `c` may stand in an HTTP header value: a tab, or any character
/// from the space upwards but DEL.
pub open spec fn is_header_value_char(c: char) -> bool {
    c == '\t' || (c as u32 >= 32 && c as u32 != 127)
}

/// Whether every character of `s` may stand in an HTTP header value.
pub open spec fn is_header_value(s: Seq<char>) -> bool {
    forall|i: int| 0 <= i < s.len() ==> is_header_value_char(#[trigger] s[i])
}

fn push_hex_digit(s: &mut String, d: u8)
    requires
        d < 16,
    ensures
        final(s)@ == old(s)@.push(hex_digit(d as nat)),
{
    if d < 10 {
        push_char(s, (d + 48) as char);
    } else {
        push_char(s, (d + 55) as char);
    }
}

fn push_percent_byte(s: &mut String, b: u8)
    ensures
        final(s)@ == old(s)@ + percent_byte(b),
{
    push_char(s, '%');
    push_hex_digit(s, b / 16);
    push_hex_digit(s, b % 16);
    assert(final(s)@ =~= old(s)@ + percent_byte(b));
}

proof fn lemma_percent_bytes_small(bs: Seq<u8>)
    requires
        1 <= bs.len() <= 4,
    ensures
        bs.len() == 1 ==> percent_bytes(bs) == percent_byte(bs[0]),
        bs.len() == 2 ==> percent_bytes(bs) == percent_byte(bs[0]) + percent_byte(bs[1]),
        bs.len() == 3 ==> percent_bytes(bs) == percent_byte(bs[0]) + percent_byte(bs[1])
            + percent_byte(bs[2]),
        bs.len() == 4 ==> percent_bytes(bs) == percent_byte(bs[0]) + percent_byte(bs[1])
            + percent_byte(bs[2]) + percent_byte(bs[3]),
    decreases bs.len(),
{
    reveal_with_fuel(percent_bytes, 5);
    if bs.len() > 1 {
        lemma_percent_bytes_small(bs.drop_last());
    }
    assert(bs.len() == 1 ==> bs.drop_last() =~= Seq::<u8>::empty());
}

/// Appends `c` percent-encoded to `s`.
fn push_encoded_char(s: &mut String, c: char)
    ensures
        final(s)@ == old(s)@ + encode_char(c),
{
    if ('0' <= c && c <= '9') || ('a' <= c && c <= 'z') || ('A' <= c && c <= 'Z') {
        push_char(s, c);
        assert(final(s)@ =~= old(s)@ + encode_char(c));
        return;
    }
    let n: u32 = c as u32;
    let ghost bs = utf8_bytes(c);
    proof {
        lemma_percent_bytes_small(bs);
    }
    if n < 0x80 {
        push_percent_byte(s, n as u8);
    } else if n < 0x800 {
        push_percent_byte(s, (0xC0 + n / 64) as u8);
        push_percent_byte(s, (0x80 + n % 64) as u8);
    } else if n < 0x10000 {
        push_percent_byte(s, (0xE0 + n / 4096) as u8);
        push_percent_byte(s, (0x80 + (n / 64) % 64) as u8);
        push_percent_byte(s, (0x80 + n % 64) as u8);
    } else {
        push_percent_byte(s, (0xF0 + n / 262144) as u8);
        push_percent_byte(s, (0x80 + (n / 4096) % 64) as u8);
        push_percent_byte(s, (0x80 + (n / 64) % 64) as u8);
        push_percent_byte(s, (0x80 + n % 64) as u8);
    }
    assert(final(s)@ =~= old(s)@ + encode_char(c));
}

/// Percent-encodes `s`, escaping every character but ASCII letters and digits.
pub fn percent_encode_str(s: &str) -> (r: String)
    ensures
        r@ == percent_encode(s@),
{
    let len = s.unicode_len();
    let mut r = String::new();
    let mut i: usize = 0;
    while i < len
        invariant
            len == s@.len(),
            i <= len,
            r@ == percent_encode(s@.take(i as int)),
        decreases len - i,
    {
        let c = s.get_char(i);
        push_encoded_char(&mut r, c);
        proof {
            assert(s@.take(i + 1).drop_last() =~= s@.take(i as int));
        }
        i = i + 1;
    }
    assert(s@.take(len as int) =~= s@);
    r
}

/// Whether every character of `s` may stand in an HTTP header value.
pub fn header_value_is_valid(s: &str) -> (r: bool)
    ensures
        r == is_header_value(s@),
{
    let len = s.unicode_len();
    let mut i: usize = 0;
    while i < len
        invariant
            len == s@.len(),
            i <= len,
            forall|j: int| 0 <= j < i ==> is_header_value_char(#[trigger] s@[j]),
        decreases len - i,
    {
        let c = s.get_char(i);
        if !(c == '\t' || (c as u32 >= 32 && c as u32 != 127)) {
            return false;
        }
        i = i + 1;
    }
    true
}

/// A percent-encoded string holds ASCII letters, digits and `%` alone, so it
/// is always a valid header value.
pub proof fn lemma_percent_encode_is_header_value(s: Seq<char>)
    ensures
        is_header_value(percent_encode(s)),
    decreases s.len(),
{
    if s.len() > 0 {
        lemma_percent_encode_is_header_value(s.drop_last());
        let c = s.last();
        let e = encode_char(c);
        if !is_ascii_alphanumeric(c) {
            lemma_percent_bytes_small(utf8_bytes(c));
        }
        assert forall|i: int| 0 <= i < e.len() implies is_header_value_char(#[trigger] e[i]) by {
        }
        let p = percent_encode(s.drop_last());
        assert forall|i: int| 0 <= i < (p + e).len() implies is_header_value_char(
            #[trigger] (p + e)[i],
        ) by {
            if i >= p.len() {
                assert((p + e)[i] == e[i - p.len()]);
            }
        }
    }
}

} // verus!

//! Verified text rendering helpers: decimal numbers, hex decoding and
//! base64 encoding, used for artifact summaries and key material encodings.

use vstd::prelude::*;

verus! {

/// Relies on String::push: appends exactly the given character.
#[verifier::external_body]
pub fn push_char(s: &mut String, c: char)
    ensures
        final(s)@ == old(s)@.push(c),
{
    s.push(c)
}

/// The character for one decimal digit.
pub open spec fn spec_digit(d: nat) -> char {
    if d == 0 { '0' }
    else if d == 1 { '1' }
    else if d == 2 { '2' }
    else if d == 3 { '3' }
    else if d == 4 { '4' }
    else if d == 5 { '5' }
    else if d == 6 { '6' }
    else if d == 7 { '7' }
    else if d == 8 { '8' }
    else { '9' }
}

/// Decimal rendering of a natural number, most significant digit first.
pub open spec fn spec_decimal(n: nat) -> Seq<char>
    decreases n,
{
    if n < 10 {
        seq![spec_digit(n)]
    } else {
        spec_decimal(n / 10).push(spec_digit(n % 10))
    }
}

/// The character for one decimal digit.
pub fn digit_of(d: u64) -> (c: char)
    requires
        d < 10,
    ensures
        c == spec_digit(d as nat),
{
    match d {
        0 => '0',
        1 => '1',
        2 => '2',
        3 => '3',
        4 => '4',
        5 => '5',
        6 => '6',
        7 => '7',
        8 => '8',
        _ => '9',
    }
}

/// Renders a number in decimal.
pub fn u64_to_decimal(n: u64) -> (s: String)
    ensures
        s@ == spec_decimal(n as nat),
    decreases n,
{
    if n < 10 {
        let mut s = String::new();
        push_char(&mut s, digit_of(n));
        s
    } else {
        let mut s = u64_to_decimal(n / 10);
        push_char(&mut s, digit_of(n % 10));
        s
    }
}

/// Whether a character is a hexadecimal digit.
pub open spec fn is_hex_digit(c: char) -> bool {
    ('0' <= c && c <= '9') || ('a' <= c && c <= 'f') || ('A' <= c && c <= 'F')
}

/// The value of a hexadecimal digit.
pub open spec fn hex_val(c: char) -> u8 {
    if '0' <= c && c <= '9' {
        ((c as u32) - 48) as u8
    } else if 'a' <= c && c <= 'f' {
        ((c as u32) - 87) as u8
    } else {
        ((c as u32) - 55) as u8
    }
}

/// Whether a string is well-formed hex: even length, hex digits only.
pub open spec fn is_hex_string(s: Seq<char>) -> bool {
    s.len() % 2 == 0 && forall|i: int| 0 <= i < s.len() ==> is_hex_digit(#[trigger] s[i])
}

/// The bytes a hex string encodes, two digits per byte.
pub open spec fn spec_hex_decode(s: Seq<char>) -> Seq<u8> {
    Seq::new((s.len() / 2) as nat, |i: int| (hex_val(s[2 * i]) * 16 + hex_val(s[2 * i + 1])) as u8)
}

/// The value of one hexadecimal digit character.
pub fn hex_digit_val(c: char) -> (v: u8)
    requires
        is_hex_digit(c),
    ensures
        v == hex_val(c),
        v < 16,
{
    let u = c as u32;
    if u >= 48 && u <= 57 {
        (u - 48) as u8
    } else if u >= 97 && u <= 102 {
        (u - 87) as u8
    } else {
        (u - 55) as u8
    }
}

/// Decodes a well-formed hex string into its bytes.
pub fn hex_to_byte_vec(s: &str) -> (r: Vec<u8>)
    requires
        is_hex_string(s@),
    ensures
        r@ == spec_hex_decode(s@),
{
    let n = s.unicode_len();
    let mut r: Vec<u8> = Vec::new();
    let mut i: usize = 0;
    while i < n / 2
        invariant
            n == s@.len(),
            is_hex_string(s@),
            0 <= i <= n / 2,
            r@ =~= spec_hex_decode(s@).take(i as int),
        decreases n / 2 - i,
    {
        let hi = hex_digit_val(s.get_char(2 * i));
        let lo = hex_digit_val(s.get_char(2 * i + 1));
        r.push(hi * 16 + lo);
        proof {
            assert(r@ =~= spec_hex_decode(s@).take(i as int + 1));
        }
        i = i + 1;
    }
    proof {
        assert(spec_hex_decode(s@).take((s@.len() / 2) as int) =~= spec_hex_decode(s@));
    }
    r
}

/// The base64 alphabet, in value order.
pub open spec fn spec_b64_alphabet() -> Seq<char> {
    "ABCDEFGHIJKLMNOPQRSTUVWXYZabcdefghijklmnopqrstuvwxyz0123456789+/"@
}

/// The base64 character for a six-bit value.
pub open spec fn b64_char(v: int) -> char {
    spec_b64_alphabet()[v]
}

/// Standard base64 with padding: three bytes become four characters, a
/// two-byte tail becomes three characters and one `=`, a one-byte tail two
/// characters and two `=`.
pub open spec fn spec_base64(b: Seq<u8>) -> Seq<char>
    decreases b.len(),
{
    if b.len() == 0 {
        Seq::empty()
    } else if b.len() == 1 {
        seq![
            b64_char((b[0] / 4) as int),
            b64_char(((b[0] % 4) * 16) as int),
            '=',
            '=',
        ]
    } else if b.len() == 2 {
        seq![
            b64_char((b[0] / 4) as int),
            b64_char(((b[0] % 4) * 16 + b[1] / 16) as int),
            b64_char(((b[1] % 16) * 4) as int),
            '=',
        ]
    } else {
        seq![
            b64_char((b[0] / 4) as int),
            b64_char(((b[0] % 4) * 16 + b[1] / 16) as int),
            b64_char(((b[1] % 16) * 4 + b[2] / 64) as int),
            b64_char((b[2] % 64) as int),
        ] + spec_base64(b.skip(3))
    }
}

/// The base64 character for a six-bit value.
pub fn b64_char_of(v: u8) -> (c: char)
    requires
        v < 64,
    ensures
        c == b64_char(v as int),
{
    let alphabet = "ABCDEFGHIJKLMNOPQRSTUVWXYZabcdefghijklmnopqrstuvwxyz0123456789+/";
    proof {
        reveal_strlit("ABCDEFGHIJKLMNOPQRSTUVWXYZabcdefghijklmnopqrstuvwxyz0123456789+/");
    }
    alphabet.get_char(v as usize)
}

/// Encodes bytes as standard base64 with padding.
pub fn base64_encode(b: &Vec<u8>) -> (s: String)
    ensures
        s@ == spec_base64(b@),
{
    let n = b.len();
    let mut s = String::new();
    let mut i: usize = 0;
    proof {
        assert(b@.skip(0) =~= b@);
    }
    while n - i >= 3
        invariant
            n == b@.len(),
            0 <= i <= n,
            spec_base64(b@) =~= s@ + spec_base64(b@.skip(i as int)),
        decreases n - i,
    {
        let b0 = b[i];
        let b1 = b[i + 1];
        let b2 = b[i + 2];
        push_char(&mut s, b64_char_of(b0 / 4));
        push_char(&mut s, b64_char_of((b0 % 4) * 16 + b1 / 16));
        push_char(&mut s, b64_char_of((b1 % 16) * 4 + b2 / 64));
        push_char(&mut s, b64_char_of(b2 % 64));
        proof {
            let rest = b@.skip(i as int);
            assert(rest[0] == b@[i as int]);
            assert(rest[1] == b@[i as int + 1]);
            assert(rest[2] == b@[i as int + 2]);
            assert(rest.skip(3) =~= b@.skip(i as int + 3));
            assert(spec_base64(b@) =~= s@ + spec_base64(b@.skip(i as int + 3)));
        }
        i = i + 3;
    }
    if n - i == 1 {
        let b0 = b[i];
        push_char(&mut s, b64_char_of(b0 / 4));
        push_char(&mut s, b64_char_of((b0 % 4) * 16));
        push_char(&mut s, '=');
        push_char(&mut s, '=');
        proof {
            let rest = b@.skip(i as int);
            assert(rest[0] == b@[i as int]);
            assert(spec_base64(b@) =~= s@);
        }
    } else if n - i == 2 {
        let b0 = b[i];
        let b1 = b[i + 1];
        push_char(&mut s, b64_char_of(b0 / 4));
        push_char(&mut s, b64_char_of((b0 % 4) * 16 + b1 / 16));
        push_char(&mut s, b64_char_of((b1 % 16) * 4));
        push_char(&mut s, '=');
        proof {
            let rest = b@.skip(i as int);
            assert(rest[0] == b@[i as int]);
            assert(rest[1] == b@[i as int + 1]);
            assert(spec_base64(b@) =~= s@);
        }
    } else {
        proof {
            assert(i == n);
            assert(b@.skip(i as int) =~= Seq::<u8>::empty());
            assert(spec_base64(b@) =~= s@);
        }
    }
    s
}

} // verus!

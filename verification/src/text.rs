//! Text as the game stores it and as its print function takes it: decoding
//! the bytes of a name, stripping what the print function cannot take, and
//! writing numbers in lower-case hexadecimal.
use vstd::prelude::*;
use vstd::string::StrSliceExecFns;
use vstd::string::StringExecFns;
use vstd::string::StringSliceAdditionalSpecFns;
use vstd::utf8::decode_utf8;
use vstd::utf8::encode_utf8_decode_utf8;
use vstd::utf8::valid_utf8;

verus! {

/// `std::str::from_utf8`: the bytes as a string slice when they are valid
/// UTF-8, nothing otherwise. The contract restates its documentation: it
/// succeeds exactly on valid UTF-8, and the slice it returns holds the same
/// bytes.
#[verifier::external_body]
fn str_from_utf8(bytes: &[u8]) -> (r: Option<&str>)
    ensures
        r is Some <==> valid_utf8(bytes@),
        r matches Some(s) ==> s.spec_bytes() == bytes@,
{
    std::str::from_utf8(bytes).ok()
}

/// The text that a byte string of the game's memory spells: its UTF-8
/// decoding, or nothing when the bytes are not valid UTF-8.
pub fn decode_text(bytes: &[u8]) -> (r: Option<String>)
    ensures
        r is Some <==> valid_utf8(bytes@),
        r matches Some(s) ==> s@ == decode_utf8(bytes@),
{
    match str_from_utf8(bytes) {
        Some(s) => {
            proof {
                encode_utf8_decode_utf8(s@);
            }
            Some(s.to_owned())
        },
        None => None,
    }
}

/// The ASCII characters of `s`, in order, each as its byte.
pub open spec fn ascii_only(s: Seq<char>) -> Seq<u8>
    decreases s.len(),
{
    if s.len() == 0 {
        Seq::empty()
    } else {
        let rest = ascii_only(s.drop_last());
        if (s.last() as u32) < 128 {
            rest.push(s.last() as u32 as u8)
        } else {
            rest
        }
    }
}

/// Whether `text` holds a NUL character; such text cannot be made into the
/// C string the game's print function takes.
pub fn holds_nul(text: &str) -> (r: bool)
    ensures
        r == text@.contains('\0'),
{
    let n = text.unicode_len();
    let mut i: usize = 0;
    while i < n
        invariant
            n == text@.len(),
            i <= n,
            forall|j: int| 0 <= j < i ==> text@[j] != '\0',
        decreases n - i,
    {
        if text.get_char(i) == '\0' {
            return true;
        }
        i = i + 1;
    }
    false
}

/// What the game's print function is handed for `text`: the text with every
/// character outside ASCII removed, as bytes. Text holding a NUL character
/// cannot be handed over (the C string would end early).
pub fn print_payload(text: &str) -> (r: Vec<u8>)
    requires
        !text@.contains('\0'),
    ensures
        r@ == ascii_only(text@),
{
    let n = text.unicode_len();
    let mut bytes: Vec<u8> = Vec::new();
    let mut i: usize = 0;
    while i < n
        invariant
            n == text@.len(),
            i <= n,
            bytes@ == ascii_only(text@.take(i as int)),
        decreases n - i,
    {
        let c = text.get_char(i);
        let v = c as u32;
        assert(text@.take(i + 1).drop_last() == text@.take(i as int));
        if v < 128 {
            bytes.push(v as u8);
        }
        i = i + 1;
    }
    assert(text@.take(n as int) == text@);
    bytes
}

/// The lower-case hexadecimal digit for `d` (below sixteen).
pub open spec fn hex_digit(d: nat) -> char {
    if d == 0 {
        '0'
    } else if d == 1 {
        '1'
    } else if d == 2 {
        '2'
    } else if d == 3 {
        '3'
    } else if d == 4 {
        '4'
    } else if d == 5 {
        '5'
    } else if d == 6 {
        '6'
    } else if d == 7 {
        '7'
    } else if d == 8 {
        '8'
    } else if d == 9 {
        '9'
    } else if d == 10 {
        'a'
    } else if d == 11 {
        'b'
    } else if d == 12 {
        'c'
    } else if d == 13 {
        'd'
    } else if d == 14 {
        'e'
    } else {
        'f'
    }
}

/// `n` in lower-case hexadecimal, without prefix or leading zeros (zero is "0").
pub open spec fn lower_hex(n: nat) -> Seq<char>
    decreases n,
{
    if n < 16 {
        seq![hex_digit(n)]
    } else {
        lower_hex(n / 16).push(hex_digit(n % 16))
    }
}

/// The one-character string holding the hexadecimal digit `d`.
fn hex_digit_str(d: usize) -> (r: &'static str)
    requires
        d < 16,
    ensures
        r@ == seq![hex_digit(d as nat)],
{
    if d == 0 {
        proof { reveal_strlit("0"); }
        "0"
    } else if d == 1 {
        proof { reveal_strlit("1"); }
        "1"
    } else if d == 2 {
        proof { reveal_strlit("2"); }
        "2"
    } else if d == 3 {
        proof { reveal_strlit("3"); }
        "3"
    } else if d == 4 {
        proof { reveal_strlit("4"); }
        "4"
    } else if d == 5 {
        proof { reveal_strlit("5"); }
        "5"
    } else if d == 6 {
        proof { reveal_strlit("6"); }
        "6"
    } else if d == 7 {
        proof { reveal_strlit("7"); }
        "7"
    } else if d == 8 {
        proof { reveal_strlit("8"); }
        "8"
    } else if d == 9 {
        proof { reveal_strlit("9"); }
        "9"
    } else if d == 10 {
        proof { reveal_strlit("a"); }
        "a"
    } else if d == 11 {
        proof { reveal_strlit("b"); }
        "b"
    } else if d == 12 {
        proof { reveal_strlit("c"); }
        "c"
    } else if d == 13 {
        proof { reveal_strlit("d"); }
        "d"
    } else if d == 14 {
        proof { reveal_strlit("e"); }
        "e"
    } else {
        proof { reveal_strlit("f"); }
        "f"
    }
}

/// Appends `n` in lower-case hexadecimal to `out`.
pub fn append_lower_hex(out: &mut String, n: usize)
    ensures
        final(out)@ == old(out)@ + lower_hex(n as nat),
    decreases n,
{
    if n >= 16 {
        append_lower_hex(out, n / 16);
    }
    out.append(hex_digit_str(n % 16));
    assert(n >= 16 ==> lower_hex(n as nat) == lower_hex((n / 16) as nat).push(hex_digit((n % 16) as nat)));
}

/// `n` in lower-case hexadecimal, as `format!("{:x}", n)` writes it.
pub fn to_lower_hex(n: usize) -> (r: String)
    ensures
        r@ == lower_hex(n as nat),
{
    let mut out = String::new();
    append_lower_hex(&mut out, n);
    out
}

/// The number a hexadecimal digit stands for.
pub open spec fn digit_value(c: char) -> nat {
    if c == '0' {
        0
    } else if c == '1' {
        1
    } else if c == '2' {
        2
    } else if c == '3' {
        3
    } else if c == '4' {
        4
    } else if c == '5' {
        5
    } else if c == '6' {
        6
    } else if c == '7' {
        7
    } else if c == '8' {
        8
    } else if c == '9' {
        9
    } else if c == 'a' {
        10
    } else if c == 'b' {
        11
    } else if c == 'c' {
        12
    } else if c == 'd' {
        13
    } else if c == 'e' {
        14
    } else {
        15
    }
}

/// The number a string of hexadecimal digits stands for.
pub open spec fn hex_value(digits: Seq<char>) -> nat
    decreases digits.len(),
{
    if digits.len() == 0 {
        0
    } else {
        16 * hex_value(digits.drop_last()) + digit_value(digits.last())
    }
}

/// Reading back what `lower_hex` wrote gives the number: a reported offset
/// is the offset found. The first digit is zero only for zero itself.
pub proof fn lemma_lower_hex_reads_back(n: nat)
    ensures
        hex_value(lower_hex(n)) == n,
        lower_hex(n).len() > 0,
        n > 0 ==> lower_hex(n)[0] != '0',
    decreases n,
{
    lemma_digit_reads_back(n % 16);
    if n >= 16 {
        lemma_lower_hex_reads_back(n / 16);
        let s = lower_hex(n);
        assert(s.drop_last() == lower_hex(n / 16));
        assert(s[0] == lower_hex(n / 16)[0]);
        assert(s.last() == hex_digit(n % 16));
        assert(hex_value(s) == 16 * hex_value(s.drop_last()) + digit_value(s.last()));
        assert(n == 16 * (n / 16) + n % 16);
    } else {
        let s = lower_hex(n);
        assert(s.drop_last() == Seq::<char>::empty());
        assert(s.last() == hex_digit(n));
        assert(hex_value(s) == 16 * hex_value(s.drop_last()) + digit_value(s.last()));
    }
}

/// A digit reads back as the number it was written for.
proof fn lemma_digit_reads_back(d: nat)
    requires
        d < 16,
    ensures
        digit_value(hex_digit(d)) == d,
        d > 0 ==> hex_digit(d) != '0',
{
}

/// What the print function receives is ASCII only.
pub proof fn lemma_payload_is_ascii(s: Seq<char>)
    ensures
        forall|i: int| 0 <= i < ascii_only(s).len() ==> ascii_only(s)[i] < 128,
    decreases s.len(),
{
    if s.len() > 0 {
        lemma_payload_is_ascii(s.drop_last());
        let rest = ascii_only(s.drop_last());
        let v: u32 = s.last() as u32;
        assert(v < 128 ==> (v as u8) < 128) by (bit_vector);
        assert forall|i: int| 0 <= i < ascii_only(s).len() implies ascii_only(s)[i] < 128 by {
            if i < rest.len() {
                assert(ascii_only(s)[i] == rest[i]);
            }
        }
    }
}

/// Text that is ASCII already reaches the print function unchanged, byte
/// for character.
pub proof fn lemma_ascii_text_unchanged(s: Seq<char>)
    requires
        forall|i: int| 0 <= i < s.len() ==> (s[i] as u32) < 128,
    ensures
        ascii_only(s).len() == s.len(),
        forall|i: int| 0 <= i < s.len() ==> ascii_only(s)[i] == s[i] as u32 as u8,
    decreases s.len(),
{
    if s.len() > 0 {
        lemma_ascii_text_unchanged(s.drop_last());
    }
}

/// The bytes of any text decode back to that text: names written by the
/// game as UTF-8 are read back as they were written.
pub proof fn lemma_encoded_text_decodes(text: Seq<char>)
    ensures
        valid_utf8(vstd::utf8::encode_utf8(text)),
        decode_utf8(vstd::utf8::encode_utf8(text)) == text,
{
    vstd::utf8::encode_utf8_valid_utf8(text);
    encode_utf8_decode_utf8(text);
}

} // verus!

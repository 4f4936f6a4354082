use vstd::prelude::*;

verus! {

/// Appends one character to a string (`String::push`).
#[verifier::external_body]
pub(crate) fn push_char(s: &mut String, c: char)
    ensures
        final(s)@ == old(s)@.push(c),
{
    s.push(c);
}

/// The character with code point `b` (Latin-1 reading of a byte).
pub open spec fn byte_char(b: u8) -> char {
    b as char
}

/// Converts a byte to the character with the same code point.
pub fn byte_to_char(b: u8) -> (c: char)
    ensures
        c == byte_char(b),
{
    b as char
}

/// Upper-case hexadecimal digit of a nibble.
pub open spec fn hex_upper(n: u8) -> char {
    if n < 10 { ((n + 48) as u8) as char } else { ((n - 10 + 65) as u8) as char }
}

/// Lower-case hexadecimal digit of a nibble.
pub open spec fn hex_lower(n: u8) -> char {
    if n < 10 { ((n + 48) as u8) as char } else { ((n - 10 + 97) as u8) as char }
}

pub fn hex_digit_upper(n: u8) -> (c: char)
    requires
        n < 16,
    ensures
        c == hex_upper(n),
{
    if n < 10 {
        byte_to_char(n + 48)
    } else {
        byte_to_char(n - 10 + 65)
    }
}

pub fn hex_digit_lower(n: u8) -> (c: char)
    requires
        n < 16,
    ensures
        c == hex_lower(n),
{
    if n < 10 {
        byte_to_char(n + 48)
    } else {
        byte_to_char(n - 10 + 97)
    }
}

/// Two upper-case hexadecimal digits of a byte (as `{:02X}` prints it).
pub open spec fn hex_byte_upper(b: u8) -> Seq<char> {
    seq![hex_upper(b / 16), hex_upper(b % 16)]
}

/// Appends the two upper-case hexadecimal digits of `b`.
pub fn push_hex_byte_upper(s: &mut String, b: u8)
    ensures
        final(s)@ == old(s)@ + hex_byte_upper(b),
{
    push_char(s, hex_digit_upper(b / 16));
    push_char(s, hex_digit_upper(b % 16));
    assert(final(s)@ =~= old(s)@ + hex_byte_upper(b));
}

/// Four upper-case hexadecimal digits of a 16-bit value (as `{:04X}` prints it).
pub open spec fn hex_word_upper(w: u16) -> Seq<char> {
    hex_byte_upper((w / 256) as u8) + hex_byte_upper((w % 256) as u8)
}

/// Appends the four upper-case hexadecimal digits of `w`.
pub fn push_hex_word_upper(s: &mut String, w: u16)
    ensures
        final(s)@ == old(s)@ + hex_word_upper(w),
{
    push_hex_byte_upper(s, (w / 256) as u8);
    push_hex_byte_upper(s, (w % 256) as u8);
    assert(final(s)@ =~= old(s)@ + hex_word_upper(w));
}

} // verus!

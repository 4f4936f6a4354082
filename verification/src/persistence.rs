use vstd::prelude::*;
use crate::text::{hex_digit_lower, hex_lower, push_char};
use vstd::string::StringSliceAdditionalSpecFns;

verus! {

/// Whether a title character is kept as it is in a save file name.
pub open spec fn kept_in_file_name(c: char) -> bool {
    ('0' <= c <= '9') || ('a' <= c <= 'z') || ('A' <= c <= 'Z') || c == '-' || c == '_'
}

/// The file name characters a title turns into: letters, digits, '-' and '_' stay, white space
/// becomes '_', anything else is dropped.
pub open spec fn sanitize_title(title: Seq<char>) -> Seq<char>
    decreases title.len(),
{
    if title.len() == 0 {
        Seq::empty()
    } else {
        let c = title.last();
        let rest = sanitize_title(title.drop_last());
        if kept_in_file_name(c) {
            rest.push(c)
        } else if crate::cartridge::is_trim_space(c) {
            rest.push('_')
        } else {
            rest
        }
    }
}

/// The save file name for a game title: the sanitized title (or "sturdygb-save" where nothing
/// is left of it) followed by ".sav".
pub open spec fn save_file_name_spec(title: Seq<char>) -> Seq<char> {
    let s = sanitize_title(title);
    (if s.len() == 0 { "sturdygb-save"@ } else { s }) + ".sav"@
}

pub fn save_file_name(title: &str) -> (r: String)
    ensures
        r@ == save_file_name_spec(title@),
{
    let mut sanitized = String::new();
    let n = title.unicode_len();
    let mut i: usize = 0;
    while i < n
        invariant
            0 <= i <= n,
            n == title@.len(),
            sanitized@ == sanitize_title(title@.subrange(0, i as int)),
        decreases n - i,
    {
        let ch = title.get_char(i);
        assert(title@.subrange(0, i + 1).drop_last() =~= title@.subrange(0, i as int));
        if ('0' <= ch && ch <= '9') || ('a' <= ch && ch <= 'z') || ('A' <= ch && ch <= 'Z') || ch == '-' || ch == '_' {
            push_char(&mut sanitized, ch);
        } else if crate::cartridge::is_trim_space_exec(ch) {
            push_char(&mut sanitized, '_');
        }
        i = i + 1;
    }
    assert(title@.subrange(0, n as int) =~= title@);
    if sanitized.unicode_len() == 0 {
        sanitized.append("sturdygb-save");
    }
    sanitized.append(".sav");
    sanitized
}

/// The 64-bit FNV-1a hash of the first `n` bytes.
pub open spec fn fnv1a64_prefix(bytes: Seq<u8>, n: nat) -> u64
    decreases n,
{
    if n == 0 {
        0xcbf29ce484222325
    } else {
        let h = fnv1a64_prefix(bytes, (n - 1) as nat) ^ (bytes[n - 1] as u64);
        ((h as int * 0x100000001b3) % 0x10000000000000000) as u64
    }
}

/// The 64-bit FNV-1a hash of a byte sequence.
pub open spec fn fnv1a64_spec(bytes: Seq<u8>) -> u64 {
    fnv1a64_prefix(bytes, bytes.len())
}

pub fn fnv1a64(bytes: &[u8]) -> (r: u64)
    ensures
        r == fnv1a64_spec(bytes@),
{
    let mut hash: u64 = 0xcbf29ce484222325;
    let mut i: usize = 0;
    while i < bytes.len()
        invariant
            0 <= i <= bytes@.len(),
            hash == fnv1a64_prefix(bytes@, i as nat),
        decreases bytes@.len() - i,
    {
        hash = hash ^ (bytes[i] as u64);
        hash = hash.wrapping_mul(0x100000001b3);
        i = i + 1;
    }
    hash
}

/// The sixteen lower-case hexadecimal digits of a 64-bit value, most significant first.
pub open spec fn hex_u64_lower(v: u64) -> Seq<char> {
    Seq::new(16, |i: int| hex_lower(((v as int / vstd::arithmetic::power2::pow2((60 - 4 * i) as nat) as int) % 16) as u8))
}

/// The key under which a game's save lives: a prefix and the ROM's FNV-1a hash in hexadecimal.
pub open spec fn storage_key_spec(rom_bytes: Seq<u8>) -> Seq<char> {
    "sturdygb_sram_"@ + hex_u64_lower(fnv1a64_spec(rom_bytes))
}

pub fn storage_key(rom_bytes: &[u8]) -> (r: String)
    ensures
        r@ == storage_key_spec(rom_bytes@),
{
    let hash = fnv1a64(rom_bytes);
    let mut key = String::from_str("sturdygb_sram_");
    let ghost start = key@;
    let mut i: u32 = 0;
    while i < 16
        invariant
            0 <= i <= 16,
            start == "sturdygb_sram_"@,
            key@ == start + hex_u64_lower(hash).subrange(0, i as int),
        decreases 16 - i,
    {
        let shift: u64 = (60 - 4 * i) as u64;
        let digit = ((hash >> shift) & 0xF) as u8;
        proof {
            vstd::bits::lemma_u64_shr_is_div(hash, shift);
            vstd::arithmetic::power2::lemma_pow2_pos(shift as nat);
            assert((hash >> shift) & 0xF == (hash >> shift) % 16) by (bit_vector);
            assert(digit == ((hash as int / vstd::arithmetic::power2::pow2((60 - 4 * i) as nat) as int) % 16) as u8);
        }
        push_char(&mut key, hex_digit_lower(digit));
        assert(hex_u64_lower(hash).subrange(0, i + 1) =~= hex_u64_lower(hash).subrange(0, i as int).push(
            hex_lower(digit),
        ));
        i = i + 1;
    }
    assert(hex_u64_lower(hash).subrange(0, 16) =~= hex_u64_lower(hash));
    key
}

/// The lower-case hexadecimal text of a byte sequence, two digits per byte.
pub open spec fn encode_hex_spec(bytes: Seq<u8>) -> Seq<char>
    decreases bytes.len(),
{
    if bytes.len() == 0 {
        Seq::empty()
    } else {
        encode_hex_spec(bytes.drop_last()) + seq![hex_lower(bytes.last() / 16), hex_lower(bytes.last() % 16)]
    }
}

pub fn encode_hex(bytes: &[u8]) -> (r: String)
    ensures
        r@ == encode_hex_spec(bytes@),
{
    let mut encoded = String::new();
    let mut i: usize = 0;
    while i < bytes.len()
        invariant
            0 <= i <= bytes@.len(),
            encoded@ == encode_hex_spec(bytes@.subrange(0, i as int)),
        decreases bytes@.len() - i,
    {
        let b = bytes[i];
        assert(b >> 4u8 == b / 16 && b & 0x0f == b % 16) by (bit_vector);
        push_char(&mut encoded, hex_digit_lower(b >> 4u8));
        push_char(&mut encoded, hex_digit_lower(b & 0x0f));
        assert(bytes@.subrange(0, i + 1).drop_last() =~= bytes@.subrange(0, i as int));
        i = i + 1;
    }
    assert(bytes@.subrange(0, bytes@.len() as int) =~= bytes@);
    encoded
}

/// The value of a hexadecimal digit byte (either case).
pub open spec fn hex_nibble_spec(byte: u8) -> Option<u8> {
    if 0x30 <= byte <= 0x39 {
        Some((byte - 0x30) as u8)
    } else if 0x61 <= byte <= 0x66 {
        Some((byte - 0x61 + 10) as u8)
    } else if 0x41 <= byte <= 0x46 {
        Some((byte - 0x41 + 10) as u8)
    } else {
        None
    }
}

pub fn decode_hex_nibble(byte: u8) -> (r: Option<u8>)
    ensures
        r == hex_nibble_spec(byte),
{
    if 0x30 <= byte && byte <= 0x39 {
        Some(byte - 0x30)
    } else if 0x61 <= byte && byte <= 0x66 {
        Some(byte - 0x61 + 10)
    } else if 0x41 <= byte && byte <= 0x46 {
        Some(byte - 0x41 + 10)
    } else {
        None
    }
}

/// The bytes that hexadecimal text (as UTF-8 bytes) stands for; `None` for an odd length or a
/// byte that is not a hexadecimal digit.
pub open spec fn decode_hex_spec(text: Seq<u8>) -> Option<Seq<u8>>
    decreases text.len(),
{
    if text.len() % 2 != 0 {
        None
    } else if text.len() == 0 {
        Some(Seq::empty())
    } else {
        let n = text.len();
        match (decode_hex_spec(text.subrange(0, n - 2)), hex_nibble_spec(text[n - 2]), hex_nibble_spec(text[n - 1])) {
            (Some(prefix), Some(high), Some(low)) => Some(prefix.push(((high as int) * 16 + low as int) as u8)),
            _ => None,
        }
    }
}

proof fn lemma_decode_hex_prefix_fails(text: Seq<u8>, k: int)
    requires
        text.len() % 2 == 0,
        0 <= k <= text.len(),
        k % 2 == 0,
        decode_hex_spec(text.subrange(0, k)) is None,
    ensures
        decode_hex_spec(text) is None,
    decreases text.len() - k,
{
    if k < text.len() {
        let t2 = text.subrange(0, k + 2);
        assert(t2.subrange(0, k) =~= text.subrange(0, k));
        lemma_decode_hex_prefix_fails(text, k + 2);
    } else {
        assert(text.subrange(0, k) =~= text);
    }
}

pub fn decode_hex(encoded: &str) -> (r: Option<Vec<u8>>)
    ensures
        r is Some <==> decode_hex_spec(encoded.spec_bytes()) is Some,
        r matches Some(v) ==> v@ == decode_hex_spec(encoded.spec_bytes())->0,
{
    let bytes = encoded.as_bytes();
    if bytes.len() % 2 != 0 {
        return None;
    }
    let mut decoded: Vec<u8> = Vec::new();
    let mut i: usize = 0;
    while i < bytes.len()
        invariant
            0 <= i <= bytes@.len(),
            i % 2 == 0,
            bytes@.len() % 2 == 0,
            bytes@ == encoded.spec_bytes(),
            decode_hex_spec(bytes@.subrange(0, i as int)) == Some(decoded@),
        decreases bytes@.len() - i,
    {
        let ghost prefix = bytes@.subrange(0, i + 2);
        assert(prefix.subrange(0, i as int) =~= bytes@.subrange(0, i as int));
        let high = match decode_hex_nibble(bytes[i]) {
            Some(h) => h,
            None => {
                proof {
                    lemma_decode_hex_prefix_fails(bytes@, i + 2);
                }
                return None;
            },
        };
        let low = match decode_hex_nibble(bytes[i + 1]) {
            Some(l) => l,
            None => {
                proof {
                    lemma_decode_hex_prefix_fails(bytes@, i + 2);
                }
                return None;
            },
        };
        assert(high < 16 && low < 16);
        assert((high << 4u8) | low == ((high as int) * 16 + low as int) as u8) by (bit_vector)
            requires
                high < 16,
                low < 16;
        decoded.push((high << 4u8) | low);
        i = i + 2;
    }
    assert(bytes@.subrange(0, bytes@.len() as int) =~= bytes@);
    Some(decoded)
}

/// Decoding the hexadecimal text of any bytes gives those bytes back (`encode_hex` then
/// `decode_hex`).
pub proof fn lemma_hex_round_trip(bytes: Seq<u8>)
    ensures
        vstd::utf8::is_ascii_chars(encode_hex_spec(bytes)),
        decode_hex_spec(vstd::utf8::encode_utf8(encode_hex_spec(bytes))) == Some(bytes),
    decreases bytes.len(),
{
    let text = encode_hex_spec(bytes);
    if bytes.len() == 0 {
        assert(vstd::utf8::encode_utf8(text) =~= Seq::<u8>::empty());
    } else {
        lemma_hex_round_trip(bytes.drop_last());
        let b = bytes.last();
        let prev = encode_hex_spec(bytes.drop_last());
        assert(b / 16 < 16 && b % 16 < 16);
        assert(text == prev + seq![hex_lower(b / 16), hex_lower(b % 16)]);
        assert(vstd::utf8::is_ascii_chars(text));
        vstd::utf8::is_ascii_chars_encode_utf8(text);
        vstd::utf8::is_ascii_chars_encode_utf8(prev);
        let bytes_text = vstd::utf8::encode_utf8(text);
        let bytes_prev = vstd::utf8::encode_utf8(prev);
        let n = bytes_text.len();
        assert(bytes_text.subrange(0, n - 2) =~= bytes_prev);
        assert(hex_nibble_spec(bytes_text[n - 2]) == Some(b / 16));
        assert(hex_nibble_spec(bytes_text[n - 1]) == Some(b % 16));
        assert(bytes.drop_last().push(((b / 16) as int * 16 + (b % 16) as int) as u8) =~= bytes);
    }
}

} // verus!

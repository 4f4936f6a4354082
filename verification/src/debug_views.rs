use vstd::prelude::*;
use crate::cartridge::{is_trim_space_exec, trim_end, trim_start};
use crate::text::{byte_to_char, hex_byte_upper, push_char, push_hex_byte_upper};
use crate::gb::OamSprite;
pub use crate::stepping::find_watchpoint_hit;

verus! {

/// The value of a hexadecimal digit character.
pub open spec fn hex_char_value(c: char) -> Option<nat> {
    if '0' <= c <= '9' {
        Some((c as int - '0' as int) as nat)
    } else if 'a' <= c <= 'f' {
        Some((c as int - 'a' as int + 10) as nat)
    } else if 'A' <= c <= 'F' {
        Some((c as int - 'A' as int + 10) as nat)
    } else {
        None
    }
}

/// The value of a run of hexadecimal digits (0 for none); `None` if a character is not one.
pub open spec fn hex_digits_value(s: Seq<char>) -> Option<nat>
    decreases s.len(),
{
    if s.len() == 0 {
        Some(0)
    } else {
        match (hex_digits_value(s.drop_last()), hex_char_value(s.last())) {
            (Some(high), Some(low)) => Some(high * 16 + low),
            _ => None,
        }
    }
}

/// What `from_str_radix(s, 16)` gives for an unsigned type whose largest value is `max`:
/// an optional '+', then at least one digit, and no overflow.
pub open spec fn from_hex_radix(s: Seq<char>, max: nat) -> Option<nat> {
    if s.len() == 0 || (s.len() == 1 && (s[0] == '+' || s[0] == '-')) {
        None
    } else {
        let digits = if s[0] == '+' { s.drop_first() } else { s };
        match hex_digits_value(digits) {
            Some(v) => if v <= max { Some(v) } else { None },
            None => None,
        }
    }
}

/// The text with surrounding white space removed and one "0x" or "0X" prefix dropped.
pub open spec fn hex_body(input: Seq<char>) -> Seq<char> {
    let t = trim_end(trim_start(input));
    if t.len() >= 2 && t[0] == '0' && (t[1] == 'x' || t[1] == 'X') {
        t.skip(2)
    } else {
        t
    }
}

/// The number a hexadecimal input field holds, or `default` where it holds none that fits.
pub open spec fn parse_hex_spec(input: Seq<char>, default: nat, max: nat) -> nat {
    match from_hex_radix(hex_body(input), max) {
        Some(v) => v,
        None => default,
    }
}

proof fn lemma_digits_prefix(s: Seq<char>, i: int)
    requires
        0 <= i <= s.len(),
        hex_digits_value(s) is Some,
    ensures
        hex_digits_value(s.subrange(0, i)) is Some,
        hex_digits_value(s.subrange(0, i))->0 <= hex_digits_value(s)->0,
    decreases s.len() - i,
{
    if i == s.len() {
        assert(s.subrange(0, i) =~= s);
    } else {
        lemma_digits_prefix(s.drop_last(), i);
        assert(s.drop_last().subrange(0, i) =~= s.subrange(0, i));
    }
}

proof fn lemma_digits_invalid_prefix(s: Seq<char>, i: int)
    requires
        0 <= i <= s.len(),
        hex_digits_value(s.subrange(0, i)) is None,
    ensures
        hex_digits_value(s) is None,
{
    if hex_digits_value(s) is Some {
        lemma_digits_prefix(s, i);
    }
}

/// Copies the characters of a string into a vector.
fn chars_of(input: &str) -> (r: Vec<char>)
    ensures
        r@ == input@,
{
    let n = input.unicode_len();
    let mut r: Vec<char> = Vec::new();
    let mut i: usize = 0;
    while i < n
        invariant
            0 <= i <= n,
            n == input@.len(),
            r@ == input@.subrange(0, i as int),
        decreases n - i,
    {
        r.push(input.get_char(i));
        i = i + 1;
    }
    assert(r@ =~= input@);
    r
}

/// The start and end (exclusive) of `s` without its surrounding white space.
fn trim_bounds(s: &Vec<char>) -> (r: (usize, usize))
    ensures
        r.0 <= r.1 <= s@.len(),
        s@.subrange(r.0 as int, r.1 as int) == trim_end(trim_start(s@)),
{
    let n = s.len();
    let mut start: usize = 0;
    assert(s@.subrange(0, n as int) =~= s@);
    while start < n && is_trim_space_exec(s[start])
        invariant
            0 <= start <= n,
            n == s@.len(),
            trim_start(s@) == trim_start(s@.subrange(start as int, n as int)),
        decreases n - start,
    {
        assert(s@.subrange(start as int, n as int).drop_first() =~= s@.subrange(start + 1, n as int));
        start = start + 1;
    }
    assert(trim_start(s@.subrange(start as int, n as int)) == s@.subrange(start as int, n as int));
    let mut end: usize = n;
    while end > start && is_trim_space_exec(s[end - 1])
        invariant
            start <= end <= n,
            n == s@.len(),
            trim_end(s@.subrange(start as int, n as int)) == trim_end(s@.subrange(start as int, end as int)),
        decreases end - start,
    {
        assert(s@.subrange(start as int, end as int).drop_last() =~= s@.subrange(start as int, end - 1));
        end = end - 1;
    }
    assert(trim_end(s@.subrange(start as int, end as int)) == s@.subrange(start as int, end as int));
    (start, end)
}

fn hex_char_value_exec(c: char) -> (r: Option<u64>)
    ensures
        r is Some <==> hex_char_value(c) is Some,
        r matches Some(v) ==> v == hex_char_value(c)->0 && v < 16,
{
    if '0' <= c && c <= '9' {
        Some((c as u32 - '0' as u32) as u64)
    } else if 'a' <= c && c <= 'f' {
        Some((c as u32 - 'a' as u32 + 10) as u64)
    } else if 'A' <= c && c <= 'F' {
        Some((c as u32 - 'A' as u32 + 10) as u64)
    } else {
        None
    }
}

/// Parses the hexadecimal number the input field holds; `default` where it holds none whose
/// value is at most `max`.
fn parse_hex_bounded(input: &str, default: u64, max: u64) -> (r: u64)
    requires
        max >= 15,
    ensures
        r == parse_hex_spec(input@, default as nat, max as nat),
{
    let chars = chars_of(input);
    let (start, end) = trim_bounds(&chars);
    let ghost t = chars@.subrange(start as int, end as int);
    let mut s = start;
    if end - start >= 2 && chars[start] == '0' && (chars[start + 1] == 'x' || chars[start + 1] == 'X') {
        s = start + 2;
    }
    let ghost body = chars@.subrange(s as int, end as int);
    assert(body == hex_body(input@)) by {
        if end - start >= 2 && t[0] == '0' && (t[1] == 'x' || t[1] == 'X') {
            assert(t.skip(2) =~= body);
        } else {
            assert(t =~= body);
        }
    }
    if s == end || (end - s == 1 && (chars[s] == '+' || chars[s] == '-')) {
        return default;
    }
    let mut d = s;
    if chars[s] == '+' {
        d = s + 1;
    }
    let ghost digits = chars@.subrange(d as int, end as int);
    assert(digits == (if body[0] == '+' { body.drop_first() } else { body }));
    let mut acc: u64 = 0;
    let mut i = d;
    while i < end
        invariant
            d <= i <= end <= chars@.len(),
            digits == chars@.subrange(d as int, end as int),
            hex_digits_value(chars@.subrange(d as int, i as int)) == Some(acc as nat),
            acc <= max,
            max >= 15,
            body == hex_body(input@),
            !(body.len() == 0 || (body.len() == 1 && (body[0] == '+' || body[0] == '-'))),
            digits == (if body[0] == '+' { body.drop_first() } else { body }),
        decreases end - i,
    {
        assert(chars@.subrange(d as int, i + 1).drop_last() =~= chars@.subrange(d as int, i as int));
        assert(chars@.subrange(d as int, i + 1) =~= digits.subrange(0, i + 1 - d));
        match hex_char_value_exec(chars[i]) {
            Some(v) => {
                if acc > (max - v) / 16 {
                    proof {
                        assert(acc * 16 + v > max) by (nonlinear_arith)
                            requires
                                acc > (max - v) / 16,
                                v <= max || v > max;
                        if hex_digits_value(digits) is Some {
                            lemma_digits_prefix(digits, i + 1 - d);
                        }
                    }
                    return default;
                }
                assert(acc * 16 + v <= max) by (nonlinear_arith)
                    requires
                        acc <= (max - v) / 16,
                        v <= max;
                acc = acc * 16 + v;
            },
            None => {
                proof {
                    lemma_digits_invalid_prefix(digits, i + 1 - d);
                }
                return default;
            },
        }
        i = i + 1;
    }
    assert(chars@.subrange(d as int, end as int) =~= digits);
    acc
}

/// The hexadecimal number in an input field ("0x" prefix and surrounding white space allowed),
/// or `default` where it holds none that fits 16 bits.
pub fn parse_hex_u16(input: &str, default: u16) -> (r: u16)
    ensures
        r == parse_hex_spec(input@, default as nat, 0xFFFF),
{
    parse_hex_bounded(input, default as u64, 0xFFFF) as u16
}

/// The hexadecimal number in an input field, or `default` where it holds none that fits.
pub fn parse_hex_usize(input: &str, default: usize) -> (r: usize)
    ensures
        r == parse_hex_spec(input@, default as nat, usize::MAX as nat),
{
    parse_hex_bounded(input, default as u64, usize::MAX as u64) as usize
}

/// Bytes as upper-case two-digit hexadecimal separated by single spaces.
pub open spec fn byte_list_spec(bytes: Seq<u8>) -> Seq<char>
    decreases bytes.len(),
{
    if bytes.len() == 0 {
        Seq::empty()
    } else if bytes.len() == 1 {
        hex_byte_upper(bytes[0])
    } else {
        byte_list_spec(bytes.drop_last()) + seq![' '] + hex_byte_upper(bytes.last())
    }
}

pub fn format_byte_list(bytes: &[u8]) -> (r: String)
    ensures
        r@ == byte_list_spec(bytes@),
{
    let mut out = String::new();
    let mut i: usize = 0;
    while i < bytes.len()
        invariant
            0 <= i <= bytes@.len(),
            out@ == byte_list_spec(bytes@.subrange(0, i as int)),
        decreases bytes@.len() - i,
    {
        if i > 0 {
            push_char(&mut out, ' ');
        }
        push_hex_byte_upper(&mut out, bytes[i]);
        assert(bytes@.subrange(0, i + 1).drop_last() =~= bytes@.subrange(0, i as int));
        i = i + 1;
    }
    assert(bytes@.subrange(0, bytes@.len() as int) =~= bytes@);
    out
}

/// The 2-bit colour of pixel (x, y) of a tile whose 16 bytes start at `offset`: bit 7 - x of
/// row y's high byte over that of its low byte.
pub open spec fn tile_pixel_spec(data: Seq<u8>, offset: int, x: nat, y: nat) -> u8 {
    let low = data[offset + y * 2];
    let high = data[offset + y * 2 + 1];
    let bit = (7 - x) as u8;
    (((high >> bit) & 1) << 1u8) | ((low >> bit) & 1)
}

/// The colour of pixel (x, y) of tile `tile_index` in the chosen bank (bank 1 falls back to bank 0
/// where there is none); 0 for a tile past the end of the data.
pub fn decode_tile_pixel(
    tile_bank0: &[u8],
    tile_bank1: Option<&[u8]>,
    tile_index: usize,
    x: usize,
    y: usize,
    bank: usize,
) -> (r: u8)
    requires
        x < 8,
        y < 8,
        tile_index * 16 + 15 <= usize::MAX,
    ensures
        ({
            let data = if bank == 1 && tile_bank1 is Some { tile_bank1->0@ } else { tile_bank0@ };
            let offset = tile_index * 16;
            r == if offset + 15 >= data.len() { 0 } else { tile_pixel_spec(data, offset, x as nat, y as nat) }
        }),
        r < 4,
{
    let tile_data = if bank == 1 {
        match tile_bank1 {
            Some(b) => b,
            None => tile_bank0,
        }
    } else {
        tile_bank0
    };
    let tile_offset = tile_index * 16;
    if tile_offset + 15 >= tile_data.len() {
        return 0;
    }
    let low = tile_data[tile_offset + y * 2];
    let high = tile_data[tile_offset + y * 2 + 1];
    let bit = (7 - x) as u8;
    assert((((high >> bit) & 1) << 1u8) | ((low >> bit) & 1) < 4) by (bit_vector);
    (((high >> bit) & 1) << 1u8) | ((low >> bit) & 1)
}

/// The grey level of a DMG shade: 255, 192, 96, 0 for shades 0, 1, 2 and anything else.
pub open spec fn shade_value(shade: u8) -> u8 {
    if shade == 0 {
        255
    } else if shade == 1 {
        192
    } else if shade == 2 {
        96
    } else {
        0
    }
}

pub fn shade_to_rgba(shade: u8) -> (r: [u8; 4])
    ensures
        r@ == seq![shade_value(shade), shade_value(shade), shade_value(shade), 255u8],
{
    let value = if shade == 0 {
        255
    } else if shade == 1 {
        192
    } else if shade == 2 {
        96
    } else {
        0
    };
    let r = [value, value, value, 255];
    assert(r@ =~= seq![shade_value(shade), shade_value(shade), shade_value(shade), 255u8]);
    r
}

/// "CH1", "CH2"... for the enabled channels among the first `n`, separated by spaces.
pub open spec fn pan_label(pan: Seq<bool>, n: nat) -> Seq<char>
    decreases n,
{
    if n == 0 {
        Seq::empty()
    } else {
        let prev = pan_label(pan, (n - 1) as nat);
        if pan[n - 1] {
            let name = seq!['C', 'H', (('0' as int) + n) as char];
            if prev.len() == 0 { name } else { prev + seq![' '] + name }
        } else {
            prev
        }
    }
}

/// The channels panned to one side, or "none".
pub open spec fn pan_channels_spec(pan: Seq<bool>) -> Seq<char> {
    if pan_label(pan, 4).len() == 0 { "none"@ } else { pan_label(pan, 4) }
}

pub fn format_pan_channels(pan: &[bool; 4]) -> (r: String)
    ensures
        r@ == pan_channels_spec(pan@),
{
    let mut label = String::new();
    let mut index: usize = 0;
    while index < 4
        invariant
            0 <= index <= 4,
            pan@.len() == 4,
            label@ == pan_label(pan@, index as nat),
        decreases 4 - index,
    {
        if pan[index] {
            if label.unicode_len() > 0 {
                push_char(&mut label, ' ');
            }
            push_char(&mut label, 'C');
            push_char(&mut label, 'H');
            push_char(&mut label, byte_to_char((index + 1) as u8 + 0x30));
            assert(crate::text::byte_char(((index + 1) as u8 + 0x30) as u8) == (('0' as int) + index + 1) as char);
        }
        index = index + 1;
    }
    if label.unicode_len() == 0 {
        return String::from_str("none");
    }
    label
}

/// A tile bank as a sequence, where there is one.
pub open spec fn bank_view(bank: Option<&[u8]>) -> Option<Seq<u8>> {
    match bank {
        Some(b) => Some(b@),
        None => None,
    }
}

/// What `decode_tile_pixel` gives for these arguments.
pub open spec fn tile_shade(bank0: Seq<u8>, bank1: Option<Seq<u8>>, tile_index: int, x: int, y: int, bank: int) -> u8 {
    let data = if bank == 1 && bank1 is Some { bank1->0 } else { bank0 };
    let offset = tile_index * 16;
    if offset + 15 >= data.len() { 0 } else { tile_pixel_spec(data, offset, x as nat, y as nat) }
}

/// Byte `c` of an RGBA pixel of the given shade (`None`: a spot no tile covers, left clear).
pub open spec fn image_byte(shade: Option<u8>, c: int) -> u8 {
    match shade {
        Some(v) => if c < 3 { shade_value(v) } else { 255 },
        None => 0,
    }
}

/// Where a debugger image takes its pixels from.
enum ImageSource<'a> {
    /// Every tile of a VRAM bank, 16 to a row.
    Tiles { vram: &'a [u8] },
    /// A 32 x 32 tile map, with its CGB attribute map where there is one.
    BgMap { bank0: &'a [u8], bank1: Option<&'a [u8]>, tile_map: &'a [u8], attr_map: Option<&'a [u8]>, signed_mode: bool },
    /// Sprites, 10 to a row, each in a cell at least 8 pixels high.
    Sprites { bank0: &'a [u8], bank1: Option<&'a [u8]>, sprites: &'a [OamSprite], sprite_height: usize },
}

/// The byte at `index` of an optional table, 0 past its end or where there is none.
pub open spec fn table_byte(table: Option<Seq<u8>>, index: int) -> u8 {
    match table {
        Some(t) => if 0 <= index < t.len() { t[index] } else { 0 },
        None => 0,
    }
}

/// The tile a map entry names: in signed mode the number is read as an `i8` and offset by
/// 128.
pub open spec fn map_tile_index(tile_number: u8, signed_mode: bool) -> int {
    if !signed_mode {
        tile_number as int
    } else if tile_number < 128 {
        tile_number + 128
    } else {
        tile_number - 128
    }
}

/// The shade of pixel (x, y) of a tile map image.
pub open spec fn bg_map_pixel(
    bank0: Seq<u8>,
    bank1: Option<Seq<u8>>,
    tile_map: Seq<u8>,
    attr_map: Option<Seq<u8>>,
    signed_mode: bool,
    x: int,
    y: int,
) -> u8 {
    let map_index = (y / 8) * 32 + x / 8;
    let tile_number = table_byte(Some(tile_map), map_index);
    let attributes = table_byte(attr_map, map_index);
    let col = x % 8;
    let row = y % 8;
    tile_shade(
        bank0,
        bank1,
        map_tile_index(tile_number, signed_mode),
        if attributes & 0x20 != 0 { 7 - col } else { col },
        if attributes & 0x40 != 0 { 7 - row } else { row },
        if attributes & 0x08 != 0 { 1 } else { 0 },
    )
}

/// The height of a sprite's cell: its height, at least 8.
pub open spec fn sprite_cell(sprite_height: int) -> int {
    if sprite_height > 8 { sprite_height } else { 8 }
}

/// The shade of pixel (x, y) of a sprite image (`None` outside every sprite).
pub open spec fn sprite_pixel(
    bank0: Seq<u8>,
    bank1: Option<Seq<u8>>,
    sprites: Seq<OamSprite>,
    sprite_height: int,
    x: int,
    y: int,
) -> Option<u8> {
    let cell = sprite_cell(sprite_height);
    let index = (y / cell) * 10 + x / 8;
    let row = y % cell;
    if index < sprites.len() && row < sprite_height {
        let sprite = sprites[index];
        let col = x % 8;
        let local_y = row % 8;
        let tile_index = if sprite_height == 16 { (sprite.tile_number & 0xFE) + row / 8 } else { sprite.tile_number as int };
        Some(
            tile_shade(
                bank0,
                bank1,
                tile_index,
                if sprite.attributes & 0x20 != 0 { 7 - col } else { col },
                if sprite.attributes & 0x40 != 0 { 7 - local_y } else { local_y },
                if sprite.attributes & 0x08 != 0 { 1 } else { 0 },
            ),
        )
    } else {
        None
    }
}

impl<'a> ImageSource<'a> {
    spec fn width(&self) -> int {
        match self {
            ImageSource::Tiles { .. } => 128,
            ImageSource::BgMap { .. } => 256,
            ImageSource::Sprites { .. } => 80,
        }
    }

    /// The shade of pixel (x, y).
    spec fn pixel(&self, x: int, y: int) -> Option<u8> {
        match self {
            ImageSource::Tiles { vram } => {
                let tile = (y / 8) * 16 + x / 8;
                if tile < vram@.len() / 16 {
                    Some(tile_shade(vram@, None, tile, x % 8, y % 8, 0))
                } else {
                    None
                }
            },
            ImageSource::BgMap { bank0, bank1, tile_map, attr_map, signed_mode } => Some(
                bg_map_pixel(bank0@, bank_view(*bank1), tile_map@, bank_view(*attr_map), *signed_mode, x, y),
            ),
            ImageSource::Sprites { bank0, bank1, sprites, sprite_height } => sprite_pixel(
                bank0@,
                bank_view(*bank1),
                sprites@,
                *sprite_height as int,
                x,
                y,
            ),
        }
    }

    fn pixel_exec(&self, x: usize, y: usize) -> (r: Option<u8>)
        requires
            0 <= x < self.width(),
            y * 320 <= usize::MAX,
        ensures
            r == self.pixel(x as int, y as int),
    {
        match self {
            ImageSource::Tiles { vram } => {
                let tile = (y / 8) * 16 + x / 8;
                if tile < vram.len() / 16 {
                    Some(decode_tile_pixel(vram, None, tile, x % 8, y % 8, 0))
                } else {
                    None
                }
            },
            ImageSource::BgMap { bank0, bank1, tile_map, attr_map, signed_mode } => {
                let map_index = (y / 8) * 32 + x / 8;
                let tile_number = if map_index < tile_map.len() { tile_map[map_index] } else { 0 };
                let attributes = match attr_map {
                    Some(m) => if map_index < m.len() { m[map_index] } else { 0 },
                    None => 0,
                };
                let tile_index: usize = if !*signed_mode {
                    tile_number as usize
                } else if tile_number < 128 {
                    tile_number as usize + 128
                } else {
                    tile_number as usize - 128
                };
                let col = x % 8;
                let row = y % 8;
                let sample_x = if attributes & 0x20 != 0 { 7 - col } else { col };
                let sample_y = if attributes & 0x40 != 0 { 7 - row } else { row };
                let bank: usize = if attributes & 0x08 != 0 { 1 } else { 0 };
                Some(decode_tile_pixel(bank0, *bank1, tile_index, sample_x, sample_y, bank))
            },
            ImageSource::Sprites { bank0, bank1, sprites, sprite_height } => {
                let cell = if *sprite_height > 8 { *sprite_height } else { 8 };
                let index = (y / cell) * 10 + x / 8;
                let row = y % cell;
                if index < sprites.len() && row < *sprite_height {
                    let sprite = sprites[index];
                    let col = x % 8;
                    let local_y = row % 8;
                    let tile_index: usize = if *sprite_height == 16 {
                        (sprite.tile_number & 0xFE) as usize + row / 8
                    } else {
                        sprite.tile_number as usize
                    };
                    let sample_x = if sprite.attributes & 0x20 != 0 { 7 - col } else { col };
                    let sample_y = if sprite.attributes & 0x40 != 0 { 7 - local_y } else { local_y };
                    let bank: usize = if sprite.attributes & 0x08 != 0 { 1 } else { 0 };
                    Some(decode_tile_pixel(bank0, *bank1, tile_index, sample_x, sample_y, bank))
                } else {
                    None
                }
            },
        }
    }
}

/// Paints a `width` x `height` RGBA image from the source, row by row, four bytes a pixel.
fn fill_image(src: &ImageSource, width: usize, height: usize) -> (r: Vec<u8>)
    requires
        width == src.width(),
        width * height * 4 <= usize::MAX,
    ensures
        r@.len() == width * height * 4,
        forall|y: int, x: int, c: int|
            0 <= y < height && 0 <= x < width && 0 <= c < 4 ==> #[trigger] r@[(y * width + x) * 4 + c] == image_byte(
                src.pixel(x, y),
                c,
            ),
{
    let len = width * height * 4;
    let mut rgba: Vec<u8> = vec![0; len];
    let mut y: usize = 0;
    while y < height
        invariant
            y <= height,
            width == src.width(),
            width * height * 4 <= usize::MAX,
            len == width * height * 4,
            rgba@.len() == len,
            forall|yy: int, x: int, c: int|
                0 <= yy < y && 0 <= x < width && 0 <= c < 4 ==> #[trigger] rgba@[(yy * width + x) * 4 + c] == image_byte(
                    src.pixel(x, yy),
                    c,
                ),
        decreases height - y,
    {
        let mut x: usize = 0;
        while x < width
            invariant
                y < height,
                x <= width,
                width == src.width(),
                width * height * 4 <= usize::MAX,
                len == width * height * 4,
                rgba@.len() == len,
                forall|yy: int, xx: int, c: int|
                    0 <= yy < y && 0 <= xx < width && 0 <= c < 4 ==> #[trigger] rgba@[(yy * width + xx) * 4 + c] == image_byte(
                        src.pixel(xx, yy),
                        c,
                    ),
                forall|xx: int, c: int|
                    0 <= xx < x && 0 <= c < 4 ==> #[trigger] rgba@[(y * width + xx) * 4 + c] == image_byte(
                        src.pixel(xx, y as int),
                        c,
                    ),
            decreases width - x,
        {
            assert(y * 320 <= width * height * 4) by (nonlinear_arith)
                requires
                    y < height,
                    width >= 80;
            let shade = src.pixel_exec(x, y);
            assert((y * width + x) * 4 + 3 < width * height * 4) by (nonlinear_arith)
                requires
                    y < height,
                    x < width;
            let i = (y * width + x) * 4;
            assert(i + 3 < len) by (nonlinear_arith)
                requires
                    y < height,
                    x < width,
                    i == (y * width + x) * 4,
                    len == width * height * 4;
            let ghost before = rgba@;
            match shade {
                Some(v) => {
                    let value = shade_to_rgba(v);
                    rgba.set(i, value[0]);
                    rgba.set(i + 1, value[1]);
                    rgba.set(i + 2, value[2]);
                    rgba.set(i + 3, value[3]);
                },
                None => {
                    rgba.set(i, 0);
                    rgba.set(i + 1, 0);
                    rgba.set(i + 2, 0);
                    rgba.set(i + 3, 0);
                },
            }
            proof {
                assert forall|yy: int, xx: int, c: int|
                    0 <= yy < y && 0 <= xx < width && 0 <= c < 4 implies #[trigger] rgba@[(yy * width + xx) * 4 + c]
                    == before[(yy * width + xx) * 4 + c] by {
                    assert((yy * width + xx) * 4 + c < i) by (nonlinear_arith)
                        requires
                            0 <= yy < y,
                            0 <= xx < width,
                            0 <= c < 4,
                            i == (y * width + x) * 4;
                }
                assert forall|xx: int, c: int| 0 <= xx < x && 0 <= c < 4 implies #[trigger] rgba@[(y * width + xx) * 4 + c]
                    == before[(y * width + xx) * 4 + c] by {
                    assert((y * width + xx) * 4 + c < i) by (nonlinear_arith)
                        requires
                            0 <= xx < x,
                            0 <= c < 4,
                            i == (y * width + x) * 4;
                }
                assert forall|c: int| 0 <= c < 4 implies #[trigger] rgba@[(y * width + x) * 4 + c] == image_byte(
                    src.pixel(x as int, y as int),
                    c,
                ) by {
                    assert((y * width + x) * 4 + c == i + c);
                }
            }
            x = x + 1;
        }
        y = y + 1;
    }
    rgba
}

/// The height of the VRAM image: eight pixels for each row of 16 tiles.
pub open spec fn vram_image_height(len: nat) -> int {
    ((((len / 16) + 15) / 16) * 8) as int
}

/// Every tile of `vram`, 16 to a row, as an RGBA image (with its width and height). Pixel
/// (x, y) shows pixel (x % 8, y % 8) of tile (y / 8) * 16 + x / 8; the spots past the last tile
/// stay clear.
pub fn build_vram_image(vram: &[u8]) -> (r: (Vec<u8>, usize, usize))
    requires
        128 * vram_image_height(vram@.len()) * 4 <= usize::MAX,
    ensures
        r.1 == 128 && r.2 == vram_image_height(vram@.len()),
        r.0@.len() == r.1 * r.2 * 4,
        forall|y: int, x: int, c: int|
            0 <= y < r.2 && 0 <= x < 128 && 0 <= c < 4 ==> #[trigger] r.0@[(y * 128 + x) * 4 + c] == image_byte(
                {
                    let tile = (y / 8) * 16 + x / 8;
                    if tile < vram@.len() / 16 {
                        Some(tile_shade(vram@, None, tile, x % 8, y % 8, 0))
                    } else {
                        None
                    }
                },
                c,
            ),
{
    let tile_count = vram.len() / 16;
    let tile_rows = (tile_count + 15) / 16;
    let width: usize = 128;
    let height = tile_rows * 8;
    let src = ImageSource::Tiles { vram };
    let rgba = fill_image(&src, width, height);
    (rgba, width, height)
}

/// A 32 x 32 tile map as a 256 x 256 RGBA image: each entry's tile (from bank 1 where its
/// attributes say so), flipped as its attributes say; entries past the end of a map read 0.
pub fn build_bg_map_image(
    tile_bank0: &[u8],
    tile_bank1: Option<&[u8]>,
    tile_map: &[u8],
    attr_map: Option<&[u8]>,
    signed_mode: bool,
) -> (r: (Vec<u8>, usize, usize))
    ensures
        r.1 == 256 && r.2 == 256,
        r.0@.len() == 256 * 256 * 4,
        forall|y: int, x: int, c: int|
            0 <= y < 256 && 0 <= x < 256 && 0 <= c < 4 ==> #[trigger] r.0@[(y * 256 + x) * 4 + c] == image_byte(
                Some(
                    bg_map_pixel(tile_bank0@, bank_view(tile_bank1), tile_map@, bank_view(attr_map), signed_mode, x, y),
                ),
                c,
            ),
{
    let src = ImageSource::BgMap { bank0: tile_bank0, bank1: tile_bank1, tile_map, attr_map, signed_mode };
    let rgba = fill_image(&src, 256, 256);
    (rgba, 256, 256)
}

/// The height of the sprite image: one cell (at least 8 pixels) for each row of 10 sprites.
pub open spec fn oam_image_height(count: nat, sprite_height: int) -> int {
    (((count + 9) / 10) as int) * sprite_cell(sprite_height)
}

/// Sprites as an 80-pixel-wide RGBA image, 10 to a row, each in a cell `sprite_height` (at
/// least 8) high: each sprite's tile (both tiles of an 8x16 sprite), from bank 1 where its
/// attributes say so, flipped as they say; the rest stays clear.
pub fn build_oam_image(tile_bank0: &[u8], tile_bank1: Option<&[u8]>, sprites: &[OamSprite], sprite_height: usize) -> (r: (
    Vec<u8>,
    usize,
    usize,
))
    requires
        80 * oam_image_height(sprites@.len(), sprite_height as int) * 4 <= usize::MAX,
    ensures
        r.1 == 80 && r.2 == oam_image_height(sprites@.len(), sprite_height as int),
        r.0@.len() == r.1 * r.2 * 4,
        forall|y: int, x: int, c: int|
            0 <= y < r.2 && 0 <= x < 80 && 0 <= c < 4 ==> #[trigger] r.0@[(y * 80 + x) * 4 + c] == image_byte(
                sprite_pixel(tile_bank0@, bank_view(tile_bank1), sprites@, sprite_height as int, x, y),
                c,
            ),
{
    let rows = sprites.len() / 10 + if sprites.len() % 10 != 0 { 1 } else { 0 };
    let cell = if sprite_height > 8 { sprite_height } else { 8 };
    assert(rows * cell <= usize::MAX) by (nonlinear_arith)
        requires
            80 * (rows * cell) * 4 <= usize::MAX;
    let height = rows * cell;
    let src = ImageSource::Sprites { bank0: tile_bank0, bank1: tile_bank1, sprites, sprite_height };
    let rgba = fill_image(&src, 80, height);
    (rgba, 80, height)
}

} // verus!

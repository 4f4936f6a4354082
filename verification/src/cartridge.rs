use vstd::prelude::*;
use crate::mbcs::{get_mbc, gb_mode_spec, supported_mbc, CartridgeMbc};
use crate::text::{byte_char, byte_to_char, push_char, push_hex_byte_upper, hex_byte_upper};

verus! {

/// Memory bank controller interface: how a cartridge answers the CPU's ROM and RAM accesses.
pub trait Mbc {
    fn read_rom(&self, address: u16) -> u8;

    /// A cartridge without RAM reads 0xFF there.
    fn read_ram(&self, address: u16) -> (r: u8)
        default_ensures
            r == 0xFF,
    {
        0xFF
    }

    fn write_rom(&mut self, address: u16, value: u8) {
    }

    fn write_ram(&mut self, address: u16, value: u8) {
    }

    /// The battery-backed RAM, where the cartridge has one.
    fn get_battery_ram(&self) -> (r: Option<&[u8]>)
        default_ensures
            r is None,
    {
        None
    }

    /// Overwrites the battery-backed RAM with the given bytes (as many as fit).
    fn set_battery_ram(&mut self, data: &[u8]) {
    }
}

pub struct CartridgeHeader {
    pub entry: [u8; 4],
    pub title: String,
    pub logo: [u8; 0x30],
    pub cgb_flag: u8,
    pub sgb_flag: bool,
    pub mbc_type: MBCTypes,
    pub rom_size: u32,
    pub ram_size: u32,
    pub company: String,
}

#[derive(PartialEq, Eq, Structural, Clone, Copy, Debug)]
pub enum MBCTypes {
    RomOnly,
    Mbc1 { ram: bool, battery: bool },
    Mmm01 { ram: bool, battery: bool },
    Mbc2 { ram: bool, battery: bool },
    Mbc3 { ram: bool, timer: bool, battery: bool },
    Mbc5 { ram: bool, battery: bool, rumble: bool },
    Mbc6,
    Mbc7,
    Unknown,
}

#[derive(PartialEq, Eq, Structural, Copy, Clone, Debug)]
pub enum GbMode {
    DmgMode,
    NonCgbMode,
    CgbMode,
}

/// The header checksum over the first `n` bytes of 0x134..=0x14C: each byte is subtracted
/// together with one, modulo 256.
pub open spec fn checksum_prefix(rom: Seq<u8>, n: nat) -> u8
    decreases n,
{
    if n == 0 {
        0
    } else {
        ((checksum_prefix(rom, (n - 1) as nat) as int - rom[0x134 + n - 1] as int - 1) % 256) as u8
    }
}

/// The header checksum of a ROM image (over bytes 0x134..=0x14C).
pub open spec fn header_checksum(rom: Seq<u8>) -> u8 {
    checksum_prefix(rom, 25)
}

/// Whether the header checksum stored at 0x14D matches the header.
pub(crate) fn checksum(rom_data: &Vec<u8>) -> (r: bool)
    requires
        rom_data.len() > 0x14D,
    ensures
        r == (header_checksum(rom_data@) == rom_data@[0x14D]),
{
    let mut x: u8 = 0;
    let mut i: usize = 0x0134;
    while i <= 0x014C
        invariant
            0x134 <= i <= 0x14D,
            rom_data.len() > 0x14D,
            x == checksum_prefix(rom_data@, (i - 0x134) as nat),
        decreases 0x14D - i,
    {
        let b = rom_data[i];
        assert(checksum_prefix(rom_data@, (i + 1 - 0x134) as nat) == ((x as int - b as int - 1) % 256) as u8);
        x = x.wrapping_sub(b).wrapping_sub(1);
        i = i + 1;
    }
    x == rom_data[0x014D]
}

/// The controller named by the cartridge-type byte at 0x147.
pub open spec fn mbc_type_spec(code: u8) -> MBCTypes {
    match code {
        0x00 => MBCTypes::RomOnly,
        0x01 => MBCTypes::Mbc1 { ram: false, battery: false },
        0x02 => MBCTypes::Mbc1 { ram: true, battery: false },
        0x03 => MBCTypes::Mbc1 { ram: true, battery: true },
        0x05 => MBCTypes::Mbc2 { ram: false, battery: false },
        0x06 => MBCTypes::Mbc2 { ram: false, battery: true },
        0x0B => MBCTypes::Mmm01 { ram: false, battery: false },
        0x0C => MBCTypes::Mmm01 { ram: true, battery: false },
        0x0D => MBCTypes::Mmm01 { ram: true, battery: true },
        0x0F => MBCTypes::Mbc3 { ram: false, timer: true, battery: true },
        0x10 => MBCTypes::Mbc3 { ram: true, timer: true, battery: true },
        0x11 => MBCTypes::Mbc3 { ram: false, timer: false, battery: false },
        0x12 => MBCTypes::Mbc3 { ram: true, timer: false, battery: false },
        0x13 => MBCTypes::Mbc3 { ram: true, timer: false, battery: true },
        0x19 => MBCTypes::Mbc5 { ram: false, battery: false, rumble: false },
        0x1A => MBCTypes::Mbc5 { ram: true, battery: false, rumble: false },
        0x1B => MBCTypes::Mbc5 { ram: true, battery: true, rumble: false },
        0x1C => MBCTypes::Mbc5 { ram: false, battery: false, rumble: true },
        0x1D => MBCTypes::Mbc5 { ram: true, battery: false, rumble: true },
        0x1E => MBCTypes::Mbc5 { ram: true, battery: true, rumble: true },
        0x20 => MBCTypes::Mbc6,
        0x22 => MBCTypes::Mbc7,
        _ => MBCTypes::Unknown,
    }
}

pub(crate) fn get_mbc_type(mbc_type: &u8) -> (r: MBCTypes)
    ensures
        r == mbc_type_spec(*mbc_type),
{
    match mbc_type {
        0x00 => MBCTypes::RomOnly,
        0x01 => MBCTypes::Mbc1 { ram: false, battery: false },
        0x02 => MBCTypes::Mbc1 { ram: true, battery: false },
        0x03 => MBCTypes::Mbc1 { ram: true, battery: true },
        0x05 => MBCTypes::Mbc2 { ram: false, battery: false },
        0x06 => MBCTypes::Mbc2 { ram: false, battery: true },
        0x0B => MBCTypes::Mmm01 { ram: false, battery: false },
        0x0C => MBCTypes::Mmm01 { ram: true, battery: false },
        0x0D => MBCTypes::Mmm01 { ram: true, battery: true },
        0x0F => MBCTypes::Mbc3 { ram: false, timer: true, battery: true },
        0x10 => MBCTypes::Mbc3 { ram: true, timer: true, battery: true },
        0x11 => MBCTypes::Mbc3 { ram: false, timer: false, battery: false },
        0x12 => MBCTypes::Mbc3 { ram: true, timer: false, battery: false },
        0x13 => MBCTypes::Mbc3 { ram: true, timer: false, battery: true },
        0x19 => MBCTypes::Mbc5 { ram: false, battery: false, rumble: false },
        0x1A => MBCTypes::Mbc5 { ram: true, battery: false, rumble: false },
        0x1B => MBCTypes::Mbc5 { ram: true, battery: true, rumble: false },
        0x1C => MBCTypes::Mbc5 { ram: false, battery: false, rumble: true },
        0x1D => MBCTypes::Mbc5 { ram: true, battery: false, rumble: true },
        0x1E => MBCTypes::Mbc5 { ram: true, battery: true, rumble: true },
        0x20 => MBCTypes::Mbc6,
        0x22 => MBCTypes::Mbc7,
        _ => MBCTypes::Unknown,
    }
}

/// External RAM size in bytes for the RAM-size byte at 0x149.
pub open spec fn ram_size_spec(code: u8) -> u32 {
    match code {
        0x02 => 0x2000,
        0x03 => 0x8000,
        0x04 => 0x200000,
        0x05 => 0x10000,
        _ => 0,
    }
}

fn get_ram_size(ram_size: &u8) -> (r: u32)
    ensures
        r == ram_size_spec(*ram_size),
{
    match ram_size {
        0x00 => 0,
        0x02 => 0x2000,
        0x03 => 0x8000,
        0x04 => 0x200000,
        0x05 => 0x10000,
        _ => 0,
    }
}

/// The characters that `str::trim` removes: Unicode white space (`char::is_whitespace`).
pub open spec fn is_trim_space(c: char) -> bool {
    ||| ('\t' <= c && c <= '\r')
    ||| c == ' '
    ||| c == '\u{85}'
    ||| c == '\u{A0}'
    ||| c == '\u{1680}'
    ||| ('\u{2000}' <= c && c <= '\u{200A}')
    ||| c == '\u{2028}'
    ||| c == '\u{2029}'
    ||| c == '\u{202F}'
    ||| c == '\u{205F}'
    ||| c == '\u{3000}'
}

pub fn is_trim_space_exec(c: char) -> (r: bool)
    ensures
        r == is_trim_space(c),
{
    ('\t' <= c && c <= '\r') || c == ' ' || c == '\u{85}' || c == '\u{A0}' || c == '\u{1680}' || ('\u{2000}' <= c
        && c <= '\u{200A}') || c == '\u{2028}' || c == '\u{2029}' || c == '\u{202F}' || c == '\u{205F}' || c
        == '\u{3000}'
}

/// `s` without its leading white space.
pub open spec fn trim_start(s: Seq<char>) -> Seq<char>
    decreases s.len(),
{
    if s.len() > 0 && is_trim_space(s[0]) {
        trim_start(s.drop_first())
    } else {
        s
    }
}

/// `s` without its trailing white space.
pub open spec fn trim_end(s: Seq<char>) -> Seq<char>
    decreases s.len(),
{
    if s.len() > 0 && is_trim_space(s.last()) {
        trim_end(s.drop_last())
    } else {
        s
    }
}

/// The title as the header stores it: the bytes 0x134..=0x143 without the NUL bytes, each read
/// as a character, with surrounding white space trimmed.
pub open spec fn title_spec(rom: Seq<u8>) -> Seq<char> {
    trim_end(
        trim_start(rom.subrange(0x134, 0x144).filter(|b: u8| b != 0).map_values(|b: u8| byte_char(b))),
    )
}

proof fn lemma_filter_push(s: Seq<u8>, b: u8)
    ensures
        s.push(b).filter(|x: u8| x != 0) == if b != 0 {
            s.filter(|x: u8| x != 0).push(b)
        } else {
            s.filter(|x: u8| x != 0)
        },
{
    reveal(Seq::filter);
    assert(s.push(b).drop_last() =~= s);
}

fn parse_title(rom_data: &Vec<u8>) -> (title: String)
    requires
        rom_data.len() > 0x143,
    ensures
        title@ == title_spec(rom_data@),
{
    let ghost raw = rom_data@.subrange(0x134, 0x144);
    let mut chars: Vec<char> = Vec::new();
    let mut i: usize = 0x134;
    while i < 0x144
        invariant
            0x134 <= i <= 0x144,
            rom_data.len() > 0x143,
            raw == rom_data@.subrange(0x134, 0x144),
            chars@ == rom_data@.subrange(0x134, i as int).filter(|b: u8| b != 0).map_values(
                |b: u8| byte_char(b),
            ),
        decreases 0x144 - i,
    {
        let b = rom_data[i];
        proof {
            assert(rom_data@.subrange(0x134, i + 1) =~= rom_data@.subrange(0x134, i as int).push(b));
            lemma_filter_push(rom_data@.subrange(0x134, i as int), b);
        }
        if b != 0 {
            chars.push(byte_to_char(b));
        }
        i = i + 1;
    }
    assert(rom_data@.subrange(0x134, 0x144) == raw);
    let ghost s = chars@;
    let n = chars.len();
    let mut start: usize = 0;
    assert(s.subrange(0, n as int) =~= s);
    while start < n && is_trim_space_exec(chars[start])
        invariant
            0 <= start <= n,
            n == chars.len(),
            s == chars@,
            trim_start(s) == trim_start(s.subrange(start as int, n as int)),
        decreases n - start,
    {
        assert(s.subrange(start as int, n as int).drop_first() =~= s.subrange(start + 1, n as int));
        start = start + 1;
    }
    assert(trim_start(s.subrange(start as int, n as int)) == s.subrange(start as int, n as int));
    let mut end: usize = n;
    while end > start && is_trim_space_exec(chars[end - 1])
        invariant
            start <= end <= n,
            n == chars.len(),
            s == chars@,
            trim_end(s.subrange(start as int, n as int)) == trim_end(s.subrange(start as int, end as int)),
        decreases end - start,
    {
        assert(s.subrange(start as int, end as int).drop_last() =~= s.subrange(start as int, end - 1));
        end = end - 1;
    }
    assert(trim_end(s.subrange(start as int, end as int)) == s.subrange(start as int, end as int));
    let mut title = String::new();
    let mut j: usize = start;
    while j < end
        invariant
            start <= j <= end <= n,
            n == chars.len(),
            s == chars@,
            title@ == s.subrange(start as int, j as int),
        decreases end - j,
    {
        push_char(&mut title, chars[j]);
        assert(s.subrange(start as int, j + 1) =~= s.subrange(start as int, j as int).push(s[j as int]));
        j = j + 1;
    }
    title
}

/// The publisher named by a two-character new licensee code, where the table knows it.
pub open spec fn licensee_spec(first: u8, second: u8) -> Option<Seq<char>> {
    match (first, second) {
        (0x30, 0x31) => Some("Nintendo"@),
        (0x30, 0x38) => Some("Capcom"@),
        (0x31, 0x33) => Some("Electronic Arts"@),
        (0x31, 0x38) => Some("Hudson Soft"@),
        (0x31, 0x39) => Some("b-ai"@),
        (0x32, 0x30) => Some("kss"@),
        (0x32, 0x32) => Some("pow"@),
        (0x32, 0x34) => Some("PCM Complete"@),
        (0x32, 0x35) => Some("san-x"@),
        (0x32, 0x38) => Some("Kemco Japan"@),
        (0x32, 0x39) => Some("seta"@),
        (0x33, 0x30) => Some("Viacom"@),
        (0x33, 0x31) => Some("Nintendo"@),
        (0x33, 0x32) => Some("Bandai"@),
        (0x33, 0x33) => Some("Ocean/Acclaim"@),
        (0x33, 0x34) => Some("Konami"@),
        (0x33, 0x35) => Some("Hector"@),
        (0x33, 0x37) => Some("Taito"@),
        (0x33, 0x38) => Some("Hudson"@),
        (0x33, 0x39) => Some("Banpresto"@),
        (0x34, 0x31) => Some("Ubi Soft"@),
        (0x34, 0x32) => Some("Atlus"@),
        (0x34, 0x34) => Some("Malibu"@),
        (0x34, 0x36) => Some("angel"@),
        (0x34, 0x37) => Some("Bullet-Proof"@),
        (0x34, 0x39) => Some("irem"@),
        (0x35, 0x30) => Some("Absolute"@),
        (0x35, 0x31) => Some("Acclaim"@),
        (0x35, 0x32) => Some("Activision"@),
        (0x35, 0x33) => Some("American sammy"@),
        (0x35, 0x34) => Some("Konami"@),
        (0x35, 0x35) => Some("Hi tech entertainment"@),
        (0x35, 0x36) => Some("LJN"@),
        (0x35, 0x37) => Some("Matchbox"@),
        (0x35, 0x38) => Some("Mattel"@),
        (0x35, 0x39) => Some("Milton Bradley"@),
        (0x36, 0x30) => Some("Titus"@),
        (0x36, 0x31) => Some("Virgin"@),
        (0x36, 0x34) => Some("LucasArts"@),
        (0x36, 0x37) => Some("Ocean"@),
        (0x36, 0x39) => Some("Electronic Arts"@),
        (0x37, 0x30) => Some("Infogrames"@),
        (0x37, 0x31) => Some("Interplay"@),
        (0x37, 0x32) => Some("Broderbund"@),
        (0x37, 0x33) => Some("sculptured"@),
        (0x37, 0x35) => Some("sci"@),
        (0x37, 0x38) => Some("THQ"@),
        (0x37, 0x39) => Some("Accolade"@),
        (0x38, 0x30) => Some("misawa"@),
        (0x38, 0x33) => Some("lozc"@),
        (0x38, 0x36) => Some("Tokuma Shoten Intermedia"@),
        (0x38, 0x37) => Some("Tsukuda Original"@),
        (0x39, 0x31) => Some("Chunsoft"@),
        (0x39, 0x32) => Some("Video system"@),
        (0x39, 0x33) => Some("Ocean/Acclaim"@),
        (0x39, 0x35) => Some("Varie"@),
        (0x39, 0x36) => Some("Yonezawa/s'pal"@),
        (0x39, 0x37) => Some("Kaneko"@),
        (0x39, 0x39) => Some("Pack in soft"@),
        (0x41, 0x34) => Some("Konami (Yu-Gi-Oh!)"@),
        _ => None,
    }
}

fn licensee_name(first: u8, second: u8) -> (r: Option<&'static str>)
    ensures
        r is Some <==> licensee_spec(first, second) is Some,
        r matches Some(name) ==> name@ == licensee_spec(first, second)->0,
{
    match (first, second) {
        (0x30, 0x31) => Some("Nintendo"),
        (0x30, 0x38) => Some("Capcom"),
        (0x31, 0x33) => Some("Electronic Arts"),
        (0x31, 0x38) => Some("Hudson Soft"),
        (0x31, 0x39) => Some("b-ai"),
        (0x32, 0x30) => Some("kss"),
        (0x32, 0x32) => Some("pow"),
        (0x32, 0x34) => Some("PCM Complete"),
        (0x32, 0x35) => Some("san-x"),
        (0x32, 0x38) => Some("Kemco Japan"),
        (0x32, 0x39) => Some("seta"),
        (0x33, 0x30) => Some("Viacom"),
        (0x33, 0x31) => Some("Nintendo"),
        (0x33, 0x32) => Some("Bandai"),
        (0x33, 0x33) => Some("Ocean/Acclaim"),
        (0x33, 0x34) => Some("Konami"),
        (0x33, 0x35) => Some("Hector"),
        (0x33, 0x37) => Some("Taito"),
        (0x33, 0x38) => Some("Hudson"),
        (0x33, 0x39) => Some("Banpresto"),
        (0x34, 0x31) => Some("Ubi Soft"),
        (0x34, 0x32) => Some("Atlus"),
        (0x34, 0x34) => Some("Malibu"),
        (0x34, 0x36) => Some("angel"),
        (0x34, 0x37) => Some("Bullet-Proof"),
        (0x34, 0x39) => Some("irem"),
        (0x35, 0x30) => Some("Absolute"),
        (0x35, 0x31) => Some("Acclaim"),
        (0x35, 0x32) => Some("Activision"),
        (0x35, 0x33) => Some("American sammy"),
        (0x35, 0x34) => Some("Konami"),
        (0x35, 0x35) => Some("Hi tech entertainment"),
        (0x35, 0x36) => Some("LJN"),
        (0x35, 0x37) => Some("Matchbox"),
        (0x35, 0x38) => Some("Mattel"),
        (0x35, 0x39) => Some("Milton Bradley"),
        (0x36, 0x30) => Some("Titus"),
        (0x36, 0x31) => Some("Virgin"),
        (0x36, 0x34) => Some("LucasArts"),
        (0x36, 0x37) => Some("Ocean"),
        (0x36, 0x39) => Some("Electronic Arts"),
        (0x37, 0x30) => Some("Infogrames"),
        (0x37, 0x31) => Some("Interplay"),
        (0x37, 0x32) => Some("Broderbund"),
        (0x37, 0x33) => Some("sculptured"),
        (0x37, 0x35) => Some("sci"),
        (0x37, 0x38) => Some("THQ"),
        (0x37, 0x39) => Some("Accolade"),
        (0x38, 0x30) => Some("misawa"),
        (0x38, 0x33) => Some("lozc"),
        (0x38, 0x36) => Some("Tokuma Shoten Intermedia"),
        (0x38, 0x37) => Some("Tsukuda Original"),
        (0x39, 0x31) => Some("Chunsoft"),
        (0x39, 0x32) => Some("Video system"),
        (0x39, 0x33) => Some("Ocean/Acclaim"),
        (0x39, 0x35) => Some("Varie"),
        (0x39, 0x36) => Some("Yonezawa/s'pal"),
        (0x39, 0x37) => Some("Kaneko"),
        (0x39, 0x39) => Some("Pack in soft"),
        (0x41, 0x34) => Some("Konami (Yu-Gi-Oh!)"),
        _ => None,
    }
}

/// The bytes read as UTF-8 text, or "00" where they are not valid UTF-8.
pub open spec fn code_text(code: Seq<u8>) -> Seq<char> {
    if vstd::utf8::valid_utf8(code) {
        vstd::utf8::decode_utf8(code)
    } else {
        "00"@
    }
}

/// The company string of the header: the old licensee byte in hexadecimal unless it is 0x33,
/// otherwise the publisher of the two-character new licensee code.
pub open spec fn company_spec(old_code: u8, new_code: Seq<u8>) -> Seq<char> {
    if old_code != 0x33 {
        "Old Licensee: "@ + hex_byte_upper(old_code)
    } else {
        match licensee_spec(new_code[0], new_code[1]) {
            Some(name) => name,
            None => "Unknown: "@ + code_text(new_code),
        }
    }
}

/// Reads bytes as UTF-8 text (`std::str::from_utf8`); `None` where they are not valid UTF-8.
#[verifier::external_body]
fn str_from_utf8(bytes: &[u8]) -> (r: Option<&str>)
    ensures
        r is Some <==> vstd::utf8::valid_utf8(bytes@),
        r matches Some(s) ==> s@ == vstd::utf8::decode_utf8(bytes@),
{
    std::str::from_utf8(bytes).ok()
}

fn get_company_name(old_code: u8, new_code: &[u8]) -> (r: String)
    requires
        new_code.len() == 2,
    ensures
        r@ == company_spec(old_code, new_code@),
{
    if old_code != 0x33 {
        let mut r = String::from_str("Old Licensee: ");
        push_hex_byte_upper(&mut r, old_code);
        return r;
    }
    match licensee_name(new_code[0], new_code[1]) {
        Some(name) => String::from_str(name),
        None => {
            let code_str = match str_from_utf8(new_code) {
                Some(s) => s,
                None => "00",
            };
            let mut r = String::from_str("Unknown: ");
            r.append(code_str);
            r
        }
    }
}

/// Size in bytes that the ROM-size byte at 0x148 announces.
pub open spec fn rom_size_spec(code: u8) -> int {
    32 * (1u32 << code)
}

impl CartridgeHeader {
    /// The header fields as they are stored in the given ROM image.
    pub open spec fn describes(&self, rom: Seq<u8>) -> bool {
        &&& self.entry@ == rom.subrange(0x100, 0x104)
        &&& self.logo@ == rom.subrange(0x104, 0x134)
        &&& self.title@ == title_spec(rom)
        &&& self.cgb_flag == rom[0x143]
        &&& self.sgb_flag == (rom[0x146] == 0x03)
        &&& self.mbc_type == mbc_type_spec(rom[0x147])
        &&& self.rom_size == rom_size_spec(rom[0x148])
        &&& self.ram_size == ram_size_spec(rom[0x149])
        &&& self.company@ == company_spec(rom[0x14B], rom.subrange(0x144, 0x146))
    }

    /// Parses the cartridge header; fails when the header checksum does not match.
    pub fn new(rom_data: &Vec<u8>) -> (r: Result<Self, &'static str>)
        requires
            rom_data.len() > 0x14D,
            header_checksum(rom_data@) == rom_data@[0x14D] ==> rom_data@[0x148] <= 26,
        ensures
            r is Ok <==> header_checksum(rom_data@) == rom_data@[0x14D],
            r matches Ok(h) ==> h.describes(rom_data@),
            r matches Err(e) ==> e@ == "Cartridge is not a valid GB ROM"@,
    {
        if checksum(rom_data) {
            let mbc_type: MBCTypes = get_mbc_type(&rom_data[0x0147]);
            let shift = rom_data[0x0148];
            assert(shift <= 26 ==> (1u32 << shift) <= 0x4000000) by (bit_vector);
            let rom_size: u32 = 32 * (1u32 << shift);
            let ram_size: u32 = get_ram_size(&rom_data[0x0149]);
            let sgb_flag = rom_data[0x146] == 0x03;
            let code = vec![rom_data[0x144], rom_data[0x145]];
            assert(code@ =~= rom_data@.subrange(0x144, 0x146));
            let company = get_company_name(rom_data[0x14B], code.as_slice());
            let entry = [rom_data[0x100], rom_data[0x101], rom_data[0x102], rom_data[0x103]];
            assert(entry@ =~= rom_data@.subrange(0x100, 0x104));
            let mut logo = [0u8; 0x30];
            let mut i: usize = 0;
            while i < 0x30
                invariant
                    0 <= i <= 0x30,
                    rom_data.len() > 0x14D,
                    logo@.len() == 0x30,
                    forall|k: int| 0 <= k < i ==> logo@[k] == rom_data@[0x104 + k],
                decreases 0x30 - i,
            {
                logo[i] = rom_data[0x104 + i];
                i = i + 1;
            }
            assert(logo@ =~= rom_data@.subrange(0x104, 0x134));
            Ok(Self {
                entry,
                logo,
                title: parse_title(rom_data),
                cgb_flag: rom_data[0x143],
                sgb_flag,
                mbc_type,
                rom_size,
                ram_size,
                company,
            })
        } else {
            Err("Cartridge is not a valid GB ROM")
        }
    }
}


/// Parses the header of a ROM image held in memory and builds its controller. `saved` is the
/// content of the cartridge's save file, where there is one.
pub fn load_cartridge_from_bytes(rom_data: Vec<u8>, saved: Option<Vec<u8>>) -> (r: Result<(CartridgeMbc, GbMode), String>)
    requires
        rom_data.len() > 0x14D,
        header_checksum(rom_data@) == rom_data@[0x14D] ==> rom_data@[0x148] <= 26 && supported_mbc(
            mbc_type_spec(rom_data@[0x147]),
        ),
    ensures
        r is Ok <==> header_checksum(rom_data@) == rom_data@[0x14D],
        r matches Ok(c) ==> c.0.rom_data_view() == rom_data@ && c.1 == gb_mode_spec(rom_data@[0x143]),
        r matches Ok(c) ==> exists|h: CartridgeHeader| #[trigger] h.describes(rom_data@) && c.0.built(rom_data, h, saved),
        r matches Err(e) ==> e@ == "Cartridge is not a valid GB ROM"@,
{
    match CartridgeHeader::new(&rom_data) {
        Ok(header) => Ok(get_mbc(rom_data, header, saved)),
        Err(f) => Err(String::from_str(f)),
    }
}

/// The controller family of a parsed cartridge type, as a small number: 0 none, 1 MBC1,
/// 2 MBC2, 3 MMM01, 4 MBC3, 5 MBC5, 6 MBC6, 7 MBC7, 8 unknown.
pub open spec fn mbc_family(t: MBCTypes) -> int {
    match t {
        MBCTypes::RomOnly => 0,
        MBCTypes::Mbc1 { .. } => 1,
        MBCTypes::Mbc2 { .. } => 2,
        MBCTypes::Mmm01 { .. } => 3,
        MBCTypes::Mbc3 { .. } => 4,
        MBCTypes::Mbc5 { .. } => 5,
        MBCTypes::Mbc6 => 6,
        MBCTypes::Mbc7 => 7,
        MBCTypes::Unknown => 8,
    }
}

/// Whether a parsed cartridge type carries a battery.
pub open spec fn mbc_battery(t: MBCTypes) -> bool {
    match t {
        MBCTypes::Mbc1 { battery, .. } => battery,
        MBCTypes::Mmm01 { battery, .. } => battery,
        MBCTypes::Mbc2 { battery, .. } => battery,
        MBCTypes::Mbc3 { battery, .. } => battery,
        MBCTypes::Mbc5 { battery, .. } => battery,
        _ => false,
    }
}

/// Whether a parsed cartridge type carries external RAM.
pub open spec fn mbc_ram(t: MBCTypes) -> bool {
    match t {
        MBCTypes::Mbc1 { ram, .. } => ram,
        MBCTypes::Mmm01 { ram, .. } => ram,
        MBCTypes::Mbc2 { ram, .. } => ram,
        MBCTypes::Mbc3 { ram, .. } => ram,
        MBCTypes::Mbc5 { ram, .. } => ram,
        _ => false,
    }
}

/// Whether a parsed cartridge type has a real-time clock.
pub open spec fn mbc_timer(t: MBCTypes) -> bool {
    match t {
        MBCTypes::Mbc3 { timer, .. } => timer,
        _ => false,
    }
}

/// Whether a parsed cartridge type has a rumble motor.
pub open spec fn mbc_rumble(t: MBCTypes) -> bool {
    match t {
        MBCTypes::Mbc5 { rumble, .. } => rumble,
        _ => false,
    }
}

/// The cartridge-type byte follows the header's table: 0x00 is ROM only, 0x01..=0x03 MBC1,
/// 0x05..=0x06 MBC2, 0x0B..=0x0D MMM01, 0x0F..=0x13 MBC3, 0x19..=0x1E MBC5, 0x20 MBC6 and
/// 0x22 MBC7, every other byte unknown. Exactly the codes listed with BATTERY (0x03, 0x06,
/// 0x0D, 0x0F, 0x10, 0x13, 0x1B, 0x1E) give a battery, exactly those listed with RAM give
/// external RAM, the TIMER codes 0x0F and 0x10 a clock, and the RUMBLE codes 0x1C..=0x1E a
/// motor.
pub proof fn lemma_cartridge_type_table(code: u8)
    ensures
        mbc_family(mbc_type_spec(code)) == (if code == 0x00 {
            0
        } else if 0x01 <= code <= 0x03 {
            1
        } else if 0x05 <= code <= 0x06 {
            2
        } else if 0x0B <= code <= 0x0D {
            3
        } else if 0x0F <= code <= 0x13 {
            4
        } else if 0x19 <= code <= 0x1E {
            5
        } else if code == 0x20 {
            6
        } else if code == 0x22 {
            7
        } else {
            8int
        }),
        mbc_battery(mbc_type_spec(code)) <==> (code == 0x03 || code == 0x06 || code == 0x0D
            || code == 0x0F || code == 0x10 || code == 0x13 || code == 0x1B || code == 0x1E),
        mbc_ram(mbc_type_spec(code)) <==> (code == 0x02 || code == 0x03 || code == 0x0C
            || code == 0x0D || code == 0x10 || code == 0x12 || code == 0x13 || code == 0x1A
            || code == 0x1B || code == 0x1D || code == 0x1E),
        mbc_timer(mbc_type_spec(code)) <==> (code == 0x0F || code == 0x10),
        mbc_rumble(mbc_type_spec(code)) <==> (0x1C <= code <= 0x1E),
{
}

} // verus!

use vstd::prelude::*;
use crate::text::{hex_byte_upper, hex_digit_lower, hex_lower, hex_word_upper, push_char, push_hex_byte_upper, push_hex_word_upper};
use crate::cpu::flag_nibble;
use crate::cpu::opcode_size_spec;
use crate::gb::Gb;

verus! {

/// The lowercase hex digits of `v`, without leading zeros.
pub open spec fn hex_digits(v: nat) -> Seq<char>
    decreases v,
{
    if v < 16 {
        seq![hex_lower(v as u8)]
    } else {
        hex_digits(v / 16).push(hex_lower((v % 16) as u8))
    }
}

/// `v` as the `{:#x}` format writes it: `0x` and the lowercase hex digits.
pub open spec fn alt_hex(v: nat) -> Seq<char> {
    "0x"@ + hex_digits(v)
}

/// Appends `v` as `{:#x}` writes it.
fn push_alt_hex(s: &mut String, v: u16)
    ensures
        final(s)@ == old(s)@ + alt_hex(v as nat),
{
    proof {
        reveal_with_fuel(hex_digits, 4);
    }
    s.append("0x");
    let ghost base = s@;
    if v >= 0x1000 {
        push_char(s, hex_digit_lower((v / 0x1000) as u8));
    }
    if v >= 0x100 {
        push_char(s, hex_digit_lower(((v / 0x100) % 16) as u8));
    }
    if v >= 0x10 {
        push_char(s, hex_digit_lower(((v / 0x10) % 16) as u8));
    }
    push_char(s, hex_digit_lower((v % 16) as u8));
    proof {
        let n = v as nat;
        if n >= 0x1000 {
            assert(n / 16 / 16 / 16 == n / 0x1000 && (n / 16 / 16) % 16 == (n / 0x100) % 16 && (n / 16) % 16 == (n / 0x10) % 16);
            assert(hex_digits(n) =~= seq![
                hex_lower((n / 0x1000) as u8),
                hex_lower(((n / 0x100) % 16) as u8),
                hex_lower(((n / 0x10) % 16) as u8),
                hex_lower((n % 16) as u8),
            ]);
        } else if n >= 0x100 {
            assert(n / 16 / 16 == n / 0x100 && (n / 16) % 16 == (n / 0x10) % 16 && (n / 0x100) % 16 == n / 0x100);
            assert(hex_digits(n) =~= seq![
                hex_lower(((n / 0x100) % 16) as u8),
                hex_lower(((n / 0x10) % 16) as u8),
                hex_lower((n % 16) as u8),
            ]);
        } else if n >= 0x10 {
            assert((n / 0x10) % 16 == n / 16);
            assert(hex_digits(n) =~= seq![hex_lower(((n / 0x10) % 16) as u8), hex_lower((n % 16) as u8)]);
        } else {
            assert(hex_digits(n) =~= seq![hex_lower((n % 16) as u8)]);
        }
        assert(s@ =~= old(s)@ + alt_hex(v as nat));
    }
}

/// The little-endian word of two operand bytes.
fn word(low: u8, high: u8) -> (r: u16)
    ensures
        r == low + 256 * high,
{
    low as u16 + 256 * high as u16
}

/// The target of `jr` at `pc`: PC plus the signed operand, wrapping.
pub open spec fn relative_target(pc: u16, offset: u8) -> nat {
    ((pc + offset + 0x10000 - (if offset >= 128 { 256int } else { 0int })) % 0x10000) as nat
}

fn relative_target_exec(pc: u16, offset: u8) -> (r: u16)
    ensures
        r == relative_target(pc, offset),
{
    let signed_back: u32 = if offset >= 128 {
        256
    } else {
        0
    };
    ((pc as u32 + offset as u32 + 0x10000 - signed_back) % 0x10000) as u16
}

fn mnemonic_with(mnemonic: &str, operand: &str) -> (r: String)
    ensures
        r@ == mnemonic@ + operand@,
{
    let mut r = String::from_str(mnemonic);
    r.append(operand);
    r
}

fn mnemonic_hex(mnemonic: &str, value: u16, suffix: &str) -> (r: String)
    ensures
        r@ == mnemonic@ + alt_hex(value as nat) + suffix@,
{
    let mut r = String::from_str(mnemonic);
    push_alt_hex(&mut r, value);
    r.append(suffix);
    r
}

fn conditional(mnemonic: &str, flag: &str, value: u16) -> (r: String)
    ensures
        r@ == mnemonic@ + flag@ + ", "@ + alt_hex(value as nat) + "h"@,
{
    let mut r = String::from_str(mnemonic);
    r.append(flag);
    r.append(", ");
    push_alt_hex(&mut r, value);
    r.append("h");
    r
}

fn load_pair(target: &str, value: &str) -> (r: String)
    ensures
        r@ == "ld "@ + target@ + ", "@ + value@,
{
    let mut r = String::from_str("ld ");
    r.append(target);
    r.append(", ");
    r.append(value);
    r
}

fn load_immediate(target: &str, value: u8) -> (r: String)
    ensures
        r@ == "ld "@ + target@ + ","@ + " "@ + alt_hex(value as nat) + "h"@,
{
    let mut r = String::from_str("ld ");
    r.append(target);
    r.append(",");
    r.append(" ");
    push_alt_hex(&mut r, value as u16);
    r.append("h");
    r
}

fn load_word(target: &str, value: u16) -> (r: String)
    ensures
        r@ == "ld "@ + target@ + " "@ + alt_hex(value as nat) + "h"@,
{
    let mut r = String::from_str("ld ");
    r.append(target);
    r.append(" ");
    push_alt_hex(&mut r, value);
    r.append("h");
    r
}

fn store_sp(value: u16) -> (r: String)
    ensures
        r@ == "ld"@ + " "@ + alt_hex(value as nat) + "h, "@ + "sp"@,
{
    let mut r = String::from_str("ld");
    r.append(" ");
    push_alt_hex(&mut r, value);
    r.append("h, ");
    r.append("sp");
    r
}

fn store_word(target: &str, value: u16) -> (r: String)
    ensures
        r@ == "ld "@ + ", "@ + alt_hex(value as nat) + "h"@ + target@,
{
    let mut r = String::from_str("ld ");
    r.append(", ");
    push_alt_hex(&mut r, value);
    r.append("h");
    r.append(target);
    r
}

fn store_high(target: &str, value: u8) -> (r: String)
    ensures
        r@ == "ldh "@ + alt_hex(0xFF00 + value as nat) + "h, "@ + target@,
{
    let mut r = String::from_str("ldh ");
    push_alt_hex(&mut r, 0xFF00 + value as u16);
    r.append("h, ");
    r.append(target);
    r
}

fn load_high(target: &str, value: u8) -> (r: String)
    ensures
        r@ == "ldh "@ + target@ + ", "@ + alt_hex((0xFF0u16 | value as u16) as nat) + "h, "@,
{
    let mut r = String::from_str("ldh ");
    r.append(target);
    r.append(", ");
    push_alt_hex(&mut r, 0xFF0u16 | value as u16);
    r.append("h, ");
    r
}

/// The register a CB-prefixed opcode's low three bits name (B, C, D, E, H, L, (HL), A).
pub open spec fn reg_name_spec(opcode: u8) -> Seq<char> {
    let id = (opcode / 2 + 1) % 4;
    if id == 0 {
        if opcode % 2 == 1 { "a"@ } else { "(hl)"@ }
    } else if opcode % 2 == 1 {
        if id == 1 { "c"@ } else if id == 2 { "e"@ } else { "l"@ }
    } else {
        if id == 1 { "b"@ } else if id == 2 { "d"@ } else { "h"@ }
    }
}

fn get_reg_name(opcode: u8) -> (r: &'static str)
    ensures
        r@ == reg_name_spec(opcode),
{
    let register_id: u8 = (opcode / 2 + 1) % 4;
    let src_low: u8 = opcode % 2;
    if register_id == 0 {
        if src_low == 1 {
            return "a";
        }
        return "(hl)";
    }
    if src_low == 1 {
        if register_id == 1 {
            "c"
        } else if register_id == 2 {
            "e"
        } else {
            "l"
        }
    } else {
        if register_id == 1 {
            "b"
        } else if register_id == 2 {
            "d"
        } else {
            "h"
        }
    }
}

/// The text of a CB-prefixed instruction with second byte `prefix`.
pub open spec fn cb_spec(prefix: u8) -> Seq<char> {
    let r = reg_name_spec(prefix);
    let group = prefix / 8;
    if group == 0 {
        "rlc "@ + r
    } else if group == 1 {
        "rrc "@ + r
    } else if group == 2 {
        "rl "@ + r
    } else if group == 3 {
        "rr "@ + r
    } else if group == 4 {
        "sla "@ + r
    } else if group == 5 {
        "sra "@ + r
    } else if group == 6 {
        "swap "@ + r
    } else if group == 7 {
        "srl "@ + r
    } else {
        let m = if prefix / 64 == 1 { "bit "@ } else if prefix / 64 == 2 { "res "@ } else { "set "@ };
        m + alt_hex(((prefix / 8) % 8) as nat) + ", "@ + r
    }
}

fn disassemble_cb(prefix: u8) -> (r: String)
    ensures
        r@ == cb_spec(prefix),
{
    let register = get_reg_name(prefix);
    match prefix / 8 {
        0 => mnemonic_with("rlc ", register),
        1 => mnemonic_with("rrc ", register),
        2 => mnemonic_with("rl ", register),
        3 => mnemonic_with("rr ", register),
        4 => mnemonic_with("sla ", register),
        5 => mnemonic_with("sra ", register),
        6 => mnemonic_with("swap ", register),
        7 => mnemonic_with("srl ", register),
        _ => {
            let mut result = if prefix / 64 == 1 {
                String::from_str("bit ")
            } else if prefix / 64 == 2 {
                String::from_str("res ")
            } else {
                String::from_str("set ")
            };
            push_alt_hex(&mut result, ((prefix / 8) % 8) as u16);
            result.append(", ");
            result.append(register);
            result
        },
    }
}

/// The text of opcodes 0x00..=0x3F.
pub open spec fn disasm_block0(opcode: u8, b1: u8, b2: u8, pc: u16) -> Seq<char> {
    if opcode == 0x00 {
        "nop"@
    } else if opcode == 0x01 {
        "ld "@ + "bc"@ + " "@ + alt_hex((b1 as nat + 256 * b2 as nat)) + "h"@
    } else if opcode == 0x02 {
        "ld "@ + "(bc)"@ + ", "@ + "a"@
    } else if opcode == 0x03 {
        "inc "@ + "bc"@
    } else if opcode == 0x04 {
        "inc "@ + "b"@
    } else if opcode == 0x05 {
        "dec "@ + "b"@
    } else if opcode == 0x06 {
        "ld "@ + "b"@ + ","@ + " "@ + alt_hex(b1 as nat) + "h"@
    } else if opcode == 0x07 {
        "rlca"@
    } else if opcode == 0x08 {
        "ld"@ + " "@ + alt_hex((b1 as nat + 256 * b2 as nat)) + "h, "@ + "sp"@
    } else if opcode == 0x09 {
        "add hl, "@ + "bc"@
    } else if opcode == 0x0A {
        "ld "@ + "a"@ + ", "@ + "(bc)"@
    } else if opcode == 0x0B {
        "dec "@ + "bc"@
    } else if opcode == 0x0C {
        "inc "@ + "c"@
    } else if opcode == 0x0D {
        "dec "@ + "c"@
    } else if opcode == 0x0E {
        "ld "@ + "c"@ + ","@ + " "@ + alt_hex(b1 as nat) + "h"@
    } else if opcode == 0x0F {
        "rrca"@
    } else if opcode == 0x10 {
        "stop"@
    } else if opcode == 0x11 {
        "ld "@ + "de"@ + " "@ + alt_hex((b1 as nat + 256 * b2 as nat)) + "h"@
    } else if opcode == 0x12 {
        "ld "@ + "(de)"@ + ", "@ + "a"@
    } else if opcode == 0x13 {
        "inc "@ + "de"@
    } else if opcode == 0x14 {
        "inc "@ + "d"@
    } else if opcode == 0x15 {
        "dec "@ + "d"@
    } else if opcode == 0x16 {
        "ld "@ + "d"@ + ","@ + " "@ + alt_hex(b1 as nat) + "h"@
    } else if opcode == 0x17 {
        "rla"@
    } else if opcode == 0x18 {
        "jr "@ + alt_hex(relative_target(pc, b1)) + "h"@
    } else if opcode == 0x19 {
        "add hl, "@ + "de"@
    } else if opcode == 0x1A {
        "ld "@ + "a"@ + ", "@ + "(de)"@
    } else if opcode == 0x1B {
        "dec "@ + "de"@
    } else if opcode == 0x1C {
        "inc "@ + "e"@
    } else if opcode == 0x1D {
        "dec "@ + "e"@
    } else if opcode == 0x1E {
        "ld "@ + "e"@ + ","@ + " "@ + alt_hex(b1 as nat) + "h"@
    } else if opcode == 0x1F {
        "rra"@
    } else if opcode == 0x20 {
        "jr "@ + "nz"@ + ", "@ + alt_hex(b1 as nat) + "h"@
    } else if opcode == 0x21 {
        "ld "@ + "hl"@ + " "@ + alt_hex((b1 as nat + 256 * b2 as nat)) + "h"@
    } else if opcode == 0x22 {
        "ld "@ + "(hl+)"@ + ", "@ + "a"@
    } else if opcode == 0x23 {
        "inc "@ + "hl"@
    } else if opcode == 0x24 {
        "inc "@ + "h"@
    } else if opcode == 0x25 {
        "dec "@ + "h"@
    } else if opcode == 0x26 {
        "ld "@ + "h"@ + ","@ + " "@ + alt_hex(b1 as nat) + "h"@
    } else if opcode == 0x27 {
        "daa"@
    } else if opcode == 0x28 {
        "jr "@ + "z"@ + ", "@ + alt_hex(b1 as nat) + "h"@
    } else if opcode == 0x29 {
        "add hl, "@ + "hl"@
    } else if opcode == 0x2A {
        "ld "@ + "a"@ + ", "@ + "(hl+)"@
    } else if opcode == 0x2B {
        "dec "@ + "hl"@
    } else if opcode == 0x2C {
        "inc "@ + "l"@
    } else if opcode == 0x2D {
        "dec "@ + "l"@
    } else if opcode == 0x2E {
        "ld "@ + "l"@ + ","@ + " "@ + alt_hex(b1 as nat) + "h"@
    } else if opcode == 0x2F {
        "cpl"@
    } else if opcode == 0x30 {
        "jr "@ + "nc"@ + ", "@ + alt_hex(b1 as nat) + "h"@
    } else if opcode == 0x31 {
        "ld "@ + "sp"@ + " "@ + alt_hex((b1 as nat + 256 * b2 as nat)) + "h"@
    } else if opcode == 0x32 {
        "ld "@ + "(hl-)"@ + ", "@ + "a"@
    } else if opcode == 0x33 {
        "inc "@ + "sp"@
    } else if opcode == 0x34 {
        "inc "@ + "(hl)"@
    } else if opcode == 0x35 {
        "dec "@ + "(hl)"@
    } else if opcode == 0x36 {
        "ld "@ + "(hl)"@ + ","@ + " "@ + alt_hex(b1 as nat) + "h"@
    } else if opcode == 0x37 {
        "scf"@
    } else if opcode == 0x38 {
        "jr "@ + "c"@ + ", "@ + alt_hex(b1 as nat) + "h"@
    } else if opcode == 0x39 {
        "add hl, "@ + "sp"@
    } else if opcode == 0x3A {
        "ld "@ + "a"@ + ", "@ + "(hl-)"@
    } else if opcode == 0x3B {
        "dec "@ + "sp"@
    } else if opcode == 0x3C {
        "inc "@ + "a"@
    } else if opcode == 0x3D {
        "dec "@ + "a"@
    } else if opcode == 0x3E {
        "ld "@ + "a"@ + ","@ + " "@ + alt_hex(b1 as nat) + "h"@
    } else {
        "ccf"@
    }
}

fn disassemble_block0(opcode: u8, b1: u8, b2: u8, pc: u16) -> (r: String)
    requires
        0x00 <= opcode <= 0x3F,
    ensures
        r@ == disasm_block0(opcode, b1, b2, pc),
{
    match opcode {
        0x00 => String::from_str("nop"),
        0x01 => load_word("bc", word(b1, b2)),
        0x02 => load_pair("(bc)", "a"),
        0x03 => mnemonic_with("inc ", "bc"),
        0x04 => mnemonic_with("inc ", "b"),
        0x05 => mnemonic_with("dec ", "b"),
        0x06 => load_immediate("b", b1),
        0x07 => String::from_str("rlca"),
        0x08 => store_sp(word(b1, b2)),
        0x09 => mnemonic_with("add hl, ", "bc"),
        0x0A => load_pair("a", "(bc)"),
        0x0B => mnemonic_with("dec ", "bc"),
        0x0C => mnemonic_with("inc ", "c"),
        0x0D => mnemonic_with("dec ", "c"),
        0x0E => load_immediate("c", b1),
        0x0F => String::from_str("rrca"),
        0x10 => String::from_str("stop"),
        0x11 => load_word("de", word(b1, b2)),
        0x12 => load_pair("(de)", "a"),
        0x13 => mnemonic_with("inc ", "de"),
        0x14 => mnemonic_with("inc ", "d"),
        0x15 => mnemonic_with("dec ", "d"),
        0x16 => load_immediate("d", b1),
        0x17 => String::from_str("rla"),
        0x18 => mnemonic_hex("jr ", relative_target_exec(pc, b1), "h"),
        0x19 => mnemonic_with("add hl, ", "de"),
        0x1A => load_pair("a", "(de)"),
        0x1B => mnemonic_with("dec ", "de"),
        0x1C => mnemonic_with("inc ", "e"),
        0x1D => mnemonic_with("dec ", "e"),
        0x1E => load_immediate("e", b1),
        0x1F => String::from_str("rra"),
        0x20 => conditional("jr ", "nz", b1 as u16),
        0x21 => load_word("hl", word(b1, b2)),
        0x22 => load_pair("(hl+)", "a"),
        0x23 => mnemonic_with("inc ", "hl"),
        0x24 => mnemonic_with("inc ", "h"),
        0x25 => mnemonic_with("dec ", "h"),
        0x26 => load_immediate("h", b1),
        0x27 => String::from_str("daa"),
        0x28 => conditional("jr ", "z", b1 as u16),
        0x29 => mnemonic_with("add hl, ", "hl"),
        0x2A => load_pair("a", "(hl+)"),
        0x2B => mnemonic_with("dec ", "hl"),
        0x2C => mnemonic_with("inc ", "l"),
        0x2D => mnemonic_with("dec ", "l"),
        0x2E => load_immediate("l", b1),
        0x2F => String::from_str("cpl"),
        0x30 => conditional("jr ", "nc", b1 as u16),
        0x31 => load_word("sp", word(b1, b2)),
        0x32 => load_pair("(hl-)", "a"),
        0x33 => mnemonic_with("inc ", "sp"),
        0x34 => mnemonic_with("inc ", "(hl)"),
        0x35 => mnemonic_with("dec ", "(hl)"),
        0x36 => load_immediate("(hl)", b1),
        0x37 => String::from_str("scf"),
        0x38 => conditional("jr ", "c", b1 as u16),
        0x39 => mnemonic_with("add hl, ", "sp"),
        0x3A => load_pair("a", "(hl-)"),
        0x3B => mnemonic_with("dec ", "sp"),
        0x3C => mnemonic_with("inc ", "a"),
        0x3D => mnemonic_with("dec ", "a"),
        0x3E => load_immediate("a", b1),
        _ => String::from_str("ccf"),
    }
}

/// The text of opcodes 0x40..=0x7F.
pub open spec fn disasm_block1(opcode: u8, b1: u8, b2: u8, pc: u16) -> Seq<char> {
    if opcode == 0x40 {
        "ld "@ + "b"@ + ", "@ + "b"@
    } else if opcode == 0x41 {
        "ld "@ + "b"@ + ", "@ + "c"@
    } else if opcode == 0x42 {
        "ld "@ + "b"@ + ", "@ + "d"@
    } else if opcode == 0x43 {
        "ld "@ + "b"@ + ", "@ + "e"@
    } else if opcode == 0x44 {
        "ld "@ + "b"@ + ", "@ + "h"@
    } else if opcode == 0x45 {
        "ld "@ + "b"@ + ", "@ + "l"@
    } else if opcode == 0x46 {
        "ld "@ + "b"@ + ", "@ + "(hl)"@
    } else if opcode == 0x47 {
        "ld "@ + "b"@ + ", "@ + "a"@
    } else if opcode == 0x48 {
        "ld "@ + "c"@ + ", "@ + "b"@
    } else if opcode == 0x49 {
        "ld "@ + "c"@ + ", "@ + "c"@
    } else if opcode == 0x4A {
        "ld "@ + "c"@ + ", "@ + "d"@
    } else if opcode == 0x4B {
        "ld "@ + "c"@ + ", "@ + "e"@
    } else if opcode == 0x4C {
        "ld "@ + "c"@ + ", "@ + "h"@
    } else if opcode == 0x4D {
        "ld "@ + "c"@ + ", "@ + "l"@
    } else if opcode == 0x4E {
        "ld "@ + "c"@ + ", "@ + "(hl)"@
    } else if opcode == 0x4F {
        "ld "@ + "c"@ + ", "@ + "a"@
    } else if opcode == 0x50 {
        "ld "@ + "d"@ + ", "@ + "b"@
    } else if opcode == 0x51 {
        "ld "@ + "d"@ + ", "@ + "c"@
    } else if opcode == 0x52 {
        "ld "@ + "d"@ + ", "@ + "d"@
    } else if opcode == 0x53 {
        "ld "@ + "d"@ + ", "@ + "e"@
    } else if opcode == 0x54 {
        "ld "@ + "d"@ + ", "@ + "h"@
    } else if opcode == 0x55 {
        "ld "@ + "d"@ + ", "@ + "l"@
    } else if opcode == 0x56 {
        "ld "@ + "d"@ + ", "@ + "(hl)"@
    } else if opcode == 0x57 {
        "ld "@ + "d"@ + ", "@ + "a"@
    } else if opcode == 0x58 {
        "ld "@ + "e"@ + ", "@ + "b"@
    } else if opcode == 0x59 {
        "ld "@ + "e"@ + ", "@ + "c"@
    } else if opcode == 0x5A {
        "ld "@ + "e"@ + ", "@ + "d"@
    } else if opcode == 0x5B {
        "ld "@ + "e"@ + ", "@ + "e"@
    } else if opcode == 0x5C {
        "ld "@ + "e"@ + ", "@ + "h"@
    } else if opcode == 0x5D {
        "ld "@ + "e"@ + ", "@ + "l"@
    } else if opcode == 0x5E {
        "ld "@ + "e"@ + ", "@ + "(hl)"@
    } else if opcode == 0x5F {
        "ld "@ + "e"@ + ", "@ + "a"@
    } else if opcode == 0x60 {
        "ld "@ + "h"@ + ", "@ + "b"@
    } else if opcode == 0x61 {
        "ld "@ + "h"@ + ", "@ + "c"@
    } else if opcode == 0x62 {
        "ld "@ + "h"@ + ", "@ + "d"@
    } else if opcode == 0x63 {
        "ld "@ + "h"@ + ", "@ + "e"@
    } else if opcode == 0x64 {
        "ld "@ + "h"@ + ", "@ + "h"@
    } else if opcode == 0x65 {
        "ld "@ + "h"@ + ", "@ + "l"@
    } else if opcode == 0x66 {
        "ld "@ + "h"@ + ", "@ + "(hl)"@
    } else if opcode == 0x67 {
        "ld "@ + "h"@ + ", "@ + "a"@
    } else if opcode == 0x68 {
        "ld "@ + "l"@ + ", "@ + "b"@
    } else if opcode == 0x69 {
        "ld "@ + "l"@ + ", "@ + "c"@
    } else if opcode == 0x6A {
        "ld "@ + "l"@ + ", "@ + "d"@
    } else if opcode == 0x6B {
        "ld "@ + "l"@ + ", "@ + "e"@
    } else if opcode == 0x6C {
        "ld "@ + "l"@ + ", "@ + "h"@
    } else if opcode == 0x6D {
        "ld "@ + "l"@ + ", "@ + "l"@
    } else if opcode == 0x6E {
        "ld "@ + "l"@ + ", "@ + "(hl)"@
    } else if opcode == 0x6F {
        "ld "@ + "l"@ + ", "@ + "a"@
    } else if opcode == 0x70 {
        "ld "@ + "hl"@ + ", "@ + "b"@
    } else if opcode == 0x71 {
        "ld "@ + "hl"@ + ", "@ + "c"@
    } else if opcode == 0x72 {
        "ld "@ + "hl"@ + ", "@ + "d"@
    } else if opcode == 0x73 {
        "ld "@ + "hl"@ + ", "@ + "e"@
    } else if opcode == 0x74 {
        "ld "@ + "hl"@ + ", "@ + "h"@
    } else if opcode == 0x75 {
        "ld "@ + "hl"@ + ", "@ + "l"@
    } else if opcode == 0x76 {
        "halt"@
    } else if opcode == 0x77 {
        "ld "@ + "(hl)"@ + ", "@ + "a"@
    } else if opcode == 0x78 {
        "ld "@ + "a"@ + ", "@ + "b"@
    } else if opcode == 0x79 {
        "ld "@ + "a"@ + ", "@ + "c"@
    } else if opcode == 0x7A {
        "ld "@ + "a"@ + ", "@ + "d"@
    } else if opcode == 0x7B {
        "ld "@ + "a"@ + ", "@ + "e"@
    } else if opcode == 0x7C {
        "ld "@ + "a"@ + ", "@ + "h"@
    } else if opcode == 0x7D {
        "ld "@ + "a"@ + ", "@ + "l"@
    } else if opcode == 0x7E {
        "ld "@ + "a"@ + ", "@ + "(hl)"@
    } else {
        "ld "@ + "a"@ + ", "@ + "a"@
    }
}

fn disassemble_block1(opcode: u8, b1: u8, b2: u8, pc: u16) -> (r: String)
    requires
        0x40 <= opcode <= 0x7F,
    ensures
        r@ == disasm_block1(opcode, b1, b2, pc),
{
    match opcode {
        0x40 => load_pair("b", "b"),
        0x41 => load_pair("b", "c"),
        0x42 => load_pair("b", "d"),
        0x43 => load_pair("b", "e"),
        0x44 => load_pair("b", "h"),
        0x45 => load_pair("b", "l"),
        0x46 => load_pair("b", "(hl)"),
        0x47 => load_pair("b", "a"),
        0x48 => load_pair("c", "b"),
        0x49 => load_pair("c", "c"),
        0x4A => load_pair("c", "d"),
        0x4B => load_pair("c", "e"),
        0x4C => load_pair("c", "h"),
        0x4D => load_pair("c", "l"),
        0x4E => load_pair("c", "(hl)"),
        0x4F => load_pair("c", "a"),
        0x50 => load_pair("d", "b"),
        0x51 => load_pair("d", "c"),
        0x52 => load_pair("d", "d"),
        0x53 => load_pair("d", "e"),
        0x54 => load_pair("d", "h"),
        0x55 => load_pair("d", "l"),
        0x56 => load_pair("d", "(hl)"),
        0x57 => load_pair("d", "a"),
        0x58 => load_pair("e", "b"),
        0x59 => load_pair("e", "c"),
        0x5A => load_pair("e", "d"),
        0x5B => load_pair("e", "e"),
        0x5C => load_pair("e", "h"),
        0x5D => load_pair("e", "l"),
        0x5E => load_pair("e", "(hl)"),
        0x5F => load_pair("e", "a"),
        0x60 => load_pair("h", "b"),
        0x61 => load_pair("h", "c"),
        0x62 => load_pair("h", "d"),
        0x63 => load_pair("h", "e"),
        0x64 => load_pair("h", "h"),
        0x65 => load_pair("h", "l"),
        0x66 => load_pair("h", "(hl)"),
        0x67 => load_pair("h", "a"),
        0x68 => load_pair("l", "b"),
        0x69 => load_pair("l", "c"),
        0x6A => load_pair("l", "d"),
        0x6B => load_pair("l", "e"),
        0x6C => load_pair("l", "h"),
        0x6D => load_pair("l", "l"),
        0x6E => load_pair("l", "(hl)"),
        0x6F => load_pair("l", "a"),
        0x70 => load_pair("hl", "b"),
        0x71 => load_pair("hl", "c"),
        0x72 => load_pair("hl", "d"),
        0x73 => load_pair("hl", "e"),
        0x74 => load_pair("hl", "h"),
        0x75 => load_pair("hl", "l"),
        0x76 => String::from_str("halt"),
        0x77 => load_pair("(hl)", "a"),
        0x78 => load_pair("a", "b"),
        0x79 => load_pair("a", "c"),
        0x7A => load_pair("a", "d"),
        0x7B => load_pair("a", "e"),
        0x7C => load_pair("a", "h"),
        0x7D => load_pair("a", "l"),
        0x7E => load_pair("a", "(hl)"),
        _ => load_pair("a", "a"),
    }
}

/// The text of opcodes 0x80..=0xBF.
pub open spec fn disasm_block2(opcode: u8, b1: u8, b2: u8, pc: u16) -> Seq<char> {
    if opcode == 0x80 {
        "add a, "@ + "b"@
    } else if opcode == 0x81 {
        "add a, "@ + "c"@
    } else if opcode == 0x82 {
        "add a, "@ + "d"@
    } else if opcode == 0x83 {
        "add a, "@ + "e"@
    } else if opcode == 0x84 {
        "add a, "@ + "h"@
    } else if opcode == 0x85 {
        "add a, "@ + "l"@
    } else if opcode == 0x86 {
        "add a, "@ + "(hl)"@
    } else if opcode == 0x87 {
        "add a, "@ + "a"@
    } else if opcode == 0x88 {
        "adc "@ + "b"@
    } else if opcode == 0x89 {
        "adc "@ + "c"@
    } else if opcode == 0x8A {
        "adc "@ + "d"@
    } else if opcode == 0x8B {
        "adc "@ + "e"@
    } else if opcode == 0x8C {
        "adc "@ + "h"@
    } else if opcode == 0x8D {
        "adc "@ + "l"@
    } else if opcode == 0x8E {
        "adc "@ + "(hl)"@
    } else if opcode == 0x8F {
        "adc "@ + "a"@
    } else if opcode == 0x90 {
        "sub "@ + "b"@
    } else if opcode == 0x91 {
        "sub "@ + "c"@
    } else if opcode == 0x92 {
        "sub "@ + "d"@
    } else if opcode == 0x93 {
        "sub "@ + "e"@
    } else if opcode == 0x94 {
        "sub "@ + "h"@
    } else if opcode == 0x95 {
        "sub "@ + "l"@
    } else if opcode == 0x96 {
        "sub "@ + "(hl)"@
    } else if opcode == 0x97 {
        "sub "@ + "a"@
    } else if opcode == 0x98 {
        "sbc "@ + "b"@
    } else if opcode == 0x99 {
        "sbc "@ + "c"@
    } else if opcode == 0x9A {
        "sbc "@ + "d"@
    } else if opcode == 0x9B {
        "sbc "@ + "e"@
    } else if opcode == 0x9C {
        "sbc "@ + "h"@
    } else if opcode == 0x9D {
        "sbc "@ + "l"@
    } else if opcode == 0x9E {
        "sbc "@ + "(hl)"@
    } else if opcode == 0x9F {
        "sbc "@ + "a"@
    } else if opcode == 0xA0 {
        "and "@ + "b"@
    } else if opcode == 0xA1 {
        "and "@ + "c"@
    } else if opcode == 0xA2 {
        "and "@ + "d"@
    } else if opcode == 0xA3 {
        "and "@ + "e"@
    } else if opcode == 0xA4 {
        "and "@ + "h"@
    } else if opcode == 0xA5 {
        "and "@ + "l"@
    } else if opcode == 0xA6 {
        "and "@ + "(hl)"@
    } else if opcode == 0xA7 {
        "and "@ + "a"@
    } else if opcode == 0xA8 {
        "xor "@ + "b"@
    } else if opcode == 0xA9 {
        "xor "@ + "c"@
    } else if opcode == 0xAA {
        "xor "@ + "d"@
    } else if opcode == 0xAB {
        "xor "@ + "e"@
    } else if opcode == 0xAC {
        "xor "@ + "h"@
    } else if opcode == 0xAD {
        "xor "@ + "l"@
    } else if opcode == 0xAE {
        "xor "@ + "(hl)"@
    } else if opcode == 0xAF {
        "xor "@ + "a"@
    } else if opcode == 0xB0 {
        "or "@ + "b"@
    } else if opcode == 0xB1 {
        "or "@ + "c"@
    } else if opcode == 0xB2 {
        "or "@ + "d"@
    } else if opcode == 0xB3 {
        "or "@ + "e"@
    } else if opcode == 0xB4 {
        "or "@ + "h"@
    } else if opcode == 0xB5 {
        "or "@ + "l"@
    } else if opcode == 0xB6 {
        "or "@ + "(hl)"@
    } else if opcode == 0xB7 {
        "or "@ + "a"@
    } else if opcode == 0xB8 {
        "cp "@ + "b"@
    } else if opcode == 0xB9 {
        "cp "@ + "c"@
    } else if opcode == 0xBA {
        "cp "@ + "d"@
    } else if opcode == 0xBB {
        "cp "@ + "e"@
    } else if opcode == 0xBC {
        "cp "@ + "h"@
    } else if opcode == 0xBD {
        "cp "@ + "l"@
    } else if opcode == 0xBE {
        "cp "@ + "(hl)"@
    } else {
        "cp "@ + "a"@
    }
}

fn disassemble_block2(opcode: u8, b1: u8, b2: u8, pc: u16) -> (r: String)
    requires
        0x80 <= opcode <= 0xBF,
    ensures
        r@ == disasm_block2(opcode, b1, b2, pc),
{
    match opcode {
        0x80 => mnemonic_with("add a, ", "b"),
        0x81 => mnemonic_with("add a, ", "c"),
        0x82 => mnemonic_with("add a, ", "d"),
        0x83 => mnemonic_with("add a, ", "e"),
        0x84 => mnemonic_with("add a, ", "h"),
        0x85 => mnemonic_with("add a, ", "l"),
        0x86 => mnemonic_with("add a, ", "(hl)"),
        0x87 => mnemonic_with("add a, ", "a"),
        0x88 => mnemonic_with("adc ", "b"),
        0x89 => mnemonic_with("adc ", "c"),
        0x8A => mnemonic_with("adc ", "d"),
        0x8B => mnemonic_with("adc ", "e"),
        0x8C => mnemonic_with("adc ", "h"),
        0x8D => mnemonic_with("adc ", "l"),
        0x8E => mnemonic_with("adc ", "(hl)"),
        0x8F => mnemonic_with("adc ", "a"),
        0x90 => mnemonic_with("sub ", "b"),
        0x91 => mnemonic_with("sub ", "c"),
        0x92 => mnemonic_with("sub ", "d"),
        0x93 => mnemonic_with("sub ", "e"),
        0x94 => mnemonic_with("sub ", "h"),
        0x95 => mnemonic_with("sub ", "l"),
        0x96 => mnemonic_with("sub ", "(hl)"),
        0x97 => mnemonic_with("sub ", "a"),
        0x98 => mnemonic_with("sbc ", "b"),
        0x99 => mnemonic_with("sbc ", "c"),
        0x9A => mnemonic_with("sbc ", "d"),
        0x9B => mnemonic_with("sbc ", "e"),
        0x9C => mnemonic_with("sbc ", "h"),
        0x9D => mnemonic_with("sbc ", "l"),
        0x9E => mnemonic_with("sbc ", "(hl)"),
        0x9F => mnemonic_with("sbc ", "a"),
        0xA0 => mnemonic_with("and ", "b"),
        0xA1 => mnemonic_with("and ", "c"),
        0xA2 => mnemonic_with("and ", "d"),
        0xA3 => mnemonic_with("and ", "e"),
        0xA4 => mnemonic_with("and ", "h"),
        0xA5 => mnemonic_with("and ", "l"),
        0xA6 => mnemonic_with("and ", "(hl)"),
        0xA7 => mnemonic_with("and ", "a"),
        0xA8 => mnemonic_with("xor ", "b"),
        0xA9 => mnemonic_with("xor ", "c"),
        0xAA => mnemonic_with("xor ", "d"),
        0xAB => mnemonic_with("xor ", "e"),
        0xAC => mnemonic_with("xor ", "h"),
        0xAD => mnemonic_with("xor ", "l"),
        0xAE => mnemonic_with("xor ", "(hl)"),
        0xAF => mnemonic_with("xor ", "a"),
        0xB0 => mnemonic_with("or ", "b"),
        0xB1 => mnemonic_with("or ", "c"),
        0xB2 => mnemonic_with("or ", "d"),
        0xB3 => mnemonic_with("or ", "e"),
        0xB4 => mnemonic_with("or ", "h"),
        0xB5 => mnemonic_with("or ", "l"),
        0xB6 => mnemonic_with("or ", "(hl)"),
        0xB7 => mnemonic_with("or ", "a"),
        0xB8 => mnemonic_with("cp ", "b"),
        0xB9 => mnemonic_with("cp ", "c"),
        0xBA => mnemonic_with("cp ", "d"),
        0xBB => mnemonic_with("cp ", "e"),
        0xBC => mnemonic_with("cp ", "h"),
        0xBD => mnemonic_with("cp ", "l"),
        0xBE => mnemonic_with("cp ", "(hl)"),
        _ => mnemonic_with("cp ", "a"),
    }
}

/// The text of opcodes 0xC0..=0xFF.
pub open spec fn disasm_block3(opcode: u8, b1: u8, b2: u8, pc: u16) -> Seq<char> {
    if opcode == 0xC0 {
        "ret nz"@
    } else if opcode == 0xC1 {
        "pop "@ + "bc"@
    } else if opcode == 0xC2 {
        "jp "@ + "nz"@ + ", "@ + alt_hex(b1 as nat) + "h"@
    } else if opcode == 0xC3 {
        "jp "@ + alt_hex((b1 as nat + 256 * b2 as nat)) + "h"@
    } else if opcode == 0xC4 {
        "call "@ + "nz"@ + ", "@ + alt_hex((b1 as nat + 256 * b2 as nat)) + "h"@
    } else if opcode == 0xC5 {
        "push "@ + "bc"@
    } else if opcode == 0xC6 {
        "add a, "@ + alt_hex(b1 as nat) + "h, "@
    } else if opcode == 0xC7 {
        "rst 00h"@
    } else if opcode == 0xC8 {
        "ret z"@
    } else if opcode == 0xC9 {
        "ret"@
    } else if opcode == 0xCA {
        "jp "@ + "z"@ + ", "@ + alt_hex(b1 as nat) + "h"@
    } else if opcode == 0xCB {
        cb_spec(b1)
    } else if opcode == 0xCC {
        "call "@ + "z"@ + ", "@ + alt_hex((b1 as nat + 256 * b2 as nat)) + "h"@
    } else if opcode == 0xCD {
        "call "@ + alt_hex((b1 as nat + 256 * b2 as nat)) + "h"@
    } else if opcode == 0xCE {
        "adc "@ + alt_hex(b1 as nat) + "h"@
    } else if opcode == 0xCF {
        "rst 08h"@
    } else if opcode == 0xD0 {
        "ret nc"@
    } else if opcode == 0xD1 {
        "pop "@ + "de"@
    } else if opcode == 0xD2 {
        "jp "@ + "nc"@ + ", "@ + alt_hex(b1 as nat) + "h"@
    } else if opcode == 0xD3 {
        "ill"@
    } else if opcode == 0xD4 {
        "call "@ + "nc"@ + ", "@ + alt_hex((b1 as nat + 256 * b2 as nat)) + "h"@
    } else if opcode == 0xD5 {
        "push "@ + "de"@
    } else if opcode == 0xD6 {
        "sub "@ + alt_hex(b1 as nat) + "h"@
    } else if opcode == 0xD7 {
        "rst 10h"@
    } else if opcode == 0xD8 {
        "ret c"@
    } else if opcode == 0xD9 {
        "reti"@
    } else if opcode == 0xDA {
        "jp "@ + "c"@ + ", "@ + alt_hex(b1 as nat) + "h"@
    } else if opcode == 0xDB {
        "ill"@
    } else if opcode == 0xDC {
        "call "@ + "c"@ + ", "@ + alt_hex((b1 as nat + 256 * b2 as nat)) + "h"@
    } else if opcode == 0xDD {
        "ill"@
    } else if opcode == 0xDE {
        "sbc "@ + alt_hex(b1 as nat) + "h"@
    } else if opcode == 0xDF {
        "rst 18h"@
    } else if opcode == 0xE0 {
        "ldh "@ + alt_hex(0xFF00 + b1 as nat) + "h, "@ + "a"@
    } else if opcode == 0xE1 {
        "pop "@ + "hl"@
    } else if opcode == 0xE2 {
        "ld "@ + "0xff00 + c"@ + ", "@ + "a"@
    } else if opcode == 0xE3 {
        "ill"@
    } else if opcode == 0xE4 {
        "ill"@
    } else if opcode == 0xE5 {
        "push "@ + "hl"@
    } else if opcode == 0xE6 {
        "and "@ + alt_hex(b1 as nat) + "h"@
    } else if opcode == 0xE7 {
        "rst 20h"@
    } else if opcode == 0xE8 {
        "add sp, "@ + alt_hex(b1 as nat) + "h, "@
    } else if opcode == 0xE9 {
        "jp (hl)"@
    } else if opcode == 0xEA {
        "ld "@ + ", "@ + alt_hex((b1 as nat + 256 * b2 as nat)) + "h"@ + "a"@
    } else if opcode == 0xEB {
        "ill"@
    } else if opcode == 0xEC {
        "ill"@
    } else if opcode == 0xED {
        "ill"@
    } else if opcode == 0xEE {
        "xor "@ + alt_hex(b1 as nat) + "h"@
    } else if opcode == 0xEF {
        "rst 28h"@
    } else if opcode == 0xF0 {
        "ldh "@ + "a"@ + ", "@ + alt_hex((0xFF0u16 | b1 as u16) as nat) + "h, "@
    } else if opcode == 0xF1 {
        "pop "@ + "af"@
    } else if opcode == 0xF2 {
        "ld "@ + "a"@ + ", "@ + "0xff00 + c"@
    } else if opcode == 0xF3 {
        "di"@
    } else if opcode == 0xF4 {
        "ill"@
    } else if opcode == 0xF5 {
        "push "@ + "af"@
    } else if opcode == 0xF6 {
        "or "@ + alt_hex(b1 as nat) + "h"@
    } else if opcode == 0xF7 {
        "rst 30h"@
    } else if opcode == 0xF8 {
        "ld hl, sp + "@ + alt_hex(b1 as nat) + "h"@
    } else if opcode == 0xF9 {
        "ld sp, hl"@
    } else if opcode == 0xFA {
        "ld "@ + "a"@ + " "@ + alt_hex((b1 as nat + 256 * b2 as nat)) + "h"@
    } else if opcode == 0xFB {
        "ei"@
    } else if opcode == 0xFC {
        "ill"@
    } else if opcode == 0xFD {
        "ill"@
    } else if opcode == 0xFE {
        "cp "@ + alt_hex(b1 as nat) + "h"@
    } else {
        "rst 38h"@
    }
}

fn disassemble_block3(opcode: u8, b1: u8, b2: u8, pc: u16) -> (r: String)
    requires
        0xC0 <= opcode <= 0xFF,
    ensures
        r@ == disasm_block3(opcode, b1, b2, pc),
{
    match opcode {
        0xC0 => String::from_str("ret nz"),
        0xC1 => mnemonic_with("pop ", "bc"),
        0xC2 => conditional("jp ", "nz", b1 as u16),
        0xC3 => mnemonic_hex("jp ", word(b1, b2), "h"),
        0xC4 => conditional("call ", "nz", word(b1, b2)),
        0xC5 => mnemonic_with("push ", "bc"),
        0xC6 => mnemonic_hex("add a, ", b1 as u16, "h, "),
        0xC7 => String::from_str("rst 00h"),
        0xC8 => String::from_str("ret z"),
        0xC9 => String::from_str("ret"),
        0xCA => conditional("jp ", "z", b1 as u16),
        0xCB => disassemble_cb(b1),
        0xCC => conditional("call ", "z", word(b1, b2)),
        0xCD => mnemonic_hex("call ", word(b1, b2), "h"),
        0xCE => mnemonic_hex("adc ", b1 as u16, "h"),
        0xCF => String::from_str("rst 08h"),
        0xD0 => String::from_str("ret nc"),
        0xD1 => mnemonic_with("pop ", "de"),
        0xD2 => conditional("jp ", "nc", b1 as u16),
        0xD3 => String::from_str("ill"),
        0xD4 => conditional("call ", "nc", word(b1, b2)),
        0xD5 => mnemonic_with("push ", "de"),
        0xD6 => mnemonic_hex("sub ", b1 as u16, "h"),
        0xD7 => String::from_str("rst 10h"),
        0xD8 => String::from_str("ret c"),
        0xD9 => String::from_str("reti"),
        0xDA => conditional("jp ", "c", b1 as u16),
        0xDB => String::from_str("ill"),
        0xDC => conditional("call ", "c", word(b1, b2)),
        0xDD => String::from_str("ill"),
        0xDE => mnemonic_hex("sbc ", b1 as u16, "h"),
        0xDF => String::from_str("rst 18h"),
        0xE0 => store_high("a", b1),
        0xE1 => mnemonic_with("pop ", "hl"),
        0xE2 => load_pair("0xff00 + c", "a"),
        0xE3 => String::from_str("ill"),
        0xE4 => String::from_str("ill"),
        0xE5 => mnemonic_with("push ", "hl"),
        0xE6 => mnemonic_hex("and ", b1 as u16, "h"),
        0xE7 => String::from_str("rst 20h"),
        0xE8 => mnemonic_hex("add sp, ", b1 as u16, "h, "),
        0xE9 => String::from_str("jp (hl)"),
        0xEA => store_word("a", word(b1, b2)),
        0xEB => String::from_str("ill"),
        0xEC => String::from_str("ill"),
        0xED => String::from_str("ill"),
        0xEE => mnemonic_hex("xor ", b1 as u16, "h"),
        0xEF => String::from_str("rst 28h"),
        0xF0 => load_high("a", b1),
        0xF1 => mnemonic_with("pop ", "af"),
        0xF2 => load_pair("a", "0xff00 + c"),
        0xF3 => String::from_str("di"),
        0xF4 => String::from_str("ill"),
        0xF5 => mnemonic_with("push ", "af"),
        0xF6 => mnemonic_hex("or ", b1 as u16, "h"),
        0xF7 => String::from_str("rst 30h"),
        0xF8 => mnemonic_hex("ld hl, sp + ", b1 as u16, "h"),
        0xF9 => String::from_str("ld sp, hl"),
        0xFA => load_word("a", word(b1, b2)),
        0xFB => String::from_str("ei"),
        0xFC => String::from_str("ill"),
        0xFD => String::from_str("ill"),
        0xFE => mnemonic_hex("cp ", b1 as u16, "h"),
        _ => String::from_str("rst 38h"),
    }
}

/// The text of the instruction `opcode` with operand bytes `b1`, `b2`, at `pc`.
pub open spec fn disasm_spec(opcode: u8, b1: u8, b2: u8, pc: u16) -> Seq<char> {
    if opcode < 0x40 {
        disasm_block0(opcode, b1, b2, pc)
    } else if opcode < 0x80 {
        disasm_block1(opcode, b1, b2, pc)
    } else if opcode < 0xC0 {
        disasm_block2(opcode, b1, b2, pc)
    } else {
        disasm_block3(opcode, b1, b2, pc)
    }
}

/// The text of the instruction `opcode` with operand bytes `b1`, `b2`, at `pc`.
pub fn disassemble_bytes(opcode: u8, b1: u8, b2: u8, pc: u16) -> (r: String)
    ensures
        r@ == disasm_spec(opcode, b1, b2, pc),
{
    if opcode < 0x40 {
        disassemble_block0(opcode, b1, b2, pc)
    } else if opcode < 0x80 {
        disassemble_block1(opcode, b1, b2, pc)
    } else if opcode < 0xC0 {
        disassemble_block2(opcode, b1, b2, pc)
    } else {
        disassemble_block3(opcode, b1, b2, pc)
    }
}

/// One line of a disassembly listing.
pub struct DisassemblyLine {
    pub address: u16,
    pub bytes: Vec<u8>,
    pub text: String,
}

/// The CPU state the debugger shows.
pub struct DebugSnapshot {
    pub af: u16,
    pub bc: u16,
    pub de: u16,
    pub hl: u16,
    pub sp: u16,
    pub pc: u16,
    pub opcode: u8,
    pub disassembly: String,
    pub pc_bytes: [u8; 4],
    pub stack_bytes: [u8; 8],
    pub interrupt_master: bool,
    pub is_halted: bool,
    pub is_stopped: bool,
    pub pending_cycles: usize,
    pub ticks: u32,
    pub ly: u8,
    pub stat: u8,
    pub if_flag: u8,
    pub ie_flag: u8,
}

/// The address `offset` bytes after `address`, wrapping.
pub open spec fn wrapped(address: u16, offset: int) -> u16 {
    ((address + offset) % 0x10000) as u16
}

impl Gb {
    /// The text of the instruction at `address` (opcode `opcode`), with its operand bytes
    /// read from memory.
    pub open spec fn text_at(&self, opcode: u8, address: u16) -> Seq<char> {
        disasm_spec(opcode, self.read_spec(wrapped(address, 1)), self.read_spec(wrapped(address, 2)), address)
    }

    /// The text of the current instruction at PC.
    pub fn disassemble(&self) -> (r: String)
        requires
            self.wf(),
        ensures
            r@ == self.text_at(self.cpu.current_instruction, self.cpu.pc),
    {
        let pc = self.cpu.pc;
        let b1 = self.read_byte(((pc as u32 + 1) % 0x10000) as u16);
        let b2 = self.read_byte(((pc as u32 + 2) % 0x10000) as u16);
        disassemble_bytes(self.cpu.current_instruction, b1, b2, pc)
    }

    /// The length of the instruction at `address` as the listing counts it (at least 1).
    pub open spec fn listed_size(&self, address: u16) -> int {
        opcode_size_spec(self.read_spec(address)) as int
    }

    /// The address of line `k` of a listing from `start`.
    pub open spec fn listing_address(&self, start: u16, k: nat) -> u16
        decreases k,
    {
        if k == 0 {
            start
        } else {
            let previous = self.listing_address(start, (k - 1) as nat);
            wrapped(previous, self.listed_size(previous))
        }
    }

    /// Line `k` of a listing from `start`: its address, bytes and text.
    pub open spec fn listing_line(&self, start: u16, k: nat, line: &DisassemblyLine) -> bool {
        let address = self.listing_address(start, k);
        &&& line.address == address
        &&& line.bytes@ == Seq::new(self.listed_size(address) as nat, |j: int| self.read_spec(wrapped(address, j)))
        &&& line.text@ == self.text_at(self.read_spec(address), address)
    }

    /// `count` lines of disassembly from `start`, each instruction after the previous one.
    pub fn disassemble_range(&mut self, start: u16, count: usize) -> (r: Vec<DisassemblyLine>)
        requires
            old(self).wf(),
        ensures
            *final(self) == *old(self),
            r@.len() == count,
            forall|k: int| 0 <= k < count ==> old(self).listing_line(start, k as nat, #[trigger] &r@[k]),
    {
        let mut lines: Vec<DisassemblyLine> = Vec::new();
        let mut address = start;
        let mut k: usize = 0;
        while k < count
            invariant
                self.wf(),
                *self == *old(self),
                k <= count,
                lines@.len() == k,
                address == self.listing_address(start, k as nat),
                forall|i: int| 0 <= i < k ==> self.listing_line(start, i as nat, #[trigger] &lines@[i]),
            decreases count - k,
        {
            let opcode = self.read_byte(address);
            let size = crate::cpu::opcode_size(opcode);
            let mut bytes: Vec<u8> = Vec::new();
            let mut j: u16 = 0;
            while j < size
                invariant
                    self.wf(),
                    j <= size,
                    size == self.listed_size(address),
                    bytes@ == Seq::new(j as nat, |t: int| self.read_spec(wrapped(address, t))),
                decreases size - j,
            {
                bytes.push(self.read_byte(((address as u32 + j as u32) % 0x10000) as u16));
                j = j + 1;
                assert(bytes@ =~= Seq::new(j as nat, |t: int| self.read_spec(wrapped(address, t))));
            }
            let b1 = self.read_byte(((address as u32 + 1) % 0x10000) as u16);
            let b2 = self.read_byte(((address as u32 + 2) % 0x10000) as u16);
            let text = disassemble_bytes(opcode, b1, b2, address);
            lines.push(DisassemblyLine { address, bytes, text });
            address = ((address as u32 + size as u32) % 0x10000) as u16;
            k = k + 1;
        }
        lines
    }

    /// The CPU state for the debugger, with the instruction at PC taken as the current one.
    pub fn debug_snapshot(&mut self) -> (r: DebugSnapshot)
        requires
            old(self).wf(),
        ensures
            final(self).wf(),
            *final(self) == (Gb {
                cpu: crate::cpu::Cpu { current_instruction: old(self).read_spec(old(self).cpu.pc), ..old(self).cpu },
                ..*old(self)
            }),
            r.opcode == old(self).read_spec(old(self).cpu.pc),
            r.disassembly@ == old(self).text_at(r.opcode, old(self).cpu.pc),
            r.pc == old(self).cpu.pc && r.sp == old(self).cpu.sp,
            forall|i: int| 0 <= i < 4 ==> r.pc_bytes@[i] == old(self).read_spec(wrapped(old(self).cpu.pc, i)),
            forall|i: int| 0 <= i < 8 ==> r.stack_bytes@[i] == old(self).read_spec(wrapped(old(self).cpu.sp, i)),
            r.interrupt_master == old(self).cpu.interrupt_master && r.is_halted == old(self).cpu.is_halted,
            r.is_stopped == old(self).cpu.is_stopped && r.pending_cycles == old(self).cpu.pending_cycles,
            r.ticks == old(self).cpu.ticks,
            r.ly == old(self).ppu.ly && r.stat == old(self).ppu.stat,
            r.if_flag == old(self).if_flag && r.ie_flag == old(self).ie_flag,
            r.af == crate::cpu::pair_value(old(self).cpu.registers[0], crate::cpu::flag_nibble(old(self).cpu.registers[1])),
            r.bc == crate::cpu::pair_value(old(self).cpu.registers[2], old(self).cpu.registers[3]),
            r.de == crate::cpu::pair_value(old(self).cpu.registers[4], old(self).cpu.registers[5]),
            r.hl == crate::cpu::pair_value(old(self).cpu.registers[6], old(self).cpu.registers[7]),
    {
        let opcode = self.read_byte(self.cpu.pc);
        self.cpu.current_instruction = opcode;
        let mut pc_bytes: [u8; 4] = [0; 4];
        let mut i: usize = 0;
        while i < 4
            invariant
                self.wf(),
                i <= 4,
                forall|j: int| 0 <= j < i ==> pc_bytes@[j] == self.read_spec(wrapped(self.cpu.pc, j)),
            decreases 4 - i,
        {
            pc_bytes[i] = self.read_byte(((self.cpu.pc as u32 + i as u32) % 0x10000) as u16);
            i = i + 1;
        }
        let mut stack_bytes: [u8; 8] = [0; 8];
        let mut i: usize = 0;
        while i < 8
            invariant
                self.wf(),
                i <= 8,
                forall|j: int| 0 <= j < i ==> stack_bytes@[j] == self.read_spec(wrapped(self.cpu.sp, j)),
            decreases 8 - i,
        {
            stack_bytes[i] = self.read_byte(((self.cpu.sp as u32 + i as u32) % 0x10000) as u16);
            i = i + 1;
        }
        DebugSnapshot {
            af: self.cpu.af(),
            bc: self.cpu.bc(),
            de: self.cpu.de(),
            hl: self.cpu.hl(),
            sp: self.cpu.sp,
            pc: self.cpu.pc,
            opcode,
            disassembly: self.disassemble(),
            pc_bytes,
            stack_bytes,
            interrupt_master: self.cpu.interrupt_master,
            is_halted: self.cpu.is_halted,
            is_stopped: self.cpu.is_stopped,
            pending_cycles: self.cpu.pending_cycles,
            ticks: self.cpu.ticks,
            ly: self.ppu.get_ly(),
            stat: self.ppu.stat,
            if_flag: self.if_flag,
            ie_flag: self.ie_flag,
        }
    }
}

/// The byte the CPU reads `k` bytes after PC.
pub open spec fn pc_byte(g: Gb, k: int) -> u8 {
    g.read_spec(((g.cpu.pc + k) % 0x10000) as u16)
}

/// A trace line: the registers A, F, B, C, D, E, H, L, then SP, PC, the four bytes from PC,
/// LY and STAT.
pub open spec fn trace_fields(regs: Seq<u8>, sp: u16, pc: u16, mem: Seq<u8>, ly: u8, stat: u8) -> Seq<char> {
    "A:"@ + hex_byte_upper(regs[0]) + " F:"@ + hex_byte_upper(flag_nibble(regs[1])) + " B:"@ + hex_byte_upper(regs[2])
        + " C:"@ + hex_byte_upper(regs[3]) + " D:"@ + hex_byte_upper(regs[4]) + " E:"@ + hex_byte_upper(regs[5])
        + " H:"@ + hex_byte_upper(regs[6]) + " L:"@ + hex_byte_upper(regs[7]) + " SP:"@ + hex_word_upper(sp) + " PC:"@
        + hex_word_upper(pc) + " PCMEM:"@ + hex_byte_upper(mem[0]) + ","@ + hex_byte_upper(mem[1]) + ","@
        + hex_byte_upper(mem[2]) + ","@ + hex_byte_upper(mem[3]) + " LY:"@ + hex_byte_upper(ly) + " STAT: "@
        + hex_byte_upper(stat)
}

/// The trace line of a machine's state.
pub open spec fn trace_line(g: Gb) -> Seq<char> {
    trace_fields(
        g.cpu.registers@,
        g.cpu.sp,
        g.cpu.pc,
        seq![pc_byte(g, 0), pc_byte(g, 1), pc_byte(g, 2), pc_byte(g, 3)],
        g.ppu.ly,
        g.ppu.stat,
    )
}

fn format_trace(regs: &[u8; 8], sp: u16, pc: u16, mem: &[u8; 4], ly: u8, stat: u8) -> (r: String)
    ensures
        r@ == trace_fields(regs@, sp, pc, mem@, ly, stat),
{
    let mut s = String::from_str("A:");
    push_hex_byte_upper(&mut s, regs[0]);
    s.append(" F:");
    push_hex_byte_upper(&mut s, regs[1] & 0xF0);
    s.append(" B:");
    push_hex_byte_upper(&mut s, regs[2]);
    s.append(" C:");
    push_hex_byte_upper(&mut s, regs[3]);
    s.append(" D:");
    push_hex_byte_upper(&mut s, regs[4]);
    s.append(" E:");
    push_hex_byte_upper(&mut s, regs[5]);
    s.append(" H:");
    push_hex_byte_upper(&mut s, regs[6]);
    s.append(" L:");
    push_hex_byte_upper(&mut s, regs[7]);
    s.append(" SP:");
    push_hex_word_upper(&mut s, sp);
    s.append(" PC:");
    push_hex_word_upper(&mut s, pc);
    s.append(" PCMEM:");
    push_hex_byte_upper(&mut s, mem[0]);
    s.append(",");
    push_hex_byte_upper(&mut s, mem[1]);
    s.append(",");
    push_hex_byte_upper(&mut s, mem[2]);
    s.append(",");
    push_hex_byte_upper(&mut s, mem[3]);
    s.append(" LY:");
    push_hex_byte_upper(&mut s, ly);
    s.append(" STAT: ");
    push_hex_byte_upper(&mut s, stat);
    s
}

impl Gb {
    /// The trace line of the machine's state, as the debug log prints it.
    #[verifier::spinoff_prover]
    pub fn debug_message(&self) -> (r: String)
        requires
            self.wf(),
        ensures
            r@ == trace_line(*self),
    {
        let pc = self.cpu.pc;
        let mem = [
            self.read_byte(pc),
            self.read_byte(pc.wrapping_add(1)),
            self.read_byte(pc.wrapping_add(2)),
            self.read_byte(pc.wrapping_add(3)),
        ];
        assert(mem@ =~= seq![pc_byte(*self, 0), pc_byte(*self, 1), pc_byte(*self, 2), pc_byte(*self, 3)]);
        format_trace(&self.cpu.registers, self.cpu.sp, pc, &mem, self.ppu.get_ly(), self.ppu.stat)
    }
}

/// The names of the eight-bit operands an opcode's register field (0 to 7) selects.
pub open spec fn register_field_name(field: int) -> Seq<char> {
    seq!["b"@, "c"@, "d"@, "e"@, "h"@, "l"@, "(hl)"@, "a"@][field]
}

/// The mnemonics the operation field (0 to 7) of opcodes 0x80..=0xBF selects.
pub open spec fn alu_field_mnemonic(op: int) -> Seq<char> {
    seq!["add a, "@, "adc "@, "sub "@, "sbc "@, "and "@, "xor "@, "or "@, "cp "@][op]
}

/// Opcode 0x04 + 8r increments and 0x05 + 8r decrements the operand in register field r:
/// their texts are "inc " and "dec " followed by that operand's name.
pub proof fn lemma_inc_dec_texts(field: u8, b1: u8, b2: u8, pc: u16)
    requires
        field < 8,
    ensures
        disasm_spec((0x04 + 8 * field) as u8, b1, b2, pc) == "inc "@ + register_field_name(field as int),
        disasm_spec((0x05 + 8 * field) as u8, b1, b2, pc) == "dec "@ + register_field_name(field as int),
{
    if field == 0 {
    } else if field == 1 {
    } else if field == 2 {
    } else if field == 3 {
    } else if field == 4 {
    } else if field == 5 {
    } else if field == 6 {
    } else {
    }
}

/// Opcode 0x80 + 8 op + r applies the operation in field op to the operand in register field
/// r: its text is the operation's mnemonic followed by the operand's name.
pub proof fn lemma_alu_texts(op: u8, field: u8, b1: u8, b2: u8, pc: u16)
    requires
        op < 8,
        field < 8,
    ensures
        disasm_spec((0x80 + 8 * op + field) as u8, b1, b2, pc) == alu_field_mnemonic(op as int) + register_field_name(
            field as int,
        ),
{
    let opcode = (0x80 + 8 * op + field) as u8;
    assert(0x80 <= opcode < 0xC0);
    if op == 0 {
        lemma_alu_row(0x80, field, b1, b2, pc);
    } else if op == 1 {
        lemma_alu_row(0x88, field, b1, b2, pc);
    } else if op == 2 {
        lemma_alu_row(0x90, field, b1, b2, pc);
    } else if op == 3 {
        lemma_alu_row(0x98, field, b1, b2, pc);
    } else if op == 4 {
        lemma_alu_row(0xA0, field, b1, b2, pc);
    } else if op == 5 {
        lemma_alu_row(0xA8, field, b1, b2, pc);
    } else if op == 6 {
        lemma_alu_row(0xB0, field, b1, b2, pc);
    } else {
        lemma_alu_row(0xB8, field, b1, b2, pc);
    }
}

proof fn lemma_alu_row(base: u8, field: u8, b1: u8, b2: u8, pc: u16)
    requires
        base == 0x80 || base == 0x88 || base == 0x90 || base == 0x98 || base == 0xA0 || base == 0xA8 || base == 0xB0
            || base == 0xB8,
        field < 8,
    ensures
        disasm_spec((base + field) as u8, b1, b2, pc) == alu_field_mnemonic((base - 0x80) / 8) + register_field_name(
            field as int,
        ),
{
    if field == 0 {
    } else if field == 1 {
    } else if field == 2 {
    } else if field == 3 {
    } else if field == 4 {
    } else if field == 5 {
    } else if field == 6 {
    } else {
    }
}

/// Opcode 0x06 + 8r loads the immediate byte into the operand in register field r: its text
/// names that operand and the byte in hex.
pub proof fn lemma_load_immediate_texts(field: u8, b1: u8, b2: u8, pc: u16)
    requires
        field < 8,
    ensures
        disasm_spec((0x06 + 8 * field) as u8, b1, b2, pc) == "ld "@ + register_field_name(field as int) + ","@ + " "@
            + alt_hex(b1 as nat) + "h"@,
{
    if field == 0 {
    } else if field == 1 {
    } else if field == 2 {
    } else if field == 3 {
    } else if field == 4 {
    } else if field == 5 {
    } else if field == 6 {
    } else {
    }
}

/// The destination a register-to-register load names: the operand in field `dest`, except that
/// loads from b, c, d, e, h and l into (hl) write it as "hl".
pub open spec fn load_destination_name(dest: int, src: int) -> Seq<char> {
    if dest == 6 && src != 7 {
        "hl"@
    } else {
        register_field_name(dest)
    }
}

/// Opcode 0x40 + 8d + s (other than 0x76, halt) copies the operand in register field s into
/// the one in field d: its text is "ld", the destination and the source.
pub proof fn lemma_load_register_texts(dest: u8, src: u8, b1: u8, b2: u8, pc: u16)
    requires
        dest < 8,
        src < 8,
        !(dest == 6 && src == 6),
    ensures
        disasm_spec((0x40 + 8 * dest + src) as u8, b1, b2, pc) == "ld "@ + load_destination_name(dest as int, src as int)
            + ", "@ + register_field_name(src as int),
{
    if dest == 0 {
        lemma_load_row(0x40, src, b1, b2, pc);
    } else if dest == 1 {
        lemma_load_row(0x48, src, b1, b2, pc);
    } else if dest == 2 {
        lemma_load_row(0x50, src, b1, b2, pc);
    } else if dest == 3 {
        lemma_load_row(0x58, src, b1, b2, pc);
    } else if dest == 4 {
        lemma_load_row(0x60, src, b1, b2, pc);
    } else if dest == 5 {
        lemma_load_row(0x68, src, b1, b2, pc);
    } else if dest == 6 {
        lemma_load_row(0x70, src, b1, b2, pc);
    } else {
        lemma_load_row(0x78, src, b1, b2, pc);
    }
}

proof fn lemma_load_row(base: u8, src: u8, b1: u8, b2: u8, pc: u16)
    requires
        base == 0x40 || base == 0x48 || base == 0x50 || base == 0x58 || base == 0x60 || base == 0x68 || base == 0x70
            || base == 0x78,
        src < 8,
        !(base == 0x70 && src == 6),
    ensures
        disasm_spec((base + src) as u8, b1, b2, pc) == "ld "@ + load_destination_name((base - 0x40) / 8, src as int) + ", "@
            + register_field_name(src as int),
{
    if src == 0 {
    } else if src == 1 {
    } else if src == 2 {
    } else if src == 3 {
    } else if src == 4 {
    } else if src == 5 {
    } else if src == 6 {
    } else {
    }
}

/// The mnemonics of the CB-prefixed rotates and shifts, by operation field (0 to 7).
pub open spec fn cb_shift_mnemonic(op: int) -> Seq<char> {
    seq!["rlc "@, "rrc "@, "rl "@, "rr "@, "sla "@, "sra "@, "swap "@, "srl "@][op]
}

/// The mnemonics of the CB-prefixed bit operations, by the top two bits (1 to 3).
pub open spec fn cb_bit_mnemonic(group: int) -> Seq<char> {
    seq!["bit "@, "res "@, "set "@][group - 1]
}

/// The low three bits of a CB-prefixed opcode name its operand as register field r does.
proof fn lemma_cb_register(p: u8)
    ensures
        reg_name_spec(p) == register_field_name((p % 8) as int),
{
    let q = p / 8;
    assert(p == 8 * q + p % 8);
    assert(p / 2 == 4 * q + (p % 8) / 2);
    assert((p / 2 + 1) % 4 == ((p % 8) / 2 + 1) % 4);
}

/// After the 0xCB prefix, a byte below 0x40 is the rotate or shift in bits 3..=5 applied to
/// the operand in register field bits 0..=2; a higher byte is "bit", "res" or "set" (by its
/// top two bits) of the bit number in bits 3..=5, on that operand.
pub proof fn lemma_cb_texts(b1: u8, b2: u8, pc: u16)
    ensures
        b1 < 0x40 ==> disasm_spec(0xCB, b1, b2, pc) == cb_shift_mnemonic((b1 / 8) as int) + register_field_name((b1 % 8) as int),
        b1 >= 0x40 ==> disasm_spec(0xCB, b1, b2, pc) == cb_bit_mnemonic((b1 / 64) as int) + alt_hex(((b1 / 8) % 8) as nat)
            + ", "@ + register_field_name((b1 % 8) as int),
{
    lemma_cb_register(b1);
}

/// The branch conditions that field k (0 to 3) of opcodes 0xC0..=0xDF selects.
pub open spec fn condition_name(k: int) -> Seq<char> {
    seq!["nz"@, "z"@, "nc"@, "c"@][k]
}

/// The register pairs that field k (0 to 3) of the push and pop opcodes selects.
pub open spec fn stack_pair_name(k: int) -> Seq<char> {
    seq!["bc"@, "de"@, "hl"@, "af"@][k]
}

/// Opcodes 0xC1 + 16k pop and 0xC5 + 16k push register pair k; 0xC4 + 8k calls the 16-bit
/// address in the operand bytes on condition k.
pub proof fn lemma_stack_and_call_texts(k: u8, b1: u8, b2: u8, pc: u16)
    requires
        k < 4,
    ensures
        disasm_spec((0xC1 + 16 * k) as u8, b1, b2, pc) == "pop "@ + stack_pair_name(k as int),
        disasm_spec((0xC5 + 16 * k) as u8, b1, b2, pc) == "push "@ + stack_pair_name(k as int),
        disasm_spec((0xC4 + 8 * k) as u8, b1, b2, pc) == "call "@ + condition_name(k as int) + ", "@ + alt_hex(
            (b1 as nat + 256 * b2 as nat),
        ) + "h"@,
{
    if k == 0 {
    } else if k == 1 {
    } else if k == 2 {
    } else {
    }
}

/// Opcode 0xC0 + 8k returns on condition k: its text is "ret " followed by the condition.
pub proof fn lemma_conditional_return_texts(k: u8, b1: u8, b2: u8, pc: u16)
    requires
        k < 4,
    ensures
        disasm_spec((0xC0 + 8 * k) as u8, b1, b2, pc) == "ret "@ + condition_name(k as int),
{
    reveal_strlit("ret ");
    if k == 0 {
        reveal_strlit("ret nz");
        reveal_strlit("nz");
        assert(disasm_spec(0xC0, b1, b2, pc) =~= "ret "@ + "nz"@);
    } else if k == 1 {
        reveal_strlit("ret z");
        reveal_strlit("z");
        assert(disasm_spec(0xC8, b1, b2, pc) =~= "ret "@ + "z"@);
    } else if k == 2 {
        reveal_strlit("ret nc");
        reveal_strlit("nc");
        assert(disasm_spec(0xD0, b1, b2, pc) =~= "ret "@ + "nc"@);
    } else {
        reveal_strlit("ret c");
        reveal_strlit("c");
        assert(disasm_spec(0xD8, b1, b2, pc) =~= "ret "@ + "c"@);
    }
}

/// The register pairs that field k (0 to 3) of the 16-bit arithmetic and load opcodes selects.
pub open spec fn word_pair_name(k: int) -> Seq<char> {
    seq!["bc"@, "de"@, "hl"@, "sp"@][k]
}

/// Opcodes 0x01 + 16k load the 16-bit immediate into pair k, 0x03 + 16k increment it,
/// 0x09 + 16k add it to HL and 0x0B + 16k decrement it; each text names that pair.
pub proof fn lemma_word_pair_texts(k: u8, b1: u8, b2: u8, pc: u16)
    requires
        k < 4,
    ensures
        disasm_spec((0x01 + 16 * k) as u8, b1, b2, pc) == "ld "@ + word_pair_name(k as int) + " "@ + alt_hex(
            (b1 as nat + 256 * b2 as nat),
        ) + "h"@,
        disasm_spec((0x03 + 16 * k) as u8, b1, b2, pc) == "inc "@ + word_pair_name(k as int),
        disasm_spec((0x09 + 16 * k) as u8, b1, b2, pc) == "add hl, "@ + word_pair_name(k as int),
        disasm_spec((0x0B + 16 * k) as u8, b1, b2, pc) == "dec "@ + word_pair_name(k as int),
{
    if k == 0 {
    } else if k == 1 {
    } else if k == 2 {
    } else {
    }
}

} // verus!

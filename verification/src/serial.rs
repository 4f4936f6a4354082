use vstd::prelude::*;
use crate::memory::Memory;
use crate::text::{byte_char, byte_to_char, hex_digit_lower, hex_lower, push_char};

verus! {

/// The serial port: transfer data (SB), control (SC) and every byte sent so far.
pub struct Serial {
    pub sb: u8,
    pub sc: u8,
    pub serial_data: Vec<u8>,
}

/// How `u8::escape_ascii` prints one byte: tab, CR, LF, quotes and backslash with a backslash,
/// printable ASCII as itself, anything else as `\xNN` in lower-case hexadecimal.
pub open spec fn escape_byte(b: u8) -> Seq<char> {
    if b == 0x09 {
        seq!['\\', 't']
    } else if b == 0x0D {
        seq!['\\', 'r']
    } else if b == 0x0A {
        seq!['\\', 'n']
    } else if b == 0x27 {
        seq!['\\', '\'']
    } else if b == 0x22 {
        seq!['\\', '"']
    } else if b == 0x5C {
        seq!['\\', '\\']
    } else if 0x20 <= b <= 0x7E {
        seq![byte_char(b)]
    } else {
        seq!['\\', 'x', hex_lower(b / 16), hex_lower(b % 16)]
    }
}

/// The escaped text of a byte sequence.
pub open spec fn escape_bytes(s: Seq<u8>) -> Seq<char>
    decreases s.len(),
{
    if s.len() == 0 {
        Seq::empty()
    } else {
        escape_bytes(s.drop_last()) + escape_byte(s.last())
    }
}

/// Appends the escaped form of one byte.
fn push_escaped(out: &mut String, b: u8)
    ensures
        final(out)@ == old(out)@ + escape_byte(b),
{
    if b == 0x09 {
        push_char(out, '\\');
        push_char(out, 't');
    } else if b == 0x0D {
        push_char(out, '\\');
        push_char(out, 'r');
    } else if b == 0x0A {
        push_char(out, '\\');
        push_char(out, 'n');
    } else if b == 0x27 {
        push_char(out, '\\');
        push_char(out, '\'');
    } else if b == 0x22 {
        push_char(out, '\\');
        push_char(out, '"');
    } else if b == 0x5C {
        push_char(out, '\\');
        push_char(out, '\\');
    } else if 0x20 <= b && b <= 0x7E {
        push_char(out, byte_to_char(b));
    } else {
        push_char(out, '\\');
        push_char(out, 'x');
        push_char(out, hex_digit_lower(b / 16));
        push_char(out, hex_digit_lower(b % 16));
    }
    assert(out@ =~= old(out)@ + escape_byte(b));
}

impl Serial {
    /// The serial port that `new` builds: nothing sent.
    pub open spec fn started(&self) -> bool {
        &&& (self.sb == 0)
        &&& (self.sc == 0x7E)
        &&& (self.serial_data@ == Seq::<u8>::empty())
    }

    pub fn new() -> (r: Self)
        ensures
            r.started(),
    {
        Self { sb: 0, sc: 0x7E, serial_data: Vec::new() }
    }

    /// Takes everything sent since the last call, escaped as ASCII text; `None` while
    /// nothing has been sent. The bytes handed over leave the port.
    pub fn get_serial_message(&mut self) -> (r: Option<String>)
        ensures
            r is None <==> old(self).serial_data@.len() == 0,
            r matches Some(s) ==> s@ == escape_bytes(old(self).serial_data@),
            final(self).serial_data@.len() == 0,
            final(self).sb == old(self).sb && final(self).sc == old(self).sc,
    {
        if self.serial_data.len() == 0 {
            return None;
        }
        let mut out = String::new();
        let mut i: usize = 0;
        while i < self.serial_data.len()
            invariant
                0 <= i <= self.serial_data@.len(),
                out@ == escape_bytes(self.serial_data@.subrange(0, i as int)),
            decreases self.serial_data@.len() - i,
        {
            let b = self.serial_data[i];
            push_escaped(&mut out, b);
            assert(self.serial_data@.subrange(0, i + 1).drop_last() =~= self.serial_data@.subrange(0, i as int));
            i = i + 1;
        }
        assert(self.serial_data@.subrange(0, self.serial_data@.len() as int) =~= self.serial_data@);
        self.serial_data.clear();
        Some(out)
    }
}

impl Memory for Serial {
    open spec fn readable(&self, address: u16) -> bool {
        address == 0xFF01 || address == 0xFF02
    }

    open spec fn writable(&self, address: u16) -> bool {
        address == 0xFF01 || address == 0xFF02
    }

    fn read_byte(&self, address: u16) -> (r: u8)
        ensures
            r == (if address == 0xFF01 { self.sb } else { self.sc }),
    {
        if address == 0xFF01 {
            self.sb
        } else {
            self.sc
        }
    }

    /// Writing 0x81 to SC sends SB: the byte is recorded and SC reads 0 afterwards.
    fn write_byte(&mut self, address: u16, value: u8)
        ensures
            address == 0xFF01 ==> final(self).sb == value && final(self).sc == old(self).sc
                && final(self).serial_data@ == old(self).serial_data@,
            address == 0xFF02 && value == 0x81 ==> final(self).sb == old(self).sb && final(self).sc == 0
                && final(self).serial_data@ == old(self).serial_data@.push(old(self).sb),
            address == 0xFF02 && value != 0x81 ==> final(self).sb == old(self).sb && final(self).sc == value
                && final(self).serial_data@ == old(self).serial_data@,
    {
        if address == 0xFF01 {
            self.sb = value;
        } else {
            self.sc = value;
            if value == 0x81 {
                self.serial_data.push(self.sb);
                self.sc = 0;
            }
        }
    }
}

} // verus!

use vstd::prelude::*;

verus! {

/// A memory-mapped device: the addresses it answers and what it does on a read or a write.
pub trait Memory {
    /// Whether the device answers reads at `address`.
    spec fn readable(&self, address: u16) -> bool;

    /// Whether the device answers writes at `address`.
    spec fn writable(&self, address: u16) -> bool;

    /// A device that does not say otherwise reads 0x00.
    fn read_byte(&self, address: u16) -> (r: u8)
        requires
            self.readable(address),
        default_ensures
            r == 0x00,
    {
        0x00
    }

    fn write_byte(&mut self, address: u16, value: u8)
        requires
            old(self).writable(address),
    {
    }
}

} // verus!

use vstd::prelude::*;

verus! {

/// Number of bytes in the 16-bit address space.
pub const MEM_SIZE: usize = 0x10000;

/// The bus the core talks to: a byte at every 16-bit address, and the interrupt request
/// (IF) and interrupt enable (IE) bytes.
pub struct Interconnect {
    pub mem: [u8; 0x10000],
    /// IF: interrupt requests, one bit per source in bits 0 to 4.
    pub int_flags: u8,
    /// IE: enabled interrupt sources, one bit per source in bits 0 to 4.
    pub int_enable: u8,
}

impl Interconnect {
    /// A bus whose every byte is zero, with no interrupt requested or enabled.
    pub fn new() -> (r: Self)
        ensures
            r.mem@ == Seq::new(0x10000, |i: int| 0u8),
            r.int_flags == 0,
            r.int_enable == 0,
    {
        let r = Interconnect { mem: [0u8; 0x10000], int_flags: 0, int_enable: 0 };
        assert(r.mem@ =~= Seq::new(0x10000, |i: int| 0u8));
        r
    }

    /// The byte at `addr`.
    pub fn read(&self, addr: u16) -> (r: u8)
        ensures
            r == self.mem@[addr as int],
    {
        self.mem[addr as usize]
    }

    /// Stores `val` at `addr`.
    pub fn write(&mut self, addr: u16, val: u8)
        ensures
            final(self).mem@ == old(self).mem@.update(addr as int, val),
            final(self).int_flags == old(self).int_flags,
            final(self).int_enable == old(self).int_enable,
    {
        self.mem[addr as usize] = val;
    }
}

} // verus!

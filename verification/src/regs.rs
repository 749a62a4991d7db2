use vstd::prelude::*;

verus! {

/// The CPU status register (the P register) of the emulated machine.
///
/// The register is a plain byte; each accessor reads one documented bit of
/// it.  Values are produced by the FFI shell from the byte the native core
/// reports and never change afterwards.
#[derive(Clone, Copy, Debug, PartialEq, Eq, Hash, Structural)]
pub struct RegP(u8);

impl RegP {
    /// The raw byte of the register.
    pub closed spec fn spec_bits(self) -> u8 {
        self.0
    }

    /// The carry flag: bit 0.
    pub open spec fn spec_carry(self) -> bool {
        self.spec_bits() & 0x01 != 0
    }

    /// The zero flag: bit 1.
    pub open spec fn spec_zero(self) -> bool {
        self.spec_bits() & 0x02 != 0
    }

    /// The overflow flag: bit 6.
    pub open spec fn spec_overflow(self) -> bool {
        self.spec_bits() & 0x40 != 0
    }

    /// The negative flag: bit 7.
    pub open spec fn spec_negative(self) -> bool {
        self.spec_bits() & 0x80 != 0
    }

    /// Wraps the raw register byte reported by the native core.
    pub fn from_bits(bits: u8) -> (r: RegP)
        ensures
            r.spec_bits() == bits,
    {
        RegP(bits)
    }

    /// The raw register byte.
    pub fn bits(self) -> (b: u8)
        ensures
            b == self.spec_bits(),
    {
        self.0
    }

    /// Returns the carry flag.
    pub fn carry(self) -> (b: bool)
        ensures
            b == self.spec_carry(),
    {
        self.0 & 0x01 != 0
    }

    /// Returns the zero flag.
    pub fn zero(self) -> (b: bool)
        ensures
            b == self.spec_zero(),
    {
        self.0 & 0x02 != 0
    }

    /// Returns the overflow flag.
    pub fn overflow(self) -> (b: bool)
        ensures
            b == self.spec_overflow(),
    {
        self.0 & 0x40 != 0
    }

    /// Returns the negative flag.
    pub fn negative(self) -> (b: bool)
        ensures
            b == self.spec_negative(),
    {
        self.0 & 0x80 != 0
    }
}

} // verus!

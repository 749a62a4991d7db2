use vstd::prelude::*;

verus! {

/// A named memory domain of the running emulator.
///
/// Memory access is a direct passthrough to the native core: an address is
/// sixteen bits wide and no further validation is applied.  The native
/// interface identifies each domain by a small integer tag.
#[derive(Clone, Copy, Debug, PartialEq, Eq, Structural)]
pub enum MemoryDomain {
    /// The CPU address space.
    Cpu,
}

impl MemoryDomain {
    /// The tag under which the native core knows this domain.
    pub open spec fn spec_native_code(self) -> u32 {
        match self {
            MemoryDomain::Cpu => 0,
        }
    }

    /// Returns the tag under which the native core knows this domain.
    pub fn native_code(self) -> (c: u32)
        ensures
            c == self.spec_native_code(),
    {
        match self {
            MemoryDomain::Cpu => 0,
        }
    }
}

} // verus!

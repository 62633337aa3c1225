//! What a flash operation can fail with.

use vstd::prelude::*;

verus! {

#[derive(Clone, Copy, Debug, PartialEq, Eq, Structural)]
pub enum Error {
    /// The chip kept reporting a write in progress.
    WipTimeout,
    /// The bus-DMA engine did not finish its transfer.
    DmaTimeout,
    /// The block-protect bits did not read back clear.
    BlockProtected,
}

impl Error {
    /// The code that the host sees: the loader's mark in the upper half, a number
    /// in the lower.
    pub open spec fn spec_code(self) -> u32 {
        match self {
            Error::WipTimeout => 0x5763_0001,
            Error::DmaTimeout => 0x5763_0002,
            Error::BlockProtected => 0x5763_0003,
        }
    }

    /// The code that the host sees. It is never zero, which means success there.
    pub fn code(self) -> (code: u32)
        ensures
            code == self.spec_code(),
            self is WipTimeout ==> code == 0x5763_0001,
            self is DmaTimeout ==> code == 0x5763_0002,
            self is BlockProtected ==> code == 0x5763_0003,
            code != 0,
    {
        match self {
            Error::WipTimeout => 0x5763_0001,
            Error::DmaTimeout => 0x5763_0002,
            Error::BlockProtected => 0x5763_0003,
        }
    }
}

} // verus!

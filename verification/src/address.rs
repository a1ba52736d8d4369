//! Short subscriber identities on the air interface.

use vstd::prelude::*;

verus! {

/// Largest 24-bit short subscriber identity; the all-ones value addresses
/// every station (broadcast).
pub const MAX_AIR_INTERFACE_SSI: u32 = 0x00FF_FFFF;

/// Kind of a short subscriber identity.
#[derive(Clone, Copy, Debug, PartialEq, Eq, Structural)]
pub enum SsiType {
    /// Individual short subscriber identity.
    Issi,
    /// Group short subscriber identity.
    Gssi,
    /// Un-exchanged short subscriber identity.
    Ussi,
    /// Short management identity.
    Smi,
}

/// An air-interface address: a short subscriber identity and its kind.
#[derive(Clone, Copy, Debug, PartialEq, Eq, Structural)]
pub struct TetraAddress {
    pub ssi: u32,
    pub ssi_type: SsiType,
}

impl TetraAddress {
    /// The individual address `ssi`.
    pub fn issi(ssi: u32) -> (r: TetraAddress)
        ensures
            r == (TetraAddress { ssi, ssi_type: SsiType::Issi }),
    {
        TetraAddress { ssi, ssi_type: SsiType::Issi }
    }

    /// The group address `ssi`.
    pub fn gssi(ssi: u32) -> (r: TetraAddress)
        ensures
            r == (TetraAddress { ssi, ssi_type: SsiType::Gssi }),
    {
        TetraAddress { ssi, ssi_type: SsiType::Gssi }
    }
}

} // verus!

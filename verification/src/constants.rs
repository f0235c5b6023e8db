//! Device identity constants. The full register-offset and device-ID
//! tables are external pure data; only what the core itself names lives
//! here.

use vstd::prelude::*;

verus! {

/// PCI vendor identifier of the family's devices.
pub const IGB_INTEL_VENDOR_ID: u32 = 0x8086;

/// Per-MAC register lookup. The family variants this core drives share
/// one register layout, so the lookup resolves to nothing.
#[allow(non_snake_case)]
pub fn IGB_BY_MAC(_hw: u32, _r: u32) -> (r: u32)
    ensures
        r == 0,
{
    0
}

} // verus!

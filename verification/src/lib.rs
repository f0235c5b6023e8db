//! Hardware-control core of a NIC driver for the Intel 82576/I350/I210
//! gigabit-ethernet family, operated against memory-mapped device registers
//! and DMA descriptor rings, independent of any host network stack.
//!
//! The register space is reached only through the [`regs::RegisterBus`]
//! port, so every protocol above it — typed register access, bounded
//! polling, the software/firmware semaphore handshake, MDIO, link and
//! flow-control bring-up, and ring programming — is verified against the
//! port's contract. [`sim`] provides a verified in-memory register file
//! with the same contract for driving the core in tests.

use vstd::prelude::*;

pub mod constants;
pub mod descriptor;
pub mod dma;
pub mod igb;
pub mod phy;
pub mod regs;
pub mod ring;
pub mod sim;

verus! {

/// Errors surfaced by the register protocols and the bring-up sequence.
#[derive(Debug, Clone, Copy, PartialEq, Eq, Structural)]
pub enum IgbError {
    /// A bounded poll exhausted its attempts.
    Timeout,
    /// A DMA allocation failed.
    NoMemory,
    /// The MDIC error bit came back set on an indirect PHY access.
    PhyAccessError,
    /// The flow-control decision table had no row for the observed bits
    /// (the rows are exhaustive, so this is unreachable).
    UnresolvedFlowControl,
    /// A receive buffer-size encoding outside the known enumeration.
    UnknownBufferSize,
    /// An unfinished bring-up path (SerDes, SGMII link modes).
    NotImplemented,
    /// The queried direction has no such query (transmit buffer size).
    Unsupported,
}

} // verus!

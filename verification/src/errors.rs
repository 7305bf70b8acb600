//! Error taxonomy of the bus and its peripherals.

use vstd::prelude::*;

verus! {

/// Everything that can go wrong when registering a region, dispatching a bus
/// access, or driving a peripheral register.
#[derive(Clone, Copy, Debug, PartialEq, Eq, Structural)]
pub enum BusError {
    /// A region offered to `add_region` intersects one already registered.
    OverlappingRegion,
    /// An access fell outside every registered region.
    UnmappedAddress,
    /// A write was attempted against the ROM window.
    ReadOnlyViolation,
    /// The screen was asked to move the cursor left of the first cell.
    CursorUnderflow,
    /// The screen received a byte it has no defined handling for.
    UnsupportedCharacter,
}

} // verus!

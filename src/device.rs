use vstd::prelude::*;

verus! {

/// Identifier carried by device-originated events.
///
/// Physical input devices are not told apart: every event carries the same
/// value, so any two `DeviceId`s are equal.
#[derive(Debug, Clone, Copy, PartialEq, Eq, Structural, PartialOrd, Ord, Hash)]
pub struct DeviceId;

impl DeviceId {
    /// The single identifier every device-originated event carries.
    pub fn dummy() -> (r: DeviceId)
        ensures
            r == DeviceId,
    {
        DeviceId
    }
}

/// Every `DeviceId` equals every other one.
pub proof fn lemma_device_ids_equal(a: DeviceId, b: DeviceId)
    ensures
        a == b,
{
}

} // verus!

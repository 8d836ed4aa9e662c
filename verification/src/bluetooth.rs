use vstd::prelude::*;

verus! {

/// Snapshot of one discovered device: its display name, its stable 48-bit
/// device address packed into the low bits of a `u64`, and whether it was
/// connected when the snapshot was taken.
///
/// The value is immutable once built; a fresh snapshot is obtained only by
/// querying the device layer again. The unverified Bluetooth layer converts
/// between the six address bytes and the packed `u64`.
#[derive(Debug, PartialEq, Eq)]
pub struct DeviceListItem {
    pub name: String,
    pub address: u64,
    pub is_connected: bool,
}

impl Clone for DeviceListItem {
    fn clone(&self) -> (r: Self)
        ensures
            r == *self,
    {
        DeviceListItem {
            name: self.name.clone(),
            address: self.address,
            is_connected: self.is_connected,
        }
    }
}

} // verus!

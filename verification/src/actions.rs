use vstd::prelude::*;
use crate::bluetooth::DeviceListItem;

verus! {

/// A semantic command, produced either by translating an input event or by a
/// component's own reducer, and consumed exactly once by the dispatch loop.
///
/// `Noop` is the explicit "nothing to do" sentinel: it is never enqueued, so
/// it is never broadcast to components and never reaches the dispatcher's own
/// action handler.
#[derive(Debug, PartialEq, Eq)]
pub enum Action {
    ChangeColor,
    Quit,
    Noop,
    Up,
    Down,
    Connect(DeviceListItem),
    Disconnect(DeviceListItem),
    SelectDeviceForConnection,
    SelectDeviceForDisconnection,
    RemoveAlert,
}

} // verus!

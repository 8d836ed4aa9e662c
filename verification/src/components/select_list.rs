use vstd::prelude::*;
use crate::actions::Action;
use crate::bluetooth::DeviceListItem;
use crate::components::Color;

verus! {

/// Abstract state of the selectable device list: the ordered snapshot of
/// devices and the selection cursor.
#[verifier::ext_equal]
pub struct ListV {
    pub devices: Seq<DeviceListItem>,
    pub selected: int,
}

impl ListV {
    /// The selection cursor is `0` for an empty list and otherwise stays
    /// within `[0, len - 1]`.
    pub open spec fn wf(self) -> bool {
        if self.devices.len() == 0 {
            self.selected == 0
        } else {
            0 <= self.selected < self.devices.len()
        }
    }
}

/// Moving down clamps the cursor to the last row: it saturates, never wraps.
pub open spec fn nav_down(l: ListV) -> ListV {
    if l.selected + 1 < l.devices.len() {
        ListV { selected: l.selected + 1, ..l }
    } else {
        l
    }
}

/// Moving up clamps the cursor to the first row: it saturates, never wraps.
pub open spec fn nav_up(l: ListV) -> ListV {
    if l.selected > 0 {
        ListV { selected: l.selected - 1, ..l }
    } else {
        l
    }
}

/// When the device snapshot is replaced, the cursor keeps its position where
/// it still points into the new list and is otherwise clamped to the last row
/// (or to `0` for an empty list).
pub open spec fn clamp_selection(selected: int, len: int) -> int {
    if len == 0 {
        0
    } else if selected < len {
        selected
    } else {
        len - 1
    }
}

/// The list's reducer: what one broadcast action does to the list state and
/// which follow-up action it emits.
///
/// Navigation moves the cursor and emits nothing. A selection request reads
/// the device the cursor points at *now* — never a copy captured earlier —
/// and emits the matching `Connect`/`Disconnect`; selecting from an empty
/// list is a no-op (the guarded choice for a case the dashboard leaves open).
/// Every other action leaves the list untouched.
pub open spec fn list_update(l: ListV, a: Action) -> (ListV, Action) {
    match a {
        Action::Up => (nav_up(l), Action::Noop),
        Action::Down => (nav_down(l), Action::Noop),
        Action::SelectDeviceForConnection => (
            l,
            if 0 <= l.selected < l.devices.len() {
                Action::Connect(l.devices[l.selected])
            } else {
                Action::Noop
            },
        ),
        Action::SelectDeviceForDisconnection => (
            l,
            if 0 <= l.selected < l.devices.len() {
                Action::Disconnect(l.devices[l.selected])
            } else {
                Action::Noop
            },
        ),
        _ => (l, Action::Noop),
    }
}

/// The list state after a sequence of actions has been applied, one reducer
/// step per action.
pub open spec fn apply_nav(l: ListV, moves: Seq<Action>) -> ListV
    decreases moves.len(),
{
    if moves.len() == 0 {
        l
    } else {
        apply_nav(list_update(l, moves[0]).0, moves.drop_first())
    }
}

/// Navigation never escapes the list: under any sequence of `Up`/`Down`
/// moves the cursor saturates at the ends — it stays within `[0, len - 1]`
/// for a non-empty list, never wraps — and the devices themselves are
/// untouched.
pub proof fn lemma_navigation_stays_in_bounds(l: ListV, moves: Seq<Action>)
    requires
        l.wf(),
        forall|i: int|
            0 <= i < moves.len() ==> (#[trigger] moves[i] is Up || moves[i] is Down),
    ensures
        apply_nav(l, moves).wf(),
        apply_nav(l, moves).devices == l.devices,
    decreases moves.len(),
{
    if moves.len() > 0 {
        lemma_navigation_stays_in_bounds(list_update(l, moves[0]).0, moves.drop_first());
    }
}

/// Repeated `Down` moves are monotone: the cursor never moves back up, it
/// only advances until it saturates at the last row.
pub proof fn lemma_navigation_down_monotone(l: ListV, moves: Seq<Action>)
    requires
        forall|i: int| 0 <= i < moves.len() ==> #[trigger] moves[i] is Down,
    ensures
        apply_nav(l, moves).selected >= l.selected,
    decreases moves.len(),
{
    if moves.len() > 0 {
        lemma_navigation_down_monotone(list_update(l, moves[0]).0, moves.drop_first());
    }
}

/// Repeated `Up` moves are monotone: the cursor never moves back down, it
/// only retreats until it saturates at the first row.
pub proof fn lemma_navigation_up_monotone(l: ListV, moves: Seq<Action>)
    requires
        forall|i: int| 0 <= i < moves.len() ==> #[trigger] moves[i] is Up,
    ensures
        apply_nav(l, moves).selected <= l.selected,
    decreases moves.len(),
{
    if moves.len() > 0 {
        lemma_navigation_up_monotone(list_update(l, moves[0]).0, moves.drop_first());
    }
}

/// The selectable list of discovered devices and its selection cursor.
pub struct SelectList {
    devices: Vec<DeviceListItem>,
    selected_index: usize,
}

impl View for SelectList {
    type V = ListV;

    closed spec fn view(&self) -> ListV {
        ListV { devices: self.devices@, selected: self.selected_index as int }
    }
}

impl SelectList {
    /// A fresh list starts with the cursor on the first row.
    pub fn new(devices: Vec<DeviceListItem>) -> (r: SelectList)
        ensures
            r@ == (ListV { devices: devices@, selected: 0 }),
    {
        SelectList { devices, selected_index: 0 }
    }

    fn increment_index(&mut self)
        ensures
            final(self)@ == nav_down(old(self)@),
    {
        if self.devices.len() > 0 && self.selected_index < self.devices.len() - 1 {
            self.selected_index = self.selected_index + 1;
        }
    }

    fn decrement_index(&mut self)
        ensures
            final(self)@ == nav_up(old(self)@),
    {
        if self.selected_index > 0 {
            self.selected_index = self.selected_index - 1;
        }
    }

    /// Replaces the device snapshot with a fresh one and keeps the cursor
    /// valid by clamping it into the new list.
    pub fn update_device_list(&mut self, devices: Vec<DeviceListItem>)
        ensures
            final(self)@ == (ListV {
                devices: devices@,
                selected: clamp_selection(old(self)@.selected, devices@.len() as int),
            }),
    {
        let len = devices.len();
        self.devices = devices;
        if len == 0 {
            self.selected_index = 0;
        } else if self.selected_index >= len {
            self.selected_index = len - 1;
        }
    }

    /// Applies one broadcast action, exactly as `list_update` states.
    pub fn update(&mut self, action: &Action) -> (r: Action)
        ensures
            final(self)@ == list_update(old(self)@, *action).0,
            r == list_update(old(self)@, *action).1,
            old(self)@.wf() ==> final(self)@.wf(),
    {
        match action {
            Action::Up => {
                self.decrement_index();
                Action::Noop
            },
            Action::Down => {
                self.increment_index();
                Action::Noop
            },
            Action::SelectDeviceForConnection => {
                if self.selected_index < self.devices.len() {
                    let device = &self.devices[self.selected_index];
                    Action::Connect(device.clone())
                } else {
                    Action::Noop
                }
            },
            Action::SelectDeviceForDisconnection => {
                if self.selected_index < self.devices.len() {
                    let device = &self.devices[self.selected_index];
                    Action::Disconnect(device.clone())
                } else {
                    Action::Noop
                }
            },
            _ => Action::Noop,
        }
    }

    /// The current device snapshot, for the render layer.
    pub fn devices(&self) -> (r: &Vec<DeviceListItem>)
        ensures
            r@ == self@.devices,
    {
        &self.devices
    }

    /// The current cursor position, for the render layer.
    pub fn selected_index(&self) -> (r: usize)
        ensures
            r as int == self@.selected,
    {
        self.selected_index
    }
}

/// The color a device row is drawn with: green when the device is connected,
/// white otherwise.
pub fn row_color(item: &DeviceListItem) -> (c: Color)
    ensures
        c == if item.is_connected {
            Color::Green
        } else {
            Color::White
        },
{
    if item.is_connected {
        Color::Green
    } else {
        Color::White
    }
}

} // verus!

use vstd::prelude::*;

pub mod alert;
pub mod select_list;
pub mod test_component;

verus! {

/// The palette the components draw with. The unverified render layer maps
/// each name to the terminal color of the same name.
#[derive(Clone, Copy, Debug, PartialEq, Eq, Structural)]
pub enum Color {
    DarkGray,
    Red,
    Blue,
    White,
    Green,
}

} // verus!

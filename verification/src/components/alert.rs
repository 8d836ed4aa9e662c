use vstd::prelude::*;
use crate::actions::Action;

verus! {

/// What the alert banner answers when an action is broadcast to it: any
/// action other than the no-op sentinel and the dismissal itself is taken as
/// an implicit dismiss request. This is the deliberate "any key dismisses"
/// behavior: mere navigation clears an alert as a side effect of being
/// broadcast.
pub open spec fn alert_update(a: Action) -> Action {
    match a {
        Action::Noop => Action::Noop,
        Action::RemoveAlert => Action::Noop,
        _ => Action::RemoveAlert,
    }
}

/// The single optional alert overlay: a short human-readable message raised
/// by a failed device operation and cleared by an explicit dismissal.
pub struct Alert {
    text: String,
}

impl View for Alert {
    type V = Seq<char>;

    closed spec fn view(&self) -> Seq<char> {
        self.text@
    }
}

impl Alert {
    pub fn new(text: String) -> (r: Alert)
        ensures
            r@ == text@,
    {
        Alert { text }
    }

    /// Answers one broadcast action, exactly as `alert_update` states; the
    /// banner's own state never changes, only the dispatcher removes it.
    pub fn update(&self, action: &Action) -> (r: Action)
        ensures
            r == alert_update(*action),
    {
        match action {
            Action::Noop => Action::Noop,
            Action::RemoveAlert => Action::Noop,
            _ => Action::RemoveAlert,
        }
    }

    /// The message to draw, for the render layer.
    pub fn text(&self) -> (r: &String)
        ensures
            r@ == self@,
    {
        &self.text
    }
}

} // verus!

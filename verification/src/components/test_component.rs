use vstd::prelude::*;
use crate::actions::Action;
use crate::components::Color;

verus! {

/// Abstract state of the status strip: its fixed palette, the color it is
/// currently drawn with, and the palette cursor.
#[verifier::ext_equal]
pub struct StatusV {
    pub colors: Seq<Color>,
    pub color: Color,
    pub cursor: int,
}

/// The palette the status strip rotates through, and its starting color.
pub open spec fn initial_status() -> StatusV {
    StatusV {
        colors: seq![Color::DarkGray, Color::Red, Color::Blue],
        color: Color::DarkGray,
        cursor: 0,
    }
}

/// One step of the color rotation: the cursor advances to the next palette
/// entry and wraps at the end. Rotation is driven purely by how often
/// `ChangeColor` was dispatched, never by a clock, so it is deterministic.
pub open spec fn rotate_color(st: StatusV) -> StatusV {
    if st.colors.len() == 0 {
        st
    } else {
        let next = if st.cursor < st.colors.len() - 1 {
            st.cursor + 1
        } else {
            0
        };
        StatusV { colors: st.colors, color: st.colors[next], cursor: next }
    }
}

/// The status strip's reducer: `ChangeColor` rotates the color, every other
/// action leaves the strip untouched; it never emits a follow-up action.
pub open spec fn status_update(st: StatusV, a: Action) -> (StatusV, Action) {
    match a {
        Action::ChangeColor => (rotate_color(st), Action::Noop),
        _ => (st, Action::Noop),
    }
}

/// The status strip at the bottom of the screen: a fixed message drawn over a
/// background color that rotates on demand.
pub struct TestComponent {
    colors: Vec<Color>,
    color: Color,
    cursor: usize,
}

impl View for TestComponent {
    type V = StatusV;

    closed spec fn view(&self) -> StatusV {
        StatusV { colors: self.colors@, color: self.color, cursor: self.cursor as int }
    }
}

impl TestComponent {
    pub fn new() -> (r: TestComponent)
        ensures
            r@ == initial_status(),
    {
        let mut colors: Vec<Color> = Vec::new();
        colors.push(Color::DarkGray);
        colors.push(Color::Red);
        colors.push(Color::Blue);
        proof {
            assert(colors@ =~= initial_status().colors);
        }
        TestComponent { colors, color: Color::DarkGray, cursor: 0 }
    }

    /// Applies one broadcast action, exactly as `status_update` states.
    pub fn update(&mut self, action: &Action) -> (r: Action)
        ensures
            final(self)@ == status_update(old(self)@, *action).0,
            r == status_update(old(self)@, *action).1,
    {
        match action {
            Action::ChangeColor => {
                if self.colors.len() > 0 {
                    let next = if self.cursor < self.colors.len() - 1 {
                        self.cursor + 1
                    } else {
                        0
                    };
                    self.cursor = next;
                    self.color = self.colors[next];
                }
                Action::Noop
            },
            _ => Action::Noop,
        }
    }

    /// The color the strip is currently drawn with, for the render layer.
    pub fn color(&self) -> (r: Color)
        ensures
            r == self@.color,
    {
        self.color
    }
}

} // verus!

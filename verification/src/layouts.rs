use vstd::prelude::*;

verus! {

/// Percentage of the frame height given to the device list; the status strip
/// gets the rest.
pub const MAIN_LIST_PERCENT: u64 = 80;

/// Width and height of the centered alert box.
pub const ALERT_WIDTH: u16 = 20;

pub const ALERT_HEIGHT: u16 = 5;

/// A screen region in terminal cells, as the render layer understands it.
#[derive(Clone, Copy, Debug, PartialEq, Eq, Structural)]
pub struct Rect {
    pub x: u16,
    pub y: u16,
    pub width: u16,
    pub height: u16,
}

impl Rect {
    /// The region does not run past the coordinate space.
    pub open spec fn wf(self) -> bool {
        self.x + self.width <= u16::MAX && self.y + self.height <= u16::MAX
    }
}

/// Rows of the frame that belong to the device list: the top portion, sized
/// by `MAIN_LIST_PERCENT` (rounding down).
pub open spec fn main_list_height(frame_height: u16) -> int {
    frame_height * MAIN_LIST_PERCENT as int / 100
}

/// Maps a terminal frame to the named regions of the single dashboard screen:
/// the device list on top, the status strip below it, and a small centered
/// alert box. Stateless.
pub struct LayoutManager {
}

impl LayoutManager {
    pub fn new() -> (r: LayoutManager)
    {
        LayoutManager {  }
    }

    /// The device-list panel: the top `MAIN_LIST_PERCENT` of the frame.
    pub fn get_main_list_rect(&self, framesize: Rect) -> (r: Rect)
        ensures
            r == (Rect {
                x: framesize.x,
                y: framesize.y,
                width: framesize.width,
                height: main_list_height(framesize.height) as u16,
            }),
            r.height <= framesize.height,
    {
        let h: u64 = (framesize.height as u64) * MAIN_LIST_PERCENT / 100;
        proof {
            assert(h <= framesize.height);
        }
        Rect { x: framesize.x, y: framesize.y, width: framesize.width, height: h as u16 }
    }

    /// The status strip: every row of the frame below the device list.
    pub fn get_cheat_rect(&self, framesize: Rect) -> (r: Rect)
        requires
            framesize.wf(),
        ensures
            r == (Rect {
                x: framesize.x,
                y: (framesize.y + main_list_height(framesize.height)) as u16,
                width: framesize.width,
                height: (framesize.height - main_list_height(framesize.height)) as u16,
            }),
            r.wf(),
    {
        let main_h: u64 = (framesize.height as u64) * MAIN_LIST_PERCENT / 100;
        proof {
            assert(main_h <= framesize.height);
        }
        Rect {
            x: framesize.x,
            y: framesize.y + (main_h as u16),
            width: framesize.width,
            height: framesize.height - (main_h as u16),
        }
    }

    /// The alert box: a fixed `ALERT_WIDTH` by `ALERT_HEIGHT` box whose
    /// corner sits at half the frame minus half the box, exactly as
    /// `alert_rect` states; on a frame too small even for that corner
    /// arithmetic, the box is clamped to the frame instead.
    pub fn get_alert_layout(&self, framesize: Rect) -> (r: Rect)
        ensures
            r == alert_rect(framesize),
    {
        let x: u16 = if framesize.width / 2 >= ALERT_WIDTH / 2 {
            framesize.width / 2 - ALERT_WIDTH / 2
        } else {
            0
        };
        let width: u16 = if framesize.width / 2 >= ALERT_WIDTH / 2 {
            ALERT_WIDTH
        } else {
            framesize.width
        };
        let y: u16 = if framesize.height / 2 >= ALERT_HEIGHT / 2 {
            framesize.height / 2 - ALERT_HEIGHT / 2
        } else {
            0
        };
        let height: u16 = if framesize.height / 2 >= ALERT_HEIGHT / 2 {
            ALERT_HEIGHT
        } else {
            framesize.height
        };
        Rect { x, y, width, height }
    }
}

/// Where the centered box fits: its corner is at half the frame minus half
/// the box in each direction (`width / 2 - ALERT_WIDTH / 2`, `height / 2 -
/// ALERT_HEIGHT / 2`), and the box keeps its fixed size even on a frame a
/// little shorter than the box. Only a frame too small for that corner
/// arithmetic (narrower than the box, or shorter than twice the half-height)
/// gets the box clamped to the frame at the origin.
pub open spec fn alert_rect(framesize: Rect) -> Rect {
    Rect {
        x: if framesize.width / 2 >= ALERT_WIDTH / 2 {
            (framesize.width / 2 - ALERT_WIDTH / 2) as u16
        } else {
            0u16
        },
        y: if framesize.height / 2 >= ALERT_HEIGHT / 2 {
            (framesize.height / 2 - ALERT_HEIGHT / 2) as u16
        } else {
            0u16
        },
        width: if framesize.width / 2 >= ALERT_WIDTH / 2 {
            ALERT_WIDTH
        } else {
            framesize.width
        },
        height: if framesize.height / 2 >= ALERT_HEIGHT / 2 {
            ALERT_HEIGHT
        } else {
            framesize.height
        },
    }
}

} // verus!

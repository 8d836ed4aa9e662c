use btui::layouts::{LayoutManager, Rect};

fn frame(width: u16, height: u16) -> Rect {
    Rect { x: 0, y: 0, width, height }
}

#[test]
fn main_list_takes_the_top_eighty_percent() {
    let lm = LayoutManager::new();
    let r = lm.get_main_list_rect(frame(100, 50));
    assert_eq!(r, Rect { x: 0, y: 0, width: 100, height: 40 });
}

#[test]
fn cheat_strip_takes_the_remaining_rows() {
    let lm = LayoutManager::new();
    let r = lm.get_cheat_rect(frame(100, 50));
    assert_eq!(r, Rect { x: 0, y: 40, width: 100, height: 10 });
}

#[test]
fn split_rounds_down_and_loses_no_row() {
    let lm = LayoutManager::new();
    let main = lm.get_main_list_rect(frame(80, 33));
    let cheat = lm.get_cheat_rect(frame(80, 33));
    assert_eq!(main.height, 26);
    assert_eq!(cheat.y, 26);
    assert_eq!(main.height + cheat.height, 33);
}

#[test]
fn alert_box_is_centered_on_an_even_frame() {
    // corner = half the frame minus half the box: (80/2 - 10, 24/2 - 2)
    let lm = LayoutManager::new();
    let r = lm.get_alert_layout(frame(80, 24));
    assert_eq!(r, Rect { x: 30, y: 10, width: 20, height: 5 });
}

#[test]
fn alert_box_is_centered_on_an_odd_frame() {
    let lm = LayoutManager::new();
    let r = lm.get_alert_layout(frame(100, 41));
    assert_eq!(r, Rect { x: 40, y: 18, width: 20, height: 5 });
}

#[test]
fn alert_box_keeps_its_height_on_a_four_row_frame() {
    // height/2 - 2 is still defined at four rows, and the box keeps its
    // fixed size there.
    let lm = LayoutManager::new();
    let r = lm.get_alert_layout(frame(80, 4));
    assert_eq!(r, Rect { x: 30, y: 0, width: 20, height: 5 });
}

#[test]
fn alert_box_shrinks_to_a_small_frame() {
    let lm = LayoutManager::new();
    let r = lm.get_alert_layout(frame(10, 3));
    assert_eq!(r, Rect { x: 0, y: 0, width: 10, height: 3 });
}

#[test]
fn offset_frame_keeps_its_origin() {
    let lm = LayoutManager::new();
    let f = Rect { x: 5, y: 7, width: 60, height: 20 };
    let main = lm.get_main_list_rect(f);
    let cheat = lm.get_cheat_rect(f);
    assert_eq!(main, Rect { x: 5, y: 7, width: 60, height: 16 });
    assert_eq!(cheat, Rect { x: 5, y: 23, width: 60, height: 4 });
}

use btui::app::App;
use btui::bluetooth::DeviceListItem;
use btui::events::Event;

fn dev(name: &str, address: u64, is_connected: bool) -> DeviceListItem {
    DeviceListItem { name: name.to_string(), address, is_connected }
}

fn three_devices() -> Vec<DeviceListItem> {
    vec![dev("A", 1, false), dev("B", 2, true), dev("C", 3, false)]
}

fn drain(app: &mut App) {
    while let Some(cmd) = app.drain_pending_actions() {
        app.apply_device_result(&cmd, true);
    }
}

fn navigate(app: &mut App, event: Event) {
    app.handle_event(&event);
    drain(app);
}

#[test]
fn selection_starts_at_zero() {
    let app = App::new(three_devices());
    assert_eq!(app.selected_index(), 0);
}

#[test]
fn navigate_down_twice_then_saturates() {
    // list = ["A", "B", "C"], selection = 0; two NavigateDown reach 2; a
    // third leaves the selection at 2.
    let mut app = App::new(three_devices());
    navigate(&mut app, Event::Down);
    navigate(&mut app, Event::Down);
    assert_eq!(app.selected_index(), 2);
    navigate(&mut app, Event::Down);
    assert_eq!(app.selected_index(), 2);
}

#[test]
fn navigate_up_saturates_at_zero() {
    let mut app = App::new(three_devices());
    navigate(&mut app, Event::Up);
    assert_eq!(app.selected_index(), 0);
    navigate(&mut app, Event::Down);
    assert_eq!(app.selected_index(), 1);
    navigate(&mut app, Event::Up);
    navigate(&mut app, Event::Up);
    navigate(&mut app, Event::Up);
    assert_eq!(app.selected_index(), 0);
}

#[test]
fn selection_stays_in_bounds_under_mixed_navigation() {
    let mut app = App::new(three_devices());
    let moves = [
        Event::Down,
        Event::Down,
        Event::Down,
        Event::Up,
        Event::Down,
        Event::Up,
        Event::Up,
        Event::Up,
        Event::Down,
    ];
    for m in moves {
        navigate(&mut app, m);
        assert!(app.selected_index() < 3);
    }
}

#[test]
fn navigation_on_empty_list_stays_at_zero() {
    let mut app = App::new(Vec::new());
    navigate(&mut app, Event::Down);
    assert_eq!(app.selected_index(), 0);
    navigate(&mut app, Event::Up);
    assert_eq!(app.selected_index(), 0);
}

#[test]
fn device_refresh_clamps_selection() {
    let mut app = App::new(three_devices());
    navigate(&mut app, Event::Down);
    navigate(&mut app, Event::Down);
    assert_eq!(app.selected_index(), 2);
    app.update_device_list(vec![dev("A", 1, false)]);
    assert_eq!(app.selected_index(), 0);
    app.update_device_list(Vec::new());
    assert_eq!(app.selected_index(), 0);
}

use btui::app::{App, DeviceCommand};
use btui::bluetooth::DeviceListItem;
use btui::events::Event;

fn dev(name: &str, address: u64, is_connected: bool) -> DeviceListItem {
    DeviceListItem { name: name.to_string(), address, is_connected }
}

fn three_devices() -> Vec<DeviceListItem> {
    vec![dev("A", 1, false), dev("B", 2, true), dev("C", 3, false)]
}

fn drain_with(app: &mut App, ok: bool) -> Vec<DeviceCommand> {
    let mut commands = Vec::new();
    while let Some(cmd) = app.drain_pending_actions() {
        app.apply_device_result(&cmd, ok);
        commands.push(cmd);
    }
    commands
}

fn alert_str(app: &App) -> Option<&str> {
    app.alert_text().map(|s| s.as_str())
}

#[test]
fn failed_connect_raises_fixed_message() {
    let mut app = App::new(three_devices());
    app.handle_event(&Event::ConnectDevice);
    drain_with(&mut app, false);
    assert_eq!(alert_str(&app), Some("Failed to connect to device"));
}

#[test]
fn failed_disconnect_raises_fixed_message() {
    let mut app = App::new(three_devices());
    app.handle_event(&Event::DisconnectDevice);
    drain_with(&mut app, false);
    assert_eq!(alert_str(&app), Some("Failed to disconnect to device"));
}

#[test]
fn successful_operation_raises_no_alert() {
    // An unpaired device's connect is a success-no-op in the device layer
    // (the documented pairing limitation), so no alert is raised for it —
    // the same as for any successful operation.
    let mut app = App::new(three_devices());
    app.handle_event(&Event::ConnectDevice);
    drain_with(&mut app, true);
    assert_eq!(alert_str(&app), None);
}

#[test]
fn navigation_clears_alert_and_still_moves_selection() {
    // A failed connect raises the alert; the next NavigateDown both moves
    // the selection and clears the alert within its own drain.
    let mut app = App::new(three_devices());
    app.handle_event(&Event::ConnectDevice);
    drain_with(&mut app, false);
    assert_eq!(alert_str(&app), Some("Failed to connect to device"));
    app.handle_event(&Event::Down);
    drain_with(&mut app, true);
    assert_eq!(alert_str(&app), None);
    assert_eq!(app.selected_index(), 1);
}

#[test]
fn any_action_clears_alert() {
    // "Any key dismisses": every input-derived action clears an active
    // alert, whatever its own semantic effect.
    let events = [
        Event::Up,
        Event::Down,
        Event::ChangeColor,
        Event::ConnectDevice,
        Event::DisconnectDevice,
        Event::Quit,
    ];
    for e in events {
        let mut app = App::new(three_devices());
        app.handle_event(&Event::ConnectDevice);
        drain_with(&mut app, false);
        assert!(alert_str(&app).is_some());
        app.handle_event(&e);
        drain_with(&mut app, true);
        assert_eq!(alert_str(&app), None, "alert survived {:?}", e);
    }
}

#[test]
fn a_new_failure_replaces_the_active_alert() {
    // At most one alert at a time: a later failure silently replaces an
    // earlier one.
    let mut app = App::new(three_devices());
    app.handle_event(&Event::ConnectDevice);
    drain_with(&mut app, false);
    assert_eq!(alert_str(&app), Some("Failed to connect to device"));
    let failed = DeviceCommand::Disconnect(dev("B", 2, true));
    app.apply_device_result(&failed, false);
    assert_eq!(alert_str(&app), Some("Failed to disconnect to device"));
}

#[test]
fn pending_dismissal_also_clears_a_replacement_alert() {
    // While an alert is active, broadcasting the Disconnect that then fails
    // enqueues a dismissal; that dismissal still runs in the same drain, so
    // it clears the replacement alert too — the next non-cadence action
    // always leaves the screen alert-free.
    let mut app = App::new(three_devices());
    app.handle_event(&Event::ConnectDevice);
    drain_with(&mut app, false);
    assert_eq!(alert_str(&app), Some("Failed to connect to device"));
    app.handle_event(&Event::DisconnectDevice);
    drain_with(&mut app, false);
    assert_eq!(alert_str(&app), None);
}

use btui::actions::Action;
use btui::bluetooth::DeviceListItem;
use btui::components::alert::Alert;
use btui::components::select_list::{row_color, SelectList};
use btui::components::test_component::TestComponent;
use btui::components::Color;

fn dev(name: &str, address: u64, is_connected: bool) -> DeviceListItem {
    DeviceListItem { name: name.to_string(), address, is_connected }
}

#[test]
fn alert_answers_every_action_with_a_dismiss_request() {
    let alert = Alert::new("boom".to_string());
    assert_eq!(alert.text().as_str(), "boom");
    assert_eq!(alert.update(&Action::Up), Action::RemoveAlert);
    assert_eq!(alert.update(&Action::Down), Action::RemoveAlert);
    assert_eq!(alert.update(&Action::Quit), Action::RemoveAlert);
    assert_eq!(alert.update(&Action::ChangeColor), Action::RemoveAlert);
    assert_eq!(alert.update(&Action::SelectDeviceForConnection), Action::RemoveAlert);
    // the dismissal itself and the sentinel produce no further request
    assert_eq!(alert.update(&Action::RemoveAlert), Action::Noop);
    assert_eq!(alert.update(&Action::Noop), Action::Noop);
}

#[test]
fn list_selection_emits_the_selected_device() {
    let mut list = SelectList::new(vec![dev("A", 1, false), dev("B", 2, true)]);
    assert_eq!(list.update(&Action::Down), Action::Noop);
    let answer = list.update(&Action::SelectDeviceForConnection);
    assert_eq!(answer, Action::Connect(dev("B", 2, true)));
    let answer = list.update(&Action::SelectDeviceForDisconnection);
    assert_eq!(answer, Action::Disconnect(dev("B", 2, true)));
}

#[test]
fn list_selection_on_empty_list_is_noop() {
    let mut list = SelectList::new(Vec::new());
    assert_eq!(list.update(&Action::SelectDeviceForConnection), Action::Noop);
    assert_eq!(list.update(&Action::SelectDeviceForDisconnection), Action::Noop);
}

#[test]
fn connected_devices_are_drawn_green() {
    assert_eq!(row_color(&dev("A", 1, true)), Color::Green);
    assert_eq!(row_color(&dev("A", 1, false)), Color::White);
}

#[test]
fn status_strip_rotates_only_on_change_color() {
    let mut status = TestComponent::new();
    assert_eq!(status.color(), Color::DarkGray);
    assert_eq!(status.update(&Action::Up), Action::Noop);
    assert_eq!(status.color(), Color::DarkGray);
    assert_eq!(status.update(&Action::ChangeColor), Action::Noop);
    assert_eq!(status.color(), Color::Red);
}

use btui::events::{Event, EventHandler};

#[test]
fn key_map_translates_each_bound_key() {
    let mut handler = EventHandler::new(30);
    assert_eq!(handler.handle_crossterm_key_event('r'), Some(Event::ChangeColor));
    assert_eq!(handler.handle_crossterm_key_event('j'), Some(Event::Down));
    assert_eq!(handler.handle_crossterm_key_event('k'), Some(Event::Up));
    assert_eq!(handler.handle_crossterm_key_event('c'), Some(Event::ConnectDevice));
    assert_eq!(handler.handle_crossterm_key_event('d'), Some(Event::DisconnectDevice));
    assert_eq!(handler.handle_crossterm_key_event('x'), None);
    assert_eq!(handler.handle_crossterm_key_event(' '), None);
}

#[test]
fn quit_keys_emit_quit() {
    let mut handler = EventHandler::new(30);
    assert_eq!(handler.handle_crossterm_key_event('q'), Some(Event::Quit));
    let mut handler = EventHandler::new(30);
    assert_eq!(handler.handle_crossterm_key_event('Q'), Some(Event::Quit));
}

#[test]
fn quit_latches() {
    let mut handler = EventHandler::new(30);
    assert_eq!(handler.quit(), Some(Event::Quit));
}

#[test]
fn tick_is_due_once_the_interval_elapsed() {
    let handler = EventHandler::new(30);
    assert!(!handler.tick_due(0));
    assert!(!handler.tick_due(29));
    assert!(handler.tick_due(30));
    assert!(handler.tick_due(1000));
}

#[test]
fn poll_timeout_is_the_remainder_of_the_interval() {
    let handler = EventHandler::new(30);
    assert_eq!(handler.poll_timeout_ms(0), 30);
    assert_eq!(handler.poll_timeout_ms(12), 18);
    assert_eq!(handler.poll_timeout_ms(30), 0);
    assert_eq!(handler.poll_timeout_ms(99), 0);
}

use tts_pipeline::button::{Button, ButtonEvent, ButtonType, ConfigError};

#[test]
fn failed_registration_is_a_config_error() {
    let r = Button::new(ButtonType::Up, false);
    assert!(matches!(r, Err(ConfigError::InterruptRegistration)));
}

#[test]
fn a_press_is_seen_once_and_rearms() {
    let mut b = Button::new(ButtonType::Up, true).unwrap();
    assert!(b.is_armed());
    assert!(b.poll().is_none());
    b.fire();
    assert!(!b.is_armed());
    let e = b.poll();
    assert!(matches!(e, Some(ButtonEvent::AnyEdge(ButtonType::Up))));
    assert!(b.poll().is_none());
    b.fire();
    assert!(matches!(b.poll(), Some(ButtonEvent::AnyEdge(ButtonType::Up))));
}

#[test]
fn each_role_reports_its_own_event() {
    let mut k0 = Button::new(ButtonType::K0, true).unwrap();
    let mut down = Button::new(ButtonType::Down, true).unwrap();
    k0.fire();
    down.fire();
    assert!(matches!(k0.poll(), Some(ButtonEvent::AnyEdge(ButtonType::K0))));
    assert!(matches!(down.poll(), Some(ButtonEvent::AnyEdge(ButtonType::Down))));
}

use flixparty::clicker::Clicker;
use flixparty::config::Keys;
use flixparty::desktop::Connection;
use flixparty::desktop::Error;
use flixparty::input::Button;
use flixparty::input::InputEvent;
use flixparty::input::Key;
use flixparty::periphery::PeripheryHandler;

#[test]
fn toggle_press_is_only_the_toggle_key_going_down() {
    let h = PeripheryHandler::new(Keys { toggle: Key::KeyP, playback: Key::Unknown(172) });
    assert_eq!(h.toggle_key(), Key::KeyP);
    assert!(h.is_toggle_press(&InputEvent::KeyPress(Key::KeyP)));
    assert!(!h.is_toggle_press(&InputEvent::KeyRelease(Key::KeyP)));
    assert!(!h.is_toggle_press(&InputEvent::KeyPress(Key::KeyO)));
    assert!(!h.is_toggle_press(&InputEvent::Other));
    assert!(!h.is_toggle_press(&InputEvent::ButtonPress(Button::Left)));
    assert!(!h.is_toggle_press(&InputEvent::MouseMove { x: 1, y: 2 }));
}

#[test]
fn playback_is_a_press_then_a_release() {
    let h = PeripheryHandler::new(Keys { toggle: Key::KeyP, playback: Key::Space });
    assert_eq!(
        h.playback_press_events(),
        vec![InputEvent::KeyPress(Key::Space), InputEvent::KeyRelease(Key::Space)]
    );
}

#[test]
fn clicker_clicks_the_centre_and_returns() {
    let c = Clicker::new().unwrap();
    assert_eq!(
        c.click_center_events(1920, 1081, -5, 700),
        vec![
            InputEvent::MouseMove { x: 960, y: 540 },
            InputEvent::ButtonPress(Button::Left),
            InputEvent::ButtonRelease(Button::Left),
            InputEvent::MouseMove { x: -5, y: 700 },
        ]
    );
    assert_eq!(c.click_center_events(u64::MAX, 0, 0, 0)[0], InputEvent::MouseMove { x: i64::MAX, y: 0 });
}

#[test]
fn desktop_state_and_errors() {
    assert_eq!(Connection::default(), Connection::Disconnected);
    let e: Error = Error::from("boom".to_string());
    assert_eq!(e.message, "boom");
}

use flixparty::condition::macos;
use flixparty::condition::other;
use flixparty::condition::text_contains;
use flixparty::condition::text_equals;
use flixparty::condition::windows;
use flixparty::config::Condition;

fn class_condition(v: &str) -> Condition {
    Condition { class: Some(v.to_string()), title_contains: None, block_trigger: true, block_receive: false }
}

fn title_condition(v: &str) -> Condition {
    Condition { class: None, title_contains: Some(v.to_string()), block_trigger: true, block_receive: false }
}

fn window(title: &str, class: &str) -> (String, String) {
    (title.to_string(), class.to_string())
}

#[test]
fn text_helpers() {
    assert!(text_contains("Netflix - Firefox", "Firefox"));
    assert!(text_contains("abc", ""));
    assert!(text_contains("", ""));
    assert!(!text_contains("", "a"));
    assert!(!text_contains("Fire", "Firefox"));
    assert!(text_contains("aab", "ab"));
    assert!(text_contains("h\u{e9}llo", "\u{e9}l"));
    assert!(text_equals("x", "x"));
    assert!(!text_equals("x", "X"));
}

#[test]
fn windows_without_condition_knows_browsers() {
    assert!(!windows::is_browser_in_focus(None, None));
    assert!(windows::is_browser_in_focus(Some(&window("anything", "MozillaWindowClass")), None));
    assert!(windows::is_browser_in_focus(Some(&window("Video - Brave", "Other")), None));
    assert!(!windows::is_browser_in_focus(Some(&window("Notepad", "Notepad")), None));
    // a condition that names no criterion leaves the browser list in charge
    let empty = Condition::default();
    assert!(windows::is_browser_in_focus(Some(&window("x", "Chrome_WidgetWin_1")), Some(&empty)));
    assert!(!windows::is_browser_in_focus(Some(&window("x", "Notepad")), Some(&empty)));
}

#[test]
fn windows_with_condition() {
    let c = class_condition("VLC");
    assert!(windows::is_browser_in_focus(Some(&window("movie", "VLC")), Some(&c)));
    assert!(!windows::is_browser_in_focus(Some(&window("movie", "Chrome_WidgetWin_1")), Some(&c)));
    assert!(!windows::is_browser_in_focus(None, Some(&c)));
    let t = title_condition("Netflix");
    assert!(windows::is_browser_in_focus(Some(&window("Netflix - Edge", "x")), Some(&t)));
    assert!(!windows::is_browser_in_focus(Some(&window("YouTube - Edge", "x")), Some(&t)));
    let both = Condition {
        class: Some("C".to_string()),
        title_contains: Some("T".to_string()),
        block_trigger: false,
        block_receive: false,
    };
    assert!(windows::is_browser_in_focus(Some(&window("aTb", "C")), Some(&both)));
    assert!(!windows::is_browser_in_focus(Some(&window("aTb", "D")), Some(&both)));
    assert!(!windows::is_browser_in_focus(Some(&window("ab", "C")), Some(&both)));
}

#[test]
fn macos_apps() {
    assert!(!macos::is_browser_in_focus(None, None));
    assert!(macos::is_browser_in_focus(Some(&"Google Chrome".to_string()), None));
    assert!(macos::is_browser_in_focus(Some(&"Safari Technology Preview".to_string()), None));
    assert!(!macos::is_browser_in_focus(Some(&"Finder".to_string()), None));
    let c = class_condition("IINA");
    assert!(macos::is_browser_in_focus(Some(&"IINA".to_string()), Some(&c)));
    assert!(!macos::is_browser_in_focus(Some(&"IINA Player".to_string()), Some(&c)));
    let t = title_condition("IINA");
    assert!(macos::is_browser_in_focus(Some(&"IINA Player".to_string()), Some(&t)));
    assert!(!macos::is_browser_in_focus(Some(&"Safari".to_string()), Some(&t)));
}

#[test]
fn other_platforms_always_count() {
    assert!(other::is_browser_in_focus(None, None));
    assert!(other::is_browser_in_focus(Some("x"), Some("y")));
}

#[test]
fn window_text_stops_at_nul() {
    let buf: Vec<u16> = "Firefox\0junk".encode_utf16().collect();
    assert_eq!(windows::window_text(&buf), "Firefox");
    assert_eq!(windows::text_end(&buf), 7);
    let no_nul: Vec<u16> = "Firefox".encode_utf16().collect();
    assert_eq!(windows::window_text(&no_nul), "");
    assert_eq!(windows::text_end(&no_nul), 0);
    let lone_surrogate: Vec<u16> = vec![0x41, 0xD800, 0x42, 0];
    assert_eq!(windows::window_text(&lone_surrogate), "A\u{FFFD}B");
    assert_eq!(windows::window_text(&[0u16, 65]), "");
}

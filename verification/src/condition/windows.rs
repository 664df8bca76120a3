//! The foreground window on Windows: its title and its window class.
use crate::condition::condition_holds;
use crate::condition::condition_selects;
use crate::condition::contains_any;
use crate::condition::contains_any_of;
use crate::condition::equals_any;
use crate::condition::equals_any_of;
use crate::condition::has_substring;
use crate::condition::holds;
use crate::condition::names_view;
use crate::condition::selects;
use crate::config::Condition;
use vstd::prelude::*;

verus! {

/// Window classes of browsers: Chrome and Chromium-based Edge, Firefox,
/// older Opera, and the shell of legacy Edge.
pub open spec fn windows_browser_classes() -> Seq<Seq<char>> {
    seq![
        "Chrome_WidgetWin_1"@,
        "MozillaWindowClass"@,
        "OperaWindowClass"@,
        "ApplicationFrameWindow"@,
    ]
}

/// Texts that, in a window's title, mark a browser.
pub open spec fn windows_browser_title_hints() -> Seq<Seq<char>> {
    seq!["Chrome"@, "Firefox"@, "Edge"@, "Opera"@, "Brave"@, "Vivaldi"@]
}

/// A browser's window: a known class, or a known name in the title.
pub open spec fn browser_window(title: Seq<char>, class: Seq<char>) -> bool {
    equals_any(class, windows_browser_classes()) || contains_any(title, windows_browser_title_hints())
}

/// The window counts as the player: by the condition where it names a
/// criterion, else where it is a browser's window.
pub open spec fn window_is_player(title: Seq<char>, class: Seq<char>, matcher: Option<&Condition>) -> bool {
    match matcher {
        Some(m) => if condition_selects(*m) {
            condition_holds(*m, title, class)
        } else {
            browser_window(title, class)
        },
        None => browser_window(title, class),
    }
}

/// Without a condition that names a criterion, a window counts as the player
/// exactly where its class is a known browser class or its title holds a
/// browser's name: a known class suffices whatever the title, and a
/// browser's name in the title suffices whatever the class. A condition that
/// names no criterion is no condition; one that names a criterion decides
/// alone.
pub proof fn lemma_browser_detection(title: Seq<char>, class: Seq<char>, c: Condition)
    ensures
        equals_any(class, windows_browser_classes()) ==> window_is_player(title, class, None),
        contains_any(title, windows_browser_title_hints()) ==> window_is_player(title, class, None),
        !equals_any(class, windows_browser_classes()) && !contains_any(
            title,
            windows_browser_title_hints(),
        ) ==> !window_is_player(title, class, None),
        !condition_selects(c) ==> window_is_player(title, class, Some(&c)) == window_is_player(
            title,
            class,
            None,
        ),
        condition_selects(c) ==> window_is_player(title, class, Some(&c)) == condition_holds(
            c,
            title,
            class,
        ),
{
}

/// Each known browser class makes a window the player whatever its title,
/// and each browser's name in a title makes it the player whatever its
/// class, where no condition names a criterion.
pub proof fn lemma_known_browsers(title: Seq<char>, class: Seq<char>)
    ensures
        class == "Chrome_WidgetWin_1"@ || class == "MozillaWindowClass"@ || class
            == "OperaWindowClass"@ || class == "ApplicationFrameWindow"@ ==> window_is_player(
            title,
            class,
            None,
        ),
        has_substring(title, "Chrome"@) || has_substring(title, "Firefox"@) || has_substring(
            title,
            "Edge"@,
        ) || has_substring(title, "Opera"@) || has_substring(title, "Brave"@) || has_substring(
            title,
            "Vivaldi"@,
        ) ==> window_is_player(title, class, None),
{
    let classes = windows_browser_classes();
    let hints = windows_browser_title_hints();
    assert(classes[0] == "Chrome_WidgetWin_1"@);
    assert(classes[1] == "MozillaWindowClass"@);
    assert(classes[2] == "OperaWindowClass"@);
    assert(classes[3] == "ApplicationFrameWindow"@);
    assert(hints[0] == "Chrome"@);
    assert(hints[1] == "Firefox"@);
    assert(hints[2] == "Edge"@);
    assert(hints[3] == "Opera"@);
    assert(hints[4] == "Brave"@);
    assert(hints[5] == "Vivaldi"@);
}

fn browser_classes() -> (v: Vec<&'static str>)
    ensures
        names_view(v@) == windows_browser_classes(),
{
    let mut v: Vec<&'static str> = Vec::new();
    v.push("Chrome_WidgetWin_1");
    v.push("MozillaWindowClass");
    v.push("OperaWindowClass");
    v.push("ApplicationFrameWindow");
    assert(names_view(v@) =~= windows_browser_classes());
    v
}

fn browser_title_hints() -> (v: Vec<&'static str>)
    ensures
        names_view(v@) == windows_browser_title_hints(),
{
    let mut v: Vec<&'static str> = Vec::new();
    v.push("Chrome");
    v.push("Firefox");
    v.push("Edge");
    v.push("Opera");
    v.push("Brave");
    v.push("Vivaldi");
    assert(names_view(v@) =~= windows_browser_title_hints());
    v
}

/// Whether the foreground window, given as its title and its class (`None`
/// where there is no foreground window), counts as the player.
pub fn is_browser_in_focus(window: Option<&(String, String)>, matcher: Option<&Condition>) -> (r: bool)
    ensures
        r == match window {
            Some(w) => window_is_player(w.0@, w.1@, matcher),
            None => false,
        },
{
    let (title, class) = match window {
        Some(w) => (w.0.as_str(), w.1.as_str()),
        None => {
            return false;
        },
    };
    if let Some(m) = matcher {
        if selects(m) {
            return holds(m, title, class);
        }
    }
    let class_match = equals_any_of(class, &browser_classes());
    let title_match = contains_any_of(title, &browser_title_hints());
    class_match || title_match
}

/// The length of the text in a buffer that the system filled: up to the
/// first NUL, and nothing where the buffer holds none.
pub open spec fn text_length(units: Seq<u16>) -> int {
    if exists|i: int| 0 <= i < units.len() && units[i] == 0 {
        choose|i: int|
            0 <= i < units.len() && units[i] == 0 && forall|k: int| 0 <= k < i ==> units[k] != 0
    } else {
        0
    }
}

/// The text decoded from UTF-16 units: a unit outside the surrogates is its
/// own character; a high surrogate followed by a low one make one character
/// together; any other surrogate becomes U+FFFD.
pub open spec fn utf16_lossy(units: Seq<u16>) -> Seq<char>
    decreases units.len(),
{
    if units.len() == 0 {
        Seq::empty()
    } else {
        let a = units[0] as int;
        if a < 0xD800 || a > 0xDFFF {
            seq![a as char] + utf16_lossy(units.drop_first())
        } else if a <= 0xDBFF && units.len() >= 2 && 0xDC00 <= units[1] && units[1] <= 0xDFFF {
            seq![((a - 0xD800) * 0x400 + (units[1] - 0xDC00) + 0x10000) as char] + utf16_lossy(
                units.subrange(2, units.len() as int),
            )
        } else {
            seq!['\u{FFFD}'] + utf16_lossy(units.drop_first())
        }
    }
}

/// `String::from_utf16_lossy`: the text decoded from `units`, unpaired
/// surrogates replaced by U+FFFD, as `utf16_lossy` states.
#[verifier::external_body]
fn string_from_utf16_lossy(units: &[u16]) -> (s: String)
    ensures
        s@ == utf16_lossy(units@),
{
    String::from_utf16_lossy(units)
}

/// Where the text in `buf` ends.
pub fn text_end(buf: &[u16]) -> (n: usize)
    ensures
        n == text_length(buf@),
        n <= buf.len(),
{
    let mut i: usize = 0;
    while i < buf.len()
        invariant
            i <= buf.len(),
            forall|k: int| 0 <= k < i ==> buf@[k] != 0,
        decreases buf.len() - i,
    {
        if buf[i] == 0 {
            proof {
                let units = buf@;
                assert(units[i as int] == 0);
                let c = text_length(units);
                assert(0 <= c < units.len() && units[c] == 0 && forall|k: int|
                    0 <= k < c ==> units[k] != 0);
                if c < i as int {
                    assert(units[c] != 0);
                }
                if c > i as int {
                    assert(units[i as int] != 0);
                }
            }
            return i;
        }
        i = i + 1;
    }
    0
}

/// The text of a window's title or class, as the system writes it into
/// `buf`: the units before the first NUL, decoded; nothing where the
/// buffer holds no NUL.
pub fn window_text(buf: &[u16]) -> (s: String)
    ensures
        s@ == utf16_lossy(buf@.take(text_length(buf@))),
{
    let end = text_end(buf);
    let mut units: Vec<u16> = Vec::new();
    let mut k: usize = 0;
    while k < end
        invariant
            end == text_length(buf@),
            end <= buf.len(),
            k <= end,
            units@ == buf@.take(k as int),
        decreases end - k,
    {
        units.push(buf[k]);
        assert(buf@.take(k + 1) == buf@.take(k as int).push(buf@[k as int]));
        k = k + 1;
    }
    string_from_utf16_lossy(units.as_slice())
}

} // verus!

//! The frontmost application on macOS, known by its name.
use crate::condition::condition_holds;
use crate::condition::condition_selects;
use crate::condition::contains_any;
use crate::condition::contains_any_of;
use crate::condition::has_substring;
use crate::condition::holds;
use crate::condition::names_view;
use crate::condition::selects;
use crate::config::Condition;
use vstd::prelude::*;

verus! {

/// Names of browsers as macOS reports the frontmost application.
pub open spec fn macos_browser_apps() -> Seq<Seq<char>> {
    seq!["Google Chrome"@, "Firefox"@, "Safari"@, "Opera"@, "Brave Browser"@, "Vivaldi"@]
}

/// The application counts as the player: by the condition where it names a
/// criterion (the name stands for both the class and the title), else where
/// its name holds a browser's name.
pub open spec fn app_is_player(app: Seq<char>, matcher: Option<&Condition>) -> bool {
    match matcher {
        Some(m) => if condition_selects(*m) {
            condition_holds(*m, app, app)
        } else {
            contains_any(app, macos_browser_apps())
        },
        None => contains_any(app, macos_browser_apps()),
    }
}

/// Without a condition that names a criterion, an application counts as the
/// player exactly where its name holds a browser's name; a condition that
/// names no criterion is no condition; one that names a criterion decides
/// alone, the name standing for both class and title.
pub proof fn lemma_browser_detection(app: Seq<char>, c: Condition)
    ensures
        app_is_player(app, None) <==> contains_any(app, macos_browser_apps()),
        !condition_selects(c) ==> app_is_player(app, Some(&c)) == app_is_player(app, None),
        condition_selects(c) ==> app_is_player(app, Some(&c)) == condition_holds(c, app, app),
{
}

/// Each browser's name in an application's name makes it the player, where
/// no condition names a criterion.
pub proof fn lemma_known_browsers(app: Seq<char>)
    ensures
        has_substring(app, "Google Chrome"@) || has_substring(app, "Firefox"@) || has_substring(
            app,
            "Safari"@,
        ) || has_substring(app, "Opera"@) || has_substring(app, "Brave Browser"@) || has_substring(
            app,
            "Vivaldi"@,
        ) ==> app_is_player(app, None),
{
    let apps = macos_browser_apps();
    assert(apps[0] == "Google Chrome"@);
    assert(apps[1] == "Firefox"@);
    assert(apps[2] == "Safari"@);
    assert(apps[3] == "Opera"@);
    assert(apps[4] == "Brave Browser"@);
    assert(apps[5] == "Vivaldi"@);
}

fn browser_apps() -> (v: Vec<&'static str>)
    ensures
        names_view(v@) == macos_browser_apps(),
{
    let mut v: Vec<&'static str> = Vec::new();
    v.push("Google Chrome");
    v.push("Firefox");
    v.push("Safari");
    v.push("Opera");
    v.push("Brave Browser");
    v.push("Vivaldi");
    assert(names_view(v@) =~= macos_browser_apps());
    v
}

/// Whether the frontmost application, given by its name (`None` where it
/// could not be read), counts as the player.
pub fn is_browser_in_focus(app: Option<&String>, matcher: Option<&Condition>) -> (r: bool)
    ensures
        r == match app {
            Some(a) => app_is_player(a@, matcher),
            None => false,
        },
{
    let app = match app {
        Some(a) => a.as_str(),
        None => {
            return false;
        },
    };
    if let Some(m) = matcher {
        if selects(m) {
            return holds(m, app, app);
        }
    }
    contains_any_of(app, &browser_apps())
}

} // verus!

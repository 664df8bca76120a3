//! Whether the window in the foreground is the player: by the configured
//! condition where it names one, else by a list of known browsers.
use crate::config::Condition;
use vstd::prelude::*;
use vstd::string::StrSliceExecFns;

pub mod macos;
pub mod other;
pub mod windows;

verus! {

/// `needle` occurs in `hay` as a contiguous run of characters.
pub open spec fn has_substring(hay: Seq<char>, needle: Seq<char>) -> bool {
    exists|i: int|
        0 <= i && i + needle.len() <= hay.len() && #[trigger] hay.subrange(i, i + needle.len())
            == needle
}

/// `text` is one of `names`.
pub open spec fn equals_any(text: Seq<char>, names: Seq<Seq<char>>) -> bool {
    names.contains(text)
}

/// One of `names` occurs in `text`.
pub open spec fn contains_any(text: Seq<char>, names: Seq<Seq<char>>) -> bool {
    exists|j: int| 0 <= j < names.len() && has_substring(text, #[trigger] names[j])
}

/// The condition names a criterion: a class, or a text in the title.
pub open spec fn condition_selects(c: Condition) -> bool {
    c.class is Some || c.title_contains is Some
}

/// Every criterion that the condition names holds of a window with this title
/// and class.
pub open spec fn condition_holds(c: Condition, title: Seq<char>, class: Seq<char>) -> bool {
    &&& c.class matches Some(v) ==> class == v@
    &&& c.title_contains matches Some(v) ==> has_substring(title, v@)
}

/// The views of a list of names.
pub open spec fn names_view(names: Seq<&str>) -> Seq<Seq<char>> {
    names.map_values(|s: &str| s@)
}

/// The characters of `s`.
fn chars_of(s: &str) -> (v: Vec<char>)
    ensures
        v@ == s@,
{
    let n = s.unicode_len();
    let mut v: Vec<char> = Vec::new();
    let mut i: usize = 0;
    while i < n
        invariant
            n == s@.len(),
            i <= n,
            v@ == s@.take(i as int),
        decreases n - i,
    {
        let c = s.get_char(i);
        v.push(c);
        assert(s@.take(i + 1) == s@.take(i as int).push(c));
        i = i + 1;
    }
    assert(s@.take(n as int) == s@);
    v
}

/// `needle` occurs in `hay` at position `at`.
fn occurs_at(hay: &Vec<char>, needle: &Vec<char>, at: usize) -> (r: bool)
    requires
        at + needle.len() <= hay.len(),
    ensures
        r == (hay@.subrange(at as int, at + needle.len()) == needle@),
{
    let mut j: usize = 0;
    while j < needle.len()
        invariant
            at + needle.len() <= hay.len(),
            j <= needle.len(),
            forall|t: int| 0 <= t < j ==> hay@[at + t] == needle@[t],
        decreases needle.len() - j,
    {
        if hay[at + j] != needle[j] {
            assert(hay@.subrange(at as int, at + needle.len())[j as int] != needle@[j as int]);
            return false;
        }
        j = j + 1;
    }
    assert(hay@.subrange(at as int, at + needle.len()) =~= needle@);
    true
}

/// Whether `needle` occurs in `hay`, as `str::contains` answers.
pub fn text_contains(hay: &str, needle: &str) -> (r: bool)
    ensures
        r == has_substring(hay@, needle@),
{
    let h = chars_of(hay);
    let n = chars_of(needle);
    if n.len() > h.len() {
        return false;
    }
    let last = h.len() - n.len();
    let mut i: usize = 0;
    while i < last
        invariant
            h@ == hay@,
            n@ == needle@,
            last == h.len() - n.len(),
            n.len() <= h.len(),
            i <= last,
            forall|k: int| 0 <= k < i ==> #[trigger] h@.subrange(k, k + n.len()) != n@,
        decreases last - i,
    {
        if occurs_at(&h, &n, i) {
            return true;
        }
        i = i + 1;
    }
    if occurs_at(&h, &n, last) {
        return true;
    }
    assert forall|k: int| 0 <= k && k + needle@.len() <= hay@.len() implies #[trigger] hay@.subrange(
        k,
        k + needle@.len(),
    ) != needle@ by {
        assert(k <= last);
    }
    false
}

/// Whether two texts are the same.
pub fn text_equals(a: &str, b: &str) -> (r: bool)
    ensures
        r == (a@ == b@),
{
    let x = String::from_str(a);
    let y = String::from_str(b);
    x == y
}

/// Whether `text` is one of `names`.
pub fn equals_any_of(text: &str, names: &Vec<&str>) -> (r: bool)
    ensures
        r == equals_any(text@, names_view(names@)),
{
    let mut i: usize = 0;
    while i < names.len()
        invariant
            i <= names.len(),
            forall|k: int| 0 <= k < i ==> names@[k]@ != text@,
        decreases names.len() - i,
    {
        if text_equals(text, names[i]) {
            assert(names_view(names@)[i as int] == text@);
            return true;
        }
        i = i + 1;
    }
    assert(!names_view(names@).contains(text@)) by {
        if names_view(names@).contains(text@) {
            let k = choose|k: int| 0 <= k < names_view(names@).len() && names_view(names@)[k] == text@;
            assert(names@[k]@ == text@);
        }
    }
    false
}

/// Whether one of `names` occurs in `text`.
pub fn contains_any_of(text: &str, names: &Vec<&str>) -> (r: bool)
    ensures
        r == contains_any(text@, names_view(names@)),
{
    let mut i: usize = 0;
    while i < names.len()
        invariant
            i <= names.len(),
            forall|k: int| 0 <= k < i ==> !has_substring(text@, #[trigger] names@[k]@),
        decreases names.len() - i,
    {
        if text_contains(text, names[i]) {
            assert(has_substring(text@, names_view(names@)[i as int]));
            return true;
        }
        i = i + 1;
    }
    assert forall|j: int| 0 <= j < names_view(names@).len() implies !has_substring(
        text@,
        #[trigger] names_view(names@)[j],
    ) by {
        assert(names_view(names@)[j] == names@[j]@);
    }
    false
}

/// Whether the condition names a criterion.
pub fn selects(c: &Condition) -> (r: bool)
    ensures
        r == condition_selects(*c),
{
    c.class.is_some() || c.title_contains.is_some()
}

/// Whether every criterion that the condition names holds of a window with
/// this title and class.
pub fn holds(c: &Condition, title: &str, class: &str) -> (r: bool)
    ensures
        r == condition_holds(*c, title@, class@),
{
    let class_ok = match &c.class {
        Some(v) => text_equals(class, v.as_str()),
        None => true,
    };
    let title_ok = match &c.title_contains {
        Some(v) => text_contains(title, v.as_str()),
        None => true,
    };
    class_ok && title_ok
}

} // verus!

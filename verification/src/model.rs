//! The messages that peers exchange over the channel, and their JSON form.
use vstd::prelude::*;

verus! {

/// What a message asks of the peers.
#[derive(Clone, Copy, Debug, PartialEq, Eq, Structural)]
pub enum Op {
    /// Toggle play/pause.
    TogglePlay,
    /// A peer has joined.
    Introduce,
}

/// The name of an operation on the wire.
pub open spec fn op_wire_name(op: Op) -> Seq<char> {
    match op {
        Op::TogglePlay => "toggle_play"@,
        Op::Introduce => "introduce"@,
    }
}

impl Op {
    pub fn wire_name(&self) -> (s: &'static str)
        ensures
            s@ == op_wire_name(*self),
    {
        match self {
            Op::TogglePlay => "toggle_play",
            Op::Introduce => "introduce",
        }
    }
}

/// A message: who sent it, and what it asks.
#[derive(Clone, Debug)]
pub struct Message {
    pub sender: String,
    pub op: Op,
}

/// A lower case hexadecimal digit.
pub open spec fn hex_digit(n: int) -> char {
    if n < 10 {
        (48 + n) as char
    } else {
        (87 + n) as char
    }
}

/// How serde_json writes one character inside a string: a quote and a
/// backslash behind a backslash; backspace, tab, line feed, form feed and
/// carriage return as `\b`, `\t`, `\n`, `\f`, `\r`; the other characters
/// below U+0020 as `\u00` and two lower case hex digits; anything else as it
/// is.
pub open spec fn json_escape(c: char) -> Seq<char> {
    if c == '"' {
        seq!['\\', '"']
    } else if c == '\\' {
        seq!['\\', '\\']
    } else if c == '\u{8}' {
        seq!['\\', 'b']
    } else if c == '\t' {
        seq!['\\', 't']
    } else if c == '\n' {
        seq!['\\', 'n']
    } else if c == '\u{c}' {
        seq!['\\', 'f']
    } else if c == '\r' {
        seq!['\\', 'r']
    } else if (c as u32) < 0x20 {
        seq!['\\', 'u', '0', '0', hex_digit(((c as u32) / 16) as int), hex_digit(((c as u32) % 16) as int)]
    } else {
        seq![c]
    }
}

/// The characters of a string, each as serde_json writes it.
pub open spec fn json_escaped(s: Seq<char>) -> Seq<char>
    decreases s.len(),
{
    if s.len() == 0 {
        Seq::empty()
    } else {
        json_escaped(s.drop_last()) + json_escape(s.last())
    }
}

/// The JSON string literal that serde_json writes for a string: the escaped
/// characters between quotes.
pub open spec fn json_string_literal(s: Seq<char>) -> Seq<char> {
    seq!['"'] + json_escaped(s) + seq!['"']
}

/// A character that serde_json writes as it is.
pub open spec fn json_plain(c: char) -> bool {
    c != '"' && c != '\\' && (c as u32) >= 0x20
}

/// A string of characters that need no escape is written as it is, between
/// quotes.
pub proof fn lemma_plain_text_is_only_quoted(s: Seq<char>)
    requires
        forall|i: int| 0 <= i < s.len() ==> json_plain(#[trigger] s[i]),
    ensures
        json_escaped(s) == s,
        json_string_literal(s) == seq!['"'] + s + seq!['"'],
    decreases s.len(),
{
    if s.len() > 0 {
        assert forall|i: int| 0 <= i < s.drop_last().len() implies json_plain(#[trigger] s.drop_last()[i]) by {
            assert(s.drop_last()[i] == s[i]);
        }
        lemma_plain_text_is_only_quoted(s.drop_last());
        assert(json_plain(s[s.len() - 1]));
        assert(s.drop_last().push(s.last()) == s);
        assert(json_escape(s.last()) == seq![s.last()]);
        assert(json_escaped(s) == s.drop_last() + seq![s.last()]);
        assert(s.drop_last() + seq![s.last()] =~= s);
    }
}


/// A lower case hexadecimal digit tells its value.
proof fn lemma_hex_digit_injective(a: int, b: int)
    requires
        0 <= a < 16,
        0 <= b < 16,
        hex_digit(a) == hex_digit(b),
    ensures
        a == b,
{
}

/// The written form of a character: never empty; a character that needs no
/// escape as itself; any other behind a backslash.
proof fn lemma_escape_shape(c: char)
    ensures
        json_escape(c).len() >= 1,
        json_plain(c) ==> json_escape(c) == seq![c],
        !json_plain(c) ==> json_escape(c).len() >= 2 && json_escape(c)[0] == '\\',
{
}

/// A written character is told apart from the text that follows it: the
/// written form of one character is never a different character's written
/// form followed by more.
proof fn lemma_escape_unique(c1: char, c2: char, t1: Seq<char>, t2: Seq<char>)
    requires
        json_escape(c1) + t1 == json_escape(c2) + t2,
    ensures
        c1 == c2,
        t1 == t2,
{
    let a = json_escape(c1) + t1;
    let e1 = json_escape(c1);
    let e2 = json_escape(c2);
    lemma_escape_shape(c1);
    lemma_escape_shape(c2);
    assert(a[0] == e1[0]);
    assert(a[0] == e2[0]);
    if json_plain(c1) {
        assert(c1 == c2);
    } else {
        assert(!json_plain(c2));
        assert(a[1] == e1[1]);
        assert(a[1] == e2[1]);
        if e1[1] == 'u' {
            assert(e1.len() == 6 && e2.len() == 6);
            assert(a[4] == e1[4] && a[4] == e2[4]);
            assert(a[5] == e1[5] && a[5] == e2[5]);
            lemma_hex_digit_injective(((c1 as u32) / 16) as int, ((c2 as u32) / 16) as int);
            lemma_hex_digit_injective(((c1 as u32) % 16) as int, ((c2 as u32) % 16) as int);
            assert((c1 as u32) == (c2 as u32));
        }
        assert(c1 == c2);
    }
    assert(t1 =~= a.subrange(e1.len() as int, a.len() as int));
    assert(t2 =~= a.subrange(e1.len() as int, a.len() as int));
}

/// Writing a string writes its first character, then the rest.
proof fn lemma_escaped_cons(c: char, s: Seq<char>)
    ensures
        json_escaped(seq![c] + s) == json_escape(c) + json_escaped(s),
    decreases s.len(),
{
    let t = seq![c] + s;
    if s.len() == 0 {
        assert(t.drop_last() =~= Seq::<char>::empty());
        assert(t.last() == c);
        assert(json_escaped(t) == json_escaped(t.drop_last()) + json_escape(c));
        assert(json_escaped(t.drop_last()) == Seq::<char>::empty());
        assert(json_escaped(s) == Seq::<char>::empty());
        assert(Seq::<char>::empty() + json_escape(c) =~= json_escape(c));
        assert(json_escape(c) + Seq::<char>::empty() =~= json_escape(c));
    } else {
        lemma_escaped_cons(c, s.drop_last());
        assert(t.drop_last() =~= seq![c] + s.drop_last());
        assert(t.last() == s.last());
        assert(json_escaped(t) == json_escaped(seq![c] + s.drop_last()) + json_escape(s.last()));
        assert(json_escaped(s) == json_escaped(s.drop_last()) + json_escape(s.last()));
        assert(json_escape(c) + json_escaped(s.drop_last()) + json_escape(s.last()) =~= json_escape(c)
            + (json_escaped(s.drop_last()) + json_escape(s.last())));
    }
}

/// Different strings are written differently.
pub proof fn lemma_json_escaped_injective(s1: Seq<char>, s2: Seq<char>)
    requires
        json_escaped(s1) == json_escaped(s2),
    ensures
        s1 == s2,
    decreases s1.len(),
{
    if s1.len() == 0 {
        if s2.len() > 0 {
            lemma_escaped_cons(s2[0], s2.drop_first());
            assert(s2 =~= seq![s2[0]] + s2.drop_first());
            lemma_escape_shape(s2[0]);
        }
        assert(s1 =~= s2);
    } else {
        assert(s1 =~= seq![s1[0]] + s1.drop_first());
        lemma_escaped_cons(s1[0], s1.drop_first());
        lemma_escape_shape(s1[0]);
        if s2.len() == 0 {
            assert(json_escaped(s2).len() == 0);
        } else {
            assert(s2 =~= seq![s2[0]] + s2.drop_first());
            lemma_escaped_cons(s2[0], s2.drop_first());
            lemma_escape_unique(s1[0], s2[0], json_escaped(s1.drop_first()), json_escaped(s2.drop_first()));
            lemma_json_escaped_injective(s1.drop_first(), s2.drop_first());
            assert(s1 =~= s2);
        }
    }
}

/// The JSON text of a message tells its sender and its operation: two
/// messages with the same text have the same sender, whole, and the same
/// operation.
pub proof fn lemma_message_json_identifies_message(s1: Seq<char>, o1: Op, s2: Seq<char>, o2: Op)
    requires
        message_json(s1, o1) == message_json(s2, o2),
    ensures
        s1 == s2,
        o1 == o2,
{
    reveal_strlit("{\"sender\":");
    reveal_strlit(",\"op\":\"");
    reveal_strlit("\"}");
    reveal_strlit("toggle_play");
    reveal_strlit("introduce");
    let p = "{\"sender\":"@;
    let m = ",\"op\":\""@;
    let q = "\"}"@;
    let l1 = json_string_literal(s1);
    let l2 = json_string_literal(s2);
    let t = message_json(s1, o1);
    assert(t == p + l1 + m + op_wire_name(o1) + q);
    assert(t == p + l2 + m + op_wire_name(o2) + q);
    let n = t.len();
    assert(t[n - 3] == op_wire_name(o1).last());
    assert(t[n - 3] == op_wire_name(o2).last());
    assert(o1 == o2);
    let k = m.len() + op_wire_name(o1).len() + q.len();
    assert(l1 =~= t.subrange(10, n - k));
    assert(l2 =~= t.subrange(10, n - k));
    assert(json_escaped(s1) =~= l1.subrange(1, l1.len() - 1));
    assert(json_escaped(s2) =~= l2.subrange(1, l2.len() - 1));
    lemma_json_escaped_injective(s1, s2);
}

/// `serde_json::to_string` on a `str`: the escaped characters between quotes,
/// as `json_string_literal` states. Writing a string into a `String` cannot
/// fail, so the `Result` is unwrapped.
#[verifier::external_body]
fn json_quote(s: &str) -> (r: String)
    ensures
        r@ == json_string_literal(s@),
{
    serde_json::to_string(s).unwrap()
}

/// The JSON object for a message, fields in order, with no whitespace.
pub open spec fn message_json(sender: Seq<char>, op: Op) -> Seq<char> {
    "{\"sender\":"@ + json_string_literal(sender) + ",\"op\":\""@ + op_wire_name(op) + "\"}"@
}

impl Message {
    /// The JSON text of the message, as sent on the channel.
    pub fn to_json(&self) -> (s: String)
        ensures
            s@ == message_json(self.sender@, self.op),
    {
        let mut out = String::from_str("{\"sender\":");
        let quoted = json_quote(self.sender.as_str());
        out.append(quoted.as_str());
        out.append(",\"op\":\"");
        out.append(self.op.wire_name());
        out.append("\"}");
        out
    }
}

} // verus!

//! The version manifest that a finished build leaves beside its index: the
//! components that built it, each with its version, as one JSON object.

use crate::text::{join, joined};
use vstd::prelude::*;

verus! {

/// A component that took part in a build.
#[derive(Debug, PartialEq, Eq)]
pub struct Component {
    pub name: String,
    pub version: String,
}

/// A [`Component`] with its texts as sequences.
pub struct ComponentView {
    pub name: Seq<char>,
    pub version: Seq<char>,
}

impl View for Component {
    type V = ComponentView;

    open spec fn view(&self) -> ComponentView {
        ComponentView { name: self.name@, version: self.version@ }
    }
}

impl DeepView for Component {
    type V = ComponentView;

    open spec fn deep_view(&self) -> ComponentView {
        self@
    }
}

/// The character that writes the hexadecimal digit `d`, for `d` below
/// sixteen.
pub open spec fn hex_digit(d: nat) -> char {
    if d == 0 {
        '0'
    } else if d == 1 {
        '1'
    } else if d == 2 {
        '2'
    } else if d == 3 {
        '3'
    } else if d == 4 {
        '4'
    } else if d == 5 {
        '5'
    } else if d == 6 {
        '6'
    } else if d == 7 {
        '7'
    } else if d == 8 {
        '8'
    } else if d == 9 {
        '9'
    } else if d == 10 {
        'a'
    } else if d == 11 {
        'b'
    } else if d == 12 {
        'c'
    } else if d == 13 {
        'd'
    } else if d == 14 {
        'e'
    } else {
        'f'
    }
}

/// Whether `c` cannot stand as it is inside a JSON string: the quotation
/// mark, the backslash and the control characters below the space.
pub open spec fn needs_escape(c: char) -> bool {
    c == '"' || c == '\\' || (c as u32) < 0x20
}

/// How `c` is written inside a JSON string.
pub open spec fn escaped_char(c: char) -> Seq<char> {
    if c == '"' {
        seq!['\\', '"']
    } else if c == '\\' {
        seq!['\\', '\\']
    } else if (c as u32) < 0x20 {
        seq!['\\', 'u', '0', '0', hex_digit(c as nat / 16), hex_digit(c as nat % 16)]
    } else {
        seq![c]
    }
}

/// How `s` is written inside a JSON string: character by character.
pub open spec fn escaped(s: Seq<char>) -> Seq<char>
    decreases s.len(),
{
    if s.len() == 0 {
        Seq::empty()
    } else {
        escaped(s.drop_last()) + escaped_char(s.last())
    }
}

/// `s` as a JSON string.
pub open spec fn quoted(s: Seq<char>) -> Seq<char> {
    seq!['"'] + escaped(s) + seq!['"']
}

/// One member of the manifest: the name, a colon, the version.
pub open spec fn member(c: ComponentView) -> Seq<char> {
    quoted(c.name) + seq![':'] + quoted(c.version)
}

/// The manifest of `components`: a JSON object with one member for each, in
/// their order.
pub open spec fn manifest_text(components: Seq<ComponentView>) -> Seq<char> {
    seq!['{'] + joined(components.map_values(|c: ComponentView| member(c)), ","@) + seq!['}']
}

fn hex_text(d: u32) -> (t: &'static str)
    requires
        d < 16,
    ensures
        t@ == seq![hex_digit(d as nat)],
{
    proof {
        reveal_strlit("0");
        reveal_strlit("1");
        reveal_strlit("2");
        reveal_strlit("3");
        reveal_strlit("4");
        reveal_strlit("5");
        reveal_strlit("6");
        reveal_strlit("7");
        reveal_strlit("8");
        reveal_strlit("9");
        reveal_strlit("a");
        reveal_strlit("b");
        reveal_strlit("c");
        reveal_strlit("d");
        reveal_strlit("e");
        reveal_strlit("f");
    }
    let t = if d == 0 {
        "0"
    } else if d == 1 {
        "1"
    } else if d == 2 {
        "2"
    } else if d == 3 {
        "3"
    } else if d == 4 {
        "4"
    } else if d == 5 {
        "5"
    } else if d == 6 {
        "6"
    } else if d == 7 {
        "7"
    } else if d == 8 {
        "8"
    } else if d == 9 {
        "9"
    } else if d == 10 {
        "a"
    } else if d == 11 {
        "b"
    } else if d == 12 {
        "c"
    } else if d == 13 {
        "d"
    } else if d == 14 {
        "e"
    } else {
        "f"
    };
    assert(t@ =~= seq![hex_digit(d as nat)]);
    t
}

/// Appends to `out` how the character of `s` at place `i` is written inside
/// a JSON string.
fn push_escaped(out: &mut String, s: &str, i: usize)
    requires
        i < s@.len() <= usize::MAX,
    ensures
        final(out)@ == old(out)@ + escaped_char(s@[i as int]),
{
    let c = s.get_char(i);
    if c == '"' {
        proof {
            reveal_strlit("\\\"");
        }
        out.append("\\\"");
        assert(out@ =~= old(out)@ + escaped_char(c));
    } else if c == '\\' {
        proof {
            reveal_strlit("\\\\");
        }
        out.append("\\\\");
        assert(out@ =~= old(out)@ + escaped_char(c));
    } else if (c as u32) < 0x20 {
        proof {
            reveal_strlit("\\u00");
        }
        out.append("\\u00");
        out.append(hex_text(c as u32 / 16));
        out.append(hex_text(c as u32 % 16));
        assert(out@ =~= old(out)@ + escaped_char(c));
    } else {
        out.append(s.substring_char(i, i + 1));
        assert(s@.subrange(i as int, i + 1) =~= seq![c]);
    }
}

/// Writes `s` as a JSON string.
pub fn quote(s: &str) -> (out: String)
    ensures
        out@ == quoted(s@),
{
    proof {
        reveal_strlit("\"");
    }
    let mut out = "\"".to_owned();
    let n = s.unicode_len();
    let mut i: usize = 0;
    while i < n
        invariant
            i <= n,
            n == s@.len(),
            out@ == seq!['"'] + escaped(s@.take(i as int)),
        decreases n - i,
    {
        proof {
            let next = s@.take(i + 1);
            assert(next.drop_last() =~= s@.take(i as int));
            assert(next.last() == s@[i as int]);
        }
        push_escaped(&mut out, s, i);
        assert(out@ =~= seq!['"'] + escaped(s@.take(i + 1)));
        i += 1;
    }
    assert(s@.take(n as int) =~= s@);
    out.append("\"");
    assert(out@ =~= quoted(s@));
    out
}

/// Writes the version manifest of `components`.
pub fn render_manifest(components: &Vec<Component>) -> (out: String)
    ensures
        out@ == manifest_text(components.deep_view()),
{
    let mut members: Vec<String> = Vec::new();
    let mut i: usize = 0;
    while i < components.len()
        invariant
            i <= components.len(),
            members.len() == i,
            forall|j: int| 0 <= j < i ==> members[j]@ == member(components[j]@),
        decreases components.len() - i,
    {
        proof {
            reveal_strlit(":");
        }
        let mut text = quote(components[i].name.as_str());
        text.append(":");
        text.append(quote(components[i].version.as_str()).as_str());
        assert(text@ =~= member(components[i as int]@));
        members.push(text);
        i += 1;
    }
    assert(members.deep_view() =~= components.deep_view().map_values(
        |c: ComponentView| member(c),
    ));
    proof {
        reveal_strlit("{");
        reveal_strlit("}");
    }
    let mut out = "{".to_owned();
    out.append(join(&members, ",").as_str());
    out.append("}");
    assert(out@ =~= manifest_text(components.deep_view()));
    out
}

} // verus!

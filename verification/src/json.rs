//! JSON values carried through unread, held as their compact text.
use crate::digest;
use crate::text;
use vstd::prelude::*;
use vstd::string::*;

verus! {

/// A text that has no line break nor any other character below the space.
pub open spec fn unbroken(s: Seq<char>) -> bool {
    forall|i: int| 0 <= i < s.len() ==> ' ' <= #[trigger] s[i]
}

/// The compact rendering of the JSON document `text`; none where it is no JSON document.
pub uninterp spec fn compact_json(text: Seq<char>) -> Option<Seq<char>>;

/// `serde_json::from_str` reads a document and the `Display` of the value renders it compactly.
/// The compact rendering puts in no space of its own and escapes every character below the space.
#[verifier::external_body]
fn compact(s: &str) -> (r: Option<String>)
    ensures
        text::optional(r) == compact_json(s@),
        r matches Some(t) ==> unbroken(t@),
{
    serde_json::from_str::<serde_json::Value>(s).ok().map(|value| value.to_string())
}

/// A character inside a JSON string: quotes, backslashes and everything below the space are escaped.
pub open spec fn escaped(c: char) -> Seq<char> {
    if c == '"' {
        seq!['\\', '"']
    } else if c == '\\' {
        seq!['\\', '\\']
    } else if c == '\u{8}' {
        seq!['\\', 'b']
    } else if c == '\t' {
        seq!['\\', 't']
    } else if c == '\n' {
        seq!['\\', 'n']
    } else if c == '\u{c}' {
        seq!['\\', 'f']
    } else if c == '\r' {
        seq!['\\', 'r']
    } else if 32 > c as int {
        seq![
            '\\',
            'u',
            '0',
            '0',
            digest::hex_digit(c as int / 16),
            digest::hex_digit(c as int % 16),
        ]
    } else {
        seq![c]
    }
}

pub open spec fn escaped_text(s: Seq<char>) -> Seq<char>
    decreases s.len(),
{
    if s.len() == 0 {
        seq![]
    } else {
        escaped_text(s.drop_last()) + escaped(s.last())
    }
}

/// The JSON string that stands for a text.
pub open spec fn string_json(text: Seq<char>) -> Seq<char> {
    seq!['"'] + escaped_text(text) + seq!['"']
}

/// `serde_json::Value::from` makes a JSON string of a text, and its `Display` renders it: the
/// characters between quotes, with the short escape where JSON has one and `\u00` with two
/// lowercase hexadecimal digits for the other characters below the space.
#[verifier::external_body]
fn string_literal_of(s: &str) -> (r: String)
    ensures
        r@ == string_json(s@),
{
    serde_json::Value::from(s).to_string()
}

proof fn escape_is_unbroken(c: char)
    ensures
        unbroken(escaped(c)),
{
}

proof fn escapes_are_unbroken(s: Seq<char>)
    ensures
        unbroken(escaped_text(s)),
    decreases s.len(),
{
    if s.len() > 0 {
        escapes_are_unbroken(s.drop_last());
        escape_is_unbroken(s.last());
    }
}

/// The JSON string of a text.
pub fn string_literal(s: &str) -> (r: String)
    ensures
        r@ == string_json(s@),
        unbroken(r@),
{
    proof {
        escapes_are_unbroken(s@);
    }
    string_literal_of(s)
}

proof fn escapes_begin(s: Seq<char>)
    requires
        s.len() > 0,
    ensures
        escaped_text(s) == escaped(s[0]) + escaped_text(s.skip(1)),
    decreases s.len(),
{
    if s.len() == 1 {
        assert(s.drop_last() =~= seq![]);
        assert(s.skip(1) =~= seq![]);
        assert(escaped_text(s) =~= escaped(s[0]) + escaped_text(s.skip(1)));
    } else {
        escapes_begin(s.drop_last());
        assert(s.drop_last().skip(1) =~= s.skip(1).drop_last());
        assert(escaped_text(s) =~= escaped(s[0]) + escaped_text(s.skip(1)));
    }
}

proof fn escapes_part(a: char, b: char, x: Seq<char>, y: Seq<char>)
    requires
        escaped(a) + x == escaped(b) + y,
    ensures
        a == b,
        x == y,
{
    let whole = escaped(a) + x;
    assert(whole[0] == escaped(a)[0]);
    assert(whole[0] == escaped(b)[0]);
    if escaped(a).len() > 1 && escaped(b).len() > 1 {
        assert(whole[1] == escaped(a)[1]);
        assert(whole[1] == escaped(b)[1]);
        if escaped(a).len() > 2 && escaped(b).len() > 2 {
            assert(whole[4] == escaped(a)[4]);
            assert(whole[4] == escaped(b)[4]);
            assert(whole[5] == escaped(a)[5]);
            assert(whole[5] == escaped(b)[5]);
        }
    }
    assert(a == b);
    let n = escaped(a).len() as int;
    assert(x =~= whole.skip(n));
    assert(y =~= (escaped(b) + y).skip(n));
}

proof fn escapes_are_distinct(a: Seq<char>, b: Seq<char>)
    requires
        escaped_text(a) == escaped_text(b),
    ensures
        a == b,
    decreases a.len(),
{
    if a.len() > 0 {
        escapes_begin(a);
    }
    if b.len() > 0 {
        escapes_begin(b);
    }
    if a.len() == 0 || b.len() == 0 {
        assert(a =~= b);
    } else {
        escapes_part(a[0], b[0], escaped_text(a.skip(1)), escaped_text(b.skip(1)));
        escapes_are_distinct(a.skip(1), b.skip(1));
        assert(a =~= seq![a[0]] + a.skip(1));
        assert(b =~= seq![b[0]] + b.skip(1));
    }
}

/// Different texts are different JSON strings.
pub proof fn texts_survive_json(a: Seq<char>, b: Seq<char>)
    requires
        string_json(a) == string_json(b),
    ensures
        a == b,
{
    let n = string_json(a).len() - 1;
    assert(escaped_text(a) =~= string_json(a).subrange(1, n));
    assert(escaped_text(b) =~= string_json(b).subrange(1, n));
    escapes_are_distinct(a, b);
}

/// The compact rendering of a document, or a complaint where it is none.
pub(crate) fn compacted(s: &str) -> (r: Result<String, String>)
    ensures
        match compact_json(s@) {
            Some(t) => r matches Ok(found) && found@ == t,
            None => r matches Err(e) && e@ == "document is not JSON"@,
        },
{
    match compact(s) {
        Some(text) => Ok(text),
        None => Err("document is not JSON".to_owned()),
    }
}

/// One JSON value.
#[derive(Debug, PartialEq, Eq)]
pub struct JsonValue {
    text: String,
}

impl View for JsonValue {
    type V = Seq<char>;

    closed spec fn view(&self) -> Seq<char> {
        self.text@
    }
}

impl Clone for JsonValue {
    fn clone(&self) -> (r: Self)
        ensures
            r == *self,
    {
        proof {
            use_type_invariant(self);
        }
        JsonValue { text: self.text.clone() }
    }
}

impl JsonValue {
    #[verifier::type_invariant]
    spec fn is_one_line(self) -> bool {
        unbroken(self.text@)
    }

    /// The JSON `null`.
    pub fn null() -> (r: Self)
        ensures
            r@ == "null"@,
    {
        proof {
            reveal_strlit("null");
        }
        JsonValue { text: "null".to_owned() }
    }

    /// The value that `s` denotes.
    pub fn parse(s: &str) -> (r: Option<Self>)
        ensures
            r is Some <==> compact_json(s@) is Some,
            r matches Some(v) ==> Some(v@) == compact_json(s@),
    {
        match compact(s) {
            Some(text) => Some(JsonValue { text }),
            None => None,
        }
    }

    /// The compact text.
    pub fn as_str(&self) -> (r: &str)
        ensures
            r@ == self@,
            unbroken(r@),
    {
        proof {
            use_type_invariant(self);
        }
        self.text.as_str()
    }

    pub fn same(&self, other: &Self) -> (r: bool)
        ensures
            r == (self@ == other@),
    {
        text::same(self.text.as_str(), other.text.as_str())
    }
}

} // verus!

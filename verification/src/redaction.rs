//! Diagnostics from outside, without control characters and without the secret.
use crate::text;
use vstd::prelude::*;
use vstd::string::*;

verus! {

/// A control character.
pub open spec fn control(c: char) -> bool {
    c <= '\u{1f}' || '\u{7f}' <= c <= '\u{9f}'
}

/// A character that a diagnostic keeps.
pub open spec fn shown(c: char) -> bool {
    !control(c) || c == '\n' || c == '\t'
}

/// The characters of a text that are kept.
pub open spec fn visible(s: Seq<char>) -> Seq<char>
    decreases s.len(),
{
    if s.len() == 0 {
        s
    } else if shown(s.last()) {
        visible(s.drop_last()).push(s.last())
    } else {
        visible(s.drop_last())
    }
}

/// `needle` stands at the start of `s`.
pub open spec fn starts(s: Seq<char>, needle: Seq<char>) -> bool {
    needle.len() <= s.len() && s.take(needle.len() as int) == needle
}

/// `needle` occurs in `s` at `i`.
pub open spec fn occurs_at(s: Seq<char>, needle: Seq<char>, i: int) -> bool {
    0 <= i && i + needle.len() <= s.len() && s.subrange(i, i + needle.len()) == needle
}

pub open spec fn occurs(s: Seq<char>, needle: Seq<char>) -> bool {
    exists|i: int| #[trigger] occurs_at(s, needle, i)
}

/// `s` with every occurrence of `needle`, from the left and without overlap, replaced by `by`.
pub open spec fn replaced(s: Seq<char>, needle: Seq<char>, by: Seq<char>) -> Seq<char>
    decreases s.len(),
{
    if needle.len() == 0 || s.len() < needle.len() {
        s
    } else if starts(s, needle) {
        by + replaced(s.skip(needle.len() as int), needle, by)
    } else {
        seq![s[0]] + replaced(s.skip(1), needle, by)
    }
}

/// `s` without white space at its start.
pub open spec fn trimmed_start(s: Seq<char>) -> Seq<char>
    decreases s.len(),
{
    if s.len() > 0 && text::white(s[0]) {
        trimmed_start(s.skip(1))
    } else {
        s
    }
}

/// `s` without white space at its end.
pub open spec fn trimmed_end(s: Seq<char>) -> Seq<char>
    decreases s.len(),
{
    if s.len() > 0 && text::white(s.last()) {
        trimmed_end(s.drop_last())
    } else {
        s
    }
}

pub open spec fn trimmed(s: Seq<char>) -> Seq<char> {
    trimmed_end(trimmed_start(s))
}

/// What stands in place of a secret.
pub open spec fn mark() -> Seq<char> {
    seq!['[', 'R', 'E', 'D', 'A', 'C', 'T', 'E', 'D', ']']
}

/// A diagnostic as it may be stored and shown.
pub open spec fn sanitized(s: Seq<char>, secret: Seq<char>) -> Seq<char> {
    trimmed(replaced(visible(s), secret, mark()))
}

fn is_shown(c: char) -> (r: bool)
    ensures
        r == shown(c),
{
    !(c <= '\u{1f}' || ('\u{7f}' <= c && c <= '\u{9f}')) || c == '\n' || c == '\t'
}

fn keep_visible(s: &str) -> (r: Vec<char>)
    ensures
        r@ == visible(s@),
{
    let chars = text::chars_of(s);
    let mut out: Vec<char> = Vec::new();
    assert(out@ =~= s@.take(0));
    for i in 0..chars.len()
        invariant
            chars@ == s@,
            out@ == visible(s@.take(i as int)),
    {
        let ghost longer = s@.take(i + 1);
        assert(longer.drop_last() =~= s@.take(i as int));
        if is_shown(chars[i]) {
            out.push(chars[i]);
        }
    }
    assert(s@.take(chars@.len() as int) =~= s@);
    out
}

pub(crate) fn stands_at(s: &Vec<char>, needle: &Vec<char>, at: usize) -> (r: bool)
    requires
        at + needle@.len() <= s@.len(),
    ensures
        r == starts(s@.skip(at as int), needle@),
{
    let ghost rest = s@.skip(at as int);
    let limit = s.len();
    for i in 0..needle.len()
        invariant
            limit == s@.len(),
            at + needle@.len() <= limit,
            rest == s@.skip(at as int),
            forall|j: int| 0 <= j < i ==> rest[j] == needle@[j],
    {
        if s[at + i] != needle[i] {
            assert(rest.take(needle@.len() as int)[i as int] == rest[i as int]);
            return false;
        }
    }
    assert(rest.take(needle@.len() as int) =~= needle@);
    true
}

fn push_all(out: &mut Vec<char>, more: &Vec<char>)
    ensures
        final(out)@ == old(out)@ + more@,
{
    let ghost before = out@;
    assert(out@ =~= before + more@.take(0));
    for i in 0..more.len()
        invariant
            out@ == before + more@.take(i as int),
    {
        out.push(more[i]);
        assert(out@ =~= before + more@.take(i + 1));
    }
    assert(more@.take(more@.len() as int) =~= more@);
}

fn replace(s: &Vec<char>, needle: &Vec<char>, by: &Vec<char>) -> (r: Vec<char>)
    requires
        needle@.len() > 0,
    ensures
        r@ == replaced(s@, needle@, by@),
{
    let mut out: Vec<char> = Vec::new();
    let mut at: usize = 0;
    assert(s@.skip(0) =~= s@);
    assert(out@ + replaced(s@.skip(0), needle@, by@) =~= replaced(s@, needle@, by@));
    while at < s.len() && needle.len() <= s.len() - at
        invariant
            needle@.len() > 0,
            at <= s@.len(),
            out@ + replaced(s@.skip(at as int), needle@, by@) == replaced(s@, needle@, by@),
        decreases s@.len() - at,
    {
        let ghost rest = s@.skip(at as int);
        let ghost before = out@;
        if stands_at(s, needle, at) {
            push_all(&mut out, by);
            assert(rest.skip(needle@.len() as int) =~= s@.skip(at + needle@.len()));
            assert(out@ + replaced(s@.skip(at + needle@.len()), needle@, by@) =~= before + (by@
                + replaced(rest.skip(needle@.len() as int), needle@, by@)));
            at += needle.len();
        } else {
            out.push(s[at]);
            assert(rest.skip(1) =~= s@.skip(at + 1));
            assert(out@ + replaced(s@.skip(at + 1), needle@, by@) =~= before + (seq![rest[0]]
                + replaced(rest.skip(1), needle@, by@)));
            at += 1;
        }
    }
    let ghost before = out@;
    let ghost rest = s@.skip(at as int);
    assert(replaced(rest, needle@, by@) == rest);
    while at < s.len()
        invariant
            at <= s@.len(),
            out@ + s@.skip(at as int) == before + rest,
        decreases s@.len() - at,
    {
        let ghost shorter = out@;
        out.push(s[at]);
        assert(out@ + s@.skip(at + 1) =~= shorter + s@.skip(at as int));
        at += 1;
    }
    assert(out@ + s@.skip(at as int) =~= out@);
    out
}

fn trim(s: &Vec<char>) -> (r: String)
    ensures
        r@ == trimmed(s@),
{
    let mut start: usize = 0;
    assert(s@.skip(0) =~= s@);
    while start < s.len() && text::is_white(s[start])
        invariant
            start <= s@.len(),
            trimmed_start(s@.skip(start as int)) == trimmed_start(s@),
        decreases s@.len() - start,
    {
        assert(s@.skip(start as int).skip(1) =~= s@.skip(start + 1));
        start += 1;
    }
    let ghost rest = s@.skip(start as int);
    let mut end: usize = s.len();
    assert(s@.subrange(start as int, end as int) =~= rest);
    while end > start && text::is_white(s[end - 1])
        invariant
            start <= end <= s@.len(),
            trimmed_end(s@.subrange(start as int, end as int)) == trimmed_end(rest),
        decreases end - start,
    {
        assert(s@.subrange(start as int, end as int).drop_last() =~= s@.subrange(
            start as int,
            end - 1,
        ));
        end -= 1;
    }
    let ghost wanted = s@.subrange(start as int, end as int);
    let mut out = String::new();
    let mut i: usize = start;
    assert(out@ =~= wanted.take(0));
    while i < end
        invariant
            start <= i <= end <= s@.len(),
            wanted == s@.subrange(start as int, end as int),
            out@ == wanted.take(i - start),
        decreases end - i,
    {
        out.push(s[i]);
        assert(out@ =~= wanted.take(i + 1 - start));
        i += 1;
    }
    assert(wanted.take(end - start) =~= wanted);
    out
}

/// Takes control characters and the secret out of a diagnostic.
pub fn sanitize_text(value: &str, secret: &str) -> (r: String)
    requires
        secret@.len() > 0,
    ensures
        r@ == sanitized(value@, secret@),
{
    let kept = keep_visible(value);
    let needle = text::chars_of(secret);
    let by = text::chars_of("[REDACTED]");
    proof {
        reveal_strlit("[REDACTED]");
        assert(by@ =~= mark());
    }
    let clean = replace(&kept, &needle, &by);
    trim(&clean)
}

proof fn prefix_without_mark(t: Seq<char>, needle: Seq<char>, u: Seq<char>)
    requires
        starts(replaced(t, needle, mark()), u),
        !u.contains('['),
    ensures
        starts(t, u),
    decreases t.len(),
{
    let r = replaced(t, needle, mark());
    if u.len() == 0 {
        assert(t.take(0) =~= u);
    } else if needle.len() == 0 || t.len() < needle.len() {
    } else if starts(t, needle) {
        assert(r.take(u.len() as int)[0] == '[');
        assert(u[0] == '[');
        assert(u.contains(u[0]));
    } else {
        let rest = replaced(t.skip(1), needle, mark());
        let v = u.skip(1);
        assert(r.take(u.len() as int)[0] == t[0]);
        assert forall|i: int| 0 <= i < v.len() implies rest[i] == v[i] by {
            assert(r.take(u.len() as int)[i + 1] == rest[i]);
        }
        assert(rest.take(v.len() as int) =~= v);
        if v.contains('[') {
            let i = choose|i: int| 0 <= i < v.len() && v[i] == '[';
            assert(u[i + 1] == '[');
        }
        prefix_without_mark(t.skip(1), needle, v);
        assert forall|i: int| 0 <= i < u.len() implies t[i] == u[i] by {
            if i > 0 {
                assert(t.skip(1).take(v.len() as int)[i - 1] == v[i - 1]);
            }
        }
        assert(t.take(u.len() as int) =~= u);
    }
}

proof fn replacement_removes(s: Seq<char>, needle: Seq<char>, at: int)
    requires
        needle.len() > 0,
        !needle.contains('['),
        !needle.contains(']'),
        !occurs(mark(), needle),
    ensures
        !occurs_at(replaced(s, needle, mark()), needle, at),
    decreases s.len(),
{
    let r = replaced(s, needle, mark());
    let n = needle.len() as int;
    if s.len() < needle.len() || !occurs_at(r, needle, at) {
    } else if starts(s, needle) {
        let rest = replaced(s.skip(n), needle, mark());
        if at + n <= 10 {
            assert(mark().subrange(at, at + n) =~= r.subrange(at, at + n));
            assert(occurs_at(mark(), needle, at));
        } else if at >= 10 {
            assert(rest.subrange(at - 10, at - 10 + n) =~= r.subrange(at, at + n));
            replacement_removes(s.skip(n), needle, at - 10);
        } else {
            assert(r.subrange(at, at + n)[9 - at] == ']');
            assert(needle[9 - at] == ']');
        }
    } else {
        let rest = replaced(s.skip(1), needle, mark());
        if at >= 1 {
            assert(rest.subrange(at - 1, at - 1 + n) =~= r.subrange(at, at + n));
            replacement_removes(s.skip(1), needle, at - 1);
        } else {
            let v = needle.skip(1);
            assert(r.subrange(0, n)[0] == s[0]);
            assert forall|i: int| 0 <= i < v.len() implies rest[i] == v[i] by {
                assert(r.subrange(0, n)[i + 1] == rest[i]);
            }
            assert(rest.take(v.len() as int) =~= v);
            if v.contains('[') {
                let i = choose|i: int| 0 <= i < v.len() && v[i] == '[';
                assert(needle[i + 1] == '[');
            }
            prefix_without_mark(s.skip(1), needle, v);
            assert forall|i: int| 0 <= i < n implies s[i] == needle[i] by {
                if i > 0 {
                    assert(s.skip(1).take(v.len() as int)[i - 1] == v[i - 1]);
                }
            }
            assert(s.take(n) =~= needle);
        }
    }
}

proof fn trimming_cuts(s: Seq<char>)
    ensures
        exists|a: int, b: int|
            0 <= a <= b <= s.len() && #[trigger] s.subrange(a, b) == trimmed(s),
{
    let t = trimmed_start(s);
    start_is_cut(s);
    let a = choose|a: int| 0 <= a <= s.len() && #[trigger] s.skip(a) == t;
    end_is_cut(t);
    let b = choose|b: int| 0 <= b <= t.len() && #[trigger] t.take(b) == trimmed_end(t);
    assert(s.subrange(a, a + b) =~= trimmed(s));
}

proof fn start_is_cut(s: Seq<char>)
    ensures
        exists|a: int| 0 <= a <= s.len() && #[trigger] s.skip(a) == trimmed_start(s),
    decreases s.len(),
{
    if s.len() > 0 && text::white(s[0]) {
        start_is_cut(s.skip(1));
        let a = choose|a: int|
            0 <= a <= s.skip(1).len() && #[trigger] s.skip(1).skip(a) == trimmed_start(s.skip(1));
        assert(s.skip(a + 1) =~= s.skip(1).skip(a));
    } else {
        assert(s.skip(0) =~= s);
    }
}

proof fn end_is_cut(s: Seq<char>)
    ensures
        exists|b: int| 0 <= b <= s.len() && #[trigger] s.take(b) == trimmed_end(s),
    decreases s.len(),
{
    if s.len() > 0 && text::white(s.last()) {
        end_is_cut(s.drop_last());
        let b = choose|b: int|
            0 <= b <= s.drop_last().len() && #[trigger] s.drop_last().take(b) == trimmed_end(
                s.drop_last(),
            );
        assert(s.take(b) =~= s.drop_last().take(b));
    } else {
        assert(s.take(s.len() as int) =~= s);
    }
}

/// A secret is never rendered: no diagnostic holds it, whatever came from outside. It is left out
/// only for secrets that the mark itself holds or that have brackets.
pub proof fn secrets_are_never_rendered(s: Seq<char>, secret: Seq<char>)
    requires
        secret.len() > 0,
        !secret.contains('['),
        !secret.contains(']'),
        !occurs(mark(), secret),
    ensures
        !occurs(sanitized(s, secret), secret),
{
    let r = replaced(visible(s), secret, mark());
    trimming_cuts(r);
    let (a, b) = choose|a: int, b: int|
        0 <= a <= b <= r.len() && #[trigger] r.subrange(a, b) == trimmed(r);
    assert forall|i: int| !#[trigger] occurs_at(trimmed(r), secret, i) by {
        if occurs_at(trimmed(r), secret, i) {
            assert(r.subrange(a + i, a + i + secret.len()) =~= trimmed(r).subrange(
                i,
                i + secret.len(),
            ));
            replacement_removes(visible(s), secret, a + i);
        }
    }
}

proof fn visible_is_shown(s: Seq<char>)
    ensures
        forall|i: int| 0 <= i < visible(s).len() ==> shown(#[trigger] visible(s)[i]),
    decreases s.len(),
{
    if s.len() > 0 {
        let before = visible(s.drop_last());
        visible_is_shown(s.drop_last());
        assert forall|i: int| 0 <= i < visible(s).len() implies shown(#[trigger] visible(s)[i]) by {
            if i < before.len() {
                assert(visible(s)[i] == before[i]);
            }
        }
    }
}

proof fn replacement_is_shown(s: Seq<char>, needle: Seq<char>)
    requires
        forall|i: int| 0 <= i < s.len() ==> shown(#[trigger] s[i]),
    ensures
        forall|i: int|
            0 <= i < replaced(s, needle, mark()).len() ==> shown(
                #[trigger] replaced(s, needle, mark())[i],
            ),
    decreases s.len(),
{
    if needle.len() == 0 || s.len() < needle.len() {
    } else if starts(s, needle) {
        let rest = replaced(s.skip(needle.len() as int), needle, mark());
        replacement_is_shown(s.skip(needle.len() as int), needle);
        assert forall|i: int| 0 <= i < replaced(s, needle, mark()).len() implies shown(
            #[trigger] replaced(s, needle, mark())[i],
        ) by {
            if i >= 10 {
                assert(replaced(s, needle, mark())[i] == rest[i - 10]);
            }
        }
    } else {
        let rest = replaced(s.skip(1), needle, mark());
        replacement_is_shown(s.skip(1), needle);
        assert forall|i: int| 0 <= i < replaced(s, needle, mark()).len() implies shown(
            #[trigger] replaced(s, needle, mark())[i],
        ) by {
            if i >= 1 {
                assert(replaced(s, needle, mark())[i] == rest[i - 1]);
            }
        }
    }
}

/// No diagnostic holds a control character other than line breaks and tabs.
pub proof fn diagnostics_are_printable(s: Seq<char>, secret: Seq<char>)
    ensures
        forall|i: int|
            0 <= i < sanitized(s, secret).len() ==> shown(#[trigger] sanitized(s, secret)[i]),
{
    visible_is_shown(s);
    let r = replaced(visible(s), secret, mark());
    replacement_is_shown(visible(s), secret);
    trimming_cuts(r);
    let (a, b) = choose|a: int, b: int|
        0 <= a <= b <= r.len() && #[trigger] r.subrange(a, b) == trimmed(r);
    assert forall|i: int| 0 <= i < trimmed(r).len() implies shown(#[trigger] trimmed(r)[i]) by {
        assert(trimmed(r)[i] == r[a + i]);
    }
}

/// Of all characters a diagnostic keeps the line break, the tab, and those from the space on other
/// than the delete character and the 32 behind it.
pub proof fn characters_are_kept(c: char)
    ensures
        visible(seq![c]) == if c == '\n' || c == '\t' || (32 <= c as int && !(127 <= c as int
            <= 159)) {
            seq![c]
        } else {
            seq![]
        },
{
    assert(seq![c].drop_last() =~= Seq::<char>::empty());
    assert(visible(seq![]) =~= Seq::<char>::empty());
    assert(Seq::<char>::empty().push(c) =~= seq![c]);
}

/// Characters are kept or left out one by one, in their order.
pub proof fn characters_are_kept_one_by_one(a: Seq<char>, b: Seq<char>)
    ensures
        visible(a + b) == visible(a) + visible(b),
    decreases b.len(),
{
    if b.len() == 0 {
        assert(a + b =~= a);
        assert(visible(a) + visible(b) =~= visible(a));
    } else {
        characters_are_kept_one_by_one(a, b.drop_last());
        assert((a + b).drop_last() =~= a + b.drop_last());
        assert((a + b).last() == b.last());
        assert(visible(a + b) =~= visible(a) + visible(b));
    }
}

/// Text in which the secret does not occur is left as it is by the replacement.
pub proof fn text_without_the_secret_stays(s: Seq<char>, secret: Seq<char>)
    requires
        !occurs(s, secret),
    ensures
        replaced(s, secret, mark()) == s,
    decreases s.len(),
{
    if secret.len() == 0 || s.len() < secret.len() {
    } else {
        assert(s.take(secret.len() as int) =~= s.subrange(0, secret.len() as int));
        assert(!occurs_at(s, secret, 0));
        let rest = s.skip(1);
        assert forall|i: int| !#[trigger] occurs_at(rest, secret, i) by {
            if occurs_at(rest, secret, i) {
                assert(s.subrange(i + 1, i + 1 + secret.len()) =~= rest.subrange(
                    i,
                    i + secret.len(),
                ));
                assert(occurs_at(s, secret, i + 1));
            }
        }
        text_without_the_secret_stays(rest, secret);
        assert(seq![s[0]] + rest =~= s);
    }
}

/// The first occurrence of the secret gives way to the mark; what stands before it stays, and what
/// follows is treated in the same way.
pub proof fn the_secret_gives_way(before: Seq<char>, secret: Seq<char>, behind: Seq<char>)
    requires
        secret.len() > 0,
        forall|i: int|
            0 <= i < before.len() ==> !#[trigger] occurs_at(before + secret + behind, secret, i),
    ensures
        replaced(before + secret + behind, secret, mark()) == before + mark() + replaced(
            behind,
            secret,
            mark(),
        ),
    decreases before.len(),
{
    let s = before + secret + behind;
    let n = secret.len() as int;
    let rest = replaced(behind, secret, mark());
    if before.len() == 0 {
        assert(s.take(n) =~= secret);
        assert(s.skip(n) =~= behind);
        assert(before + mark() + rest =~= mark() + rest);
    } else {
        assert(!occurs_at(s, secret, 0));
        assert(s.take(n) =~= s.subrange(0, n));
        let tail = before.skip(1);
        assert(s.skip(1) =~= tail + secret + behind);
        assert forall|i: int| 0 <= i < tail.len() implies !#[trigger] occurs_at(
            tail + secret + behind,
            secret,
            i,
        ) by {
            if occurs_at(tail + secret + behind, secret, i) {
                assert(s.subrange(i + 1, i + 1 + n) =~= s.skip(1).subrange(i, i + n));
                assert(occurs_at(s, secret, i + 1));
            }
        }
        the_secret_gives_way(tail, secret, behind);
        assert(seq![s[0]] + (tail + mark() + rest) =~= before + mark() + rest);
    }
}

proof fn start_is_trimmed(s: Seq<char>)
    ensures
        ({
            let n = s.len() - trimmed_start(s).len();
            &&& 0 <= n
            &&& trimmed_start(s) == s.skip(n)
            &&& forall|i: int| 0 <= i < n ==> text::white(#[trigger] s[i])
            &&& n < s.len() ==> !text::white(s[n])
        }),
    decreases s.len(),
{
    if s.len() > 0 && text::white(s[0]) {
        let rest = s.skip(1);
        start_is_trimmed(rest);
        let n = s.len() - trimmed_start(s).len();
        assert(rest.skip(n - 1) =~= s.skip(n));
        assert forall|i: int| 0 <= i < n implies text::white(#[trigger] s[i]) by {
            if i > 0 {
                assert(rest[i - 1] == s[i]);
            }
        }
        if n < s.len() {
            assert(rest[n - 1] == s[n]);
        }
    } else {
        assert(s.skip(0) =~= s);
    }
}

proof fn end_is_trimmed(s: Seq<char>)
    ensures
        ({
            let n = trimmed_end(s).len() as int;
            &&& n <= s.len()
            &&& trimmed_end(s) == s.take(n)
            &&& forall|i: int| n <= i < s.len() ==> text::white(#[trigger] s[i])
            &&& n > 0 ==> !text::white(s[n - 1])
        }),
    decreases s.len(),
{
    if s.len() > 0 && text::white(s.last()) {
        let rest = s.drop_last();
        end_is_trimmed(rest);
        let n = trimmed_end(s).len() as int;
        assert(rest.take(n) =~= s.take(n));
        assert forall|i: int| n <= i < s.len() implies text::white(#[trigger] s[i]) by {
            if i < rest.len() {
                assert(rest[i] == s[i]);
            }
        }
    } else {
        assert(s.take(s.len() as int) =~= s);
    }
}

/// Of a text only the white space around it is left out: it begins and ends with something else.
pub proof fn only_the_surrounding_space_goes(s: Seq<char>)
    ensures
        ({
            let t = trimmed(s);
            &&& t.len() > 0 ==> !text::white(t[0]) && !text::white(t.last())
            &&& t.len() == 0 <==> forall|i: int| 0 <= i < s.len() ==> text::white(#[trigger] s[i])
            &&& exists|a: int| {
                &&& 0 <= a <= s.len() - t.len()
                &&& #[trigger] s.subrange(a, a + t.len()) == t
                &&& forall|i: int| 0 <= i < a ==> text::white(#[trigger] s[i])
                &&& forall|i: int| a + t.len() <= i < s.len() ==> text::white(#[trigger] s[i])
            }
        }),
{
    let u = trimmed_start(s);
    let t = trimmed(s);
    start_is_trimmed(s);
    end_is_trimmed(u);
    let a = s.len() - u.len();
    assert(s.subrange(a, a + t.len()) =~= t);
    assert forall|i: int| a + t.len() <= i < s.len() implies text::white(#[trigger] s[i]) by {
        assert(u[i - a] == s[i]);
    }
    if t.len() > 0 {
        assert(t[0] == s[a]);
        assert(!text::white(s[a]));
    }
}

/// A diagnostic with nothing to hide is passed on as it is.
pub proof fn harmless_text_is_passed_on(s: Seq<char>, secret: Seq<char>)
    requires
        forall|i: int|
            0 <= i < s.len() ==> #[trigger] s[i] == '\n' || s[i] == '\t' || (32 <= s[i] as int && !(
            127 <= s[i] as int <= 159)),
        !occurs(s, secret),
        s.len() > 0 ==> !text::white(s[0]) && !text::white(s.last()),
    ensures
        sanitized(s, secret) == s,
{
    visible_text_stays(s);
    text_without_the_secret_stays(s, secret);
}

proof fn visible_text_stays(s: Seq<char>)
    requires
        forall|i: int| 0 <= i < s.len() ==> shown(#[trigger] s[i]),
    ensures
        visible(s) == s,
    decreases s.len(),
{
    if s.len() > 0 {
        visible_text_stays(s.drop_last());
        assert(s.drop_last().push(s.last()) =~= s);
    }
}

} // verus!

//! Taking terminal controls and credentials out of what workers print.
use crate::events::{Event, EventView};
use crate::text;
use vstd::prelude::*;
use vstd::string::*;

verus! {

/// Where a reader of terminal text stands: in text, behind an escape character, or inside a
/// control sequence.
#[derive(Clone, Copy, Debug, PartialEq, Eq, Structural)]
pub enum Mode {
    Text,
    Escape,
    Control,
}

/// A character that a terminal shows or breaks a line at: no control of either set.
pub open spec fn printable(c: char) -> bool {
    c == '\n' || c == '\t' || ' ' <= c <= '~' || c >= '\u{a0}'
}

/// What one character does: the next mode, and whether the character is shown.
pub open spec fn step(mode: Mode, c: char) -> (Mode, bool) {
    match mode {
        Mode::Text => if c == '\u{1b}' {
            (Mode::Escape, false)
        } else if c == '\u{9b}' {
            (Mode::Control, false)
        } else {
            (Mode::Text, printable(c))
        },
        Mode::Escape => if c == '[' {
            (Mode::Control, false)
        } else {
            (Mode::Text, false)
        },
        Mode::Control => if '@' <= c <= '~' {
            (Mode::Text, false)
        } else {
            (Mode::Control, false)
        },
    }
}

/// The mode behind some text, and what of the text is shown.
pub open spec fn read(s: Seq<char>) -> (Mode, Seq<char>)
    decreases s.len(),
{
    if s.len() == 0 {
        (Mode::Text, s)
    } else {
        let (mode, shown) = read(s.drop_last());
        let (next, visible) = step(mode, s.last());
        (
            next,
            if visible {
                shown.push(s.last())
            } else {
                shown
            },
        )
    }
}

/// The text without terminal controls.
pub open spec fn stripped(s: Seq<char>) -> Seq<char> {
    read(s).1
}

pub open spec fn upper(c: char) -> char {
    if 'a' <= c <= 'z' {
        (c as int - 32) as char
    } else {
        c
    }
}

pub open spec fn uppercase(s: Seq<char>) -> Seq<char> {
    Seq::new(s.len(), |i: int| upper(s[i]))
}

/// `needle` stands in `s` at place `i`.
pub open spec fn stands_at(s: Seq<char>, needle: Seq<char>, i: int) -> bool {
    0 <= i && i + needle.len() <= s.len() && s.subrange(i, i + needle.len()) == needle
}

pub open spec fn mentions(s: Seq<char>, needle: Seq<char>) -> bool {
    exists|i: int| stands_at(s, needle, i)
}

/// A variable whose name says that it holds a credential.
pub open spec fn credential_name(name: Seq<char>) -> bool {
    let n = uppercase(name);
    mentions(n, "TOKEN"@) || mentions(n, "SECRET"@) || mentions(n, "PASSWORD"@) || mentions(
        n,
        "API_KEY"@,
    )
}

/// The place of the first `=` of a word.
pub open spec fn assigned_at(word: Seq<char>) -> Option<int> {
    crate::ordered::first(word, |c: char| c == '=')
}

/// What is shown in place of a word that has no white space.
pub open spec fn shown_word(word: Seq<char>, behind_bearer: bool) -> Seq<char> {
    if word.len() == 0 {
        word
    } else if behind_bearer {
        "[REDACTED]"@
    } else {
        match assigned_at(word) {
            Some(i) => if i + 1 < word.len() && credential_name(word.take(i)) {
                word.take(i + 1) + "[REDACTED]"@
            } else {
                word
            },
            None => word,
        }
    }
}

/// The words of a text that end in it, what is shown of them, the word that has begun, and whether
/// it stands behind `Bearer`.
pub ghost struct Reading {
    pub shown: Seq<char>,
    pub word: Seq<char>,
    pub behind_bearer: bool,
}

pub open spec fn words(s: Seq<char>) -> Reading
    decreases s.len(),
{
    if s.len() == 0 {
        Reading { shown: s, word: s, behind_bearer: false }
    } else {
        let before = words(s.drop_last());
        if text::white(s.last()) {
            Reading {
                shown: (before.shown + shown_word(before.word, before.behind_bearer)).push(s.last()),
                word: seq![],
                behind_bearer: if before.word.len() == 0 {
                    before.behind_bearer
                } else {
                    before.word == "Bearer"@
                },
            }
        } else {
            Reading { word: before.word.push(s.last()), ..before }
        }
    }
}

/// The text with credentials blacked out: what is assigned to a variable with a telling name, and
/// the word behind `Bearer`.
pub open spec fn blacked_out(s: Seq<char>) -> Seq<char> {
    words(s).shown + shown_word(words(s).word, words(s).behind_bearer)
}

/// What may be shown of a worker's text.
pub open spec fn sanitized(s: Seq<char>) -> Seq<char> {
    blacked_out(stripped(s))
}

/// An event with its output sanitized, and marked where that changed it.
pub open spec fn redacted(event: EventView) -> EventView {
    match event {
        EventView::CommandOutput { stream, byte_offset, text, display_sanitized } =>
            EventView::CommandOutput {
            stream,
            byte_offset,
            text: sanitized(text),
            display_sanitized: display_sanitized || sanitized(text) != text,
        },
        _ => event,
    }
}

fn is_printable(c: char) -> (r: bool)
    ensures
        r == printable(c),
{
    c == '\n' || c == '\t' || (' ' <= c && c <= '~') || c >= '\u{a0}'
}

fn advance(mode: Mode, c: char) -> (r: (Mode, bool))
    ensures
        r == step(mode, c),
{
    match mode {
        Mode::Text => if c == '\u{1b}' {
            (Mode::Escape, false)
        } else if c == '\u{9b}' {
            (Mode::Control, false)
        } else {
            (Mode::Text, is_printable(c))
        },
        Mode::Escape => if c == '[' {
            (Mode::Control, false)
        } else {
            (Mode::Text, false)
        },
        Mode::Control => if '@' <= c && c <= '~' {
            (Mode::Text, false)
        } else {
            (Mode::Control, false)
        },
    }
}

fn strip(s: &str) -> (r: String)
    ensures
        r@ == stripped(s@),
{
    let chars = text::chars_of(s);
    let mut out = String::new();
    let mut mode = Mode::Text;
    let mut i: usize = 0;
    assert(read(chars@.take(0)) == (Mode::Text, out@)) by {
        assert(chars@.take(0) =~= seq![]);
        assert(out@ =~= seq![]);
    }
    while i < chars.len()
        invariant
            i <= chars@.len(),
            chars@ == s@,
            read(chars@.take(i as int)) == (mode, out@),
        decreases chars@.len() - i,
    {
        let ghost longer = chars@.take(i + 1);
        assert(longer.drop_last() =~= chars@.take(i as int));
        assert(longer.last() == chars@[i as int]);
        let (next, visible) = advance(mode, chars[i]);
        if visible {
            out.push(chars[i]);
        }
        mode = next;
        i += 1;
    }
    assert(chars@.take(i as int) =~= s@);
    out
}

fn to_upper(c: char) -> (r: char)
    ensures
        r == upper(c),
{
    if 'a' <= c && c <= 'z' {
        ((c as u8) - 32u8) as char
    } else {
        c
    }
}

fn has_at(s: &Vec<char>, needle: &Vec<char>, i: usize) -> (r: bool)
    requires
        i + needle@.len() <= s@.len(),
    ensures
        r == stands_at(s@, needle@, i as int),
{
    let count = s.len();
    let mut k: usize = 0;
    while k < needle.len()
        invariant
            k <= needle@.len(),
            count == s@.len(),
            i + needle@.len() <= s@.len(),
            forall|j: int| 0 <= j < k ==> s@[i + j] == #[trigger] needle@[j],
        decreases needle@.len() - k,
    {
        if s[i + k] != needle[k] {
            assert(s@.subrange(i as int, i + needle@.len())[k as int] != needle@[k as int]);
            return false;
        }
        k += 1;
    }
    assert(s@.subrange(i as int, i + needle@.len()) =~= needle@);
    true
}

fn has(s: &Vec<char>, needle: &str) -> (r: bool)
    ensures
        r == mentions(s@, needle@),
{
    let wanted = text::chars_of(needle);
    if wanted.len() > s.len() {
        assert forall|i: int| !stands_at(s@, needle@, i) by {}
        return false;
    }
    let last: usize = s.len() - wanted.len();
    let mut i: usize = 0;
    while i <= last
        invariant
            last == s@.len() - wanted@.len(),
            wanted@ == needle@,
            i <= last + 1,
            forall|j: int| 0 <= j < i ==> !stands_at(s@, needle@, j),
        decreases last + 1 - i,
    {
        if has_at(s, &wanted, i) {
            return true;
        }
        if i == last {
            assert forall|j: int| !stands_at(s@, needle@, j) by {}
            return false;
        }
        i += 1;
    }
    false
}

fn is_credential(name: &Vec<char>, end: usize) -> (r: bool)
    requires
        end <= name@.len(),
    ensures
        r == credential_name(name@.take(end as int)),
{
    let mut upper: Vec<char> = Vec::new();
    let mut i: usize = 0;
    while i < end
        invariant
            i <= end <= name@.len(),
            upper@.len() == i,
            forall|j: int| 0 <= j < i ==> #[trigger] upper@[j] == self::upper(name@[j]),
        decreases end - i,
    {
        upper.push(to_upper(name[i]));
        i += 1;
    }
    assert(upper@ =~= uppercase(name@.take(end as int)));
    has(&upper, "TOKEN") || has(&upper, "SECRET") || has(&upper, "PASSWORD") || has(
        &upper,
        "API_KEY",
    )
}

fn push_chars(out: &mut String, chars: &Vec<char>, end: usize)
    requires
        end <= chars@.len(),
    ensures
        final(out)@ == old(out)@ + chars@.take(end as int),
{
    let ghost before = out@;
    let mut i: usize = 0;
    assert(out@ =~= before + chars@.take(0));
    while i < end
        invariant
            i <= end <= chars@.len(),
            out@ == before + chars@.take(i as int),
        decreases end - i,
    {
        out.push(chars[i]);
        assert(out@ =~= before + chars@.take(i + 1));
        i += 1;
    }
}

fn push_word(out: &mut String, word: &Vec<char>, behind_bearer: bool)
    ensures
        final(out)@ == old(out)@ + shown_word(word@, behind_bearer),
{
    if word.len() == 0 {
        assert(out@ =~= old(out)@ + word@);
        return ;
    }
    if behind_bearer {
        out.append("[REDACTED]");
        return ;
    }
    let ghost wanted = |c: char| c == '=';
    let mut i: usize = 0;
    while i < word.len()
        invariant
            i <= word@.len(),
            wanted == (|c: char| c == '='),
            out@ == old(out)@,
            !behind_bearer,
            word@.len() > 0,
            forall|j: int| 0 <= j < i ==> !wanted(#[trigger] word@[j]),
        decreases word@.len() - i,
    {
        if word[i] == '=' {
            proof {
                crate::ordered::first_is(word@, wanted, i as int);
            }
            if i + 1 < word.len() && is_credential(word, i) {
                push_chars(out, word, i + 1);
                out.append("[REDACTED]");
                assert(out@ =~= old(out)@ + (word@.take(i + 1) + "[REDACTED]"@));
            } else {
                push_chars(out, word, word.len());
                assert(word@.take(word@.len() as int) =~= word@);
            }
            return ;
        }
        i += 1;
    }
    proof {
        crate::ordered::first_is_none(word@, wanted);
    }
    push_chars(out, word, word.len());
    assert(word@.take(word@.len() as int) =~= word@);
}

fn is_bearer(word: &Vec<char>) -> (r: bool)
    ensures
        r == (word@ == "Bearer"@),
{
    proof {
        reveal_strlit("Bearer");
        assert("Bearer"@ =~= seq!['B', 'e', 'a', 'r', 'e', 'r']);
    }
    if word.len() == 6 && word[0] == 'B' && word[1] == 'e' && word[2] == 'a' && word[3] == 'r'
        && word[4] == 'e' && word[5] == 'r' {
        assert(word@ =~= "Bearer"@);
        true
    } else {
        false
    }
}

fn black_out(s: &str) -> (r: String)
    ensures
        r@ == blacked_out(s@),
{
    let chars = text::chars_of(s);
    let mut out = String::new();
    let mut word: Vec<char> = Vec::new();
    let mut behind_bearer = false;
    let mut i: usize = 0;
    assert(words(chars@.take(0)) == (Reading { shown: out@, word: word@, behind_bearer })) by {
        assert(chars@.take(0) =~= seq![]);
        assert(out@ =~= seq![]);
        assert(word@ =~= seq![]);
    }
    while i < chars.len()
        invariant
            i <= chars@.len(),
            chars@ == s@,
            words(chars@.take(i as int)) == (Reading { shown: out@, word: word@, behind_bearer }),
        decreases chars@.len() - i,
    {
        let ghost longer = chars@.take(i + 1);
        assert(longer.drop_last() =~= chars@.take(i as int));
        assert(longer.last() == chars@[i as int]);
        if text::is_white(chars[i]) {
            push_word(&mut out, &word, behind_bearer);
            out.push(chars[i]);
            if word.len() > 0 {
                behind_bearer = is_bearer(&word);
            }
            word = Vec::new();
            assert(word@ =~= seq![]);
        } else {
            word.push(chars[i]);
        }
        i += 1;
    }
    assert(chars@.take(i as int) =~= s@);
    push_word(&mut out, &word, behind_bearer);
    out
}

/// What may be shown of a worker's text.
pub fn sanitize(s: &str) -> (r: String)
    ensures
        r@ == sanitized(s@),
{
    let plain = strip(s);
    black_out(plain.as_str())
}

/// Takes terminal controls and credentials out of an event that a worker caused.
pub fn redact_worker_event(event: Event) -> (r: Event)
    ensures
        r@ == redacted(event@),
{
    match event {
        Event::CommandOutput { stream, byte_offset, text, display_sanitized } => {
            let shown = sanitize(text.as_str());
            let changed = !crate::text::same(shown.as_str(), text.as_str());
            Event::CommandOutput {
                stream,
                byte_offset,
                text: shown,
                display_sanitized: display_sanitized || changed,
            }
        },
        other => other,
    }
}

pub open spec fn all_printable(s: Seq<char>) -> bool {
    forall|i: int| 0 <= i < s.len() ==> printable(#[trigger] s[i])
}

proof fn stripping_leaves_printable(s: Seq<char>)
    ensures
        all_printable(stripped(s)),
    decreases s.len(),
{
    if s.len() > 0 {
        stripping_leaves_printable(s.drop_last());
    }
}

proof fn words_stay_printable(word: Seq<char>, behind_bearer: bool)
    requires
        all_printable(word),
    ensures
        all_printable(shown_word(word, behind_bearer)),
{
    reveal_strlit("[REDACTED]");
    let mark = "[REDACTED]"@;
    assert(all_printable(mark));
    crate::ordered::first_found(word, |c: char| c == '=');
    if let Some(i) = assigned_at(word) {
        assert(all_printable(word.take(i + 1) + mark));
    }
}

proof fn blacking_out_leaves_printable(s: Seq<char>)
    requires
        all_printable(s),
    ensures
        all_printable(words(s).shown),
        all_printable(words(s).word),
        all_printable(blacked_out(s)),
    decreases s.len(),
{
    if s.len() > 0 {
        assert(printable(s[s.len() - 1]));
        assert forall|i: int| 0 <= i < s.drop_last().len() implies printable(
            #[trigger] s.drop_last()[i],
        ) by {
            assert(printable(s[i]));
        }
        blacking_out_leaves_printable(s.drop_last());
        words_stay_printable(words(s.drop_last()).word, words(s.drop_last()).behind_bearer);
    }
    words_stay_printable(words(s).word, words(s).behind_bearer);
}

/// What is shown of a worker's text holds no escape character and no other terminal control.
pub proof fn shown_text_is_printable(s: Seq<char>)
    ensures
        all_printable(sanitized(s)),
{
    stripping_leaves_printable(s);
    blacking_out_leaves_printable(stripped(s));
}

/// A character of plain text is shown exactly when it is a line break, a tab, or printable; a
/// control character is left out.
pub proof fn plain_characters_are_shown(s: Seq<char>, c: char)
    requires
        read(s).0 == Mode::Text,
        c != '\u{1b}',
        c != '\u{9b}',
    ensures
        read(s.push(c)).0 == Mode::Text,
        stripped(s.push(c)) == if c == '\n' || c == '\t' || ' ' <= c <= '~' || c >= '\u{a0}' {
            stripped(s).push(c)
        } else {
            stripped(s)
        },
{
    assert(s.push(c).drop_last() =~= s);
}

/// An escape takes the character behind it with it.
pub proof fn escapes_vanish(s: Seq<char>, c: char)
    requires
        read(s).0 == Mode::Text,
        c != '[',
    ensures
        read(s.push('\u{1b}').push(c)) == (Mode::Text, stripped(s)),
{
    assert(s.push('\u{1b}').drop_last() =~= s);
    assert(read(s.push('\u{1b}')) == (Mode::Escape, stripped(s)));
    assert(s.push('\u{1b}').push(c).drop_last() =~= s.push('\u{1b}'));
}

proof fn parameters_vanish(s: Seq<char>, parameters: Seq<char>)
    requires
        read(s).0 == Mode::Control,
        forall|i: int| 0 <= i < parameters.len() ==> !('@' <= #[trigger] parameters[i] <= '~'),
    ensures
        read(s + parameters) == read(s),
    decreases parameters.len(),
{
    if parameters.len() == 0 {
        assert(s + parameters =~= s);
    } else {
        let before = parameters.drop_last();
        assert forall|i: int| 0 <= i < before.len() implies !('@' <= #[trigger] before[i]
            <= '~') by {
            assert(before[i] == parameters[i]);
        }
        parameters_vanish(s, before);
        assert((s + parameters).drop_last() =~= s + before);
        assert(!('@' <= parameters[parameters.len() - 1] <= '~'));
    }
}

/// A control sequence is left out whole, from its escape to the letter that ends it, and the text
/// goes on behind it.
pub proof fn control_sequences_vanish(s: Seq<char>, parameters: Seq<char>, end: char)
    requires
        read(s).0 == Mode::Text,
        forall|i: int| 0 <= i < parameters.len() ==> !('@' <= #[trigger] parameters[i] <= '~'),
        '@' <= end <= '~',
    ensures
        read((s.push('\u{1b}').push('[') + parameters).push(end)) == (Mode::Text, stripped(s)),
        read((s.push('\u{9b}') + parameters).push(end)) == (Mode::Text, stripped(s)),
{
    let escaped = s.push('\u{1b}');
    let opened = escaped.push('[');
    let short = s.push('\u{9b}');
    assert(escaped.drop_last() =~= s);
    assert(read(escaped) == (Mode::Escape, stripped(s)));
    assert(opened.drop_last() =~= escaped);
    assert(read(opened) == (Mode::Control, stripped(s)));
    assert(short.drop_last() =~= s);
    assert(read(short) == (Mode::Control, stripped(s)));
    parameters_vanish(opened, parameters);
    parameters_vanish(short, parameters);
    assert((opened + parameters).push(end).drop_last() =~= opened + parameters);
    assert((short + parameters).push(end).drop_last() =~= short + parameters);
}

/// White space is kept where it stands.
pub proof fn white_space_stays(s: Seq<char>, c: char)
    requires
        text::white(c),
    ensures
        blacked_out(s.push(c)) == blacked_out(s).push(c),
{
    assert(s.push(c).drop_last() =~= s);
    let r = words(s.push(c));
    assert(r.shown + shown_word(r.word, r.behind_bearer) =~= r.shown);
}

proof fn words_grow(s: Seq<char>, word: Seq<char>)
    requires
        forall|i: int| 0 <= i < word.len() ==> !text::white(#[trigger] word[i]),
    ensures
        words(s + word) == (Reading { word: words(s).word + word, ..words(s) }),
    decreases word.len(),
{
    if word.len() == 0 {
        assert(s + word =~= s);
        assert(words(s).word + word =~= words(s).word);
    } else {
        let before = word.drop_last();
        assert forall|i: int| 0 <= i < before.len() implies !text::white(#[trigger] before[i]) by {
            assert(before[i] == word[i]);
        }
        words_grow(s, before);
        assert((s + word).drop_last() =~= s + before);
        assert(!text::white(word[word.len() - 1]));
        assert((words(s).word + before).push(word.last()) =~= words(s).word + word);
    }
}

proof fn gaps_are_between_words(s: Seq<char>)
    requires
        s.len() == 0 || text::white(s.last()),
    ensures
        words(s).word.len() == 0,
{
}

proof fn gaps_remember(s: Seq<char>, gap: Seq<char>)
    requires
        gap.len() > 0,
        forall|i: int| 0 <= i < gap.len() ==> text::white(#[trigger] gap[i]),
        words(s).word.len() > 0,
    ensures
        words(s + gap).word.len() == 0,
        words(s + gap).behind_bearer == (words(s).word == "Bearer"@),
    decreases gap.len(),
{
    let before = gap.drop_last();
    assert(text::white(gap[gap.len() - 1]));
    assert((s + gap).drop_last() =~= s + before);
    assert((s + gap).last() == gap.last());
    if before.len() == 0 {
        assert(s + before =~= s);
    } else {
        assert forall|i: int| 0 <= i < before.len() implies text::white(#[trigger] before[i]) by {
            assert(before[i] == gap[i]);
        }
        gaps_remember(s, before);
    }
}

/// What follows the word `Bearer` is blacked out, however wide the gap between them.
pub proof fn bearer_tokens_are_blacked_out(before: Seq<char>, gap: Seq<char>, token: Seq<char>)
    requires
        before.len() == 0 || text::white(before.last()),
        gap.len() > 0,
        forall|i: int| 0 <= i < gap.len() ==> text::white(#[trigger] gap[i]),
        token.len() > 0,
        forall|i: int| 0 <= i < token.len() ==> !text::white(#[trigger] token[i]),
    ensures
        blacked_out(before + "Bearer"@ + gap + token) == blacked_out(before + "Bearer"@ + gap)
            + "[REDACTED]"@,
{
    reveal_strlit("Bearer");
    let led = before + "Bearer"@;
    gaps_are_between_words(before);
    words_grow(before, "Bearer"@);
    assert(words(led).word =~= "Bearer"@);
    gaps_remember(led, gap);
    let open = led + gap;
    words_grow(open, token);
    assert(words(open).word + token =~= token);
    assert(words(open).shown + shown_word(words(open).word, true) =~= words(open).shown);
}

/// A word behind another one than `Bearer`, or behind none, is not taken for a token.
pub proof fn other_words_lead_no_token(before: Seq<char>, word: Seq<char>, gap: Seq<char>)
    requires
        before.len() == 0 || text::white(before.last()),
        word.len() > 0,
        word != "Bearer"@,
        forall|i: int| 0 <= i < word.len() ==> !text::white(#[trigger] word[i]),
        gap.len() > 0,
        forall|i: int| 0 <= i < gap.len() ==> text::white(#[trigger] gap[i]),
    ensures
        !words(seq![]).behind_bearer,
        !words(before + word + gap).behind_bearer,
{
    gaps_are_between_words(before);
    words_grow(before, word);
    assert(words(before + word).word =~= word);
    gaps_remember(before + word, gap);
}

/// The value behind a name of a credential and an equals sign is blacked out; every other word is
/// shown as it is.
pub proof fn credentials_are_blacked_out(before: Seq<char>, name: Seq<char>, value: Seq<char>)
    requires
        before.len() == 0 || text::white(before.last()),
        !words(before).behind_bearer,
        value.len() > 0,
        forall|i: int| 0 <= i < name.len() ==> !text::white(#[trigger] name[i]) && name[i] != '=',
        forall|i: int| 0 <= i < value.len() ==> !text::white(#[trigger] value[i]),
    ensures
        blacked_out(before + name.push('=') + value) == blacked_out(before) + name.push('=') + (
        if credential_name(name) {
            "[REDACTED]"@
        } else {
            value
        }),
{
    let word = name.push('=') + value;
    let n = name.len() as int;
    assert forall|i: int| 0 <= i < word.len() implies !text::white(#[trigger] word[i]) by {
        if i < n {
            assert(word[i] == name[i]);
        } else if i > n {
            assert(word[i] == value[i - n - 1]);
        }
    }
    gaps_are_between_words(before);
    words_grow(before, word);
    assert(before + name.push('=') + value =~= before + word);
    assert(words(before).word + word =~= word);
    assert(blacked_out(before) =~= words(before).shown);
    let p = |c: char| c == '=';
    assert(word[n] == '=');
    assert forall|i: int| 0 <= i < n implies !p(#[trigger] word[i]) by {
        assert(word[i] == name[i]);
    }
    crate::ordered::first_is(word, p, n);
    assert(assigned_at(word) == Some(n));
    assert(word.take(n) =~= name);
    assert(word.take(n + 1) =~= name.push('='));
    assert(blacked_out(before + word) =~= blacked_out(before) + name.push('=') + (
    if credential_name(name) {
        "[REDACTED]"@
    } else {
        value
    }));
}

/// A word without an equals sign is shown as it is.
pub proof fn ordinary_words_are_shown(before: Seq<char>, word: Seq<char>)
    requires
        before.len() == 0 || text::white(before.last()),
        !words(before).behind_bearer,
        forall|i: int| 0 <= i < word.len() ==> !text::white(#[trigger] word[i]) && word[i] != '=',
    ensures
        blacked_out(before + word) == blacked_out(before) + word,
{
    gaps_are_between_words(before);
    words_grow(before, word);
    assert(words(before).word + word =~= word);
    assert(blacked_out(before) =~= words(before).shown);
    crate::ordered::first_is_none(word, |c: char| c == '=');
}

/// A name is that of a credential exactly when it holds, in letters of either case, one of four
/// words.
pub proof fn credentials_are_told_by_name(name: Seq<char>)
    ensures
        credential_name(name) <==> exists|i: int, word: Seq<char>|
            (word == "TOKEN"@ || word == "SECRET"@ || word == "PASSWORD"@ || word == "API_KEY"@)
                && 0 <= i && i + word.len() <= name.len() && #[trigger] uppercase(name).subrange(
                i,
                i + word.len(),
            ) == word,
        forall|i: int|
            0 <= i < name.len() ==> #[trigger] uppercase(name)[i] as int == if 'a' <= name[i]
                <= 'z' {
                name[i] as int - 32
            } else {
                name[i] as int
            },
{
    let n = uppercase(name);
    if credential_name(name) {
        let word = if mentions(n, "TOKEN"@) {
            "TOKEN"@
        } else if mentions(n, "SECRET"@) {
            "SECRET"@
        } else if mentions(n, "PASSWORD"@) {
            "PASSWORD"@
        } else {
            "API_KEY"@
        };
        assert(mentions(n, word));
        let i = choose|i: int| stands_at(n, word, i);
        assert(n.subrange(i, i + word.len()) == word);
    }
    if exists|i: int, word: Seq<char>|
        (word == "TOKEN"@ || word == "SECRET"@ || word == "PASSWORD"@ || word == "API_KEY"@) && 0
            <= i && i + word.len() <= name.len() && #[trigger] n.subrange(i, i + word.len())
            == word {
        let (i, word) = choose|i: int, word: Seq<char>|
            (word == "TOKEN"@ || word == "SECRET"@ || word == "PASSWORD"@ || word == "API_KEY"@)
                && 0 <= i && i + word.len() <= name.len() && #[trigger] n.subrange(
                i,
                i + word.len(),
            ) == word;
        assert(stands_at(n, word, i));
    }
}

/// Only the text of output is touched, and it is marked once that changed anything.
pub proof fn only_output_is_redacted(event: EventView)
    ensures
        match event {
            EventView::CommandOutput { stream, byte_offset, text, display_sanitized } => redacted(
                event,
            ) matches EventView::CommandOutput {
                stream: s,
                byte_offset: b,
                text: t,
                display_sanitized: d,
            } && s == stream && b == byte_offset && t == sanitized(text) && (d
                <==> display_sanitized || t != text),
            _ => redacted(event) == event,
        },
{
}

/// Text that is read from its beginning is plain until an escape, so that text of printable
/// characters alone is shown as it is.
pub proof fn printable_text_is_shown(s: Seq<char>)
    requires
        forall|i: int|
            0 <= i < s.len() ==> #[trigger] s[i] == '\n' || s[i] == '\t' || ' ' <= s[i] <= '~'
                || s[i] >= '\u{a0}',
    ensures
        read(s) == (Mode::Text, s),
    decreases s.len(),
{
    if s.len() > 0 {
        let before = s.drop_last();
        assert forall|i: int| 0 <= i < before.len() implies #[trigger] before[i] == '\n'
            || before[i] == '\t' || ' ' <= before[i] <= '~' || before[i] >= '\u{a0}' by {
            assert(before[i] == s[i]);
        }
        printable_text_is_shown(before);
        assert(s[s.len() - 1] == s.last());
        assert(before.push(s.last()) =~= s);
    }
}

} // verus!

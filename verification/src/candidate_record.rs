//! The readable record of one task's candidates.
use crate::paths;
use crate::redaction;
use crate::text;
use vstd::prelude::*;
use vstd::string::*;

verus! {

/// Where a dispatched task keeps its Episode.
pub open spec fn database_path(root: Seq<char>, task_id: Seq<char>) -> Seq<char> {
    paths::joined(paths::joined(root, task_id), "episode.sqlite3"@)
}

/// The per-task runtime layout that the migration dispatcher writes.
pub fn episode_database(root: &str, task_id: &str) -> (r: String)
    ensures
        r@ == database_path(root@, task_id@),
{
    let directory = paths::join(root, task_id);
    paths::join(directory.as_str(), "episode.sqlite3")
}

/// The Episode of a task.
pub fn episode_id(task_id: &str) -> (r: String)
    ensures
        r@ == "episode-"@ + task_id@,
{
    text::concat("episode-", task_id)
}

/// The migration runtime's root, which the server's configuration must have.
pub fn require_runtime(root: Option<String>) -> (r: Result<String, String>)
    ensures
        match root {
            Some(path) => r matches Ok(found) && found@ == path@,
            None => r matches Err(e) && e@
                == "this server configuration has no migration_runtime, so it owns no task Episodes"@,
        },
{
    match root {
        Some(path) => Ok(path),
        None => Err(
            "this server configuration has no migration_runtime, so it owns no task Episodes".to_owned(),
        ),
    }
}

/// A record is made only of what a run already wrote.
pub fn require_database(exists: bool, path: &str) -> (r: Result<(), String>)
    ensures
        match r {
            Ok(()) => exists,
            Err(e) => !exists && e@ == "no Episode database at "@ + path@
                + "; candidate-record reads what a run already wrote"@,
        },
{
    if !exists {
        return Err(
            text::enclosed(
                "no Episode database at ",
                path,
                "; candidate-record reads what a run already wrote",
            ),
        );
    }
    Ok(())
}

/// An Episode without a submission has no record.
pub fn require_candidates(episode_id: &str, operations: u64, candidates: usize) -> (r: Result<
    (),
    String,
>)
    ensures
        match r {
            Ok(()) => candidates > 0,
            Err(e) => candidates == 0 && e@ == episode_id@ + " recorded "@ + text::decimal(
                operations as nat,
            ) + " tool operations and no candidate submission"@,
        },
{
    if candidates == 0 {
        let mut out = text::concat(episode_id, " recorded ");
        text::push_decimal(&mut out, operations);
        out.append(" tool operations and no candidate submission");
        return Err(out);
    }
    Ok(())
}

/// What one gate said of a candidate.
#[derive(Debug, PartialEq, Eq)]
pub struct GateOutcome {
    pub gate: String,
    pub verdict: String,
}

/// The verdicts of a candidate, in order.
pub open spec fn verdicts(outcomes: Seq<GateOutcome>) -> Seq<char>
    decreases outcomes.len(),
{
    if outcomes.len() == 0 {
        Seq::empty()
    } else {
        verdicts(outcomes.drop_last()) + ", "@ + outcomes.last().gate@ + " "@
            + outcomes.last().verdict@
    }
}

pub open spec fn summarized(outcomes: Seq<GateOutcome>) -> Seq<char> {
    if outcomes.len() == 0 {
        ", no gate ran"@
    } else {
        verdicts(outcomes)
    }
}

/// The verdicts of a candidate.
pub fn summary(outcomes: &Vec<GateOutcome>) -> (r: String)
    ensures
        r@ == summarized(outcomes@),
{
    if outcomes.len() == 0 {
        return ", no gate ran".to_owned();
    }
    let mut line = String::new();
    assert(line@ =~= verdicts(outcomes@.take(0)));
    for i in 0..outcomes.len()
        invariant
            line@ == verdicts(outcomes@.take(i as int)),
    {
        let ghost longer = outcomes@.take(i + 1);
        assert(longer.drop_last() =~= outcomes@.take(i as int));
        line.append(", ");
        line.append(outcomes[i].gate.as_str());
        line.append(" ");
        line.append(outcomes[i].verdict.as_str());
    }
    assert(outcomes@.take(outcomes@.len() as int) =~= outcomes@);
    line
}

/// A text without a prefix, however often it is repeated.
pub open spec fn unprefixed(s: Seq<char>, prefix: Seq<char>) -> Seq<char>
    decreases s.len(),
{
    if prefix.len() > 0 && redaction::starts(s, prefix) {
        unprefixed(s.skip(prefix.len() as int), prefix)
    } else {
        s
    }
}

/// The first twelve bytes of a commit, or all of them where there are fewer.
pub open spec fn short_bytes(commit: Seq<char>) -> Seq<u8> {
    let bytes = vstd::utf8::encode_utf8(commit);
    if bytes.len() > 12 {
        bytes.take(12)
    } else {
        bytes
    }
}

/// The text of the first twelve bytes of a commit, which end between two characters.
pub open spec fn shortened(commit: Seq<char>) -> Seq<char> {
    vstd::utf8::decode_utf8(short_bytes(commit))
}

/// A commit of ASCII characters, as the hexadecimal ones are, can always be shortened: to its first
/// twelve characters.
pub proof fn ascii_commits_are_shortened(commit: Seq<char>)
    requires
        vstd::utf8::is_ascii_chars(commit),
    ensures
        vstd::utf8::valid_utf8(short_bytes(commit)),
        shortened(commit) == if commit.len() > 12 {
            commit.take(12)
        } else {
            commit
        },
{
    let kept = if commit.len() > 12 {
        commit.take(12)
    } else {
        commit
    };
    assert(vstd::utf8::is_ascii_chars(kept));
    vstd::utf8::is_ascii_chars_encode_utf8(commit);
    vstd::utf8::is_ascii_chars_encode_utf8(kept);
    assert forall|i: int| 0 <= i < kept.len() implies vstd::utf8::encode_utf8(kept)[i]
        == #[trigger] short_bytes(commit)[i] by {
        assert(kept[i] == commit[i]);
    }
    assert(short_bytes(commit) =~= vstd::utf8::encode_utf8(kept));
    vstd::utf8::encode_utf8_valid_utf8(kept);
    vstd::utf8::encode_utf8_decode_utf8(kept);
}

fn short_commit(commit: &str) -> (r: String)
    requires
        vstd::utf8::valid_utf8(short_bytes(commit@)),
    ensures
        r@ == shortened(commit@),
{
    let bytes = commit.as_bytes();
    let n: usize = if bytes.len() > 12 {
        12
    } else {
        bytes.len()
    };
    let mut short: Vec<u8> = Vec::new();
    assert(short@ =~= bytes@.take(0));
    for i in 0..n
        invariant
            n <= bytes@.len(),
            short@ == bytes@.take(i as int),
    {
        short.push(bytes[i]);
        assert(short@ =~= bytes@.take(i + 1));
    }
    assert(short@ =~= short_bytes(commit@));
    match text::utf8_text(short.as_slice()) {
        Ok(found) => found,
        Err(_) => {
            assert(false);
            vstd::pervasive::unreached()
        },
    }
}

fn tag_name(reference: &str) -> (r: String)
    ensures
        r@ == unprefixed(reference@, "refs/tags/"@),
{
    let chars = text::chars_of(reference);
    let prefix = text::chars_of("refs/tags/");
    proof {
        reveal_strlit("refs/tags/");
    }
    let mut at: usize = 0;
    assert(chars@.skip(0) =~= chars@);
    while prefix.len() <= chars.len() - at && redaction::stands_at(&chars, &prefix, at)
        invariant
            prefix@.len() == 10,
            prefix@ == "refs/tags/"@,
            at <= chars@.len(),
            unprefixed(chars@.skip(at as int), prefix@) == unprefixed(chars@, prefix@),
        decreases chars@.len() - at,
    {
        assert(chars@.skip(at as int).skip(10) =~= chars@.skip(at + 10));
        at += prefix.len();
    }
    let ghost rest = chars@.skip(at as int);
    let mut out = String::new();
    let mut i: usize = at;
    assert(out@ =~= rest.take(0));
    while i < chars.len()
        invariant
            at <= i <= chars@.len(),
            rest == chars@.skip(at as int),
            out@ == rest.take(i - at),
        decreases chars@.len() - i,
    {
        out.push(chars[i]);
        assert(out@ =~= rest.take(i + 1 - at));
        i += 1;
    }
    assert(rest.take(i - at) =~= rest);
    out
}

/// The line of one candidate in the report. A commit is cut between two of its characters.
pub fn record_line(commit: &str, reference: &str, files: usize, outcomes: &Vec<GateOutcome>) -> (r:
    String)
    requires
        vstd::utf8::valid_utf8(short_bytes(commit@)),
    ensures
        r@ == "  "@ + shortened(commit@) + " "@ + unprefixed(reference@, "refs/tags/"@) + " "@
            + text::decimal(files as nat) + " file(s)"@ + summarized(outcomes@),
{
    let short = short_commit(commit);
    let tag = tag_name(reference);
    let mut out = text::enclosed("  ", short.as_str(), " ");
    out.append(tag.as_str());
    out.append(" ");
    text::push_decimal(&mut out, files as u64);
    out.append(" file(s)");
    out.append(summary(outcomes).as_str());
    out
}

/// No gate says so, and each gate that ran is named with its verdict behind those before it.
pub proof fn every_verdict_is_told(outcomes: Seq<GateOutcome>, last: GateOutcome)
    ensures
        summarized(seq![]) == ", no gate ran"@,
        summarized(seq![last]) == ", "@ + last.gate@ + " "@ + last.verdict@,
        outcomes.len() > 0 ==> summarized(outcomes.push(last)) == summarized(outcomes) + ", "@
            + last.gate@ + " "@ + last.verdict@,
{
    assert(seq![last].drop_last() =~= Seq::<GateOutcome>::empty());
    assert(verdicts(seq![]) =~= Seq::<char>::empty());
    assert(outcomes.push(last).drop_last() =~= outcomes);
    assert(summarized(seq![last]) =~= ", "@ + last.gate@ + " "@ + last.verdict@);
}

/// A name loses its prefix, however often it stands there, and nothing else.
pub proof fn prefixes_are_taken_off(s: Seq<char>, prefix: Seq<char>)
    requires
        prefix.len() > 0,
    ensures
        unprefixed(prefix + s, prefix) == unprefixed(s, prefix),
        !redaction::starts(s, prefix) ==> unprefixed(s, prefix) == s && unprefixed(
            prefix + s,
            prefix,
        ) == s,
        !redaction::starts(unprefixed(s, prefix), prefix),
    decreases s.len(),
{
    let all = prefix + s;
    assert(all.take(prefix.len() as int) =~= prefix);
    assert(all.skip(prefix.len() as int) =~= s);
    if redaction::starts(s, prefix) {
        prefixes_are_taken_off(s.skip(prefix.len() as int), prefix);
    }
}

/// A task's record is kept under its own name below the root.
pub proof fn records_are_kept_by_task(root: Seq<char>, task_id: Seq<char>)
    requires
        root.len() > 0,
        root.last() != '/',
        task_id.len() > 0,
        task_id[0] != '/',
        task_id.last() != '/',
    ensures
        database_path(root, task_id) == root + "/"@ + task_id + "/"@ + "episode.sqlite3"@,
{
    reveal_strlit("episode.sqlite3");
    reveal_strlit("/");
    let inner = root + "/"@ + task_id;
    assert(inner.last() == task_id.last());
}

} // verus!

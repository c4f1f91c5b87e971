//! Plain-text presentation of canonical events.
use crate::events::{
    Event, EventEnvelope, EventView, FileChange, FileChangeKind, FileChangeView, MessageRole,
    OutputStream,
};
use crate::text;
use vstd::prelude::*;
use vstd::string::*;

verus! {

/// Who speaks.
pub open spec fn role_label(role: MessageRole) -> Seq<char> {
    match role {
        MessageRole::Assistant => "assistant"@,
        MessageRole::User => "user"@,
        MessageRole::System => "system"@,
    }
}

/// The name of a kind of change.
pub open spec fn kind_label(kind: FileChangeKind) -> Seq<char> {
    match kind {
        FileChangeKind::Added => "Added"@,
        FileChangeKind::Modified => "Modified"@,
        FileChangeKind::Deleted => "Deleted"@,
        FileChangeKind::Renamed => "Renamed"@,
        FileChangeKind::Binary => "Binary"@,
    }
}

/// `label` and the text behind it, where there is one.
pub open spec fn labelled(label: Seq<char>, value: Option<Seq<char>>) -> Seq<char> {
    match value {
        Some(v) => label + v,
        None => seq![],
    }
}

/// A line count, or a question mark where it is unknown.
pub open spec fn count_text(count: Option<u64>) -> Seq<char> {
    match count {
        Some(n) => text::decimal(n as nat),
        None => "?"@,
    }
}

/// The line for one changed file.
pub open spec fn change_line(change: FileChangeView) -> Seq<char> {
    "  "@ + kind_label(change.kind) + " "@ + change.path + " +"@ + count_text(change.additions)
        + "/-"@ + count_text(change.deletions) + "\n"@
}

/// The lines for some changed files.
pub open spec fn change_lines(changes: Seq<FileChangeView>) -> Seq<char>
    decreases changes.len(),
{
    if changes.len() == 0 {
        seq![]
    } else {
        change_lines(changes.drop_last()) + change_line(changes.last())
    }
}

/// A diff that ends its last line.
pub open spec fn closed_diff(diff: Option<Seq<char>>) -> Seq<char> {
    match diff {
        Some(d) => if d.len() > 0 && d.last() == '\n' {
            d
        } else {
            d.push('\n')
        },
        None => seq![],
    }
}

/// The plain text of an event.
pub open spec fn plain(event: EventView) -> Seq<char> {
    match event {
        EventView::RunStarted { task } => "AlloyPort · "@ + task + "\n"@,
        EventView::TurnStarted { .. } => seq![],
        EventView::TurnCompleted { .. } => seq![],
        EventView::TurnFailed { turn, error } => "! turn "@ + text::decimal(turn as nat)
            + " failed: "@ + error + "\n"@,
        EventView::RunCompleted { .. } => "\n✓ run completed\n"@,
        EventView::RunFailed { error } => "\n✗ run failed: "@ + error + "\n"@,
        EventView::MessageStarted { role } => "\n"@ + role_label(role) + "\n"@,
        EventView::MessageDelta { text } => text,
        EventView::MessageCompleted {} => "\n"@,
        EventView::PlanUpdated { entries } => "plan: "@ + entries + "\n"@,
        EventView::ToolStarted { name, arguments } => "\n→ "@ + name + " "@ + arguments + "\n"@,
        EventView::ToolCompleted { name, output } => "← "@ + name + " completed\n"@ + output
            + "\n"@,
        EventView::ToolFailed { name, error, output } => "← "@ + name + " failed: "@ + error
            + labelled("\n"@, output) + "\n"@,
        EventView::CommandStarted { command, cwd, execution_site, description } => "\n$ "@ + command
            + "\n  @ "@ + execution_site + labelled(" · cwd "@, cwd) + labelled(
            " · "@,
            description,
        ) + "\n"@,
        EventView::CommandOutput { stream, text, .. } => match stream {
            OutputStream::Stdout => text,
            OutputStream::Stderr => "[stderr]\n"@ + text,
        },
        EventView::CommandCompleted { exit_code, elapsed_ms, timed_out, .. } => "\n  exit "@
            + text::signed_decimal(exit_code as int) + " · "@ + text::decimal(elapsed_ms as nat)
            + " ms"@ + (if timed_out {
            " · timed out"@
        } else {
            ""@
        }) + "\n"@,
        EventView::WorkspaceDelta { changes, diff, commit } => "\nworkspace changes"@ + labelled(
            " · commit "@,
            commit,
        ) + "\n"@ + change_lines(changes) + closed_diff(diff),
        EventView::ApprovalRequested { action, reason, risk } => "approval required ["@ + risk
            + "]: "@ + action + "\n  "@ + reason + "\n"@,
        EventView::ApprovalResolved { decision } => "approval: "@ + decision + "\n"@,
        EventView::GateStarted { gate } => "gate "@ + gate + ": running\n"@,
        EventView::GateCompleted { gate, passed, .. } => (if passed {
            "✓"@
        } else {
            "✗"@
        }) + " gate "@ + gate + ": "@ + (if passed {
            "PASS"@
        } else {
            "FAIL"@
        }) + "\n"@,
        EventView::ArtifactProduced { artifact } => "artifact "@ + artifact.reference + " ("@
            + artifact.digest + ")\n"@,
        EventView::Warning { message } => "! "@ + message + "\n"@,
        EventView::Error { message } => "✗ "@ + message + "\n"@,
    }
}

fn message_role_label(role: MessageRole) -> (r: &'static str)
    ensures
        r@ == role_label(role),
{
    match role {
        MessageRole::Assistant => "assistant",
        MessageRole::User => "user",
        MessageRole::System => "system",
    }
}

fn change_kind_label(kind: FileChangeKind) -> (r: &'static str)
    ensures
        r@ == kind_label(kind),
{
    match kind {
        FileChangeKind::Added => "Added",
        FileChangeKind::Modified => "Modified",
        FileChangeKind::Deleted => "Deleted",
        FileChangeKind::Renamed => "Renamed",
        FileChangeKind::Binary => "Binary",
    }
}

/// Appends `label` and `value` where there is a value.
fn push_labelled(out: &mut String, label: &str, value: &Option<String>)
    ensures
        final(out)@ == old(out)@ + labelled(label@, text::optional(*value)),
{
    match value {
        Some(v) => {
            out.append(label);
            out.append(v.as_str());
            assert(out@ =~= old(out)@ + labelled(label@, text::optional(*value)));
        },
        None => {
            assert(out@ =~= old(out)@ + Seq::<char>::empty());
        },
    }
}

fn push_count(out: &mut String, count: Option<u64>)
    ensures
        final(out)@ == old(out)@ + count_text(count),
{
    match count {
        Some(n) => text::push_decimal(out, n),
        None => out.append("?"),
    }
}

fn render_workspace_delta(
    changes: &Vec<FileChange>,
    diff: &Option<String>,
    commit: &Option<String>,
) -> (r: String)
    ensures
        r@ == "\nworkspace changes"@ + labelled(" · commit "@, text::optional(*commit)) + "\n"@
            + change_lines(crate::events::change_views(changes@)) + closed_diff(
            text::optional(*diff),
        ),
{
    let mut out = "\nworkspace changes".to_owned();
    push_labelled(&mut out, " · commit ", commit);
    out.append("\n");
    let ghost head = out@;
    let ghost all = crate::events::change_views(changes@);
    let mut i: usize = 0;
    assert(out@ =~= head + change_lines(all.take(0)));
    while i < changes.len()
        invariant
            i <= changes@.len(),
            all == crate::events::change_views(changes@),
            out@ == head + change_lines(all.take(i as int)),
        decreases changes@.len() - i,
    {
        let ghost shorter = out@;
        out.append("  ");
        out.append(change_kind_label(changes[i].kind));
        out.append(" ");
        out.append(changes[i].path.as_str());
        out.append(" +");
        push_count(&mut out, changes[i].additions);
        out.append("/-");
        push_count(&mut out, changes[i].deletions);
        out.append("\n");
        proof {
            let longer = all.take(i + 1);
            assert(longer.drop_last() =~= all.take(i as int));
            assert(longer.last() == changes@[i as int]@);
            assert(out@ =~= shorter + change_line(changes@[i as int]@));
            assert(out@ =~= head + change_lines(longer));
        }
        i += 1;
    }
    assert(all.take(changes@.len() as int) =~= all);
    match diff {
        Some(d) => {
            let chars = text::chars_of(d.as_str());
            let ghost before = out@;
            out.append(d.as_str());
            if chars.len() == 0 || chars[chars.len() - 1] != '\n' {
                out.push('\n');
            }
            assert(out@ =~= before + closed_diff(Some(d@)));
        },
        None => {
            assert(out@ =~= out@ + closed_diff(None));
        },
    }
    out
}

/// The plain text of an event for a terminal.
pub fn render_plain(envelope: &EventEnvelope) -> (r: String)
    ensures
        r@ == plain(envelope@.event),
{
    match &envelope.event {
        Event::RunStarted { task } => text::enclosed("AlloyPort · ", task.as_str(), "\n"),
        Event::TurnStarted { .. } | Event::TurnCompleted { .. } => String::new(),
        Event::TurnFailed { turn, error } => {
            let mut out = "! turn ".to_owned();
            text::push_decimal(&mut out, *turn as u64);
            out.append(" failed: ");
            out.append(error.as_str());
            out.append("\n");
            out
        },
        Event::RunCompleted { .. } => "\n✓ run completed\n".to_owned(),
        Event::RunFailed { error } => text::enclosed("\n✗ run failed: ", error.as_str(), "\n"),
        Event::MessageStarted { role } => text::enclosed("\n", message_role_label(*role), "\n"),
        Event::MessageDelta { text } => text.clone(),
        Event::MessageCompleted {} => "\n".to_owned(),
        Event::PlanUpdated { entries } => text::enclosed("plan: ", entries.as_str(), "\n"),
        Event::ToolStarted { name, arguments } => {
            let mut out = text::enclosed("\n→ ", name.as_str(), " ");
            out.append(arguments.as_str());
            out.append("\n");
            out
        },
        Event::ToolCompleted { name, output } => {
            let mut out = text::enclosed("← ", name.as_str(), " completed\n");
            out.append(output.as_str());
            out.append("\n");
            out
        },
        Event::ToolFailed { name, error, output } => {
            let mut out = text::enclosed("← ", name.as_str(), " failed: ");
            out.append(error.as_str());
            push_labelled(&mut out, "\n", output);
            out.append("\n");
            out
        },
        Event::CommandStarted { command, cwd, execution_site, description } => {
            let mut out = text::enclosed("\n$ ", command.as_str(), "\n  @ ");
            out.append(execution_site.as_str());
            push_labelled(&mut out, " · cwd ", cwd);
            push_labelled(&mut out, " · ", description);
            out.append("\n");
            out
        },
        Event::CommandOutput { stream, text, .. } => match stream {
            OutputStream::Stdout => text.clone(),
            OutputStream::Stderr => {
                let mut out = "[stderr]\n".to_owned();
                out.append(text.as_str());
                out
            },
        },
        Event::CommandCompleted { exit_code, elapsed_ms, timed_out, .. } => {
            let mut out = "\n  exit ".to_owned();
            text::push_signed(&mut out, *exit_code as i64);
            out.append(" · ");
            text::push_decimal(&mut out, *elapsed_ms);
            out.append(" ms");
            out.append(
                if *timed_out {
                    " · timed out"
                } else {
                    ""
                },
            );
            out.append("\n");
            out
        },
        Event::WorkspaceDelta { changes, diff, commit } => render_workspace_delta(
            changes,
            diff,
            commit,
        ),
        Event::ApprovalRequested { action, reason, risk } => {
            let mut out = text::enclosed("approval required [", risk.as_str(), "]: ");
            out.append(action.as_str());
            out.append("\n  ");
            out.append(reason.as_str());
            out.append("\n");
            out
        },
        Event::ApprovalResolved { decision } => text::enclosed("approval: ", decision.as_str(), "\n"),
        Event::GateStarted { gate } => text::enclosed("gate ", gate.as_str(), ": running\n"),
        Event::GateCompleted { gate, passed, .. } => {
            let mut out = (if *passed {
                "✓"
            } else {
                "✗"
            }).to_owned();
            out.append(" gate ");
            out.append(gate.as_str());
            out.append(": ");
            out.append(
                if *passed {
                    "PASS"
                } else {
                    "FAIL"
                },
            );
            out.append("\n");
            out
        },
        Event::ArtifactProduced { artifact } => {
            let mut out = text::enclosed("artifact ", artifact.reference.as_str(), " (");
            out.append(artifact.digest.as_str());
            out.append(")\n");
            out
        },
        Event::Warning { message } => text::enclosed("! ", message.as_str(), "\n"),
        Event::Error { message } => text::enclosed("✗ ", message.as_str(), "\n"),
    }
}

/// `part` stands somewhere in `s`.
pub open spec fn shows(s: Seq<char>, part: Seq<char>) -> bool {
    exists|i: int|
        0 <= i && i + part.len() <= s.len() && #[trigger] s.subrange(i, i + part.len()) == part
}

proof fn shown_between(before: Seq<char>, part: Seq<char>, behind: Seq<char>)
    ensures
        shows(before + part + behind, part),
{
    let s = before + part + behind;
    let i = before.len() as int;
    assert(s.subrange(i, i + part.len()) =~= part);
}

proof fn shown_in_longer(s: Seq<char>, part: Seq<char>, before: Seq<char>, behind: Seq<char>)
    requires
        shows(s, part),
    ensures
        shows(before + s + behind, part),
{
    let i = choose|i: int|
        0 <= i && i + part.len() <= s.len() && #[trigger] s.subrange(i, i + part.len()) == part;
    let t = before + s + behind;
    let k = before.len() + i;
    assert(t.subrange(k, k + part.len()) =~= s.subrange(i, i + part.len()));
}

/// A completed check is shown with a tick in front and `PASS` at the end exactly where its verdict
/// is good, and with a cross and `FAIL` exactly where it is not.
pub proof fn gate_verdicts_are_told(
    gate: Seq<char>,
    passed: bool,
    evidence: Seq<crate::events::ArtifactRefView>,
)
    ensures
        ({
            let shown = plain(EventView::GateCompleted { gate, passed, evidence });
            let n = shown.len() as int;
            &&& n >= 13 + gate.len()
            &&& shown[0] == '✓' <==> passed
            &&& shown[0] == '✗' <==> !passed
            &&& shown.skip(n - 5) == seq!['P', 'A', 'S', 'S', '\n'] <==> passed
            &&& shown.skip(n - 5) == seq!['F', 'A', 'I', 'L', '\n'] <==> !passed
            &&& shown.subrange(1, n - 5) == " gate "@ + gate + ": "@
        }),
{
    reveal_strlit("✓");
    reveal_strlit("✗");
    reveal_strlit(" gate ");
    reveal_strlit(": ");
    reveal_strlit("PASS");
    reveal_strlit("FAIL");
    reveal_strlit("\n");
    let shown = plain(EventView::GateCompleted { gate, passed, evidence });
    let n = shown.len() as int;
    let word = shown.skip(n - 5);
    if passed {
        assert(word =~= seq!['P', 'A', 'S', 'S', '\n']);
        assert(word[0] != seq!['F', 'A', 'I', 'L', '\n'][0]);
    } else {
        assert(word =~= seq!['F', 'A', 'I', 'L', '\n']);
        assert(word[0] != seq!['P', 'A', 'S', 'S', '\n'][0]);
    }
    assert(shown.subrange(1, n - 5) =~= " gate "@ + gate + ": "@);
}

/// Two ends of one gate that differ in their verdict have different texts.
pub proof fn gate_verdicts_are_told_apart(
    gate: Seq<char>,
    first: bool,
    second: bool,
    evidence: Seq<crate::events::ArtifactRefView>,
)
    requires
        plain(EventView::GateCompleted { gate, passed: first, evidence }) == plain(
            EventView::GateCompleted { gate, passed: second, evidence },
        ),
    ensures
        first == second,
{
    gate_verdicts_are_told(gate, first, evidence);
    gate_verdicts_are_told(gate, second, evidence);
}

/// A run that failed is told with a cross and its error, one that completed with a tick.
pub proof fn run_endings_are_told(result: Seq<char>, error: Seq<char>)
    ensures
        ({
            let done = plain(EventView::RunCompleted { result });
            let failed = plain(EventView::RunFailed { error });
            &&& done.len() > 1 && done[0] == '\n' && done[1] == '✓' && done.last() == '\n'
            &&& failed.len() > 1 && failed[0] == '\n' && failed[1] == '✗' && failed.last() == '\n'
            &&& shows(done, "run completed"@)
            &&& shows(failed, "run failed: "@ + error)
        }),
{
    reveal_strlit("\n✓ run completed\n");
    reveal_strlit("run completed");
    reveal_strlit("\n✗ run failed: ");
    reveal_strlit("run failed: ");
    reveal_strlit("\n");
    let done = plain(EventView::RunCompleted { result });
    let failed = plain(EventView::RunFailed { error });
    assert(done =~= done.take(3) + "run completed"@ + done.skip(16));
    shown_between(done.take(3), "run completed"@, done.skip(16));
    let what = "run failed: "@ + error;
    assert(failed =~= failed.take(3) + what + seq!['\n']);
    shown_between(failed.take(3), what, seq!['\n']);
}

/// What was said and printed is shown as it is; what goes to the error stream is marked.
pub proof fn spoken_and_printed_text_is_shown(text: Seq<char>, byte_offset: u64, sanitized: bool)
    ensures
        plain(EventView::MessageDelta { text }) == text,
        plain(
            EventView::CommandOutput {
                stream: OutputStream::Stdout,
                byte_offset,
                text,
                display_sanitized: sanitized,
            },
        ) == text,
        ({
            let shown = plain(
                EventView::CommandOutput {
                    stream: OutputStream::Stderr,
                    byte_offset,
                    text,
                    display_sanitized: sanitized,
                },
            );
            &&& shown.len() == text.len() + 9
            &&& shown.take(9) == seq!['[', 's', 't', 'd', 'e', 'r', 'r', ']', '\n']
            &&& shown.skip(9) == text
        }),
{
    reveal_strlit("[stderr]\n");
    let shown = plain(
        EventView::CommandOutput {
            stream: OutputStream::Stderr,
            byte_offset,
            text,
            display_sanitized: sanitized,
        },
    );
    assert(shown.take(9) =~= seq!['[', 's', 't', 'd', 'e', 'r', 'r', ']', '\n']);
    assert(shown.skip(9) =~= text);
}

/// Whose message begins is told by name.
pub proof fn speakers_are_named()
    ensures
        plain(EventView::MessageStarted { role: MessageRole::Assistant }) == "\nassistant\n"@,
        plain(EventView::MessageStarted { role: MessageRole::User }) == "\nuser\n"@,
        plain(EventView::MessageStarted { role: MessageRole::System }) == "\nsystem\n"@,
        plain(EventView::MessageCompleted {}) == "\n"@,
{
    reveal_strlit("\n");
    reveal_strlit("assistant");
    reveal_strlit("user");
    reveal_strlit("system");
    reveal_strlit("\nassistant\n");
    reveal_strlit("\nuser\n");
    reveal_strlit("\nsystem\n");
    assert("\n"@ + "assistant"@ + "\n"@ =~= "\nassistant\n"@);
    assert("\n"@ + "user"@ + "\n"@ =~= "\nuser\n"@);
    assert("\n"@ + "system"@ + "\n"@ =~= "\nsystem\n"@);
}

/// Turns say nothing, but for those that fail.
pub proof fn turns_are_told_where_they_fail(turn: u32, outcome: Seq<char>, error: Seq<char>)
    ensures
        plain(EventView::TurnStarted { turn }).len() == 0,
        plain(EventView::TurnCompleted { turn, outcome }).len() == 0,
        ({
            let shown = plain(EventView::TurnFailed { turn, error });
            &&& shows(shown, error)
            &&& shows(shown, text::decimal(turn as nat))
            &&& shown[0] == '!'
            &&& shown.last() == '\n'
        }),
{
    reveal_strlit("! turn ");
    reveal_strlit(" failed: ");
    reveal_strlit("\n");
    let n = text::decimal(turn as nat);
    let shown = plain(EventView::TurnFailed { turn, error });
    assert(shown =~= ("! turn "@ + n + " failed: "@) + error + "\n"@);
    shown_between("! turn "@ + n + " failed: "@, error, "\n"@);
    assert(shown =~= "! turn "@ + n + (" failed: "@ + error + "\n"@));
    shown_between("! turn "@, n, " failed: "@ + error + "\n"@);
}

/// A tool's call, its result and its failure are told with all that was given.
pub proof fn tools_are_told(
    name: Seq<char>,
    given: Seq<char>,
    error: Seq<char>,
    output: Option<Seq<char>>,
)
    ensures
        ({
            let call = plain(EventView::ToolStarted { name, arguments: given });
            let done = plain(EventView::ToolCompleted { name, output: given });
            let failed = plain(EventView::ToolFailed { name, error, output });
            &&& call.len() > 1 && call[1] == '→' && shows(call, name) && shows(call, given)
            &&& done.len() > 0 && done[0] == '←' && shows(done, name + " completed\n"@ + given)
            &&& failed.len() > 0 && failed[0] == '←' && shows(
                failed,
                name + " failed: "@ + error,
            )
            &&& output matches Some(text) ==> shows(failed, text)
        }),
{
    reveal_strlit("\n→ ");
    reveal_strlit("← ");
    reveal_strlit("\n");
    let call = plain(EventView::ToolStarted { name, arguments: given });
    assert(call =~= "\n→ "@ + name + (" "@ + given + "\n"@));
    shown_between("\n→ "@, name, " "@ + given + "\n"@);
    assert(call =~= ("\n→ "@ + name + " "@) + given + "\n"@);
    shown_between("\n→ "@ + name + " "@, given, "\n"@);
    let done = plain(EventView::ToolCompleted { name, output: given });
    let what = name + " completed\n"@ + given;
    assert(done =~= "← "@ + what + "\n"@);
    shown_between("← "@, what, "\n"@);
    let failed = plain(EventView::ToolFailed { name, error, output });
    let why = name + " failed: "@ + error;
    assert(failed =~= "← "@ + why + (labelled("\n"@, output) + "\n"@));
    shown_between("← "@, why, labelled("\n"@, output) + "\n"@);
    if let Some(text) = output {
        assert(failed =~= ("← "@ + why + "\n"@) + text + "\n"@);
        shown_between("← "@ + why + "\n"@, text, "\n"@);
    }
}

/// A command is told with where and why it runs.
pub proof fn commands_are_told(
    command: Seq<char>,
    cwd: Option<Seq<char>>,
    site: Seq<char>,
    description: Option<Seq<char>>,
)
    ensures
        ({
            let start = plain(
                EventView::CommandStarted { command, cwd, execution_site: site, description },
            );
            &&& shows(start, command)
            &&& shows(start, site)
            &&& cwd matches Some(path) ==> shows(start, path)
            &&& description matches Some(why) ==> shows(start, why)
        }),
{
    let start = plain(
        EventView::CommandStarted { command, cwd, execution_site: site, description },
    );
    let place = labelled(" · cwd "@, cwd);
    let reason = labelled(" · "@, description);
    let head = "\n$ "@ + command + "\n  @ "@;
    assert(start == head + site + place + reason + "\n"@);
    assert(start =~= "\n$ "@ + command + ("\n  @ "@ + site + place + reason + "\n"@));
    shown_between("\n$ "@, command, "\n  @ "@ + site + place + reason + "\n"@);
    assert(start =~= head + site + (place + reason + "\n"@));
    shown_between(head, site, place + reason + "\n"@);
    if let Some(path) = cwd {
        shown_early(head + site, " · cwd "@, path, reason, "\n"@, seq![]);
        assert(start + seq![] =~= start);
    }
    if let Some(why) = description {
        shown_early(head + site + place, " · "@, why, "\n"@, seq![], seq![]);
        assert(start + seq![] + seq![] =~= start);
    }
}

/// The end of a command is told with its exit code and its time, and marked exactly where it ran
/// out of time.
pub proof fn command_ends_are_told(
    exit_code: i32,
    elapsed_ms: u64,
    timed_out: bool,
    output_artifact: Option<crate::events::ArtifactRefView>,
)
    ensures
        ({
            let end = plain(
                EventView::CommandCompleted { exit_code, elapsed_ms, timed_out, output_artifact },
            );
            let n = end.len() as int;
            &&& shows(end, "exit "@ + text::signed_decimal(exit_code as int))
            &&& shows(end, text::decimal(elapsed_ms as nat) + " ms"@)
            &&& timed_out ==> n > 10 && end.subrange(n - 10, n - 1) == "timed out"@
            &&& !timed_out ==> n > 3 && end.subrange(n - 3, n - 1) == "ms"@
        }),
{
    reveal_strlit("\n");
    reveal_strlit("\n  exit ");
    reveal_strlit("exit ");
    reveal_strlit(" ms");
    reveal_strlit("ms");
    reveal_strlit(" · timed out");
    reveal_strlit("timed out");
    reveal_strlit("");
    let end = plain(
        EventView::CommandCompleted { exit_code, elapsed_ms, timed_out, output_artifact },
    );
    let code = text::signed_decimal(exit_code as int);
    let time = text::decimal(elapsed_ms as nat);
    let mark = if timed_out {
        " · timed out"@
    } else {
        ""@
    };
    let blank = seq!['\n', ' ', ' '];
    assert("\n  exit "@ =~= blank + "exit "@);
    assert(end =~= blank + ("exit "@ + code) + (" · "@ + time + " ms"@ + mark + "\n"@));
    shown_between(blank, "exit "@ + code, " · "@ + time + " ms"@ + mark + "\n"@);
    let before = "\n  exit "@ + code + " · "@;
    assert(end =~= before + (time + " ms"@) + (mark + "\n"@));
    shown_between(before, time + " ms"@, mark + "\n"@);
    let n = end.len() as int;
    if timed_out {
        assert(end.subrange(n - 10, n - 1) =~= "timed out"@);
    } else {
        assert(end.subrange(n - 3, n - 1) =~= "ms"@);
    }
}

/// Warnings, errors, plans, tasks, approvals, gates and artifacts are told with all that was given;
/// an error with a cross and a warning without.
pub proof fn remarks_are_told(
    message: Seq<char>,
    action: Seq<char>,
    risk: Seq<char>,
    artifact: crate::events::ArtifactRefView,
)
    ensures
        plain(EventView::Warning { message }) == "! "@ + message + "\n"@,
        plain(EventView::Warning { message })[0] == '!',
        plain(EventView::Error { message })[0] == '✗',
        shows(plain(EventView::Error { message }), message),
        shows(plain(EventView::RunStarted { task: message }), message),
        shows(plain(EventView::PlanUpdated { entries: message }), message),
        shows(plain(EventView::ApprovalRequested { action, reason: message, risk }), message),
        shows(plain(EventView::ApprovalRequested { action, reason: message, risk }), action),
        shows(plain(EventView::ApprovalRequested { action, reason: message, risk }), risk),
        shows(plain(EventView::ApprovalResolved { decision: message }), message),
        shows(plain(EventView::GateStarted { gate: message }), message + ": running"@),
        shows(plain(EventView::ArtifactProduced { artifact }), artifact.reference),
        shows(plain(EventView::ArtifactProduced { artifact }), artifact.digest),
{
    reveal_strlit("! ");
    reveal_strlit("✗ ");
    reveal_strlit("\n");
    shown_between("✗ "@, message, "\n"@);
    shown_between("AlloyPort · "@, message, "\n"@);
    shown_between("plan: "@, message, "\n"@);
    shown_between("approval: "@, message, "\n"@);
    let asked = plain(EventView::ApprovalRequested { action, reason: message, risk });
    let head = "approval required ["@;
    assert(asked =~= (head + risk + "]: "@ + action + "\n  "@) + message + "\n"@);
    shown_between(head + risk + "]: "@ + action + "\n  "@, message, "\n"@);
    assert(asked =~= (head + risk + "]: "@) + action + ("\n  "@ + message + "\n"@));
    shown_between(head + risk + "]: "@, action, "\n  "@ + message + "\n"@);
    assert(asked =~= head + risk + ("]: "@ + action + "\n  "@ + message + "\n"@));
    shown_between(head, risk, "]: "@ + action + "\n  "@ + message + "\n"@);
    reveal_strlit(": running\n");
    reveal_strlit(": running");
    let running = plain(EventView::GateStarted { gate: message });
    assert(running =~= "gate "@ + (message + ": running"@) + "\n"@);
    shown_between("gate "@, message + ": running"@, "\n"@);
    let made = plain(EventView::ArtifactProduced { artifact });
    assert(made =~= "artifact "@ + artifact.reference + (" ("@ + artifact.digest + ")\n"@));
    shown_between("artifact "@, artifact.reference, " ("@ + artifact.digest + ")\n"@);
    shown_between("artifact "@ + artifact.reference + " ("@, artifact.digest, ")\n"@);
}

/// What a reader has to be told of a changed file: what happened to it, its path, and how many lines
/// came and went where that is known.
pub open spec fn change_summary(change: FileChangeView) -> Seq<char> {
    (match change.kind {
        FileChangeKind::Added => "Added "@,
        FileChangeKind::Modified => "Modified "@,
        FileChangeKind::Deleted => "Deleted "@,
        FileChangeKind::Renamed => "Renamed "@,
        FileChangeKind::Binary => "Binary "@,
    }) + change.path + " +"@ + (match change.additions {
        Some(n) => text::decimal(n as nat),
        None => "?"@,
    }) + "/-"@ + (match change.deletions {
        Some(n) => text::decimal(n as nat),
        None => "?"@,
    })
}

/// Every changed file is told.
pub proof fn changes_are_told(
    changes: Seq<FileChangeView>,
    diff: Option<Seq<char>>,
    commit: Option<Seq<char>>,
    i: int,
)
    requires
        0 <= i < changes.len(),
    ensures
        shows(
            plain(EventView::WorkspaceDelta { changes, diff, commit }),
            change_summary(changes[i]),
        ),
{
    let shown = plain(EventView::WorkspaceDelta { changes, diff, commit });
    let head = "\nworkspace changes"@ + labelled(" · commit "@, commit) + "\n"@;
    lines_show_changes(changes, i);
    shown_in_longer(change_lines(changes), change_summary(changes[i]), head, closed_diff(diff));
    assert(shown == head + change_lines(changes) + closed_diff(diff));
}

proof fn shown_behind(before: Seq<char>, part: Seq<char>, ending: Seq<char>)
    ensures
        shows(before + (part + ending), part),
{
    assert(before + (part + ending) =~= before + part + ending);
    shown_between(before, part, ending);
}

/// The diff of a change is told where there is one.
pub proof fn diffs_are_told(changes: Seq<FileChangeView>, diff: Seq<char>, commit: Option<Seq<char>>)
    ensures
        shows(plain(EventView::WorkspaceDelta { changes, diff: Some(diff), commit }), diff),
{
    let head = "\nworkspace changes"@ + labelled(" · commit "@, commit) + "\n"@ + change_lines(
        changes,
    );
    let ending = if diff.len() > 0 && diff.last() == '\n' {
        Seq::<char>::empty()
    } else {
        seq!['\n']
    };
    assert(closed_diff(Some(diff)) =~= diff + ending);
    shown_behind(head, diff, ending);
}

proof fn shown_early(
    a: Seq<char>,
    b: Seq<char>,
    part: Seq<char>,
    c: Seq<char>,
    d: Seq<char>,
    e: Seq<char>,
)
    ensures
        shows(a + (b + part) + c + d + e, part),
{
    assert(a + (b + part) + c + d + e =~= (a + b) + part + (c + d + e));
    shown_between(a + b, part, c + d + e);
}

/// The commit of a change is told where there is one.
pub proof fn commits_are_told(
    changes: Seq<FileChangeView>,
    diff: Option<Seq<char>>,
    commit: Seq<char>,
)
    ensures
        shows(plain(EventView::WorkspaceDelta { changes, diff, commit: Some(commit) }), commit),
{
    shown_early(
        "\nworkspace changes"@,
        " · commit "@,
        commit,
        "\n"@,
        change_lines(changes),
        closed_diff(diff),
    );
}

proof fn lines_show_changes(changes: Seq<FileChangeView>, i: int)
    requires
        0 <= i < changes.len(),
    ensures
        shows(change_lines(changes), change_summary(changes[i])),
    decreases changes.len(),
{
    let part = change_summary(changes[i]);
    let before = change_lines(changes.drop_last());
    let line = change_line(changes.last());
    if i < changes.len() - 1 {
        assert(changes.drop_last()[i] == changes[i]);
        lines_show_changes(changes.drop_last(), i);
        shown_in_longer(before, part, seq![], line);
        assert(seq![] + before + line =~= before + line);
    } else {
        let change = changes[i];
        lines_are_summaries(change);
        assert(before + line =~= (before + "  "@) + part + "\n"@);
        shown_between(before + "  "@, part, "\n"@);
    }
}

proof fn lines_are_summaries(change: FileChangeView)
    ensures
        change_line(change) == "  "@ + change_summary(change) + "\n"@,
{
    reveal_strlit(" ");
    reveal_strlit("Added");
    reveal_strlit("Added ");
    reveal_strlit("Modified");
    reveal_strlit("Modified ");
    reveal_strlit("Deleted");
    reveal_strlit("Deleted ");
    reveal_strlit("Renamed");
    reveal_strlit("Renamed ");
    reveal_strlit("Binary");
    reveal_strlit("Binary ");
    assert("Added"@ + " "@ =~= "Added "@);
    assert("Modified"@ + " "@ =~= "Modified "@);
    assert("Deleted"@ + " "@ =~= "Deleted "@);
    assert("Renamed"@ + " "@ =~= "Renamed "@);
    assert("Binary"@ + " "@ =~= "Binary "@);
    let word = kind_label(change.kind) + " "@;
    let counts = count_text(change.additions) + "/-"@ + count_text(change.deletions);
    assert(change_summary(change) =~= word + change.path + " +"@ + counts);
    assert(change_line(change) =~= "  "@ + (word + change.path + " +"@ + counts) + "\n"@);
}

/// A call shows the tool and what it was handed, and its end what came out or what went wrong and
/// what came out with it, each on lines of its own.
pub proof fn tool_lines_are_laid_out(
    name: Seq<char>,
    given: Seq<char>,
    error: Seq<char>,
    output: Seq<char>,
)
    ensures
        plain(EventView::ToolStarted { name, arguments: given }) == "\n→ "@ + name + " "@ + given
            + "\n"@,
        plain(EventView::ToolCompleted { name, output }) == "← "@ + name + " completed\n"@ + output
            + "\n"@,
        plain(EventView::ToolFailed { name, error, output: Some(output) }) == "← "@ + name
            + " failed: "@ + error + "\n"@ + output + "\n"@,
        plain(EventView::ToolFailed { name, error, output: None }) == "← "@ + name + " failed: "@
            + error + "\n"@,
{
    assert(plain(EventView::ToolFailed { name, error, output: Some(output) }) =~= "← "@ + name
        + " failed: "@ + error + "\n"@ + output + "\n"@);
    assert(plain(EventView::ToolFailed { name, error, output: None }) =~= "← "@ + name
        + " failed: "@ + error + "\n"@);
}

/// A command shows its text, its site and, where they are known, its directory and its description.
pub proof fn command_lines_are_laid_out(
    command: Seq<char>,
    site: Seq<char>,
    cwd: Seq<char>,
    why: Seq<char>,
)
    ensures
        plain(
            EventView::CommandStarted {
                command,
                cwd: None,
                execution_site: site,
                description: None,
            },
        ) == "\n$ "@ + command + "\n  @ "@ + site + "\n"@,
        plain(
            EventView::CommandStarted {
                command,
                cwd: Some(cwd),
                execution_site: site,
                description: None,
            },
        ) == "\n$ "@ + command + "\n  @ "@ + site + (" · cwd "@ + cwd) + "\n"@,
        plain(
            EventView::CommandStarted {
                command,
                cwd: None,
                execution_site: site,
                description: Some(why),
            },
        ) == "\n$ "@ + command + "\n  @ "@ + site + (" · "@ + why) + "\n"@,
        plain(
            EventView::CommandStarted {
                command,
                cwd: Some(cwd),
                execution_site: site,
                description: Some(why),
            },
        ) == "\n$ "@ + command + "\n  @ "@ + site + (" · cwd "@ + cwd) + (" · "@ + why) + "\n"@,
{
    let head = "\n$ "@ + command + "\n  @ "@ + site;
    let no_text: Seq<char> = seq![];
    assert(head + no_text =~= head);
    assert(head + no_text + no_text =~= head);
    assert(head + (" · cwd "@ + cwd) + no_text =~= head + (" · cwd "@ + cwd));
    assert(head + no_text + (" · "@ + why) =~= head + (" · "@ + why));
}

/// An approval shows its risk, what is asked and why; its answer shows the decision.
pub proof fn approval_lines_are_laid_out(
    action: Seq<char>,
    reason: Seq<char>,
    risk: Seq<char>,
    decision: Seq<char>,
)
    ensures
        plain(EventView::ApprovalRequested { action, reason, risk }) == "approval required ["@
            + risk + "]: "@ + action + "\n  "@ + reason + "\n"@,
        plain(EventView::ApprovalResolved { decision }) == "approval: "@ + decision + "\n"@,
{
}

/// Runs, turns, plans, gates, artifacts and errors have one line each that says which they are.
pub proof fn single_lines_are_laid_out(
    words: Seq<char>,
    turn: u32,
    artifact: crate::events::ArtifactRefView,
)
    ensures
        plain(EventView::RunStarted { task: words }) == "AlloyPort · "@ + words + "\n"@,
        plain(EventView::RunCompleted { result: words }) == "\n✓ run completed\n"@,
        plain(EventView::RunFailed { error: words }) == "\n✗ run failed: "@ + words + "\n"@,
        plain(EventView::TurnFailed { turn, error: words }) == "! turn "@ + text::decimal(
            turn as nat,
        ) + " failed: "@ + words + "\n"@,
        plain(EventView::PlanUpdated { entries: words }) == "plan: "@ + words + "\n"@,
        plain(EventView::GateStarted { gate: words }) == "gate "@ + words + ": running\n"@,
        plain(EventView::ArtifactProduced { artifact }) == "artifact "@ + artifact.reference
            + " ("@ + artifact.digest + ")\n"@,
        plain(EventView::Error { message: words }) == "✗ "@ + words + "\n"@,
{
}

/// A change of the workspace shows its commit on the first line, each changed file on a line of its
/// own in their order, and the diff, ended by a line break where it is not.
pub proof fn workspace_lines_are_laid_out(
    changes: Seq<FileChangeView>,
    last: FileChangeView,
    diff: Seq<char>,
    commit: Seq<char>,
)
    ensures
        plain(EventView::WorkspaceDelta { changes: seq![], diff: None, commit: None })
            == "\nworkspace changes"@ + "\n"@,
        plain(EventView::WorkspaceDelta { changes: seq![], diff: None, commit: Some(commit) })
            == "\nworkspace changes"@ + (" · commit "@ + commit) + "\n"@,
        plain(EventView::WorkspaceDelta { changes: changes.push(last), diff: None, commit: None })
            == plain(EventView::WorkspaceDelta { changes, diff: None, commit: None }) + "  "@
            + change_summary(last) + "\n"@,
        plain(EventView::WorkspaceDelta { changes, diff: Some(diff), commit: None }) == plain(
            EventView::WorkspaceDelta { changes, diff: None, commit: None },
        ) + diff + (if diff.len() > 0 && diff.last() == '\n' {
            seq![]
        } else {
            seq!['\n']
        }),
{
    let no_text: Seq<char> = seq![];
    let head = "\nworkspace changes"@;
    assert(change_lines(seq![]) =~= no_text);
    assert(head + no_text + "\n"@ =~= head + "\n"@);
    assert(head + "\n"@ + no_text + no_text =~= head + "\n"@);
    assert(head + (" · commit "@ + commit) + "\n"@ + no_text + no_text =~= head + (" · commit "@
        + commit) + "\n"@);
    assert(changes.push(last).drop_last() =~= changes);
    line_is_summary(last);
    let before = change_lines(changes);
    assert(head + no_text + "\n"@ + (before + ("  "@ + change_summary(last) + "\n"@)) + no_text
        =~= head + no_text + "\n"@ + before + no_text + "  "@ + change_summary(last) + "\n"@);
    let tail: Seq<char> = if diff.len() > 0 && diff.last() == '\n' {
        seq![]
    } else {
        seq!['\n']
    };
    assert(closed_diff(Some(diff)) =~= diff + tail);
    assert(head + no_text + "\n"@ + before + (diff + tail) =~= head + no_text + "\n"@ + before
        + no_text + diff + tail);
}

proof fn line_is_summary(change: FileChangeView)
    ensures
        change_line(change) == "  "@ + change_summary(change) + "\n"@,
{
    reveal_strlit("Added");
    reveal_strlit("Modified");
    reveal_strlit("Deleted");
    reveal_strlit("Renamed");
    reveal_strlit("Binary");
    reveal_strlit("Added ");
    reveal_strlit("Modified ");
    reveal_strlit("Deleted ");
    reveal_strlit("Renamed ");
    reveal_strlit("Binary ");
    reveal_strlit(" ");
    let kind = match change.kind {
        FileChangeKind::Added => "Added "@,
        FileChangeKind::Modified => "Modified "@,
        FileChangeKind::Deleted => "Deleted "@,
        FileChangeKind::Renamed => "Renamed "@,
        FileChangeKind::Binary => "Binary "@,
    };
    assert(kind_label(change.kind) + " "@ =~= kind);
    assert(change_line(change) =~= "  "@ + (kind_label(change.kind) + " "@) + change.path + " +"@
        + count_text(change.additions) + "/-"@ + count_text(change.deletions) + "\n"@);
    assert(change_line(change) =~= "  "@ + change_summary(change) + "\n"@);
}

} // verus!

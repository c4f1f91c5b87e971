//! What each request does to a submitted migration, state by state.
use super::{
    ExistingFile, MigrationErrorView, MigrationState, MigrationTaskRecordView, MigrationTaskState,
    MigrationTaskSubmissionView, ProjectFile,
};
use crate::events::{Authority, EventView, Visibility};
use crate::text;
use vstd::prelude::*;

verus! {

/// Only the state of one task differs between `s` and `t`.
pub open spec fn moves_only(s: MigrationState, t: MigrationState, task_id: Seq<char>) -> bool {
    &&& t.dom() == s.dom()
    &&& forall|k: Seq<char>| #[trigger] s.dom().contains(k) && k != task_id ==> t[k] == s[k]
    &&& t[task_id].owner_id == s[task_id].owner_id
    &&& t[task_id].request_id == s[task_id].request_id
    &&& t[task_id].project_digest == s[task_id].project_digest
    &&& t[task_id].created_at_ms == s[task_id].created_at_ms
}

/// A new migration is captured as it was submitted, and waits.
pub proof fn new_submissions_wait(s: MigrationState, submission: MigrationTaskSubmissionView)
    requires
        !s.dom().contains(submission.task_id),
        forall|k: Seq<char>| #[trigger]
            s.dom().contains(k) ==> s[k].owner_id != submission.owner_id || s[k].request_id
                != submission.request_id,
    ensures
        ({
            let (t, r) = super::submit(s, submission);
            let task = t[submission.task_id];
            &&& r == Ok::<MigrationTaskRecordView, MigrationErrorView>(task)
            &&& t.dom() == s.dom().insert(submission.task_id)
            &&& task.state == MigrationTaskState::Captured
            &&& task.owner_id == submission.owner_id
            &&& task.request_id == submission.request_id
            &&& task.task_id == submission.task_id
            &&& task.project_name == submission.project_name
            &&& task.project_digest == submission.project_digest
            &&& task.project_size_bytes == submission.project_size_bytes
            &&& task.file_count == submission.file_count
            &&& task.created_at_ms == submission.created_at_ms
            &&& forall|k: Seq<char>| #[trigger] s.dom().contains(k) ==> t[k] == s[k]
        }),
{
    assert(forall|k: Seq<char>|
        !super::requested(s, k, submission.owner_id, submission.request_id));
}

/// A request of an owner stands for one task, and the identity of a task is used once; another
/// owner may use the same request.
pub proof fn requests_are_used_once(
    s: MigrationState,
    submission: MigrationTaskSubmissionView,
    k: Seq<char>,
)
    requires
        s.dom().contains(k),
    ensures
        s[k].owner_id == submission.owner_id && s[k].request_id == submission.request_id
            && !s.dom().contains(submission.task_id) ==> super::submit(s, submission).1 is Err && super::submit(
            s,
            submission,
        ).0 == s,
        k == submission.task_id && (s[k].owner_id != submission.owner_id || s[k].request_id
            != submission.request_id || s[k].project_digest != submission.project_digest
            || s[k].project_name != submission.project_name || s[k].project_size_bytes
            != submission.project_size_bytes || s[k].file_count != submission.file_count)
            ==> super::submit(s, submission).1 is Err && super::submit(s, submission).0 == s,
{
    if s[k].owner_id == submission.owner_id && s[k].request_id == submission.request_id {
        assert(super::requested(s, k, submission.owner_id, submission.request_id));
    }
}

/// A task that runs is claimed again before any other; else the oldest task that waits runs from
/// there on, and the smaller identity comes first among equals.
pub proof fn claims_take_the_oldest(s: MigrationState, k: Seq<char>)
    requires
        s.dom().finite(),
        s.dom().contains(k),
        s[k].state == MigrationTaskState::Captured || s[k].state == MigrationTaskState::Running,
    ensures
        ({
            let (t, claimed) = super::claim(s);
            exists|id: Seq<char>|
                #![trigger t[id]]
                {
                    &&& s.dom().contains(id)
                    &&& claimed == Some(t[id])
                    &&& t[id].state == MigrationTaskState::Running
                    &&& moves_only(s, t, id)
                    &&& s[id].state == MigrationTaskState::Running || s[id].state
                        == MigrationTaskState::Captured
                    &&& s[k].state == MigrationTaskState::Running ==> s[id].state
                        == MigrationTaskState::Running
                    &&& s[k].state == s[id].state ==> id == k || s[id].created_at_ms
                        < s[k].created_at_ms || (s[id].created_at_ms == s[k].created_at_ms
                        && text::lt(id, k))
                }
        }),
{
    let (t, claimed) = super::claim(s);
    super::waiting_tasks_are_claimed(s, k);
    if s[k].state == MigrationTaskState::Running {
        some_task_is_oldest(s, k);
    }
    let id = match super::first_in(s, MigrationTaskState::Running) {
        Some(id) => id,
        None => super::first_in(s, MigrationTaskState::Captured)->0,
    };
    if super::first_in(s, MigrationTaskState::Running) is Some {
        assert(super::oldest(s, id, MigrationTaskState::Running));
    } else {
        assert(super::oldest(s, id, MigrationTaskState::Captured));
    }
    assert(super::stands(s, id, s[id].state));
    assert(super::stands(s, k, s[k].state));
    assert(t.dom() =~= s.dom());
    assert(moves_only(s, t, id));
    assert(claimed == Some(t[id]));
}

proof fn some_task_is_oldest(s: MigrationState, k: Seq<char>)
    requires
        s.dom().finite(),
        s.dom().contains(k),
    ensures
        exists|j: Seq<char>| super::oldest(s, j, s[k].state),
{
    let state = s[k].state;
    let pool = s.dom().filter(|j: Seq<char>| s[j].state == state);
    s.dom().lemma_len_filter(|j: Seq<char>| s[j].state == state);
    assert(pool.contains(k));
    let first = super::oldest_of(s, pool);
    assert forall|j: Seq<char>| #[trigger] super::stands(s, j, state) implies j == first
        || super::before(s, first, j) by {
        assert(pool.contains(j));
    }
    assert(super::oldest(s, first, state));
}

/// Nothing is claimed where nothing waits or runs.
pub proof fn nothing_is_claimed_where_nothing_waits(s: MigrationState)
    requires
        forall|k: Seq<char>| #[trigger]
            s.dom().contains(k) ==> s[k].state != MigrationTaskState::Captured && s[k].state
                != MigrationTaskState::Running,
    ensures
        super::claim(s) == (s, None::<MigrationTaskRecordView>),
{
    assert forall|k: Seq<char>| !super::oldest(s, k, MigrationTaskState::Running)
        && !super::oldest(s, k, MigrationTaskState::Captured) by {
        assert(s.dom().contains(k) || !s.dom().contains(k));
    }
}

/// A running task ends as it is told to; nothing else ends.
pub proof fn running_tasks_end(s: MigrationState, task_id: Seq<char>, state: MigrationTaskState)
    requires
        s.dom().contains(task_id),
    ensures
        ({
            let (t, r) = super::finish(s, task_id, state);
            &&& s[task_id].state == MigrationTaskState::Running ==> r is Ok && t[task_id].state
                == state && moves_only(s, t, task_id)
            &&& s[task_id].state != MigrationTaskState::Running ==> t == s && r == Err::<
                (),
                MigrationErrorView,
            >(MigrationErrorView::InvalidState { task_id, state: s[task_id].state })
        }),
{
    assert(super::finish(s, task_id, state).0.dom() =~= s.dom());
}

/// A failed task of that owner waits again once it is resumed; no other does.
pub proof fn failed_tasks_wait_again(s: MigrationState, owner_id: Seq<char>, task_id: Seq<char>)
    requires
        s.dom().contains(task_id),
    ensures
        ({
            let (t, r) = super::resume(s, owner_id, task_id);
            let own = s[task_id].owner_id == owner_id;
            &&& own && s[task_id].state == MigrationTaskState::Failed ==> r is Ok
                && t[task_id].state == MigrationTaskState::Captured && r->Ok_0 == t[task_id]
                && moves_only(s, t, task_id)
            &&& own && s[task_id].state != MigrationTaskState::Failed ==> t == s && r == Err::<
                MigrationTaskRecordView,
                MigrationErrorView,
            >(MigrationErrorView::InvalidState { task_id, state: s[task_id].state })
            &&& !own ==> t == s && r == Err::<MigrationTaskRecordView, MigrationErrorView>(
                MigrationErrorView::NotFound(task_id),
            )
        }),
{
    assert(super::resume(s, owner_id, task_id).0.dom() =~= s.dom());
}

/// A task of that owner that waits, runs or was cancelled stands cancelled behind a cancellation; one
/// that has ended cannot be cancelled, nor can anybody else's.
pub proof fn unfinished_tasks_are_cancelled(
    s: MigrationState,
    owner_id: Seq<char>,
    task_id: Seq<char>,
)
    requires
        s.dom().contains(task_id),
    ensures
        ({
            let (t, r) = super::cancel(s, owner_id, task_id);
            let own = s[task_id].owner_id == owner_id;
            let open = s[task_id].state == MigrationTaskState::Captured || s[task_id].state
                == MigrationTaskState::Running || s[task_id].state == MigrationTaskState::Cancelled;
            &&& own && open ==> r is Ok && moves_only(s, t, task_id)
            &&& r is Ok ==> t[task_id].state == MigrationTaskState::Cancelled
            &&& own && !open ==> t == s && r == Err::<(), MigrationErrorView>(
                MigrationErrorView::InvalidState { task_id, state: s[task_id].state },
            )
            &&& !own ==> t == s && r == Err::<(), MigrationErrorView>(
                MigrationErrorView::NotFound(task_id),
            )
        }),
{
    assert(super::cancel(s, owner_id, task_id).0.dom() =~= s.dom());
}

/// What nobody submitted neither ends nor resumes nor is cancelled.
pub proof fn unknown_tasks_are_not_found(
    s: MigrationState,
    owner_id: Seq<char>,
    task_id: Seq<char>,
    state: MigrationTaskState,
)
    requires
        !s.dom().contains(task_id),
    ensures
        super::finish(s, task_id, state) == (
            s,
            Err::<(), MigrationErrorView>(MigrationErrorView::NotFound(task_id)),
        ),
        super::resume(s, owner_id, task_id) == (
            s,
            Err::<MigrationTaskRecordView, MigrationErrorView>(
                MigrationErrorView::NotFound(task_id),
            ),
        ),
        super::cancel(s, owner_id, task_id) == (
            s,
            Err::<(), MigrationErrorView>(MigrationErrorView::NotFound(task_id)),
        ),
{
}

/// A task that was cancelled while it ran is not ended a second time, whatever its run came to.
pub proof fn cancelled_runs_do_not_end_again(
    s: MigrationState,
    owner_id: Seq<char>,
    task_id: Seq<char>,
    state: MigrationTaskState,
)
    requires
        s.dom().contains(task_id),
        s[task_id].owner_id == owner_id,
        s[task_id].state == MigrationTaskState::Running,
    ensures
        ({
            let t = super::cancel(s, owner_id, task_id).0;
            &&& super::finish(t, task_id, state).1 is Err
            &&& super::finish(t, task_id, state).0 == t
            &&& t[task_id].state == MigrationTaskState::Cancelled
        }),
{
}

/// A run that was cancelled is told as such and leaves the task where the cancellation put it; else
/// a task completes exactly where its run succeeded, and fails with the run's own error.
pub proof fn runs_decide_their_tasks(cancelled: bool, result: Result<(), Seq<char>>)
    ensures
        ({
            let (state, key, event) = super::ending(cancelled, result);
            &&& cancelled ==> state is None && event is RunFailed && event->RunFailed_error
                == "migration cancelled by user"@
            &&& !cancelled && result is Ok ==> state == Some(MigrationTaskState::Completed)
                && event is RunCompleted
            &&& !cancelled && result is Err ==> state == Some(MigrationTaskState::Failed) && event
                is RunFailed && event->RunFailed_error == result->Err_0
        }),
        super::ending(true, result).1 != super::ending(false, result).1,
        super::ending(false, Ok(())).1 != super::ending(false, Err("x"@)).1,
{
    reveal_strlit("migration-cancelled");
    reveal_strlit("migration-completed");
    reveal_strlit("migration-failed");
    let a = "migration-cancelled"@;
    let b = "migration-completed"@;
    let c = "migration-failed"@;
    assert(a[11] == 'a' && b[11] == 'o' && c[10] == 'f' && a[10] == 'c' && b[10] == 'c');
}

/// What the dispatcher tells is told to the user as an observed fact of the task's own run.
pub proof fn dispatchers_tell_their_own_run(task_id: Seq<char>, event: EventView, now_ms: u64)
    ensures
        ({
            let frame = super::dispatcher_frame(task_id, event, now_ms);
            &&& frame.run_id == task_id
            &&& frame.task_id == Some(task_id)
            &&& frame.event == event
            &&& frame.emitted_at_unix_ms == now_ms
            &&& frame.authority == Authority::Observed
            &&& frame.visibility == Visibility::User
            &&& frame.operation_id is None
            &&& frame.producer.component == "alloyport-server"@
            &&& frame.producer.instance == "migration-dispatcher"@
        }),
{
}

/// A stored project is taken exactly where it is not too large and still has its digest.
pub proof fn unchanged_projects_are_taken(bytes: Seq<u8>, submitted: Seq<char>)
    ensures
        super::encoded_problem(bytes, submitted) is None <==> bytes.len() <= 64 * 1024 * 1024
            && crate::digest::digest_text(bytes) == submitted,
{
}

/// The files of a project are taken exactly where there are as many as were submitted, at least one,
/// no path is at fault, and the paths ascend.
pub proof fn sound_file_lists_are_taken(files: Seq<ProjectFile>, expected_files: u64)
    ensures
        super::project_problem(files, expected_files) is None <==> files.len() == expected_files
            && files.len() > 0 && (forall|i: int|
            0 <= i < files.len() ==> (#[trigger] files[i]).path_problem is None) && (forall|i: int|
            0 < i < files.len() ==> text::lt(
                files[i - 1].path@,
                (#[trigger] files[i]).path@,
            )),
{
    faultless_prefixes(files, files.len() as int);
}

proof fn faultless_prefixes(files: Seq<ProjectFile>, n: int)
    requires
        0 <= n <= files.len(),
    ensures
        super::first_file_problem(files, n) is None <==> (forall|i: int|
            0 <= i < n ==> (#[trigger] files[i]).path_problem is None) && (forall|i: int|
            0 < i < n ==> text::lt(files[i - 1].path@, (#[trigger] files[i]).path@)),
    decreases n,
{
    if n > 0 {
        faultless_prefixes(files, n - 1);
        if super::first_file_problem(files, n) is None {
            assert(super::stored_file_problem(files, n - 1) is None);
        } else if super::first_file_problem(files, n - 1) is None {
            assert(super::stored_file_problem(files, n - 1) is Some);
            assert(files[n - 1].path_problem is Some || n > 1 && !text::lt(
                files[n - 2].path@,
                files[n - 1].path@,
            ));
        }
    }
}

/// A file that is there already is left exactly where it is a regular file with the same contents.
pub proof fn existing_files_are_not_overwritten(
    path: Seq<char>,
    existing: ExistingFile,
    contents: Seq<u8>,
)
    ensures
        super::existing_problem(path, existing, contents) is None <==> (existing matches
            ExistingFile::Regular(bytes) && bytes@ == contents),
{
}

} // verus!

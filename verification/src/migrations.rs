//! Submitted migrations: the queue they wait in and how each ends.
pub mod conduct;

use crate::digest;
use crate::digest::Sha256Digest;
use crate::events;
use crate::events::{Event, EventView, Producer, ProducerEvent, ProducerEventView, ProducerView};
use crate::ordered;
use crate::ordered::TextMap;
use crate::text;
use vstd::prelude::*;
use vstd::string::*;

verus! {

/// Where a migration stands.
#[derive(Clone, Copy, Debug, PartialEq, Eq, Structural)]
pub enum MigrationTaskState {
    Captured,
    Running,
    Completed,
    Failed,
    Cancelled,
}

/// What an owner submits.
#[derive(Debug, PartialEq, Eq)]
pub struct MigrationTaskSubmission {
    pub owner_id: String,
    pub request_id: String,
    pub task_id: String,
    pub project_name: String,
    pub project_digest: Sha256Digest,
    pub project_size_bytes: u64,
    pub file_count: u64,
    pub created_at_ms: u64,
}

pub ghost struct MigrationTaskSubmissionView {
    pub owner_id: Seq<char>,
    pub request_id: Seq<char>,
    pub task_id: Seq<char>,
    pub project_name: Seq<char>,
    pub project_digest: Seq<char>,
    pub project_size_bytes: u64,
    pub file_count: u64,
    pub created_at_ms: u64,
}

impl View for MigrationTaskSubmission {
    type V = MigrationTaskSubmissionView;

    open spec fn view(&self) -> MigrationTaskSubmissionView {
        MigrationTaskSubmissionView {
            owner_id: self.owner_id@,
            request_id: self.request_id@,
            task_id: self.task_id@,
            project_name: self.project_name@,
            project_digest: self.project_digest@,
            project_size_bytes: self.project_size_bytes,
            file_count: self.file_count,
            created_at_ms: self.created_at_ms,
        }
    }
}

/// A submitted migration.
#[derive(Debug, PartialEq, Eq)]
pub struct MigrationTaskRecord {
    pub owner_id: String,
    pub request_id: String,
    pub task_id: String,
    pub project_name: String,
    pub project_digest: Sha256Digest,
    pub project_size_bytes: u64,
    pub file_count: u64,
    pub created_at_ms: u64,
    pub state: MigrationTaskState,
}

pub ghost struct MigrationTaskRecordView {
    pub owner_id: Seq<char>,
    pub request_id: Seq<char>,
    pub task_id: Seq<char>,
    pub project_name: Seq<char>,
    pub project_digest: Seq<char>,
    pub project_size_bytes: u64,
    pub file_count: u64,
    pub created_at_ms: u64,
    pub state: MigrationTaskState,
}

impl View for MigrationTaskRecord {
    type V = MigrationTaskRecordView;

    open spec fn view(&self) -> MigrationTaskRecordView {
        MigrationTaskRecordView {
            owner_id: self.owner_id@,
            request_id: self.request_id@,
            task_id: self.task_id@,
            project_name: self.project_name@,
            project_digest: self.project_digest@,
            project_size_bytes: self.project_size_bytes,
            file_count: self.file_count,
            created_at_ms: self.created_at_ms,
            state: self.state,
        }
    }
}

impl Clone for MigrationTaskRecord {
    fn clone(&self) -> (r: Self)
        ensures
            r@ == self@,
    {
        MigrationTaskRecord {
            owner_id: self.owner_id.clone(),
            request_id: self.request_id.clone(),
            task_id: self.task_id.clone(),
            project_name: self.project_name.clone(),
            project_digest: self.project_digest.clone(),
            project_size_bytes: self.project_size_bytes,
            file_count: self.file_count,
            created_at_ms: self.created_at_ms,
            state: self.state,
        }
    }
}

/// Why the queue refuses a request.
#[derive(Debug, PartialEq, Eq)]
pub enum MigrationTaskError {
    Conflict,
    NotFound(String),
    InvalidState { task_id: String, state: MigrationTaskState },
}

pub ghost enum MigrationErrorView {
    Conflict,
    NotFound(Seq<char>),
    InvalidState { task_id: Seq<char>, state: MigrationTaskState },
}

impl View for MigrationTaskError {
    type V = MigrationErrorView;

    open spec fn view(&self) -> MigrationErrorView {
        match *self {
            MigrationTaskError::Conflict => MigrationErrorView::Conflict,
            MigrationTaskError::NotFound(id) => MigrationErrorView::NotFound(id@),
            MigrationTaskError::InvalidState { task_id, state } =>
                MigrationErrorView::InvalidState { task_id: task_id@, state },
        }
    }
}

/// Tasks by identity.
pub type MigrationState = Map<Seq<char>, MigrationTaskRecordView>;

/// The record of a submission that was just captured.
pub open spec fn captured(s: MigrationTaskSubmissionView) -> MigrationTaskRecordView {
    MigrationTaskRecordView {
        owner_id: s.owner_id,
        request_id: s.request_id,
        task_id: s.task_id,
        project_name: s.project_name,
        project_digest: s.project_digest,
        project_size_bytes: s.project_size_bytes,
        file_count: s.file_count,
        created_at_ms: s.created_at_ms,
        state: MigrationTaskState::Captured,
    }
}

/// A submission says what a stored task says; when it came does not matter.
pub open spec fn repeats(task: MigrationTaskRecordView, s: MigrationTaskSubmissionView) -> bool {
    task == (MigrationTaskRecordView {
        created_at_ms: task.created_at_ms,
        state: task.state,
        ..captured(s)
    })
}

/// The task was submitted under that request of that owner.
pub open spec fn requested(
    s: MigrationState,
    task_id: Seq<char>,
    owner_id: Seq<char>,
    request_id: Seq<char>,
) -> bool {
    s.dom().contains(task_id) && s[task_id].owner_id == owner_id && s[task_id].request_id
        == request_id
}

/// Captures a submission. One request is one task: the same submission again is that task, and
/// anything else under the task's identity or the request's is a conflict.
pub open spec fn submit(s: MigrationState, submission: MigrationTaskSubmissionView) -> (
    MigrationState,
    Result<MigrationTaskRecordView, MigrationErrorView>,
) {
    let id = submission.task_id;
    if s.dom().contains(id) {
        if repeats(s[id], submission) {
            (s, Ok(s[id]))
        } else {
            (s, Err(MigrationErrorView::Conflict))
        }
    } else if exists|k: Seq<char>| requested(s, k, submission.owner_id, submission.request_id) {
        (s, Err(MigrationErrorView::Conflict))
    } else {
        (s.insert(id, captured(submission)), Ok(captured(submission)))
    }
}

/// The task is in that state.
pub open spec fn stands(s: MigrationState, task_id: Seq<char>, state: MigrationTaskState) -> bool {
    s.dom().contains(task_id) && s[task_id].state == state
}

/// The task is the oldest in that state; of two that came together the one that sorts first.
pub open spec fn oldest(s: MigrationState, task_id: Seq<char>, state: MigrationTaskState) -> bool {
    &&& stands(s, task_id, state)
    &&& forall|k: Seq<char>| #[trigger]
        stands(s, k, state) ==> k == task_id || s[task_id].created_at_ms < s[k].created_at_ms || (
        s[task_id].created_at_ms == s[k].created_at_ms && text::lt(task_id, k))
}

/// The oldest task in a state.
pub open spec fn first_in(s: MigrationState, state: MigrationTaskState) -> Option<Seq<char>> {
    if exists|k: Seq<char>| oldest(s, k, state) {
        Some(choose|k: Seq<char>| oldest(s, k, state))
    } else {
        None
    }
}

proof fn oldest_is_unique(
    s: MigrationState,
    a: Seq<char>,
    b: Seq<char>,
    state: MigrationTaskState,
)
    requires
        oldest(s, a, state),
        oldest(s, b, state),
    ensures
        a == b,
{
    assert(stands(s, a, state) && stands(s, b, state));
    if a != b && s[a].created_at_ms == s[b].created_at_ms {
        text::lt_transitive(a, b, a);
        text::lt_irreflexive(a);
    }
}

pub open spec fn moved(s: MigrationState, task_id: Seq<char>, state: MigrationTaskState) -> MigrationState {
    s.insert(task_id, MigrationTaskRecordView { state, ..s[task_id] })
}

/// Takes the next task: one that was interrupted comes before any that waits.
pub open spec fn claim(s: MigrationState) -> (MigrationState, Option<MigrationTaskRecordView>) {
    match first_in(s, MigrationTaskState::Running) {
        Some(k) => (s, Some(s[k])),
        None => match first_in(s, MigrationTaskState::Captured) {
            Some(k) => {
                let t = moved(s, k, MigrationTaskState::Running);
                (t, Some(t[k]))
            },
            None => (s, None),
        },
    }
}

/// Ends a running task.
pub open spec fn finish(s: MigrationState, task_id: Seq<char>, state: MigrationTaskState) -> (
    MigrationState,
    Result<(), MigrationErrorView>,
) {
    if !s.dom().contains(task_id) {
        (s, Err(MigrationErrorView::NotFound(task_id)))
    } else if s[task_id].state != MigrationTaskState::Running {
        (s, Err(MigrationErrorView::InvalidState { task_id, state: s[task_id].state }))
    } else {
        (moved(s, task_id, state), Ok(()))
    }
}

/// Puts a failed task of an owner back into the queue under its own identity.
pub open spec fn resume(s: MigrationState, owner_id: Seq<char>, task_id: Seq<char>) -> (
    MigrationState,
    Result<MigrationTaskRecordView, MigrationErrorView>,
) {
    if !s.dom().contains(task_id) || s[task_id].owner_id != owner_id {
        (s, Err(MigrationErrorView::NotFound(task_id)))
    } else if s[task_id].state != MigrationTaskState::Failed {
        (s, Err(MigrationErrorView::InvalidState { task_id, state: s[task_id].state }))
    } else {
        let t = moved(s, task_id, MigrationTaskState::Captured);
        (t, Ok(t[task_id]))
    }
}

/// Cancels a task of an owner that has not ended.
pub open spec fn cancel(s: MigrationState, owner_id: Seq<char>, task_id: Seq<char>) -> (
    MigrationState,
    Result<(), MigrationErrorView>,
) {
    if !s.dom().contains(task_id) || s[task_id].owner_id != owner_id {
        (s, Err(MigrationErrorView::NotFound(task_id)))
    } else {
        match s[task_id].state {
            MigrationTaskState::Captured | MigrationTaskState::Running => (
                moved(s, task_id, MigrationTaskState::Cancelled),
                Ok(()),
            ),
            MigrationTaskState::Cancelled => (s, Ok(())),
            _ => (s, Err(MigrationErrorView::InvalidState { task_id, state: s[task_id].state })),
        }
    }
}

pub open spec fn seen<T: View>(r: Result<T, MigrationTaskError>) -> Result<
    T::V,
    MigrationErrorView,
> {
    match r {
        Ok(value) => Ok(value@),
        Err(e) => Err(e@),
    }
}

pub open spec fn plain<T>(r: Result<T, MigrationTaskError>) -> Result<T, MigrationErrorView> {
    match r {
        Ok(value) => Ok(value),
        Err(e) => Err(e@),
    }
}

/// The queue of submitted migrations.
#[derive(Debug)]
pub struct MigrationTaskStore {
    tasks: TextMap<MigrationTaskRecord>,
}

impl View for MigrationTaskStore {
    type V = MigrationState;

    closed spec fn view(&self) -> MigrationState {
        ordered::values(self.tasks@)
    }
}

impl MigrationTaskStore {
    #[verifier::type_invariant]
    spec fn is_sound(self) -> bool {
        sound(ordered::values(self.tasks@))
    }

    pub fn new() -> (r: Self)
        ensures
            r@ == Map::<Seq<char>, MigrationTaskRecordView>::empty(),
    {
        let tasks: TextMap<MigrationTaskRecord> = TextMap::new();
        assert(ordered::values(tasks@) =~= Map::<Seq<char>, MigrationTaskRecordView>::empty());
        MigrationTaskStore { tasks }
    }

    fn put(&mut self, task_id: &str, record: MigrationTaskRecord)
        requires
            sound(old(self)@.insert(task_id@, record@)),
        ensures
            final(self)@ == old(self)@.insert(task_id@, record@),
    {
        let mut tasks: TextMap<MigrationTaskRecord> = TextMap::new();
        assert(ordered::values(tasks@) =~= Map::<Seq<char>, MigrationTaskRecordView>::empty());
        std::mem::swap(&mut tasks, &mut self.tasks);
        let ghost before = tasks@;
        let _ = tasks.insert(task_id.to_owned(), record);
        proof {
            ordered::values_insert(before, task_id@, record);
        }
        self.tasks = tasks;
    }

    fn is_requested(&self, owner_id: &str, request_id: &str) -> (r: bool)
        ensures
            r == exists|k: Seq<char>| requested(self@, k, owner_id@, request_id@),
    {
        let count = self.tasks.len();
        let mut i: usize = 0;
        while i < count
            invariant
                i <= count == self.tasks.keys().len(),
                ordered::lists(self.tasks@, self.tasks.keys()),
                forall|j: int|
                    0 <= j < i ==> !requested(
                        self@,
                        #[trigger] self.tasks.keys()[j],
                        owner_id@,
                        request_id@,
                    ),
            decreases count - i,
        {
            let task = self.tasks.value_at(i);
            let ghost key = self.tasks.keys()[i as int];
            assert(self@.dom().contains(key) && self@[key] == task@);
            if text::same(task.owner_id.as_str(), owner_id) && text::same(
                task.request_id.as_str(),
                request_id,
            ) {
                assert(requested(self@, key, owner_id@, request_id@));
                return true;
            }
            i += 1;
        }
        proof {
            assert forall|k: Seq<char>| !requested(self@, k, owner_id@, request_id@) by {
                if self@.dom().contains(k) {
                    assert(self.tasks@.dom().contains(k));
                    assert(self.tasks.keys().contains(k));
                }
            }
        }
        false
    }

    /// Captures a submission.
    pub fn submit(&mut self, submission: &MigrationTaskSubmission) -> (r: Result<
        MigrationTaskRecord,
        MigrationTaskError,
    >)
        ensures
            (final(self)@, seen(r)) == submit(old(self)@, submission@),
    {
        if let Some(task) = self.tasks.get(submission.task_id.as_str()) {
            if text::same(task.owner_id.as_str(), submission.owner_id.as_str()) && text::same(
                task.request_id.as_str(),
                submission.request_id.as_str(),
            ) && text::same(task.task_id.as_str(), submission.task_id.as_str()) && text::same(
                task.project_name.as_str(),
                submission.project_name.as_str(),
            ) && task.project_digest.same(&submission.project_digest) && task.project_size_bytes
                == submission.project_size_bytes && task.file_count == submission.file_count {
                return Ok(task.clone());
            }
            return Err(MigrationTaskError::Conflict);
        }
        if self.is_requested(submission.owner_id.as_str(), submission.request_id.as_str()) {
            return Err(MigrationTaskError::Conflict);
        }
        let record = MigrationTaskRecord {
            owner_id: submission.owner_id.clone(),
            request_id: submission.request_id.clone(),
            task_id: submission.task_id.clone(),
            project_name: submission.project_name.clone(),
            project_digest: submission.project_digest.clone(),
            project_size_bytes: submission.project_size_bytes,
            file_count: submission.file_count,
            created_at_ms: submission.created_at_ms,
            state: MigrationTaskState::Captured,
        };
        let copy = record.clone();
        proof {
            use_type_invariant(&*self);
            submission_is_sound(self@, submission@);
        }
        self.put(submission.task_id.as_str(), record);
        Ok(copy)
    }

    fn first(&self, state: MigrationTaskState) -> (r: Option<MigrationTaskRecord>)
        ensures
            match first_in(self@, state) {
                Some(k) => r matches Some(task) && task@ == self@[k] && oldest(self@, k, state),
                None => r is None,
            },
    {
        let count = self.tasks.len();
        let ghost keys = self.tasks.keys();
        let mut best: Option<usize> = None;
        let mut i: usize = 0;
        while i < count
            invariant
                i <= count == keys.len(),
                keys == self.tasks.keys(),
                ordered::lists(self.tasks@, keys),
                match best {
                    None => forall|j: int|
                        0 <= j < i ==> !stands(self@, #[trigger] keys[j], state),
                    Some(b) => b < i && stands(self@, keys[b as int], state) && forall|j: int|
                        0 <= j < i && stands(self@, #[trigger] keys[j], state) ==> j == b
                            || self@[keys[b as int]].created_at_ms < self@[keys[j]].created_at_ms
                            || (self@[keys[b as int]].created_at_ms
                            == self@[keys[j]].created_at_ms && b < j),
                },
            decreases count - i,
        {
            let task = self.tasks.value_at(i);
            assert(self@.dom().contains(keys[i as int]) && self@[keys[i as int]] == task@);
            if task.state == state {
                match best {
                    None => {
                        best = Some(i);
                    },
                    Some(b) => {
                        let known = self.tasks.value_at(b);
                        assert(self@[keys[b as int]] == known@);
                        if task.created_at_ms < known.created_at_ms {
                            best = Some(i);
                        }
                    },
                }
            }
            i += 1;
        }
        match best {
            None => {
                proof {
                    assert forall|k: Seq<char>| !stands(self@, k, state) by {
                        if self@.dom().contains(k) {
                            assert(self.tasks@.dom().contains(k));
                            assert(keys.contains(k));
                        }
                    }
                }
                None
            },
            Some(b) => {
                let task = self.tasks.value_at(b).clone();
                proof {
                    let key = keys[b as int];
                    assert(self@[key] == task@);
                    assert forall|k: Seq<char>| #[trigger] stands(self@, k, state) implies k == key
                        || self@[key].created_at_ms < self@[k].created_at_ms || (
                    self@[key].created_at_ms == self@[k].created_at_ms && text::lt(key, k)) by {
                        assert(self.tasks@.dom().contains(k));
                        assert(keys.contains(k));
                        let j = choose|j: int| 0 <= j < keys.len() && keys[j] == k;
                        assert(stands(self@, keys[j], state));
                        if b < j {
                            assert(text::lt(keys[b as int], keys[j]));
                        }
                    }
                    assert(oldest(self@, key, state));
                    oldest_is_unique(
                        self@,
                        key,
                        choose|k: Seq<char>| oldest(self@, k, state),
                        state,
                    );
                }
                Some(task)
            },
        }
    }

    /// Takes the next task: one that was interrupted comes before any that waits.
    pub fn claim_next(&mut self) -> (r: Option<MigrationTaskRecord>)
        ensures
            ({
                let (t, claimed) = claim(old(self)@);
                &&& final(self)@ == t
                &&& match claimed {
                    Some(task) => r matches Some(found) && found@ == task,
                    None => r is None,
                }
            }),
    {
        if let Some(task) = self.first(MigrationTaskState::Running) {
            return Some(task);
        }
        match self.first(MigrationTaskState::Captured) {
            Some(task) => {
                let mut task = task;
                task.state = MigrationTaskState::Running;
                let id = task.task_id.clone();
                proof {
                    use_type_invariant(&*self);
                    let k = first_in(self@, MigrationTaskState::Captured)->0;
                    assert(stands(self@, k, MigrationTaskState::Captured));
                    moving_is_sound(self@, k, MigrationTaskState::Running);
                }
                self.put(id.as_str(), task.clone());
                Some(task)
            },
            None => None,
        }
    }

    fn relocate(&mut self, task_id: &str, state: MigrationTaskState) -> (r: Option<
        MigrationTaskRecord,
    >)
        ensures
            old(self)@.dom().contains(task_id@) ==> final(self)@ == moved(
                old(self)@,
                task_id@,
                state,
            ) && (r matches Some(task) && task@ == final(self)@[task_id@]),
            !old(self)@.dom().contains(task_id@) ==> final(self)@ == old(self)@ && r is None,
    {
        match self.tasks.get(task_id) {
            Some(task) => {
                let mut task = task.clone();
                task.state = state;
                proof {
                    use_type_invariant(&*self);
                    moving_is_sound(self@, task_id@, state);
                }
                self.put(task_id, task.clone());
                Some(task)
            },
            None => None,
        }
    }

    /// Ends a running task.
    pub fn finish(&mut self, task_id: &str, state: MigrationTaskState) -> (r: Result<
        (),
        MigrationTaskError,
    >)
        ensures
            (final(self)@, plain(r)) == finish(old(self)@, task_id@, state),
    {
        match self.tasks.get(task_id) {
            None => {
                return Err(MigrationTaskError::NotFound(task_id.to_owned()));
            },
            Some(task) => {
                if task.state != MigrationTaskState::Running {
                    return Err(
                        MigrationTaskError::InvalidState {
                            task_id: task_id.to_owned(),
                            state: task.state,
                        },
                    );
                }
            },
        }
        let _ = self.relocate(task_id, state);
        Ok(())
    }

    /// Puts a failed task of an owner back into the queue under its own identity.
    pub fn resume(&mut self, owner_id: &str, task_id: &str) -> (r: Result<
        MigrationTaskRecord,
        MigrationTaskError,
    >)
        ensures
            (final(self)@, seen(r)) == resume(old(self)@, owner_id@, task_id@),
    {
        match self.tasks.get(task_id) {
            None => {
                return Err(MigrationTaskError::NotFound(task_id.to_owned()));
            },
            Some(task) => {
                if !text::same(task.owner_id.as_str(), owner_id) {
                    return Err(MigrationTaskError::NotFound(task_id.to_owned()));
                }
                if task.state != MigrationTaskState::Failed {
                    return Err(
                        MigrationTaskError::InvalidState {
                            task_id: task_id.to_owned(),
                            state: task.state,
                        },
                    );
                }
            },
        }
        match self.relocate(task_id, MigrationTaskState::Captured) {
            Some(task) => Ok(task),
            None => Err(MigrationTaskError::NotFound(task_id.to_owned())),
        }
    }

    /// Cancels a task of an owner that has not ended.
    pub fn cancel(&mut self, owner_id: &str, task_id: &str) -> (r: Result<(), MigrationTaskError>)
        ensures
            (final(self)@, plain(r)) == cancel(old(self)@, owner_id@, task_id@),
    {
        let state = match self.tasks.get(task_id) {
            None => {
                return Err(MigrationTaskError::NotFound(task_id.to_owned()));
            },
            Some(task) => {
                if !text::same(task.owner_id.as_str(), owner_id) {
                    return Err(MigrationTaskError::NotFound(task_id.to_owned()));
                }
                task.state
            },
        };
        match state {
            MigrationTaskState::Captured | MigrationTaskState::Running => {
                let _ = self.relocate(task_id, MigrationTaskState::Cancelled);
                Ok(())
            },
            MigrationTaskState::Cancelled => Ok(()),
            _ => Err(MigrationTaskError::InvalidState { task_id: task_id.to_owned(), state }),
        }
    }

    /// Whether a task was cancelled.
    pub fn is_cancelled(&self, task_id: &str) -> (r: Result<bool, MigrationTaskError>)
        ensures
            plain(r) == (if self@.dom().contains(task_id@) {
                Ok::<bool, MigrationErrorView>(
                    self@[task_id@].state == MigrationTaskState::Cancelled,
                )
            } else {
                Err(MigrationErrorView::NotFound(task_id@))
            }),
    {
        match self.tasks.get(task_id) {
            Some(task) => Ok(task.state == MigrationTaskState::Cancelled),
            None => Err(MigrationTaskError::NotFound(task_id.to_owned())),
        }
    }
}

/// Every task stands under its own identity, and no request has two tasks.
pub open spec fn sound(s: MigrationState) -> bool {
    &&& forall|k: Seq<char>| #[trigger] s.dom().contains(k) ==> s[k].task_id == k
    &&& forall|j: Seq<char>, k: Seq<char>, owner: Seq<char>, request: Seq<char>|
        #![trigger requested(s, j, owner, request), requested(s, k, owner, request)]
        requested(s, j, owner, request) && requested(s, k, owner, request) ==> j == k
}

proof fn moving_is_sound(s: MigrationState, task_id: Seq<char>, state: MigrationTaskState)
    requires
        sound(s),
        s.dom().contains(task_id),
    ensures
        sound(moved(s, task_id, state)),
{
    let t = moved(s, task_id, state);
    assert forall|j: Seq<char>, k: Seq<char>, owner: Seq<char>, request: Seq<char>|
        #![trigger requested(t, j, owner, request), requested(t, k, owner, request)]
        requested(t, j, owner, request) && requested(t, k, owner, request) implies j == k by {
        assert(requested(s, j, owner, request) && requested(s, k, owner, request));
    }
}

proof fn submission_is_sound(s: MigrationState, submission: MigrationTaskSubmissionView)
    requires
        sound(s),
    ensures
        sound(submit(s, submission).0),
{
    let t = submit(s, submission).0;
    if t != s {
        assert forall|j: Seq<char>, k: Seq<char>, owner: Seq<char>, request: Seq<char>|
            #![trigger requested(t, j, owner, request), requested(t, k, owner, request)]
            requested(t, j, owner, request) && requested(t, k, owner, request) implies j == k by {
            assert(j != submission.task_id ==> requested(s, j, owner, request));
            assert(k != submission.task_id ==> requested(s, k, owner, request));
        }
    }
}

/// From `s` to `t` no task is lost, and nothing but its state changes.
pub open spec fn keeps_tasks(s: MigrationState, t: MigrationState) -> bool {
    forall|k: Seq<char>| #[trigger]
        s.dom().contains(k) ==> t.dom().contains(k) && t[k] == (MigrationTaskRecordView {
            state: t[k].state,
            ..s[k]
        })
}

/// Every operation keeps the queue sound and every task, and changes nothing but states.
pub proof fn tasks_keep_their_identity(
    s: MigrationState,
    submission: MigrationTaskSubmissionView,
    owner_id: Seq<char>,
    task_id: Seq<char>,
    state: MigrationTaskState,
)
    requires
        sound(s),
    ensures
        sound(submit(s, submission).0) && keeps_tasks(s, submit(s, submission).0),
        sound(claim(s).0) && keeps_tasks(s, claim(s).0),
        sound(finish(s, task_id, state).0) && keeps_tasks(s, finish(s, task_id, state).0),
        sound(resume(s, owner_id, task_id).0) && keeps_tasks(s, resume(s, owner_id, task_id).0),
        sound(cancel(s, owner_id, task_id).0) && keeps_tasks(s, cancel(s, owner_id, task_id).0),
{
    submission_is_sound(s, submission);
    if s.dom().contains(task_id) {
        moving_is_sound(s, task_id, state);
        moving_is_sound(s, task_id, MigrationTaskState::Captured);
        moving_is_sound(s, task_id, MigrationTaskState::Cancelled);
    }
    if let Some(k) = first_in(s, MigrationTaskState::Captured) {
        assert(stands(s, k, MigrationTaskState::Captured));
        moving_is_sound(s, k, MigrationTaskState::Running);
    }
}

/// A submission that is repeated is the same task, whenever it comes.
pub proof fn submission_is_idempotent(
    s: MigrationState,
    submission: MigrationTaskSubmissionView,
    again_ms: u64,
)
    requires
        submit(s, submission).1 is Ok,
    ensures
        ({
            let (t, r) = submit(s, submission);
            submit(t, MigrationTaskSubmissionView { created_at_ms: again_ms, ..submission }) == (
                t,
                r,
            )
        }),
{
}

/// Other content under a request that has a task is refused, and nothing changes.
pub proof fn changed_submissions_conflict(
    s: MigrationState,
    submission: MigrationTaskSubmissionView,
    changed: MigrationTaskSubmissionView,
)
    requires
        sound(s),
        submit(s, submission).1 is Ok,
        changed.owner_id == submission.owner_id,
        changed.request_id == submission.request_id,
        changed != (MigrationTaskSubmissionView {
            created_at_ms: changed.created_at_ms,
            ..submission
        }),
    ensures
        ({
            let t = submit(s, submission).0;
            submit(t, changed) == (
                t,
                Err::<MigrationTaskRecordView, _>(MigrationErrorView::Conflict),
            )
        }),
{
    let t = submit(s, submission).0;
    submission_is_sound(s, submission);
    assert(requested(t, submission.task_id, submission.owner_id, submission.request_id));
    if t.dom().contains(changed.task_id) && repeats(t[changed.task_id], changed) {
        assert(requested(t, changed.task_id, submission.owner_id, submission.request_id));
    }
}

/// Only a failed task is queued again, and it keeps its identity.
pub proof fn only_failed_tasks_resume(s: MigrationState, owner_id: Seq<char>, task_id: Seq<char>)
    ensures
        resume(s, owner_id, task_id).1 is Ok <==> stands(s, task_id, MigrationTaskState::Failed)
            && s[task_id].owner_id == owner_id,
        resume(s, owner_id, task_id).1 is Ok ==> resume(s, owner_id, task_id).1->Ok_0 == (
        MigrationTaskRecordView { state: MigrationTaskState::Captured, ..s[task_id] }),
{
}

/// A cancelled task is never claimed, finished or resumed.
pub proof fn cancelled_tasks_stay_cancelled(
    s: MigrationState,
    task_id: Seq<char>,
    owner_id: Seq<char>,
    other: Seq<char>,
    state: MigrationTaskState,
)
    requires
        stands(s, task_id, MigrationTaskState::Cancelled),
    ensures
        stands(claim(s).0, task_id, MigrationTaskState::Cancelled),
        stands(finish(s, other, state).0, task_id, MigrationTaskState::Cancelled),
        stands(resume(s, owner_id, other).0, task_id, MigrationTaskState::Cancelled),
        stands(cancel(s, owner_id, other).0, task_id, MigrationTaskState::Cancelled),
{
    if let Some(k) = first_in(s, MigrationTaskState::Captured) {
        assert(stands(s, k, MigrationTaskState::Captured));
    }
}

spec fn before(s: MigrationState, a: Seq<char>, b: Seq<char>) -> bool {
    s[a].created_at_ms < s[b].created_at_ms || (s[a].created_at_ms == s[b].created_at_ms
        && text::lt(a, b))
}

proof fn oldest_of(s: MigrationState, pool: Set<Seq<char>>) -> (k: Seq<char>)
    requires
        pool.finite(),
        pool.len() > 0,
    ensures
        pool.contains(k),
        forall|j: Seq<char>| #[trigger] pool.contains(j) ==> j == k || before(s, k, j),
    decreases pool.len(),
{
    let a = pool.choose();
    let rest = pool.remove(a);
    if rest.len() == 0 {
        assert forall|j: Seq<char>| #[trigger] pool.contains(j) implies j == a by {
            if j != a {
                assert(rest.contains(j));
            }
        }
        a
    } else {
        let b = oldest_of(s, rest);
        text::lt_total(a, b);
        let k = if before(s, a, b) {
            a
        } else {
            b
        };
        assert forall|j: Seq<char>| #[trigger] pool.contains(j) implies j == k || before(s, k, j) by {
            if j != a {
                assert(rest.contains(j));
                if k == a && j != b && s[a].created_at_ms == s[b].created_at_ms
                    && s[b].created_at_ms == s[j].created_at_ms {
                    text::lt_transitive(a, b, j);
                }
            }
        }
        k
    }
}

/// Where a task waits or was interrupted, claiming gives one.
pub proof fn waiting_tasks_are_claimed(s: MigrationState, task_id: Seq<char>)
    requires
        s.dom().finite(),
        stands(s, task_id, MigrationTaskState::Captured) || stands(
            s,
            task_id,
            MigrationTaskState::Running,
        ),
    ensures
        claim(s).1 is Some,
        claim(s).1->0.state == MigrationTaskState::Running,
{
    let state = s[task_id].state;
    let pool = s.dom().filter(|k: Seq<char>| s[k].state == state);
    s.dom().lemma_len_filter(|k: Seq<char>| s[k].state == state);
    assert(pool.contains(task_id));
    let k = oldest_of(s, pool);
    assert forall|j: Seq<char>| #[trigger] stands(s, j, state) implies j == k || before(s, k, j) by {
        assert(pool.contains(j));
    }
    assert(oldest(s, k, state));
    if let Some(first) = first_in(s, MigrationTaskState::Running) {
        assert(stands(s, first, MigrationTaskState::Running));
    }
}

/// How a dispatched task ends: a cancelled one is left as it is, any other completes or fails with
/// its result.
pub open spec fn ending(cancelled: bool, result: Result<(), Seq<char>>) -> (
    Option<MigrationTaskState>,
    Seq<char>,
    EventView,
) {
    if cancelled {
        (
            None,
            "migration-cancelled"@,
            EventView::RunFailed { error: "migration cancelled by user"@ },
        )
    } else {
        match result {
            Ok(_) => (
                Some(MigrationTaskState::Completed),
                "migration-completed"@,
                EventView::RunCompleted { result: "migration Episode completed successfully"@ },
            ),
            Err(error) => (
                Some(MigrationTaskState::Failed),
                "migration-failed"@,
                EventView::RunFailed { error },
            ),
        }
    }
}

/// What tells two endings apart that mean different things.
pub open spec fn content_key(event: EventView) -> Seq<char> {
    let said = match event {
        EventView::RunFailed { error } => error,
        EventView::RunCompleted { result } => result,
        _ => ""@,
    };
    digest::digest_text(vstd::utf8::encode_utf8(said)).skip(7).take(16)
}

/// The first sixteen digits of the digest of what an ending says.
pub fn event_content_key(event: &Event) -> (r: String)
    ensures
        r@ == content_key(event@),
{
    let said = match event {
        Event::RunFailed { error } => error.as_str(),
        Event::RunCompleted { result } => result.as_str(),
        _ => "",
    };
    let identity = Sha256Digest::digest_bytes(said.as_bytes());
    let digits = identity.hexadecimal().substring_char(0, 16);
    assert(digits@ =~= identity@.skip(7).take(16));
    digits.to_owned()
}

/// The state, the key and the event with which a dispatched task ends. The key is taken from the
/// content: a task that is resumed can fail twice with different explanations, and both are kept.
pub fn task_ending(cancelled: bool, result: Result<(), String>) -> (r: (
    Option<MigrationTaskState>,
    String,
    Event,
))
    ensures
        ({
            let (state, key, event) = ending(
                cancelled,
                match result {
                    Ok(_) => Ok(()),
                    Err(e) => Err(e@),
                },
            );
            &&& r.0 == state
            &&& r.1@ == key + ":"@ + content_key(event)
            &&& r.2@ == event
        }),
{
    let (state, key, event) = if cancelled {
        (
            None,
            "migration-cancelled",
            Event::RunFailed { error: "migration cancelled by user".to_owned() },
        )
    } else {
        match result {
            Ok(_) => (
                Some(MigrationTaskState::Completed),
                "migration-completed",
                Event::RunCompleted {
                    result: "migration Episode completed successfully".to_owned(),
                },
            ),
            Err(error) => (
                Some(MigrationTaskState::Failed),
                "migration-failed",
                Event::RunFailed { error },
            ),
        }
    };
    let content = event_content_key(&event);
    (state, text::enclosed(key, ":", content.as_str()), event)
}

/// The frame in which the dispatcher tells of a task.
pub open spec fn dispatcher_frame(task_id: Seq<char>, event: EventView, now_ms: u64) -> ProducerEventView {
    ProducerEventView {
        task_id: Some(task_id),
        ..events::emitted(
            task_id,
            ProducerView { component: "alloyport-server"@, instance: "migration-dispatcher"@ },
            event,
            now_ms,
        )
    }
}

/// The frame in which the dispatcher tells of a task.
pub fn dispatcher_event(task_id: &str, event: Event, now_ms: u64) -> (r: ProducerEvent)
    ensures
        r@ == dispatcher_frame(task_id@, event@, now_ms),
{
    let mut frame = ProducerEvent::emitted_at(
        task_id,
        Producer::new("alloyport-server", "migration-dispatcher"),
        event,
        now_ms,
    );
    frame.task_id = Some(task_id.to_owned());
    frame
}

/// The largest encoded project.
pub const MAX_ENCODED_PROJECT_BYTES: u64 = 67108864;

/// One file of a submitted project.
#[derive(Debug, PartialEq, Eq)]
pub struct ProjectFile {
    pub path: String,
    /// Why the path is no path of a bundle, where that is so.
    pub path_problem: Option<String>,
    pub contents: Vec<u8>,
}

/// Why the encoded bytes of a project are not decoded: there are too many, or they are not the
/// ones that were submitted.
pub open spec fn encoded_problem(bytes: Seq<u8>, submitted: Seq<char>) -> Option<Seq<char>> {
    if bytes.len() > MAX_ENCODED_PROJECT_BYTES {
        Some("encoded project exceeds dispatcher limit"@)
    } else if digest::digest_text(bytes) != submitted {
        Some("submitted project digest changed in storage"@)
    } else {
        None
    }
}

/// Checks the encoded bytes of a project.
pub fn check_encoded_project(bytes: &[u8], submitted: &Sha256Digest) -> (r: Result<(), String>)
    ensures
        match encoded_problem(bytes@, submitted@) {
            Some(e) => r matches Err(error) && error@ == e,
            None => r is Ok,
        },
{
    if bytes.len() as u64 > MAX_ENCODED_PROJECT_BYTES {
        return Err("encoded project exceeds dispatcher limit".to_owned());
    }
    if !Sha256Digest::digest_bytes(bytes).same(submitted) {
        return Err("submitted project digest changed in storage".to_owned());
    }
    Ok(())
}

/// Paths in strictly increasing order.
pub open spec fn paths_ordered(files: Seq<ProjectFile>) -> bool {
    forall|i: int| 0 < i < files.len() ==> text::lt(files[i - 1].path@, (#[trigger] files[i]).path@)
}

/// What is wrong with one file of a project: its path itself, or its place behind the one before.
pub open spec fn stored_file_problem(files: Seq<ProjectFile>, i: int) -> Option<Seq<char>> {
    match files[i].path_problem {
        Some(e) => Some("invalid stored project path: "@ + e@),
        None => if i > 0 && !text::lt(files[i - 1].path@, files[i].path@) {
            Some("stored project paths are not unique and sorted"@)
        } else {
            None
        },
    }
}

/// What is wrong with the first bad one of the first `n` files.
pub open spec fn first_file_problem(files: Seq<ProjectFile>, n: int) -> Option<Seq<char>>
    decreases n,
{
    if n <= 0 {
        None
    } else {
        match first_file_problem(files, n - 1) {
            Some(e) => Some(e),
            None => stored_file_problem(files, n - 1),
        }
    }
}

/// Why a decoded project is not written out.
pub open spec fn project_problem(files: Seq<ProjectFile>, expected_files: u64) -> Option<Seq<char>> {
    if files.len() != expected_files || files.len() == 0 {
        Some("submitted project file count changed"@)
    } else {
        first_file_problem(files, files.len() as int)
    }
}

proof fn first_problem_stays(files: Seq<ProjectFile>, n: int, m: int)
    requires
        0 <= n <= m,
        first_file_problem(files, n) is Some,
    ensures
        first_file_problem(files, m) == first_file_problem(files, n),
    decreases m,
{
    if n < m {
        first_problem_stays(files, n, m - 1);
    }
}

proof fn good_files_have_no_problem(files: Seq<ProjectFile>, n: int, i: int)
    requires
        0 <= i < n,
        first_file_problem(files, n) is None,
    ensures
        stored_file_problem(files, i) is None,
    decreases n,
{
    if i < n - 1 {
        good_files_have_no_problem(files, n - 1, i);
    }
}

/// Checks a decoded project: the files are as many as were submitted, each has a path of a bundle
/// and stands in strict order of the paths.
pub fn check_project(files: &Vec<ProjectFile>, expected_files: u64) -> (r: Result<(), String>)
    ensures
        match project_problem(files@, expected_files) {
            Some(e) => r matches Err(error) && error@ == e,
            None => r is Ok,
        },
{
    if files.len() as u64 != expected_files || files.len() == 0 {
        return Err("submitted project file count changed".to_owned());
    }
    let mut i: usize = 0;
    while i < files.len()
        invariant
            i <= files@.len(),
            first_file_problem(files@, i as int) is None,
            files@.len() == expected_files,
            files@.len() > 0,
        decreases files@.len() - i,
    {
        if let Some(problem) = &files[i].path_problem {
            proof {
                first_problem_stays(files@, i + 1, files@.len() as int);
            }
            return Err(text::concat("invalid stored project path: ", problem.as_str()));
        }
        if i > 0 && !text::less(files[i - 1].path.as_str(), files[i].path.as_str()) {
            proof {
                first_problem_stays(files@, i + 1, files@.len() as int);
            }
            return Err("stored project paths are not unique and sorted".to_owned());
        }
        i += 1;
    }
    Ok(())
}

/// Checks what stands in the project's directory once its files were written: the migration's
/// specification is a file there, submitted now or before.
pub fn check_specification(present: bool) -> (r: Result<(), String>)
    ensures
        r is Ok <==> present,
        r matches Err(e) ==> e@ == "project root must contain migration-spec-v1.json"@,
{
    if present {
        Ok(())
    } else {
        Err("project root must contain migration-spec-v1.json".to_owned())
    }
}

/// A project is written out only with paths that were accepted, each once and in order.
pub proof fn written_projects_have_good_paths(files: Seq<ProjectFile>, expected_files: u64)
    requires
        project_problem(files, expected_files) is None,
    ensures
        forall|i: int| 0 <= i < files.len() ==> (#[trigger] files[i]).path_problem is None,
        paths_ordered(files),
{
    assert forall|i: int| 0 <= i < files.len() implies (#[trigger] files[i]).path_problem is None
        && (i > 0 ==> text::lt(files[i - 1].path@, files[i].path@)) by {
        good_files_have_no_problem(files, files.len() as int, i);
    }
}

/// What stands at a path that should be written once.
#[derive(Debug, PartialEq, Eq)]
pub enum ExistingFile {
    Unsafe,
    Regular(Vec<u8>),
}

/// Why a file that exists is not taken for the one to write.
pub open spec fn existing_problem(path: Seq<char>, existing: ExistingFile, contents: Seq<u8>) -> Option<
    Seq<char>,
> {
    match existing {
        ExistingFile::Unsafe => Some("existing project path "@ + path + " is unsafe"@),
        ExistingFile::Regular(bytes) => if bytes@ == contents {
            None
        } else {
            Some("existing project file "@ + path + " has conflicting contents"@)
        },
    }
}

/// Accepts a file that exists only where it is the one to write.
pub fn accept_existing(path: &str, existing: &ExistingFile, contents: &[u8]) -> (r: Result<
    (),
    String,
>)
    ensures
        match existing_problem(path@, *existing, contents@) {
            Some(e) => r matches Err(error) && error@ == e,
            None => r is Ok,
        },
{
    match existing {
        ExistingFile::Unsafe => Err(text::enclosed("existing project path ", path, " is unsafe")),
        ExistingFile::Regular(bytes) => {
            if text::same_bytes(bytes.as_slice(), contents) {
                Ok(())
            } else {
                Err(text::enclosed("existing project file ", path, " has conflicting contents"))
            }
        },
    }
}

} // verus!

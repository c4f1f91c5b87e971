//! Episode snapshots that are replaced only by whoever saw the newest one.
use crate::ordered;
use crate::ordered::TextMap;
use crate::text;
use vstd::prelude::*;
use vstd::string::*;

verus! {

/// The complete state of one episode, as its encoded snapshot.
#[derive(Debug, PartialEq, Eq)]
pub struct DurableEpisodeState {
    pub episode_id: String,
    pub snapshot: Vec<u8>,
}

pub ghost struct EpisodeStateView {
    pub episode_id: Seq<char>,
    pub snapshot: Seq<u8>,
}

impl View for DurableEpisodeState {
    type V = EpisodeStateView;

    open spec fn view(&self) -> EpisodeStateView {
        EpisodeStateView { episode_id: self.episode_id@, snapshot: self.snapshot@ }
    }
}

impl Clone for DurableEpisodeState {
    fn clone(&self) -> (r: Self)
        ensures
            r@ == self@,
    {
        DurableEpisodeState {
            episode_id: self.episode_id.clone(),
            snapshot: text::copy_bytes(self.snapshot.as_slice()),
        }
    }
}

/// A snapshot and the count of those before it.
#[derive(Debug, PartialEq, Eq)]
pub struct VersionedEpisodeState {
    pub revision: u64,
    pub state: DurableEpisodeState,
}

pub ghost struct VersionedView {
    pub revision: u64,
    pub state: EpisodeStateView,
}

impl View for VersionedEpisodeState {
    type V = VersionedView;

    open spec fn view(&self) -> VersionedView {
        VersionedView { revision: self.revision, state: self.state@ }
    }
}

/// Why a snapshot is not read or written.
#[derive(Debug, PartialEq, Eq)]
pub enum EpisodeRepositoryError {
    NotFound(String),
    AlreadyExists(String),
    Conflict { expected: u64, actual: u64 },
    RevisionExhausted,
    Adapter(String),
}

pub ghost enum EpisodeErrorView {
    NotFound(Seq<char>),
    AlreadyExists(Seq<char>),
    Conflict { expected: u64, actual: u64 },
    RevisionExhausted,
    Adapter(Seq<char>),
}

impl View for EpisodeRepositoryError {
    type V = EpisodeErrorView;

    open spec fn view(&self) -> EpisodeErrorView {
        match *self {
            EpisodeRepositoryError::NotFound(id) => EpisodeErrorView::NotFound(id@),
            EpisodeRepositoryError::AlreadyExists(id) => EpisodeErrorView::AlreadyExists(id@),
            EpisodeRepositoryError::Conflict { expected, actual } => EpisodeErrorView::Conflict {
                expected,
                actual,
            },
            EpisodeRepositoryError::RevisionExhausted => EpisodeErrorView::RevisionExhausted,
            EpisodeRepositoryError::Adapter(d) => EpisodeErrorView::Adapter(d@),
        }
    }
}

pub type EpisodeStates = Map<Seq<char>, VersionedView>;

/// Every snapshot is kept under the identity of its episode, and with a revision that a durable
/// store can hold.
pub open spec fn sound(s: EpisodeStates) -> bool {
    forall|k: Seq<char>| #[trigger]
        s.dom().contains(k) ==> s[k].state.episode_id == k && s[k].revision <= i64::MAX
}

/// What a durable store holds of one episode. `state` is what its bytes read as.
#[derive(Debug, PartialEq, Eq)]
pub struct EpisodeRow {
    pub revision: i64,
    pub state: Result<DurableEpisodeState, String>,
}

pub open spec fn row_state(row: EpisodeRow) -> Result<EpisodeStateView, Seq<char>> {
    match row.state {
        Ok(state) => Ok(state@),
        Err(e) => Err(e@),
    }
}

/// The snapshot that a stored row stands for, or why it stands for none.
pub open spec fn row_read(
    id: Seq<char>,
    revision: i64,
    state: Result<EpisodeStateView, Seq<char>>,
) -> Result<VersionedView, EpisodeErrorView> {
    if revision < 0 {
        Err(EpisodeErrorView::Adapter("stored episode revision is negative"@))
    } else {
        match state {
            Err(e) => Err(EpisodeErrorView::Adapter(e)),
            Ok(state) => if state.episode_id != id {
                Err(
                    EpisodeErrorView::Adapter("stored episode identity does not match its key"@),
                )
            } else {
                Ok(VersionedView { revision: revision as u64, state })
            },
        }
    }
}

/// Reads a stored row.
pub fn read_row(id: &str, row: EpisodeRow) -> (r: Result<
    VersionedEpisodeState,
    EpisodeRepositoryError,
>)
    ensures
        match row_read(id@, row.revision, row_state(row)) {
            Ok(found) => r matches Ok(state) && state@ == found,
            Err(e) => r matches Err(error) && error@ == e,
        },
{
    if row.revision < 0 {
        return Err(
            EpisodeRepositoryError::Adapter("stored episode revision is negative".to_owned()),
        );
    }
    match row.state {
        Err(error) => Err(EpisodeRepositoryError::Adapter(error)),
        Ok(state) => {
            if !text::same(state.episode_id.as_str(), id) {
                return Err(
                    EpisodeRepositoryError::Adapter(
                        "stored episode identity does not match its key".to_owned(),
                    ),
                );
            }
            Ok(VersionedEpisodeState { revision: row.revision as u64, state })
        },
    }
}

pub open spec fn create(s: EpisodeStates, state: EpisodeStateView) -> (
    EpisodeStates,
    Result<(), EpisodeErrorView>,
) {
    if s.dom().contains(state.episode_id) {
        (s, Err(EpisodeErrorView::AlreadyExists(state.episode_id)))
    } else {
        (s.insert(state.episode_id, VersionedView { revision: 0, state }), Ok(()))
    }
}

pub open spec fn load(s: EpisodeStates, id: Seq<char>) -> Result<VersionedView, EpisodeErrorView> {
    if s.dom().contains(id) {
        Ok(s[id])
    } else {
        Err(EpisodeErrorView::NotFound(id))
    }
}

/// Replaces a snapshot by whoever saw the newest one.
pub open spec fn save(s: EpisodeStates, expected: u64, state: EpisodeStateView) -> (
    EpisodeStates,
    Result<u64, EpisodeErrorView>,
) {
    let id = state.episode_id;
    if expected == u64::MAX {
        (s, Err(EpisodeErrorView::RevisionExhausted))
    } else if expected > i64::MAX {
        (s, Err(EpisodeErrorView::Adapter("expected revision exceeds SQLite range"@)))
    } else if expected + 1 > i64::MAX {
        (s, Err(EpisodeErrorView::Adapter("next revision exceeds SQLite range"@)))
    } else if !s.dom().contains(id) {
        (s, Err(EpisodeErrorView::NotFound(id)))
    } else if s[id].revision != expected {
        (s, Err(EpisodeErrorView::Conflict { expected, actual: s[id].revision }))
    } else {
        let next = (expected + 1) as u64;
        (s.insert(id, VersionedView { revision: next, state }), Ok(next))
    }
}

pub open spec fn seen<T>(r: Result<T, EpisodeRepositoryError>) -> Result<T, EpisodeErrorView> {
    match r {
        Ok(value) => Ok(value),
        Err(e) => Err(e@),
    }
}

/// Snapshots with compare-and-swap writes, held in memory.
#[derive(Debug)]
pub struct EpisodeRepository {
    episodes: TextMap<VersionedEpisodeState>,
}

impl View for EpisodeRepository {
    type V = EpisodeStates;

    closed spec fn view(&self) -> EpisodeStates {
        ordered::values(self.episodes@)
    }
}

impl EpisodeRepository {
    #[verifier::type_invariant]
    spec fn is_sound(self) -> bool {
        sound(ordered::values(self.episodes@))
    }

    pub fn new() -> (r: Self)
        ensures
            r@ == Map::<Seq<char>, VersionedView>::empty(),
    {
        let episodes: TextMap<VersionedEpisodeState> = TextMap::new();
        assert(ordered::values(episodes@) =~= Map::<Seq<char>, VersionedView>::empty());
        EpisodeRepository { episodes }
    }

    fn put(&mut self, value: VersionedEpisodeState)
        requires
            value.revision <= i64::MAX,
        ensures
            final(self)@ == old(self)@.insert(value@.state.episode_id, value@),
    {
        proof {
            use_type_invariant(&*self);
        }
        let mut episodes: TextMap<VersionedEpisodeState> = TextMap::new();
        assert(ordered::values(episodes@) =~= Map::<Seq<char>, VersionedView>::empty());
        std::mem::swap(&mut episodes, &mut self.episodes);
        let ghost before = episodes@;
        let id = value.state.episode_id.clone();
        let _ = episodes.insert(id, value);
        proof {
            ordered::values_insert(before, value@.state.episode_id, value);
        }
        self.episodes = episodes;
    }

    /// Keeps the first snapshot of an episode.
    pub fn create(&mut self, state: DurableEpisodeState) -> (r: Result<
        (),
        EpisodeRepositoryError,
    >)
        ensures
            (final(self)@, seen(r)) == create(old(self)@, state@),
    {
        if self.episodes.contains(state.episode_id.as_str()) {
            return Err(EpisodeRepositoryError::AlreadyExists(state.episode_id));
        }
        self.put(VersionedEpisodeState { revision: 0, state });
        Ok(())
    }

    /// The newest snapshot of an episode.
    pub fn load(&self, id: &str) -> (r: Result<VersionedEpisodeState, EpisodeRepositoryError>)
        ensures
            match load(self@, id@) {
                Ok(found) => r matches Ok(state) && state@ == found,
                Err(e) => r matches Err(error) && error@ == e,
            },
            r matches Ok(found) ==> found@.state.episode_id == id@,
    {
        proof {
            use_type_invariant(self);
        }
        match self.episodes.get(id) {
            Some(found) => Ok(
                VersionedEpisodeState { revision: found.revision, state: found.state.clone() },
            ),
            None => Err(EpisodeRepositoryError::NotFound(id.to_owned())),
        }
    }

    /// What a durable store is given of an episode.
    pub fn row(&self, id: &str) -> (r: Option<EpisodeRow>)
        ensures
            r is Some <==> self@.dom().contains(id@),
            r matches Some(row) ==> row.revision == self@[id@].revision && row_state(row) == Ok::<
                EpisodeStateView,
                Seq<char>,
            >(self@[id@].state),
    {
        proof {
            use_type_invariant(self);
        }
        match self.episodes.get(id) {
            Some(found) => Some(
                EpisodeRow { revision: found.revision as i64, state: Ok(found.state.clone()) },
            ),
            None => None,
        }
    }

    /// Takes an episode back from a durable store.
    pub fn restore(&mut self, id: &str, row: EpisodeRow) -> (r: Result<(), EpisodeRepositoryError>)
        ensures
            match row_read(id@, row.revision, row_state(row)) {
                Ok(found) => r is Ok && final(self)@ == old(self)@.insert(id@, found),
                Err(e) => r matches Err(error) && error@ == e && final(self)@ == old(self)@,
            },
    {
        let found = read_row(id, row)?;
        self.put(found);
        Ok(())
    }

    /// Replaces the snapshot that the caller saw, and gives the new revision.
    pub fn save(&mut self, expected_revision: u64, state: DurableEpisodeState) -> (r: Result<
        u64,
        EpisodeRepositoryError,
    >)
        ensures
            (final(self)@, seen(r)) == save(old(self)@, expected_revision, state@),
    {
        let next_revision = match expected_revision.checked_add(1) {
            Some(next) => next,
            None => {
                return Err(EpisodeRepositoryError::RevisionExhausted);
            },
        };
        if expected_revision > 9223372036854775807 {
            return Err(
                EpisodeRepositoryError::Adapter(
                    "expected revision exceeds SQLite range".to_owned(),
                ),
            );
        }
        if next_revision > 9223372036854775807 {
            return Err(
                EpisodeRepositoryError::Adapter("next revision exceeds SQLite range".to_owned()),
            );
        }
        let actual = match self.episodes.get(state.episode_id.as_str()) {
            Some(found) => found.revision,
            None => {
                return Err(EpisodeRepositoryError::NotFound(state.episode_id));
            },
        };
        if actual != expected_revision {
            return Err(
                EpisodeRepositoryError::Conflict { expected: expected_revision, actual },
            );
        }
        self.put(VersionedEpisodeState { revision: next_revision, state });
        Ok(next_revision)
    }
}

/// What was given to a durable store reads back as the same snapshot.
pub proof fn stored_rows_read_back(s: EpisodeStates, id: Seq<char>)
    requires
        sound(s),
        s.dom().contains(id),
    ensures
        row_read(id, s[id].revision as i64, Ok(s[id].state)) == Ok::<
            VersionedView,
            EpisodeErrorView,
        >(s[id]),
{
}

/// Creating and saving keep every snapshot under the identity of its episode.
pub proof fn writing_is_sound(s: EpisodeStates, expected: u64, state: EpisodeStateView)
    requires
        sound(s),
    ensures
        sound(create(s, state).0),
        sound(save(s, expected, state).0),
{
}

/// Of two writers that saw the same snapshot only the first replaces it.
pub proof fn only_the_first_writer_wins(
    s: EpisodeStates,
    expected: u64,
    first: EpisodeStateView,
    second: EpisodeStateView,
)
    requires
        first.episode_id == second.episode_id,
        save(s, expected, first).1 is Ok,
    ensures
        ({
            let (t, r) = save(s, expected, first);
            &&& load(t, first.episode_id) == Ok::<VersionedView, EpisodeErrorView>(
                VersionedView { revision: r->Ok_0, state: first },
            )
            &&& save(t, expected, second) == (
                t,
                Err::<u64, _>(EpisodeErrorView::Conflict { expected, actual: r->Ok_0 }),
            )
        }),
{
}

/// An episode is created once and reads back its first snapshot.
pub proof fn episodes_are_created_once(
    s: EpisodeStates,
    first: EpisodeStateView,
    second: EpisodeStateView,
)
    requires
        first.episode_id == second.episode_id,
        create(s, first).1 is Ok,
    ensures
        ({
            let t = create(s, first).0;
            &&& load(t, first.episode_id) == Ok::<VersionedView, EpisodeErrorView>(
                VersionedView { revision: 0, state: first },
            )
            &&& create(t, second) == (
                t,
                Err::<(), _>(EpisodeErrorView::AlreadyExists(first.episode_id)),
            )
        }),
{
}

/// An episode that is not there is created at revision zero with its snapshot.
pub proof fn creation_starts_at_zero(s: EpisodeStates, state: EpisodeStateView)
    requires
        !s.dom().contains(state.episode_id),
    ensures
        create(s, state).1 is Ok,
        create(s, state).0.dom() == s.dom().insert(state.episode_id),
        load(create(s, state).0, state.episode_id) matches Ok(found) && found.revision == 0
            && found.state == state,
{
}

/// An episode can be loaded exactly when it is there.
pub proof fn present_episodes_load(s: EpisodeStates, id: Seq<char>)
    ensures
        s.dom().contains(id) ==> (load(s, id) matches Ok(found) && found == s[id]),
        !s.dom().contains(id) ==> (load(s, id) matches Err(EpisodeErrorView::NotFound(named))
            && named == id),
{
}

/// An episode is saved exactly over the revision it is at, as long as there is a next one; it is
/// then one revision further, with the new snapshot. Whoever saw another revision is told both.
pub proof fn saving_goes_one_revision_on(
    s: EpisodeStates,
    expected: u64,
    state: EpisodeStateView,
)
    requires
        s.dom().contains(state.episode_id),
        expected < i64::MAX,
    ensures
        ({
            let (t, r) = save(s, expected, state);
            let was = s[state.episode_id].revision;
            &&& r is Ok <==> was == expected
            &&& r matches Ok(next) ==> {
                &&& next == expected + 1
                &&& t.dom() == s.dom()
                &&& t[state.episode_id].revision == next
                &&& t[state.episode_id].state == state
            }
            &&& was != expected ==> t == s && (r matches Err(
                EpisodeErrorView::Conflict { expected: seen, actual },
            ) && seen == expected && actual == was)
        }),
{
    let t = save(s, expected, state).0;
    assert(s[state.episode_id].revision == expected ==> t.dom() =~= s.dom());
}

/// What is not there cannot be saved, and the last revision cannot be passed.
pub proof fn saving_is_bounded(s: EpisodeStates, expected: u64, state: EpisodeStateView)
    ensures
        expected >= i64::MAX ==> save(s, expected, state).0 == s && save(s, expected, state).1
            is Err,
        expected == u64::MAX ==> save(s, expected, state).1 == Err::<u64, EpisodeErrorView>(
            EpisodeErrorView::RevisionExhausted,
        ),
        expected < i64::MAX && !s.dom().contains(state.episode_id) ==> save(s, expected, state) == (
            s,
            Err::<u64, EpisodeErrorView>(EpisodeErrorView::NotFound(state.episode_id)),
        ),
{
}

/// Writing one episode touches no other.
pub proof fn writing_is_local(
    s: EpisodeStates,
    expected: u64,
    state: EpisodeStateView,
    other: Seq<char>,
)
    requires
        other != state.episode_id,
    ensures
        load(create(s, state).0, other) == load(s, other),
        load(save(s, expected, state).0, other) == load(s, other),
{
}

/// A row is an episode exactly when its revision is not negative, its snapshot was read, and it
/// names the key it is stored under.
pub proof fn rows_are_checked(
    id: Seq<char>,
    revision: i64,
    state: Result<EpisodeStateView, Seq<char>>,
)
    ensures
        row_read(id, revision, state) is Ok <==> revision >= 0 && (state matches Ok(held)
            && held.episode_id == id),
        row_read(id, revision, state) matches Ok(found) ==> found.revision == revision
            && found.state == state->Ok_0,
        row_read(id, revision, state) matches Err(e) ==> e is Adapter,
{
}

/// A revision that cannot be stored, or that cannot be followed by one that can, is refused with
/// what is wrong.
pub proof fn large_revisions_are_explained(
    s: EpisodeStates,
    expected: u64,
    state: EpisodeStateView,
)
    requires
        expected >= i64::MAX,
        expected < u64::MAX,
    ensures
        save(s, expected, state).1 == Err::<u64, EpisodeErrorView>(
            EpisodeErrorView::Adapter(
                if expected == i64::MAX {
                    "next revision exceeds SQLite range"@
                } else {
                    "expected revision exceeds SQLite range"@
                },
            ),
        ),
{
}

} // verus!

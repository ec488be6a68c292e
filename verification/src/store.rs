//! The artifact store: a verified decision machine for `ensure`.
//!
//! Ensuring one artifact means: probe the final path; if a file is there,
//! digest it and return at once when it matches (the idempotent fast path);
//! delete a corrupt copy; fetch the remote content to a temporary name;
//! digest the fetched bytes; and only when they match, promote the
//! temporary file onto the final path. The machine below fixes that order.
//! An unverified driver performs each requested [`StoreAction`] and feeds
//! the observed [`StoreEvent`] back; every decision in between is verified.
//!
//! The proof functions at the end state the store's laws: the fast path
//! never fetches, a corrupt copy causes exactly one re-fetch, the machine
//! asks for at most one fetch per run, and the promote action — the only
//! write to the final path — is requested only after a fetch completed and
//! its content's digest matched.

use vstd::prelude::*;
use crate::error::Error;

verus! {

/// The I/O steps a driver performs on the store's behalf.
///
/// `Fetch` downloads the remote content to a temporary path; `Promote`
/// renames that temporary file onto the final path; the rest are local
/// probes, digests and deletes of the artifact's own paths.
#[derive(Clone, Copy, Debug, PartialEq, Eq, Structural)]
pub enum StoreAction {
    CheckExists,
    HashLocal,
    DeleteLocal,
    Fetch,
    HashFetched,
    Promote,
}

/// What the driver observed when performing the requested action.
///
/// `Hashed` carries the computed lowercase hex digest; `IoFailed` reports a
/// local filesystem failure.
#[derive(Debug)]
pub enum StoreEvent {
    Exists(bool),
    Hashed(String),
    Deleted,
    Fetched,
    FetchFailed,
    Promoted,
    IoFailed,
}

/// Where an `ensure` run stands.
#[derive(Clone, Copy, Debug, PartialEq, Eq, Structural)]
pub enum EnsureState {
    /// About to probe whether the final path exists.
    Probe,
    /// A file exists at the final path; about to digest it.
    CheckLocal,
    /// The local copy did not match; about to delete it.
    RemoveCorrupt,
    /// About to fetch the remote content to a temporary path.
    Transfer,
    /// The fetch completed; about to digest the fetched bytes.
    CheckFetched,
    /// The fetched bytes matched; about to promote them onto the final path.
    Commit,
    /// The artifact is present and verified at its final path.
    Succeeded,
    /// The run failed; no further action is requested.
    Failed(Error),
}

/// One transition of the `ensure` machine: consume an observed event in a
/// state, against an expected lowercase hex digest. Events that cannot
/// answer the pending action leave the state unchanged.
pub open spec fn spec_ensure_step(expected: Seq<char>, s: EnsureState, e: StoreEvent) -> EnsureState {
    match (s, e) {
        (EnsureState::Probe, StoreEvent::Exists(true)) => EnsureState::CheckLocal,
        (EnsureState::Probe, StoreEvent::Exists(false)) => EnsureState::Transfer,
        (EnsureState::CheckLocal, StoreEvent::Hashed(h)) => if h@ == expected {
            EnsureState::Succeeded
        } else {
            EnsureState::RemoveCorrupt
        },
        (EnsureState::CheckLocal, StoreEvent::IoFailed) => EnsureState::Failed(
            Error::TransferFailed,
        ),
        (EnsureState::RemoveCorrupt, StoreEvent::Deleted) => EnsureState::Transfer,
        (EnsureState::RemoveCorrupt, StoreEvent::IoFailed) => EnsureState::Failed(
            Error::TransferFailed,
        ),
        (EnsureState::Transfer, StoreEvent::Fetched) => EnsureState::CheckFetched,
        (EnsureState::Transfer, StoreEvent::FetchFailed) => EnsureState::Failed(
            Error::TransferFailed,
        ),
        (EnsureState::CheckFetched, StoreEvent::Hashed(h)) => if h@ == expected {
            EnsureState::Commit
        } else {
            EnsureState::Failed(Error::IntegrityMismatch)
        },
        (EnsureState::CheckFetched, StoreEvent::IoFailed) => EnsureState::Failed(
            Error::TransferFailed,
        ),
        (EnsureState::Commit, StoreEvent::Promoted) => EnsureState::Succeeded,
        (EnsureState::Commit, StoreEvent::IoFailed) => EnsureState::Failed(Error::TransferFailed),
        _ => s,
    }
}

/// The action pending in a state, if any. `Promote` is requested only in
/// `Commit`; terminal states request nothing.
pub open spec fn spec_action_of(s: EnsureState) -> Option<StoreAction> {
    match s {
        EnsureState::Probe => Option::Some(StoreAction::CheckExists),
        EnsureState::CheckLocal => Option::Some(StoreAction::HashLocal),
        EnsureState::RemoveCorrupt => Option::Some(StoreAction::DeleteLocal),
        EnsureState::Transfer => Option::Some(StoreAction::Fetch),
        EnsureState::CheckFetched => Option::Some(StoreAction::HashFetched),
        EnsureState::Commit => Option::Some(StoreAction::Promote),
        EnsureState::Succeeded => Option::None,
        EnsureState::Failed(_) => Option::None,
    }
}

/// The outcome a state reports: `None` while the run is still under way.
pub open spec fn spec_outcome_of(s: EnsureState) -> Option<Result<(), Error>> {
    match s {
        EnsureState::Succeeded => Option::Some(Ok(())),
        EnsureState::Failed(e) => Option::Some(Err(e)),
        _ => Option::None,
    }
}

/// One transition of the `ensure` machine.
pub fn ensure_step(expected: &String, state: &EnsureState, event: &StoreEvent) -> (next: EnsureState)
    ensures
        next == spec_ensure_step(expected@, *state, *event),
{
    match (state, event) {
        (EnsureState::Probe, StoreEvent::Exists(here)) => if *here {
            EnsureState::CheckLocal
        } else {
            EnsureState::Transfer
        },
        (EnsureState::CheckLocal, StoreEvent::Hashed(h)) => if h.eq(expected) {
            EnsureState::Succeeded
        } else {
            EnsureState::RemoveCorrupt
        },
        (EnsureState::CheckLocal, StoreEvent::IoFailed) => EnsureState::Failed(
            Error::TransferFailed,
        ),
        (EnsureState::RemoveCorrupt, StoreEvent::Deleted) => EnsureState::Transfer,
        (EnsureState::RemoveCorrupt, StoreEvent::IoFailed) => EnsureState::Failed(
            Error::TransferFailed,
        ),
        (EnsureState::Transfer, StoreEvent::Fetched) => EnsureState::CheckFetched,
        (EnsureState::Transfer, StoreEvent::FetchFailed) => EnsureState::Failed(
            Error::TransferFailed,
        ),
        (EnsureState::CheckFetched, StoreEvent::Hashed(h)) => if h.eq(expected) {
            EnsureState::Commit
        } else {
            EnsureState::Failed(Error::IntegrityMismatch)
        },
        (EnsureState::CheckFetched, StoreEvent::IoFailed) => EnsureState::Failed(
            Error::TransferFailed,
        ),
        (EnsureState::Commit, StoreEvent::Promoted) => EnsureState::Succeeded,
        (EnsureState::Commit, StoreEvent::IoFailed) => EnsureState::Failed(Error::TransferFailed),
        _ => *state,
    }
}

/// The action pending in a state, if any.
pub fn next_action(state: &EnsureState) -> (r: Option<StoreAction>)
    ensures
        r == spec_action_of(*state),
{
    match state {
        EnsureState::Probe => Option::Some(StoreAction::CheckExists),
        EnsureState::CheckLocal => Option::Some(StoreAction::HashLocal),
        EnsureState::RemoveCorrupt => Option::Some(StoreAction::DeleteLocal),
        EnsureState::Transfer => Option::Some(StoreAction::Fetch),
        EnsureState::CheckFetched => Option::Some(StoreAction::HashFetched),
        EnsureState::Commit => Option::Some(StoreAction::Promote),
        EnsureState::Succeeded => Option::None,
        EnsureState::Failed(_) => Option::None,
    }
}

/// One `ensure` run for one artifact: the expected digest and the state
/// reached so far.
#[derive(Debug)]
pub struct EnsureFlow {
    pub expected: String,
    pub state: EnsureState,
}

impl EnsureFlow {
    /// Start an `ensure` run against an expected lowercase hex digest.
    pub fn new(expected: String) -> (r: Self)
        ensures
            r.state == EnsureState::Probe,
            r.expected == expected,
    {
        EnsureFlow { expected, state: EnsureState::Probe }
    }

    /// The action the driver should perform next, if any.
    pub fn action(&self) -> (r: Option<StoreAction>)
        ensures
            r == spec_action_of(self.state),
    {
        next_action(&self.state)
    }

    /// Consume the driver's observation.
    pub fn on_event(&mut self, event: &StoreEvent)
        ensures
            final(self).expected == old(self).expected,
            final(self).state == spec_ensure_step(old(self).expected@, old(self).state, *event),
    {
        self.state = ensure_step(&self.expected, &self.state, event);
    }

    /// The run's outcome: `None` while still under way.
    pub fn outcome(&self) -> (r: Option<Result<(), Error>>)
        ensures
            r == spec_outcome_of(self.state),
    {
        match self.state {
            EnsureState::Succeeded => Option::Some(Ok(())),
            EnsureState::Failed(e) => Option::Some(Err(e)),
            _ => Option::None,
        }
    }
}

/// The state reached after consuming `events` from `s`.
pub open spec fn spec_run(expected: Seq<char>, s: EnsureState, events: Seq<StoreEvent>) -> EnsureState
    decreases events.len(),
{
    if events.len() == 0 {
        s
    } else {
        spec_run(expected, spec_ensure_step(expected, s, events.first()), events.drop_first())
    }
}

/// Every state a run visits, starting state included: one more entry than
/// there are events.
pub open spec fn spec_states(expected: Seq<char>, s: EnsureState, events: Seq<StoreEvent>) -> Seq<
    EnsureState,
>
    decreases events.len(),
{
    if events.len() == 0 {
        seq![s]
    } else {
        seq![s] + spec_states(
            expected,
            spec_ensure_step(expected, s, events.first()),
            events.drop_first(),
        )
    }
}

pub proof fn lemma_states_len(expected: Seq<char>, s: EnsureState, events: Seq<StoreEvent>)
    ensures
        spec_states(expected, s, events).len() == events.len() + 1,
        spec_states(expected, s, events)[0] == s,
    decreases events.len(),
{
    if events.len() > 0 {
        lemma_states_len(
            expected,
            spec_ensure_step(expected, s, events.first()),
            events.drop_first(),
        );
    }
}

/// Each visited state follows from its predecessor by one step on the
/// corresponding event.
pub proof fn lemma_states_index(
    expected: Seq<char>,
    s: EnsureState,
    events: Seq<StoreEvent>,
    i: int,
)
    requires
        0 <= i < events.len(),
    ensures
        spec_states(expected, s, events)[i + 1] == spec_ensure_step(
            expected,
            spec_states(expected, s, events)[i],
            events[i],
        ),
    decreases events.len(),
{
    let s1 = spec_ensure_step(expected, s, events.first());
    let rest = events.drop_first();
    lemma_states_len(expected, s, events);
    lemma_states_len(expected, s1, rest);
    if i == 0 {
        assert(spec_states(expected, s, events)[1] == spec_states(expected, s1, rest)[0]);
    } else {
        lemma_states_index(expected, s1, rest, i - 1);
        assert(spec_states(expected, s, events)[i] == spec_states(expected, s1, rest)[i - 1]);
        assert(spec_states(expected, s, events)[i + 1] == spec_states(expected, s1, rest)[i]);
        assert(rest[i - 1] == events[i]);
    }
}

/// The run's final state is the last visited state.
pub proof fn lemma_run_is_last(expected: Seq<char>, s: EnsureState, events: Seq<StoreEvent>)
    ensures
        spec_states(expected, s, events).last() == spec_run(expected, s, events),
    decreases events.len(),
{
    if events.len() > 0 {
        let s1 = spec_ensure_step(expected, s, events.first());
        lemma_states_len(expected, s1, events.drop_first());
        lemma_run_is_last(expected, s1, events.drop_first());
    }
}

/// How far a run has advanced: before any fetch, fetching, or past the
/// fetch. The machine only ever moves forward through these phases.
pub open spec fn spec_phase(s: EnsureState) -> int {
    match s {
        EnsureState::Probe => 0,
        EnsureState::CheckLocal => 0,
        EnsureState::RemoveCorrupt => 0,
        EnsureState::Transfer => 1,
        EnsureState::CheckFetched => 2,
        EnsureState::Commit => 2,
        EnsureState::Succeeded => 2,
        EnsureState::Failed(_) => 2,
    }
}

pub proof fn lemma_step_phase(expected: Seq<char>, s: EnsureState, e: StoreEvent)
    ensures
        spec_phase(spec_ensure_step(expected, s, e)) >= spec_phase(s),
{
}

/// Phases never decrease along a run.
pub proof fn lemma_phase_monotone(
    expected: Seq<char>,
    s: EnsureState,
    events: Seq<StoreEvent>,
    i: int,
    j: int,
)
    requires
        0 <= i <= j <= events.len(),
    ensures
        spec_phase(spec_states(expected, s, events)[i]) <= spec_phase(
            spec_states(expected, s, events)[j],
        ),
    decreases j - i,
{
    if i < j {
        lemma_states_index(expected, s, events, j - 1);
        lemma_step_phase(expected, spec_states(expected, s, events)[j - 1], events[j - 1]);
        lemma_phase_monotone(expected, s, events, i, j - 1);
    }
}

/// At most one fetch per run: the visits to `Transfer` — the only state
/// whose action is `Fetch` — form one contiguous stretch, so a driver that
/// fetches once on entering `Transfer` never fetches twice.
pub proof fn lemma_single_fetch(
    expected: Seq<char>,
    s: EnsureState,
    events: Seq<StoreEvent>,
    i: int,
    j: int,
    k: int,
)
    requires
        0 <= i <= j <= k <= events.len(),
        spec_states(expected, s, events)[i] == EnsureState::Transfer,
        spec_states(expected, s, events)[k] == EnsureState::Transfer,
    ensures
        spec_states(expected, s, events)[j] == EnsureState::Transfer,
{
    let states = spec_states(expected, s, events);
    lemma_phase_monotone(expected, s, events, i, j);
    lemma_phase_monotone(expected, s, events, j, k);
    if states[j] != EnsureState::Transfer {
        assert(spec_phase(states[j]) != 1);
        assert(spec_phase(states[j]) >= 1);
        assert(spec_phase(states[k]) >= 2);
    }
}

/// Terminal states absorb every further event.
pub proof fn lemma_terminal_absorbs(
    expected: Seq<char>,
    s: EnsureState,
    events: Seq<StoreEvent>,
    i: int,
    j: int,
)
    requires
        0 <= i <= j <= events.len(),
        spec_states(expected, s, events)[i] == EnsureState::Succeeded || spec_states(
            expected,
            s,
            events,
        )[i] is Failed,
    ensures
        spec_states(expected, s, events)[j] == spec_states(expected, s, events)[i],
    decreases j - i,
{
    if i < j {
        lemma_terminal_absorbs(expected, s, events, i, j - 1);
        lemma_states_index(expected, s, events, j - 1);
    }
}

/// A failed fetch fails the run for good: from the moment `FetchFailed` is
/// consumed in `Transfer`, every later state is `Failed(TransferFailed)` —
/// in particular the run never reaches `Commit`, so the promote action that
/// alone writes the final path is never requested. Nothing but a promote
/// touches the final path, so a fetch that fails mid-transfer leaves no
/// file there.
pub proof fn lemma_fetch_failure_never_promotes(
    expected: Seq<char>,
    s: EnsureState,
    events: Seq<StoreEvent>,
    i: int,
    j: int,
)
    requires
        0 <= i < events.len(),
        i < j <= events.len(),
        spec_states(expected, s, events)[i] == EnsureState::Transfer,
        events[i] == StoreEvent::FetchFailed,
    ensures
        spec_states(expected, s, events)[j] == EnsureState::Failed(Error::TransferFailed),
        spec_action_of(spec_states(expected, s, events)[j]) != Option::Some(StoreAction::Promote),
    decreases j - i,
{
    lemma_states_index(expected, s, events, i);
    if j == i + 1 {
    } else {
        lemma_fetch_failure_never_promotes(expected, s, events, i, j - 1);
        lemma_states_index(expected, s, events, j - 1);
    }
}

/// A run that starts outside the post-fetch checking states reaches
/// `Commit` — the only state whose action is `Promote` — only after a
/// fetch has completed: without a `Fetched` observation in `Transfer`,
/// neither `CheckFetched` nor `Commit` is ever visited.
pub proof fn lemma_no_commit_without_fetch(
    expected: Seq<char>,
    s: EnsureState,
    events: Seq<StoreEvent>,
)
    requires
        s != EnsureState::CheckFetched,
        s != EnsureState::Commit,
        forall|i: int|
            0 <= i < events.len() ==> !(spec_states(expected, s, events)[i]
                == EnsureState::Transfer && events[i] == StoreEvent::Fetched),
    ensures
        forall|j: int|
            0 <= j <= events.len() ==> spec_states(expected, s, events)[j]
                != EnsureState::CheckFetched && spec_states(expected, s, events)[j]
                != EnsureState::Commit,
    decreases events.len(),
{
    lemma_states_len(expected, s, events);
    if events.len() > 0 {
        let s1 = spec_ensure_step(expected, s, events.first());
        let rest = events.drop_first();
        lemma_states_len(expected, s1, rest);
        assert(spec_states(expected, s, events)[0] == s);
        assert(!(s == EnsureState::Transfer && events[0] == StoreEvent::Fetched));
        assert(s1 != EnsureState::CheckFetched);
        assert(s1 != EnsureState::Commit);
        assert forall|i: int|
            0 <= i < rest.len() implies !(spec_states(expected, s1, rest)[i]
            == EnsureState::Transfer && rest[i] == StoreEvent::Fetched) by {
            assert(spec_states(expected, s, events)[i + 1] == spec_states(expected, s1, rest)[i]);
            assert(events[i + 1] == rest[i]);
        }
        lemma_no_commit_without_fetch(expected, s1, rest);
        assert forall|j: int|
            0 <= j <= events.len() implies spec_states(expected, s, events)[j]
            != EnsureState::CheckFetched && spec_states(expected, s, events)[j]
            != EnsureState::Commit by {
            if j > 0 {
                assert(spec_states(expected, s, events)[j] == spec_states(expected, s1, rest)[j
                    - 1]);
            }
        }
    }
}

/// The idempotent fast path: when the final path holds a file whose digest
/// matches, the run succeeds after the probe and the digest alone — it
/// never visits `Transfer`, so no fetch is requested.
pub proof fn lemma_idempotent_fast_path(expected: Seq<char>, events: Seq<StoreEvent>)
    requires
        events.len() == 2,
        events[0] == StoreEvent::Exists(true),
        events[1] matches StoreEvent::Hashed(h) && h@ == expected,
    ensures
        spec_states(expected, EnsureState::Probe, events) =~= seq![
            EnsureState::Probe,
            EnsureState::CheckLocal,
            EnsureState::Succeeded,
        ],
        spec_run(expected, EnsureState::Probe, events) == EnsureState::Succeeded,
        forall|j: int|
            0 <= j <= events.len() ==> spec_states(expected, EnsureState::Probe, events)[j]
                != EnsureState::Transfer,
{
    let states = spec_states(expected, EnsureState::Probe, events);
    lemma_states_len(expected, EnsureState::Probe, events);
    lemma_states_index(expected, EnsureState::Probe, events, 0);
    lemma_states_index(expected, EnsureState::Probe, events, 1);
    assert(states[1] == EnsureState::CheckLocal);
    assert(states[2] == EnsureState::Succeeded);
    lemma_run_is_last(expected, EnsureState::Probe, events);
}

/// A fresh install fetches exactly once: nothing at the final path, one
/// fetch, a matching digest, one promote — and `Transfer` is visited at
/// exactly one position.
pub proof fn lemma_fresh_fetch(expected: Seq<char>, events: Seq<StoreEvent>)
    requires
        events.len() == 4,
        events[0] == StoreEvent::Exists(false),
        events[1] == StoreEvent::Fetched,
        events[2] matches StoreEvent::Hashed(h) && h@ == expected,
        events[3] == StoreEvent::Promoted,
    ensures
        spec_states(expected, EnsureState::Probe, events) =~= seq![
            EnsureState::Probe,
            EnsureState::Transfer,
            EnsureState::CheckFetched,
            EnsureState::Commit,
            EnsureState::Succeeded,
        ],
        spec_run(expected, EnsureState::Probe, events) == EnsureState::Succeeded,
{
    let states = spec_states(expected, EnsureState::Probe, events);
    lemma_states_len(expected, EnsureState::Probe, events);
    lemma_states_index(expected, EnsureState::Probe, events, 0);
    lemma_states_index(expected, EnsureState::Probe, events, 1);
    lemma_states_index(expected, EnsureState::Probe, events, 2);
    lemma_states_index(expected, EnsureState::Probe, events, 3);
    assert(states[1] == EnsureState::Transfer);
    assert(states[2] == EnsureState::CheckFetched);
    assert(states[3] == EnsureState::Commit);
    assert(states[4] == EnsureState::Succeeded);
    lemma_run_is_last(expected, EnsureState::Probe, events);
}

/// Corruption recovery: a local file whose digest does not match is
/// deleted and re-fetched exactly once; when the re-fetched content
/// matches, the run promotes it and succeeds.
pub proof fn lemma_corruption_recovery_success(expected: Seq<char>, events: Seq<StoreEvent>)
    requires
        events.len() == 6,
        events[0] == StoreEvent::Exists(true),
        events[1] matches StoreEvent::Hashed(w) && w@ != expected,
        events[2] == StoreEvent::Deleted,
        events[3] == StoreEvent::Fetched,
        events[4] matches StoreEvent::Hashed(h) && h@ == expected,
        events[5] == StoreEvent::Promoted,
    ensures
        spec_states(expected, EnsureState::Probe, events) =~= seq![
            EnsureState::Probe,
            EnsureState::CheckLocal,
            EnsureState::RemoveCorrupt,
            EnsureState::Transfer,
            EnsureState::CheckFetched,
            EnsureState::Commit,
            EnsureState::Succeeded,
        ],
        spec_run(expected, EnsureState::Probe, events) == EnsureState::Succeeded,
{
    let states = spec_states(expected, EnsureState::Probe, events);
    lemma_states_len(expected, EnsureState::Probe, events);
    lemma_states_index(expected, EnsureState::Probe, events, 0);
    lemma_states_index(expected, EnsureState::Probe, events, 1);
    lemma_states_index(expected, EnsureState::Probe, events, 2);
    lemma_states_index(expected, EnsureState::Probe, events, 3);
    lemma_states_index(expected, EnsureState::Probe, events, 4);
    lemma_states_index(expected, EnsureState::Probe, events, 5);
    assert(states[1] == EnsureState::CheckLocal);
    assert(states[2] == EnsureState::RemoveCorrupt);
    assert(states[3] == EnsureState::Transfer);
    assert(states[4] == EnsureState::CheckFetched);
    assert(states[5] == EnsureState::Commit);
    assert(states[6] == EnsureState::Succeeded);
    lemma_run_is_last(expected, EnsureState::Probe, events);
}

/// Corruption recovery, failing side: when the re-fetched content still
/// does not match, the run fails with `IntegrityMismatch` after exactly one
/// fetch — it never retries on its own.
pub proof fn lemma_corruption_recovery_mismatch(expected: Seq<char>, events: Seq<StoreEvent>)
    requires
        events.len() == 5,
        events[0] == StoreEvent::Exists(true),
        events[1] matches StoreEvent::Hashed(w) && w@ != expected,
        events[2] == StoreEvent::Deleted,
        events[3] == StoreEvent::Fetched,
        events[4] matches StoreEvent::Hashed(h) && h@ != expected,
    ensures
        spec_states(expected, EnsureState::Probe, events) =~= seq![
            EnsureState::Probe,
            EnsureState::CheckLocal,
            EnsureState::RemoveCorrupt,
            EnsureState::Transfer,
            EnsureState::CheckFetched,
            EnsureState::Failed(Error::IntegrityMismatch),
        ],
        spec_run(expected, EnsureState::Probe, events) == EnsureState::Failed(
            Error::IntegrityMismatch,
        ),
{
    let states = spec_states(expected, EnsureState::Probe, events);
    lemma_states_len(expected, EnsureState::Probe, events);
    lemma_states_index(expected, EnsureState::Probe, events, 0);
    lemma_states_index(expected, EnsureState::Probe, events, 1);
    lemma_states_index(expected, EnsureState::Probe, events, 2);
    lemma_states_index(expected, EnsureState::Probe, events, 3);
    lemma_states_index(expected, EnsureState::Probe, events, 4);
    assert(states[1] == EnsureState::CheckLocal);
    assert(states[2] == EnsureState::RemoveCorrupt);
    assert(states[3] == EnsureState::Transfer);
    assert(states[4] == EnsureState::CheckFetched);
    assert(states[5] == EnsureState::Failed(Error::IntegrityMismatch));
    lemma_run_is_last(expected, EnsureState::Probe, events);
}

} // verus!

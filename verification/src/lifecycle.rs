//! The lifecycle driver.
//!
//! Every execution has one driver. On each tick the driver reads the visible
//! record of its execution, decides the next state, writes it and publishes:
//! queued, then running, then succeeded. At succeeded it stops. A driver
//! that finds no record creates it as queued.

use crate::state::QueryState;
use crate::store::ExecutionStore;
use crate::store::RecordView;
use crate::store::StoreView;
use vstd::prelude::*;

verus! {

/// The seconds between two ticks of a driver, where none are configured.
pub const DEFAULT_TICK_SECS: u64 = 5;

/// What a driver does about the state it observed.
#[derive(Debug, Clone, Copy, PartialEq, Eq, Structural)]
pub enum Transition {
    /// There is no record: create it as queued.
    Create,
    /// Move the record to the state given.
    Advance(QueryState),
    /// The lifecycle has ended: stop ticking.
    Finish,
}

/// How one tick ended.
#[derive(Debug, Clone, Copy, PartialEq, Eq, Structural)]
pub enum TickOutcome {
    /// The record was missing and has been created as queued.
    Created,
    /// The record has moved to the state given.
    Advanced(QueryState),
    /// The record is succeeded; the driver is done.
    Finished,
    /// The record is in a state that no driver leads to. The store is left
    /// as it was; the driver must not go on.
    Violation,
}

/// The transition that follows an observed state.
pub open spec fn transition_for(observed: Option<QueryState>) -> Transition {
    match observed {
        None => Transition::Create,
        Some(state) => match state.successor() {
            Some(next) => Transition::Advance(next),
            None => Transition::Finish,
        },
    }
}

/// The store after one tick of the driver of `id`.
pub open spec fn tick_view(store: StoreView, id: Seq<char>, table: Seq<char>) -> StoreView {
    match store.lookup(id) {
        None => store.create(id, table).publish(),
        Some(record) => match record.state.successor() {
            Some(next) => store.write(id, next).publish(),
            None => store,
        },
    }
}

/// How one tick of the driver of `id` ends.
pub open spec fn tick_outcome(store: StoreView, id: Seq<char>) -> TickOutcome {
    match store.lookup(id) {
        None => TickOutcome::Created,
        Some(record) => match record.state {
            QueryState::Queued => TickOutcome::Advanced(QueryState::Running),
            QueryState::Running => TickOutcome::Advanced(QueryState::Succeeded),
            QueryState::Succeeded => TickOutcome::Finished,
            QueryState::Failed => TickOutcome::Violation,
        },
    }
}

/// The store after an execution is enqueued under a fresh identifier.
pub open spec fn enqueue_view(store: StoreView, id: Seq<char>, table: Seq<char>) -> StoreView {
    if store.staged.dom().contains(id) {
        store
    } else {
        store.create(id, table).publish()
    }
}

/// Decides what the driver does next. The state observed is one that a
/// driver leads to.
pub fn next_transition(observed: Option<QueryState>) -> (transition: Transition)
    requires
        observed != Some(QueryState::Failed),
    ensures
        transition == transition_for(observed),
        transition is Finish <==> observed == Some(QueryState::Succeeded),
{
    match observed {
        None => Transition::Create,
        Some(QueryState::Queued) => Transition::Advance(QueryState::Running),
        Some(QueryState::Running) => Transition::Advance(QueryState::Succeeded),
        Some(_) => Transition::Finish,
    }
}

/// The state of the visible record of `id`.
pub fn observe(store: &ExecutionStore, id: &str) -> (observed: Option<QueryState>)
    requires
        store.wf(),
    ensures
        observed == match store@.lookup(id@) {
            Some(record) => Some(record.state),
            None => None,
        },
{
    match store.read(id) {
        None => None,
        Some(record) => {
            proof {
                QueryState::lemma_name_round_trip(store@.lookup(id@)->0.state);
            }
            record.query_state()
        },
    }
}

/// Enqueues an execution: creates its record as queued and publishes it, so
/// that it is visible on return. Nothing is done, and `false` returned, where
/// the identifier is in use.
pub fn enqueue(store: &mut ExecutionStore, id: &str, table: &str) -> (enqueued: bool)
    requires
        old(store).wf(),
    ensures
        final(store).wf(),
        final(store)@ == enqueue_view(old(store)@, id@, table@),
        enqueued == !old(store)@.staged.dom().contains(id@),
{
    if store.create(id, table) {
        store.publish();
        true
    } else {
        false
    }
}

/// One tick of the driver of `id`, whose query reads `table`.
pub fn tick(store: &mut ExecutionStore, id: &str, table: &str) -> (outcome: TickOutcome)
    requires
        old(store).wf(),
    ensures
        final(store).wf(),
        final(store)@ == tick_view(old(store)@, id@, table@),
        outcome == tick_outcome(old(store)@, id@),
{
    let observed = observe(store, id);
    if let Some(QueryState::Failed) = observed {
        return TickOutcome::Violation;
    }
    match next_transition(observed) {
        Transition::Create => {
            store.create(id, table);
            store.publish();
            TickOutcome::Created
        },
        Transition::Advance(next) => {
            store.write(id, next);
            store.publish();
            TickOutcome::Advanced(next)
        },
        Transition::Finish => TickOutcome::Finished,
    }
}

/// An execution is visible as queued as soon as it is enqueued.
pub proof fn lemma_enqueued_is_queued(store: StoreView, id: Seq<char>, table: Seq<char>)
    requires
        !store.staged.dom().contains(id),
    ensures
        enqueue_view(store, id, table).lookup(id) == Some(
            RecordView { table: table, state: QueryState::Queued },
        ),
{
}

/// Enqueueing and ticking leave the store consistent, and remove no record
/// nor move one to another table: an identifier once in use stays in use.
pub proof fn lemma_records_outlive_drivers(store: StoreView, id: Seq<char>, table: Seq<char>)
    requires
        store.consistent(),
    ensures
        enqueue_view(store, id, table).consistent(),
        tick_view(store, id, table).consistent(),
        store.kept_by(enqueue_view(store, id, table)),
        store.kept_by(tick_view(store, id, table)),
{
}

/// A tick moves the record of its execution by one state or leaves it where
/// it ended: no state is skipped, and none is gone back to.
pub proof fn lemma_tick_steps(store: StoreView, id: Seq<char>, table: Seq<char>)
    requires
        store.consistent(),
        store.lookup(id) is Some,
    ensures
        tick_view(store, id, table).lookup(id) is Some,
        tick_view(store, id, table).lookup(id)->0.table == store.lookup(id)->0.table,
        tick_view(store, id, table).lookup(id)->0.state == match store.lookup(
            id,
        )->0.state.successor() {
            Some(next) => next,
            None => store.lookup(id)->0.state,
        },
        store.lookup(id)->0.state.rank() <= tick_view(store, id, table).lookup(id)->0.state.rank()
            <= store.lookup(id)->0.state.rank() + 1,
{
}

/// A queued execution is running after one tick and succeeded after two;
/// the third tick finds it finished and changes nothing.
pub proof fn lemma_two_ticks_succeed(store: StoreView, id: Seq<char>, table: Seq<char>)
    requires
        store.consistent(),
        store.lookup(id) is Some,
        store.lookup(id)->0.state == QueryState::Queued,
    ensures
        ({
            let first = tick_view(store, id, table);
            let second = tick_view(first, id, table);
            &&& first.lookup(id) is Some
            &&& first.lookup(id)->0.state == QueryState::Running
            &&& second.lookup(id) is Some
            &&& second.lookup(id)->0.state == QueryState::Succeeded
            &&& tick_outcome(second, id) == TickOutcome::Finished
            &&& tick_view(second, id, table) == second
        }),
{
    let first = tick_view(store, id, table);
    lemma_tick_steps(store, id, table);
    lemma_records_outlive_drivers(store, id, table);
    lemma_tick_steps(first, id, table);
}

/// While only drivers write, no record is ever in a state outside
/// queued, running and succeeded, on either side of the store.
pub proof fn lemma_driven_is_kept(
    store: StoreView,
    id: Seq<char>,
    table: Seq<char>,
    state: QueryState,
)
    requires
        store.driven(),
    ensures
        StoreView::empty().driven(),
        store.create(id, table).driven(),
        state.is_driven() ==> store.write(id, state).driven(),
        store.publish().driven(),
        enqueue_view(store, id, table).driven(),
        tick_view(store, id, table).driven(),
        store.lookup(id) matches Some(record) ==> record.state == QueryState::Queued
            || record.state == QueryState::Running || record.state == QueryState::Succeeded,
{
}

} // verus!

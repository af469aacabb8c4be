//! The run as a state machine: reading the amount and fetching the rates go
//! on side by side, and the run is finalized once both are over.

use vstd::prelude::*;
use crate::info::{table_view, Info};
use crate::store::{after_cache_load, CacheError, FetchError, RateStore};

verus! {

/// What the two tasks report. Amounts are bit patterns of IEEE-754 doubles.
#[derive(Debug, PartialEq, Eq)]
pub enum Event {
    /// The cache file was read, or could not be.
    CacheLoaded(Result<Vec<Info>, CacheError>),
    /// The user's amount was read and parsed.
    AmountEntered(u64),
    /// The fetch came to an end, with a table or without.
    FetchFinished(Result<Vec<Info>, FetchError>),
}

/// What the caller does after an event.
#[derive(Debug, PartialEq, Eq)]
pub enum Action {
    /// Nothing yet.
    Wait,
    /// Show the conversions of `amount` over `snapshot`; the fetch is still
    /// under way.
    Calculate { amount: u64, snapshot: Vec<Info> },
    /// Both tasks are over. Show the conversions of `amount` over `snapshot`
    /// (twice if `first`: the amount has only just come in), then write
    /// `snapshot` to the cache.
    Finalize { amount: u64, snapshot: Vec<Info>, first: bool },
}

/// The state of a run as plain values.
pub struct State {
    pub table: Seq<(Seq<char>, u64)>,
    pub amount: Option<u64>,
    pub fetch_done: bool,
}

/// An action as plain values.
pub enum ActionView {
    Wait,
    Calculate { amount: u64, snapshot: Seq<(Seq<char>, u64)> },
    Finalize { amount: u64, snapshot: Seq<(Seq<char>, u64)>, first: bool },
}

impl View for Action {
    type V = ActionView;

    open spec fn view(&self) -> ActionView {
        match *self {
            Action::Wait => ActionView::Wait,
            Action::Calculate { amount, snapshot } => ActionView::Calculate {
                amount,
                snapshot: table_view(snapshot@),
            },
            Action::Finalize { amount, snapshot, first } => ActionView::Finalize {
                amount,
                snapshot: table_view(snapshot@),
                first,
            },
        }
    }
}

/// The state at the start of a run: empty table, no amount, fetch pending.
pub open spec fn initial_state() -> State {
    State { table: Seq::empty(), amount: None, fetch_done: false }
}

/// The state after `event`: a cache load seeds an empty table, a fetched
/// table replaces whatever is there, a failure leaves the table alone.
pub open spec fn next_state(s: State, event: Event) -> State {
    match event {
        Event::CacheLoaded(Ok(entries)) => State {
            table: after_cache_load(s.table, table_view(entries@)),
            ..s
        },
        Event::CacheLoaded(Err(_)) => s,
        Event::AmountEntered(amount) => State { amount: Some(amount), ..s },
        Event::FetchFinished(Ok(entries)) => State {
            table: table_view(entries@),
            fetch_done: true,
            ..s
        },
        Event::FetchFinished(Err(_)) => State { fetch_done: true, ..s },
    }
}

/// The action that answers `event` in state `s`, over the table as the event
/// leaves it.
pub open spec fn action_of(s: State, event: Event) -> ActionView {
    let n = next_state(s, event);
    match event {
        Event::CacheLoaded(_) => ActionView::Wait,
        Event::AmountEntered(amount) => if n.fetch_done {
            ActionView::Finalize { amount, snapshot: n.table, first: true }
        } else {
            ActionView::Calculate { amount, snapshot: n.table }
        },
        Event::FetchFinished(_) => match n.amount {
            Some(amount) => ActionView::Finalize { amount, snapshot: n.table, first: false },
            None => ActionView::Wait,
        },
    }
}

/// One run: the rate table, the amount once it is known, and whether the
/// fetch is over.
pub struct Orchestrator {
    store: RateStore,
    amount: Option<u64>,
    fetch_done: bool,
}

impl View for Orchestrator {
    type V = State;

    closed spec fn view(&self) -> State {
        State { table: self.store@, amount: self.amount, fetch_done: self.fetch_done }
    }
}

impl Orchestrator {
    /// A run at its start.
    pub fn new() -> (r: Orchestrator)
        ensures
            r@ == initial_state(),
    {
        Orchestrator { store: RateStore::new(), amount: None, fetch_done: false }
    }

    /// A copy of the table as it stands.
    pub fn get_snapshot(&self) -> (r: Vec<Info>)
        ensures
            table_view(r@) == self@.table,
    {
        self.store.get_snapshot()
    }

    /// Takes one event and says what to do next.
    pub fn step(&mut self, event: Event) -> (action: Action)
        ensures
            final(self)@ == next_state(old(self)@, event),
            action@ == action_of(old(self)@, event),
    {
        match event {
            Event::CacheLoaded(loaded) => {
                self.store.seed_from_cache(loaded);
                Action::Wait
            },
            Event::AmountEntered(amount) => {
                self.amount = Some(amount);
                let snapshot = self.store.get_snapshot();
                if self.fetch_done {
                    Action::Finalize { amount, snapshot, first: true }
                } else {
                    Action::Calculate { amount, snapshot }
                }
            },
            Event::FetchFinished(fetched) => {
                let _ = self.store.apply_fetch(fetched);
                self.fetch_done = true;
                match self.amount {
                    Some(amount) => {
                        let snapshot = self.store.get_snapshot();
                        Action::Finalize { amount, snapshot, first: false }
                    },
                    None => Action::Wait,
                }
            },
        }
    }
}

/// The run is finalized exactly when the second of the two tasks ends,
/// whichever that is: if the amount comes first it is answered by a
/// calculation and the end of the fetch finalizes; if the fetch ends first
/// nothing is shown until the amount comes, which then finalizes. A failed
/// fetch counts as ended.
pub proof fn lemma_finalized_when_both_ended(s: State, amount: u64, fetched: Event)
    requires
        s.amount.is_none(),
        !s.fetch_done,
        fetched is FetchFinished,
    ensures
        action_of(s, Event::AmountEntered(amount)) is Calculate,
        action_of(next_state(s, Event::AmountEntered(amount)), fetched) is Finalize,
        action_of(s, fetched) is Wait,
        action_of(next_state(s, fetched), Event::AmountEntered(amount)) is Finalize,
{
}

/// What is finalized does not depend on the order in which the two tasks
/// ended: the same amount over the same table, which is the fetched one if
/// the fetch delivered and the table as it was if it failed.
pub proof fn lemma_final_snapshot_is_order_free(s: State, amount: u64, fetched: Event)
    requires
        s.amount.is_none(),
        !s.fetch_done,
        fetched is FetchFinished,
    ensures
        ({
            let entered = Event::AmountEntered(amount);
            let amount_first = action_of(next_state(s, entered), fetched);
            let fetch_first = action_of(next_state(s, fetched), entered);
            let table = match fetched {
                Event::FetchFinished(Ok(entries)) => table_view(entries@),
                _ => s.table,
            };
            &&& amount_first == (ActionView::Finalize { amount, snapshot: table, first: false })
            &&& fetch_first == (ActionView::Finalize { amount, snapshot: table, first: true })
        }),
{
}

/// A cache load that comes after a fetch has delivered entries changes
/// nothing, and one that came before is overwritten: the fetch wins.
pub proof fn lemma_fetch_wins_in_either_order(s: State, loaded: Event, fetched: Event)
    requires
        loaded is CacheLoaded,
        fetched matches Event::FetchFinished(Ok(entries)) && entries@.len() > 0,
    ensures
        next_state(next_state(s, loaded), fetched).table == next_state(
            next_state(s, fetched),
            loaded,
        ).table,
        next_state(next_state(s, loaded), fetched).table == next_state(s, fetched).table,
{
}

} // verus!

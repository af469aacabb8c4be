//! The shared rate table and the two ways of replacing it.

use vstd::prelude::*;
use crate::info::{copy_table, table_view, Info};

verus! {

/// Why a cache load gave no table.
#[derive(Debug, Clone, Copy, PartialEq, Eq, Structural)]
pub enum CacheError {
    /// The file is missing or cannot be read.
    Io,
    /// The file does not hold a table.
    Parse,
}

/// Why a fetch gave no table.
#[derive(Debug, Clone, Copy, PartialEq, Eq, Structural)]
pub enum FetchError {
    /// Connection failure, timeout, or a status outside 2xx.
    Network,
    /// The page has no usable quote for one of the requested currencies.
    Extraction,
}

/// The table after a cache load offered `loaded`: taken only by an empty table.
pub open spec fn after_cache_load(table: Seq<(Seq<char>, u64)>, loaded: Seq<(Seq<char>, u64)>) -> Seq<
    (Seq<char>, u64),
> {
    if table.len() == 0 {
        loaded
    } else {
        table
    }
}

/// The table after a fetch delivered `fetched`: always the fetched one.
pub open spec fn after_fetch(table: Seq<(Seq<char>, u64)>, fetched: Seq<(Seq<char>, u64)>) -> Seq<
    (Seq<char>, u64),
> {
    fetched
}

/// The rate table of one run. Callers that share it hold it behind a lock;
/// every method here is one critical section.
pub struct RateStore {
    entries: Vec<Info>,
}

impl View for RateStore {
    type V = Seq<(Seq<char>, u64)>;

    closed spec fn view(&self) -> Seq<(Seq<char>, u64)> {
        table_view(self.entries@)
    }
}

impl RateStore {
    /// An empty table.
    pub fn new() -> (r: RateStore)
        ensures
            r@ == Seq::<(Seq<char>, u64)>::empty(),
    {
        let r = RateStore { entries: Vec::new() };
        assert(r@ =~= Seq::<(Seq<char>, u64)>::empty());
        r
    }

    /// The number of entries.
    pub fn len(&self) -> (n: usize)
        ensures
            n == self@.len(),
    {
        self.entries.len()
    }

    /// Whether the table holds no entry.
    pub fn is_empty(&self) -> (b: bool)
        ensures
            b == (self@.len() == 0),
    {
        self.entries.len() == 0
    }

    /// A copy of the table that stays valid after the lock is released.
    pub fn get_snapshot(&self) -> (r: Vec<Info>)
        ensures
            table_view(r@) == self@,
    {
        copy_table(&self.entries)
    }

    /// Takes `new_entries` if the table is empty, and leaves it alone otherwise.
    pub fn replace_if_empty(&mut self, new_entries: Vec<Info>)
        ensures
            final(self)@ == after_cache_load(old(self)@, table_view(new_entries@)),
            old(self)@.len() > 0 ==> final(self)@ == old(self)@,
    {
        if self.entries.len() == 0 {
            self.entries = new_entries;
        }
    }

    /// Takes `new_entries`, whatever the table held.
    pub fn replace_unconditional(&mut self, new_entries: Vec<Info>)
        ensures
            final(self)@ == after_fetch(old(self)@, table_view(new_entries@)),
            final(self)@ == table_view(new_entries@),
    {
        self.entries = new_entries;
    }

    /// Applies the outcome of a cache load: a table that was read seeds an
    /// empty store, a failure of either kind changes nothing.
    pub fn seed_from_cache(&mut self, loaded: Result<Vec<Info>, CacheError>)
        ensures
            final(self)@ == match loaded {
                Ok(entries) => after_cache_load(old(self)@, table_view(entries@)),
                Err(_) => old(self)@,
            },
    {
        match loaded {
            Ok(entries) => self.replace_if_empty(entries),
            Err(_) => {},
        }
    }

    /// Applies the outcome of a fetch: a fetched table replaces the store, a
    /// failure changes nothing and is handed back to be reported.
    pub fn apply_fetch(&mut self, fetched: Result<Vec<Info>, FetchError>) -> (failure: Option<FetchError>)
        ensures
            final(self)@ == match fetched {
                Ok(entries) => table_view(entries@),
                Err(_) => old(self)@,
            },
            failure == match fetched {
                Ok(_) => None::<FetchError>,
                Err(e) => Some(e),
            },
    {
        match fetched {
            Ok(entries) => {
                self.replace_unconditional(entries);
                None
            },
            Err(e) => Some(e),
        }
    }
}

/// A cache load never changes a table that already holds entries.
pub proof fn lemma_cache_load_keeps_filled_table(
    table: Seq<(Seq<char>, u64)>,
    loaded: Seq<(Seq<char>, u64)>,
)
    requires
        table.len() > 0,
    ensures
        after_cache_load(table, loaded) == table,
{
}

/// A fetch that delivered entries wins over the cache in either order: the
/// table ends as the fetched one whether the cache load came before or after.
pub proof fn lemma_fetch_wins_over_cache(
    table: Seq<(Seq<char>, u64)>,
    loaded: Seq<(Seq<char>, u64)>,
    fetched: Seq<(Seq<char>, u64)>,
)
    requires
        fetched.len() > 0,
    ensures
        after_fetch(after_cache_load(table, loaded), fetched) == fetched,
        after_cache_load(after_fetch(table, fetched), loaded) == fetched,
{
}

} // verus!

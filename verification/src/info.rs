//! One entry of the rate table.

use vstd::prelude::*;
use vstd::string::*;

verus! {

/// A currency and the price in yuan of one unit of it.
///
/// `rate` is the bit pattern of an IEEE-754 double (what `to_bits` gives):
/// the table is stored and compared exactly, no arithmetic is done on it here.
#[derive(Debug, PartialEq, Eq)]
pub struct Info {
    pub current_name: String,
    pub rate: u64,
}

impl View for Info {
    type V = (Seq<char>, u64);

    open spec fn view(&self) -> (Seq<char>, u64) {
        (self.current_name@, self.rate)
    }
}

/// A sequence of entries as plain values, in order.
pub open spec fn table_view(entries: Seq<Info>) -> Seq<(Seq<char>, u64)> {
    Seq::new(entries.len(), |i: int| entries[i]@)
}

impl Info {
    /// An entry for the currency `current_name` at the rate whose bit pattern
    /// is `rate`.
    pub fn new(current_name: &str, rate: u64) -> (r: Info)
        ensures
            r@ == (current_name@, rate),
    {
        Info { current_name: String::from_str(current_name), rate }
    }
}

impl Clone for Info {
    fn clone(&self) -> (r: Info)
        ensures
            r@ == self@,
    {
        Info { current_name: self.current_name.clone(), rate: self.rate }
    }
}

/// Copies a table entry by entry.
pub fn copy_table(entries: &Vec<Info>) -> (r: Vec<Info>)
    ensures
        table_view(r@) == table_view(entries@),
{
    let mut out: Vec<Info> = Vec::new();
    let mut i: usize = 0;
    while i < entries.len()
        invariant
            i <= entries.len(),
            out.len() == i,
            forall|j: int| 0 <= j < i ==> out[j]@ == entries[j]@,
        decreases entries.len() - i,
    {
        out.push(entries[i].clone());
        i += 1;
    }
    assert(table_view(out@) =~= table_view(entries@));
    out
}

} // verus!

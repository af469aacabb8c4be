//! The lines shown for an amount: one per entry of the table.

use vstd::prelude::*;
use vstd::string::*;
use crate::info::Info;

verus! {

/// The three numbers of one line, written out: the amount itself, the amount
/// divided by the entry's rate, and the amount multiplied by it.
#[derive(Debug, PartialEq, Eq)]
pub struct Figures {
    pub amount: String,
    pub quotient: String,
    pub product: String,
}

impl View for Figures {
    type V = (Seq<char>, Seq<char>, Seq<char>);

    open spec fn view(&self) -> (Seq<char>, Seq<char>, Seq<char>) {
        (self.amount@, self.quotient@, self.product@)
    }
}

/// The line for the entry called `name`.
pub open spec fn line_of(name: Seq<char>, figures: (Seq<char>, Seq<char>, Seq<char>)) -> Seq<char> {
    figures.0 + " "@ + name + " = "@ + figures.1 + " 人民币 (CNY) ---- "@ + figures.0
        + " 人民币 (CNY) = "@ + figures.2 + " "@ + name
}

/// `line` is the line for `entry`, laid out from figures that `convert` gave
/// for `amount` and the entry's rate.
pub open spec fn is_line_for<F: Fn(u64, u64) -> Figures>(
    convert: F,
    amount: u64,
    entry: Info,
    line: Seq<char>,
) -> bool {
    exists|figures: Figures| #[trigger]
        convert.ensures((amount, entry.rate), figures) && line == line_of(
            entry.current_name@,
            figures@,
        )
}

/// Lays out the conversions of `amount` over `snapshot`: one line per entry,
/// in the snapshot's order, and none for an empty snapshot.
///
/// `amount` and the rates are bit patterns of IEEE-754 doubles. The
/// arithmetic on them is the caller's: `convert(amount, rate)` gives the
/// figures for one rate, and each line is laid out from the figures that it
/// gave for that entry's rate.
pub fn calculate<F: Fn(u64, u64) -> Figures>(amount: u64, snapshot: &Vec<Info>, convert: F) -> (lines:
    Vec<String>)
    requires
        forall|a: u64, r: u64| convert.requires((a, r)),
    ensures
        snapshot.len() == 0 ==> lines@ == Seq::<String>::empty(),
        lines.len() == snapshot.len(),
        forall|i: int|
            0 <= i < snapshot.len() ==> is_line_for(convert, amount, snapshot[i], #[trigger] lines[i]@),
{
    let mut lines: Vec<String> = Vec::new();
    let mut k: usize = 0;
    while k < snapshot.len()
        invariant
            k <= snapshot.len(),
            lines.len() == k,
            forall|a: u64, r: u64| convert.requires((a, r)),
            forall|i: int|
                0 <= i < k ==> is_line_for(convert, amount, snapshot[i], #[trigger] lines[i]@),
        decreases snapshot.len() - k,
    {
        let figures = convert(amount, snapshot[k].rate);
        let line = layout_line(snapshot[k].current_name.as_str(), &figures);
        let ghost before = lines@;
        lines.push(line);
        assert forall|i: int| 0 <= i < k + 1 implies is_line_for(
            convert,
            amount,
            snapshot[i],
            #[trigger] lines[i]@,
        ) by {
            if i < k {
                assert(lines[i] == before[i]);
            } else {
                assert(convert.ensures((amount, snapshot[i].rate), figures));
            }
        }
        k += 1;
    }
    assert(snapshot.len() == 0 ==> lines@ =~= Seq::<String>::empty());
    lines
}

/// Lays out one line.
pub fn layout_line(name: &str, figures: &Figures) -> (r: String)
    ensures
        r@ == line_of(name@, figures@),
{
    let amount = figures.amount.as_str();
    String::from_str(amount).concat(" ").concat(name).concat(" = ").concat(
        figures.quotient.as_str(),
    ).concat(" 人民币 (CNY) ---- ").concat(amount).concat(" 人民币 (CNY) = ").concat(
        figures.product.as_str(),
    ).concat(" ").concat(name)
}

} // verus!

//! The stock block in the map's top-left corner: how many of the base's
//! piles it names, and how it counts the rest.
use vstd::prelude::*;
use vstd::string::StringExecFns;

use crate::text::{decimal, push_decimal};

verus! {

/// Heads the block.
pub const STOCK_HEADER: &'static str = "BASE STOCK";

/// How the block spends its lines on `piles` piles.
#[derive(Debug)]
pub struct StockSplit {
    /// The piles named, from the first.
    pub shown: usize,
    /// The last line, counting the piles not named, when there are any.
    pub tail: Option<String>,
}

/// The block for `piles` piles in `lines` lines, the header's included:
/// nothing for an empty base or a pane without room for the header and one
/// row; every pile named when they all fit under the header; otherwise as
/// many as leave the last line free to count the rest.
pub open spec fn spec_stock_split(piles: nat, lines: nat) -> Option<(nat, Option<Seq<char>>)> {
    if piles == 0 || lines < 2 {
        None
    } else if piles < lines {
        Some((piles, None))
    } else {
        let shown = (lines - 2) as nat;
        Some((shown, Some("+"@ + decimal((piles - shown) as nat) + " more"@)))
    }
}

pub open spec fn split_view(s: Option<StockSplit>) -> Option<(nat, Option<Seq<char>>)> {
    match s {
        Some(x) => Some(
            (
                x.shown as nat,
                match x.tail {
                    Some(t) => Some(t@),
                    None => None,
                },
            ),
        ),
        None => None,
    }
}

/// How the block shows `piles` piles in `lines` lines.
pub fn stock_split(piles: usize, lines: usize) -> (out: Option<StockSplit>)
    ensures
        split_view(out) == spec_stock_split(piles as nat, lines as nat),
{
    if piles == 0 || lines < 2 {
        return None;
    }
    if piles < lines {
        return Some(StockSplit { shown: piles, tail: None });
    }
    let shown = lines - 2;
    let mut tail = String::from_str("+");
    push_decimal(&mut tail, (piles - shown) as u64);
    tail.append(" more");
    Some(StockSplit { shown, tail: Some(tail) })
}

/// How many piles the counting line stands for.
pub open spec fn counted(piles: nat, split: (nat, Option<Seq<char>>)) -> nat {
    if split.1 is Some {
        (piles - split.0) as nat
    } else {
        0
    }
}

/// Every pile is either named or counted, the block never takes more lines
/// than it was given, and the count never stands for a single pile: that
/// one would have fit on the line the count takes.
pub proof fn every_pile_is_named_or_counted(piles: nat, lines: nat)
    requires
        spec_stock_split(piles, lines) is Some,
    ensures
        ({
            let s = spec_stock_split(piles, lines).unwrap();
            &&& s.0 + counted(piles, s) == piles
            &&& 1 + s.0 + (if s.1 is Some {
                1nat
            } else {
                0nat
            }) <= lines
            &&& s.1 is Some ==> counted(piles, s) >= 2
        }),
{
}

} // verus!

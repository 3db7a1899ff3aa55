//! What a recipe, an upgrade or a build costs, as the rows its screen prints:
//! each ingredient's name with how many are to hand against how many it
//! takes. Items are keyed by an integer id the frontend assigns.
use vstd::prelude::*;
use vstd::string::StringExecFns;

use crate::text::{decimal, push_decimal};

verus! {

/// One carried pile: an item, its fusion tier, and how many.
#[derive(Debug)]
pub struct InventoryRow {
    pub item: u32,
    pub tier: u32,
    pub qty: u32,
}

/// One pile on the base's shelves.
#[derive(Debug)]
pub struct ShelfRow {
    pub item: u32,
    pub qty: u32,
}

/// One ingredient of a cost: the item, its name, and how many it takes.
#[derive(Debug)]
pub struct CostEntry {
    pub item: u32,
    pub name: String,
    pub qty: u32,
}

/// How many plain copies of `item` the pack holds: the first tier-0 pile of
/// it, since a fused copy is not a material.
pub open spec fn spec_carried(inv: Seq<InventoryRow>, item: u32) -> nat
    decreases inv.len(),
{
    if inv.len() == 0 {
        0
    } else if inv[0].item == item && inv[0].tier == 0 {
        inv[0].qty as nat
    } else {
        spec_carried(inv.drop_first(), item)
    }
}

/// How many of `item` the base's shelves hold: the first pile of it.
pub open spec fn spec_shelved(stock: Seq<ShelfRow>, item: u32) -> nat
    decreases stock.len(),
{
    if stock.len() == 0 {
        0
    } else if stock[0].item == item {
        stock[0].qty as nat
    } else {
        spec_shelved(stock.drop_first(), item)
    }
}

pub fn carried(inventory: &[InventoryRow], item: u32) -> (n: u32)
    ensures
        n == spec_carried(inventory@, item),
{
    let mut i: usize = 0;
    assert(inventory@.skip(0) =~= inventory@);
    while i < inventory.len()
        invariant
            i <= inventory@.len(),
            spec_carried(inventory@, item) == spec_carried(inventory@.skip(i as int), item),
        decreases inventory@.len() - i,
    {
        proof {
            let rest = inventory@.skip(i as int);
            assert(rest[0] == inventory@[i as int]);
            assert(rest.drop_first() =~= inventory@.skip(i + 1));
        }
        let row = &inventory[i];
        if row.item == item && row.tier == 0 {
            return row.qty;
        }
        i = i + 1;
    }
    assert(inventory@.skip(i as int).len() == 0);
    0
}

fn shelved(stock: &[ShelfRow], item: u32) -> (n: u32)
    ensures
        n == spec_shelved(stock@, item),
{
    let mut i: usize = 0;
    assert(stock@.skip(0) =~= stock@);
    while i < stock.len()
        invariant
            i <= stock@.len(),
            spec_shelved(stock@, item) == spec_shelved(stock@.skip(i as int), item),
        decreases stock@.len() - i,
    {
        proof {
            let rest = stock@.skip(i as int);
            assert(rest[0] == stock@[i as int]);
            assert(rest.drop_first() =~= stock@.skip(i + 1));
        }
        if stock[i].item == item {
            return stock[i].qty;
        }
        i = i + 1;
    }
    assert(stock@.skip(i as int).len() == 0);
    0
}

/// One cost row: `Core Fragment (3/18)`.
pub open spec fn cost_line(e: CostEntry, have: nat) -> Seq<char> {
    e.name@ + " ("@ + decimal(have) + "/"@ + decimal(e.qty as nat) + ")"@
}

fn cost_text(e: &CostEntry, have: u32) -> (out: String)
    ensures
        out@ == cost_line(*e, have as nat),
{
    let mut out = e.name.clone();
    out.append(" (");
    push_decimal(&mut out, have as u64);
    out.append("/");
    push_decimal(&mut out, e.qty as u64);
    out.append(")");
    out
}

/// The player-paid form: what the pack holds against what each ingredient
/// takes.
pub fn cost_display(cost: &[CostEntry], inventory: &[InventoryRow]) -> (rows: Vec<String>)
    ensures
        rows.deep_view() == Seq::new(
            cost@.len(),
            |i: int| cost_line(cost@[i], spec_carried(inventory@, cost@[i].item)),
        ),
{
    let mut rows: Vec<String> = Vec::new();
    let mut i: usize = 0;
    while i < cost.len()
        invariant
            i <= cost@.len(),
            rows.deep_view() =~= Seq::new(
                i as nat,
                |k: int| cost_line(cost@[k], spec_carried(inventory@, cost@[k].item)),
            ),
        decreases cost@.len() - i,
    {
        let have = carried(inventory, cost[i].item);
        let ghost before = rows.deep_view();
        let line = cost_text(&cost[i], have);
        rows.push(line);
        assert(rows.deep_view() =~= before.push(line@));
        i = i + 1;
    }
    rows
}

/// The build menu's form: what the pack and the base's shelves hold
/// between them, since a builder fetches from both. Each ingredient's two
/// counts together fit a `u32`, as the counts themselves do.
pub fn build_cost_display(cost: &[CostEntry], inventory: &[InventoryRow], stock: &[ShelfRow]) -> (rows: Vec<String>)
    requires
        forall|i: int|
            0 <= i < cost@.len() ==> spec_carried(inventory@, #[trigger] cost@[i].item) + spec_shelved(
                stock@,
                cost@[i].item,
            ) <= u32::MAX,
    ensures
        rows.deep_view() == Seq::new(
            cost@.len(),
            |i: int|
                cost_line(
                    cost@[i],
                    spec_carried(inventory@, cost@[i].item) + spec_shelved(stock@, cost@[i].item),
                ),
        ),
{
    let mut rows: Vec<String> = Vec::new();
    let mut i: usize = 0;
    while i < cost.len()
        invariant
            i <= cost@.len(),
            forall|k: int|
                0 <= k < cost@.len() ==> spec_carried(inventory@, #[trigger] cost@[k].item)
                    + spec_shelved(stock@, cost@[k].item) <= u32::MAX,
            rows.deep_view() =~= Seq::new(
                i as nat,
                |k: int|
                    cost_line(
                        cost@[k],
                        spec_carried(inventory@, cost@[k].item) + spec_shelved(stock@, cost@[k].item),
                    ),
            ),
        decreases cost@.len() - i,
    {
        let item = cost[i].item;
        let have = carried(inventory, item) + shelved(stock, item);
        let ghost before = rows.deep_view();
        let line = cost_text(&cost[i], have);
        rows.push(line);
        assert(rows.deep_view() =~= before.push(line@));
        i = i + 1;
    }
    rows
}


/// With nothing on the base's shelves, the build form reads exactly as the
/// pack form does: the two differ only in what they count.
pub proof fn an_empty_shelf_changes_nothing(cost: Seq<CostEntry>, inventory: Seq<InventoryRow>)
    ensures
        Seq::new(
            cost.len(),
            |i: int|
                cost_line(
                    cost[i],
                    spec_carried(inventory, cost[i].item) + spec_shelved(Seq::empty(), cost[i].item),
                ),
        ) == Seq::new(cost.len(), |i: int| cost_line(cost[i], spec_carried(inventory, cost[i].item))),
{
    assert(Seq::new(
        cost.len(),
        |i: int|
            cost_line(
                cost[i],
                spec_carried(inventory, cost[i].item) + spec_shelved(Seq::empty(), cost[i].item),
            ),
    ) =~= Seq::new(cost.len(), |i: int| cost_line(cost[i], spec_carried(inventory, cost[i].item))));
}

/// A fused copy is never counted as a material: putting one anywhere in the
/// pack leaves every count as it was.
pub proof fn fused_copies_are_not_materials(
    inventory: Seq<InventoryRow>,
    k: int,
    fused: InventoryRow,
    item: u32,
)
    requires
        0 <= k <= inventory.len(),
        fused.tier > 0,
    ensures
        spec_carried(inventory.insert(k, fused), item) == spec_carried(inventory, item),
    decreases k,
{
    let with = inventory.insert(k, fused);
    if k == 0 {
        assert(with[0] == fused);
        assert(with.drop_first() =~= inventory);
    } else {
        assert(with[0] == inventory[0]);
        assert(with.drop_first() =~= inventory.drop_first().insert(k - 1, fused));
        fused_copies_are_not_materials(inventory.drop_first(), k - 1, fused, item);
    }
}

} // verus!

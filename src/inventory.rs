use vstd::prelude::*;

use crate::actor::Coins;

verus! {

/// A stack of one shop item held by a user.
pub struct GamblingItem {
    pub quantity: i64,
    pub item_id: String,
}

impl GamblingItem {
    /// A copy of the stack.
    pub fn duplicate(&self) -> (r: GamblingItem)
        ensures
            r == *self,
    {
        GamblingItem { quantity: self.quantity, item_id: self.item_id.clone() }
    }
}

/// Index of the first stack of `items` with id `id`, or -1.
pub open spec fn find_item(items: Seq<GamblingItem>, id: Seq<char>) -> int
    decreases items.len(),
{
    if items.len() == 0 {
        -1
    } else {
        let i = find_item(items.drop_last(), id);
        if i >= 0 {
            i
        } else if items.last().item_id@ == id {
            items.len() - 1
        } else {
            -1
        }
    }
}

/// Keeps the stacks whose id is not `id`.
pub open spec fn other_than(id: Seq<char>) -> spec_fn(GamblingItem) -> bool {
    |x: GamblingItem| x.item_id@ != id
}

/// The stacks after adding `amount` to the first stack of `id`, and that
/// stack's new quantity; all stacks of `id` go when it reaches zero. `None`
/// (and no change) when no stack has the id.
pub open spec fn edited(items: Seq<GamblingItem>, id: Seq<char>, amount: i64) -> (Seq<GamblingItem>, Option<i64>) {
    let i = find_item(items, id);
    if i < 0 {
        (items, None)
    } else {
        let q = (items[i].quantity + amount) as i64;
        if q == 0 {
            (items.filter(other_than(id)), Some(0i64))
        } else {
            (items.update(i, GamblingItem { quantity: q, ..items[i] }), Some(q))
        }
    }
}

proof fn lemma_find_item(items: Seq<GamblingItem>, id: Seq<char>)
    ensures
        -1 <= find_item(items, id) < items.len(),
        find_item(items, id) >= 0 ==> items[find_item(items, id)].item_id@ == id,
        forall|j: int|
            0 <= j < items.len() && (find_item(items, id) < 0 || j < find_item(items, id)) ==> (#[trigger] items[j]).item_id@
                != id,
    decreases items.len(),
{
    if items.len() > 0 {
        let init = items.drop_last();
        lemma_find_item(init, id);
        assert forall|j: int| 0 <= j < init.len() implies init[j] == items[j] by {}
    }
}

/// Keeps only the stacks whose id is not `id`.
fn drop_item(items: &mut Vec<GamblingItem>, id: &String)
    ensures
        final(items)@ == old(items)@.filter(other_than(id@)),
{
    let mut kept: Vec<GamblingItem> = Vec::new();
    let mut j: usize = 0;
    while j < items.len()
        invariant
            0 <= j <= items@.len(),
            items@ == old(items)@,
            kept@ == items@.take(j as int).filter(other_than(id@)),
        decreases items@.len() - j,
    {
        proof {
            reveal(Seq::filter);
            assert(items@.take(j + 1).drop_last() =~= items@.take(j as int));
            assert(items@.take(j + 1).last() == items@[j as int]);
        }
        if items[j].item_id != *id {
            kept.push(items[j].duplicate());
        }
        j += 1;
    }
    assert(items@.take(items@.len() as int) =~= items@);
    *items = kept;
}

/// A row that holds a user's item stacks.
pub trait ItemInventory {
    spec fn items(&self) -> Seq<GamblingItem>;

    fn inventory(&self) -> (r: &[GamblingItem])
        ensures
            r@ == self.items(),
    ;

    fn inventory_mut(&mut self) -> (r: &mut Vec<GamblingItem>)
        ensures
            r@ == old(self).items(),
            final(self).items() == final(r)@,
    ;

    /// Adds `amount` to the stack of `item_id` and returns its new quantity;
    /// a stack that reaches zero is removed.
    fn edit_item_quantity(&mut self, item_id: &str, amount: i64) -> (r: Option<i64>)
        requires
            find_item(old(self).items(), item_id@) >= 0 ==> i64::MIN <= old(self).items()[find_item(
                old(self).items(),
                item_id@,
            )].quantity + amount <= i64::MAX,
        ensures
            (final(self).items(), r) == edited(old(self).items(), item_id@, amount),
    {
        let id = item_id.to_owned();
        let inv = self.inventory_mut();
        let ghost items = inv@;
        proof {
            lemma_find_item(items, id@);
        }
        let mut i: usize = 0;
        while i < inv.len() && !(inv[i].item_id == id)
            invariant
                0 <= i <= inv@.len(),
                inv@ == items,
                id@ == item_id@,
                forall|j: int| 0 <= j < i ==> (#[trigger] items[j]).item_id@ != id@,
            decreases inv@.len() - i,
        {
            i += 1;
        }
        if i == inv.len() {
            assert(find_item(items, id@) < 0) by {
                let f = find_item(items, id@);
                if f >= 0 {
                    assert(items[f].item_id@ != id@);
                }
            }
            return None;
        }
        assert(find_item(items, id@) == i) by {
            let f = find_item(items, id@);
            if f < 0 || f > i {
                assert(items[i as int].item_id@ != id@);
            } else if f < i {
                assert(items[f].item_id@ != id@);
            }
        }
        let q = inv[i].quantity + amount;
        if q == 0 {
            drop_item(inv, &id);
        } else {
            let item = &mut inv[i];
            item.quantity = q;
        }
        assert(q != 0 ==> inv@ =~= items.update(i as int, GamblingItem { quantity: q, ..items[i as int] }));
        Some(q)
    }
}

/// A seller's coins and items.
pub struct SellRow {
    pub id: i64,
    pub coins: i64,
    pub inventory: Option<Vec<GamblingItem>>,
}

impl SellRow {
    pub fn new(id: i64) -> (r: Self)
        ensures
            r.id == id,
            r.coins == 0,
            r.inventory is Some,
            r.items() == Seq::<GamblingItem>::empty(),
    {
        SellRow { id, coins: 0, inventory: Some(Vec::new()) }
    }
}

impl Coins for SellRow {
    open spec fn coin_balance(&self) -> i64 {
        self.coins
    }

    fn coins(&self) -> (r: i64) {
        self.coins
    }

    fn coins_mut(&mut self) -> (r: &mut i64) {
        &mut self.coins
    }
}

impl ItemInventory for SellRow {
    open spec fn items(&self) -> Seq<GamblingItem> {
        match self.inventory {
            Some(v) => v@,
            None => Seq::empty(),
        }
    }

    fn inventory(&self) -> (r: &[GamblingItem]) {
        match &self.inventory {
            Some(v) => v.as_slice(),
            None => &[],
        }
    }

    fn inventory_mut(&mut self) -> (r: &mut Vec<GamblingItem>) {
        if self.inventory.is_none() {
            self.inventory = Some(Vec::new());
        }
        match &mut self.inventory {
            Some(v) => v,
            None => unreached(),
        }
    }
}

} // verus!

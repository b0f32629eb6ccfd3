use vstd::prelude::*;

use crate::actor::{clamp_i64, clamp_to_i64};
use crate::error::Error;
use crate::shop::ShopCurrency;

verus! {

/// A user's mined resources and crafted packs.
pub struct CraftRow {
    pub id: i64,
    pub coal: i64,
    pub iron: i64,
    pub gold: i64,
    pub redstone: i64,
    pub lapis: i64,
    pub diamonds: i64,
    pub emeralds: i64,
    pub tech: i64,
    pub utility: i64,
    pub production: i64,
}

/// Whether the row keeps a count of `c`.
pub open spec fn kept(c: ShopCurrency) -> bool {
    c != ShopCurrency::Coins && c != ShopCurrency::Gems
}

/// The first requirement of `reqs` from index `k` on that the row cannot
/// pay for `amount` packs: its currency and the units it takes.
pub open spec fn first_short(row: CraftRow, reqs: Seq<Option<(ShopCurrency, u16)>>, amount: i64, k: int) -> Option<(ShopCurrency, int)>
    decreases reqs.len() - k,
{
    if k < 0 || k >= reqs.len() {
        None
    } else {
        match reqs[k] {
            Some((c, cost)) => if row.held(c) < cost * amount {
                Some((c, cost * amount))
            } else {
                first_short(row, reqs, amount, k + 1)
            },
            None => first_short(row, reqs, amount, k + 1),
        }
    }
}

/// Units of `c` that the first `k` requirements of `reqs` ask for, per pack.
pub open spec fn prefix_cost(reqs: Seq<Option<(ShopCurrency, u16)>>, k: int, c: ShopCurrency) -> int
    decreases k,
{
    if k <= 0 || k > reqs.len() {
        0
    } else {
        prefix_cost(reqs, k - 1, c) + match reqs[k - 1] {
            Some((d, cost)) => if d == c {
                cost as int
            } else {
                0
            },
            None => 0,
        }
    }
}

/// Units of `c` that one pack of `item` takes.
pub open spec fn recipe_cost(item: ShopCurrency, c: ShopCurrency) -> int {
    prefix_cost(item.requirements(), 4, c)
}

proof fn lemma_no_shortfall(row: CraftRow, reqs: Seq<Option<(ShopCurrency, u16)>>, amount: i64, k: int, j: int)
    requires
        0 <= k <= j < reqs.len(),
        first_short(row, reqs, amount, k) is None,
    ensures
        match reqs[j] {
            Some((c, cost)) => row.held(c) >= cost * amount,
            None => true,
        },
    decreases j - k,
{
    if k < j {
        lemma_no_shortfall(row, reqs, amount, k + 1, j);
    }
}

impl CraftRow {
    pub fn new(id: i64) -> (r: Self)
        ensures
            r.id == id,
            forall|c: ShopCurrency| r.held(c) == 0,
    {
        CraftRow {
            id,
            coal: 0,
            iron: 0,
            gold: 0,
            redstone: 0,
            lapis: 0,
            diamonds: 0,
            emeralds: 0,
            tech: 0,
            utility: 0,
            production: 0,
        }
    }

    /// Units of `c` held (coins and gems are not kept here).
    pub open spec fn held(&self, c: ShopCurrency) -> i64 {
        match c {
            ShopCurrency::Coal => self.coal,
            ShopCurrency::Iron => self.iron,
            ShopCurrency::Gold => self.gold,
            ShopCurrency::Redstone => self.redstone,
            ShopCurrency::Lapis => self.lapis,
            ShopCurrency::Diamonds => self.diamonds,
            ShopCurrency::Emeralds => self.emeralds,
            ShopCurrency::Tech => self.tech,
            ShopCurrency::Utility => self.utility,
            ShopCurrency::Production => self.production,
            _ => 0,
        }
    }

    pub fn amount_of(&self, c: ShopCurrency) -> (r: i64)
        ensures
            r == self.held(c),
    {
        match c {
            ShopCurrency::Coal => self.coal,
            ShopCurrency::Iron => self.iron,
            ShopCurrency::Gold => self.gold,
            ShopCurrency::Redstone => self.redstone,
            ShopCurrency::Lapis => self.lapis,
            ShopCurrency::Diamonds => self.diamonds,
            ShopCurrency::Emeralds => self.emeralds,
            ShopCurrency::Tech => self.tech,
            ShopCurrency::Utility => self.utility,
            ShopCurrency::Production => self.production,
            _ => 0,
        }
    }

    fn set_amount(&mut self, c: ShopCurrency, v: i64)
        requires
            kept(c),
        ensures
            final(self).held(c) == v,
            final(self).id == old(self).id,
            forall|d: ShopCurrency| d != c ==> final(self).held(d) == old(self).held(d),
    {
        match c {
            ShopCurrency::Coal => self.coal = v,
            ShopCurrency::Iron => self.iron = v,
            ShopCurrency::Gold => self.gold = v,
            ShopCurrency::Redstone => self.redstone = v,
            ShopCurrency::Lapis => self.lapis = v,
            ShopCurrency::Diamonds => self.diamonds = v,
            ShopCurrency::Emeralds => self.emeralds = v,
            ShopCurrency::Tech => self.tech = v,
            ShopCurrency::Utility => self.utility = v,
            _ => self.production = v,
        }
    }

    /// Crafts `amount` packs of `item` from the resources its recipe asks
    /// for. On a shortfall nothing changes and the first short resource is
    /// named with the units missing. Returns the packs of `item` now held.
    pub fn craft(&mut self, item: ShopCurrency, amount: i64) -> (r: Result<i64, Error>)
        requires
            item.craftable(),
            amount >= 0,
            old(self).held(item) + amount <= i64::MAX,
        ensures
            match first_short(*old(self), item.requirements(), amount, 0) {
                Some((c, need)) => {
                    &&& r == Err::<i64, Error>(
                        Error::InsufficientFunds { required: clamp_i64(need - old(self).held(c)), currency: c },
                    )
                    &&& *final(self) == *old(self)
                },
                None => {
                    &&& r == Ok::<i64, Error>((old(self).held(item) + amount) as i64)
                    &&& final(self).id == old(self).id
                    &&& final(self).held(item) == old(self).held(item) + amount
                    &&& forall|c: ShopCurrency|
                        c != item ==> #[trigger] final(self).held(c) == old(self).held(c) - recipe_cost(item, c)
                            * amount
                },
            },
    {
        let reqs = item.craft_req();
        let ghost start = *self;
        let mut k: usize = 0;
        while k < 4
            invariant
                0 <= k <= 4,
                reqs@ == item.requirements(),
                item.craftable(),
                amount >= 0,
                *self == start,
                first_short(start, reqs@, amount, 0) == first_short(start, reqs@, amount, k as int),
            decreases 4 - k,
        {
            if let Some((c, cost)) = reqs[k] {
                let have = self.amount_of(c);
                assert(0 <= cost as i128 * amount as i128 <= 0xffff * 0x8000_0000_0000_0000i128) by (nonlinear_arith)
                    requires
                        0 <= cost <= 0xffff,
                        0 <= amount < 0x8000_0000_0000_0000i128,
                ;
                let need = cost as i128 * amount as i128;
                if (have as i128) < need {
                    return Err(
                        Error::InsufficientFunds { required: clamp_to_i64(need - have as i128), currency: c },
                    );
                }
            }
            k += 1;
        }
        let mut j: usize = 0;
        while j < 4
            invariant
                0 <= j <= 4,
                reqs@ == item.requirements(),
                item.craftable(),
                amount >= 0,
                first_short(start, reqs@, amount, 0) is None,
                self.id == start.id,
                forall|c: ShopCurrency|
                    #[trigger] self.held(c) == start.held(c) - prefix_cost(reqs@, j as int, c) * amount,
            decreases 4 - j,
        {
            if let Some((c, cost)) = reqs[j] {
                proof {
                    reveal_with_fuel(prefix_cost, 5);
                    lemma_no_shortfall(start, reqs@, amount, 0, j as int);
                    assert(prefix_cost(reqs@, j as int, c) == 0);
                    assert(0 <= cost * amount <= start.held(c)) by (nonlinear_arith)
                        requires
                            0 <= cost,
                            0 <= amount,
                            cost * amount <= start.held(c),
                    ;
                }
                let have = self.amount_of(c);
                self.set_amount(c, have - cost as i64 * amount);
                proof {
                    assert forall|d: ShopCurrency| #[trigger] self.held(d) == start.held(d) - prefix_cost(reqs@, j + 1, d) * amount by {
                        assert(prefix_cost(reqs@, j + 1, d) == prefix_cost(reqs@, j as int, d) + if d == c { cost as int } else { 0 });
                        assert((prefix_cost(reqs@, j as int, d) + cost) * amount == prefix_cost(reqs@, j as int, d) * amount + cost * amount) by (nonlinear_arith);
                    }
                }
            } else {
                proof {
                    assert forall|d: ShopCurrency| #[trigger] self.held(d) == start.held(d) - prefix_cost(reqs@, j + 1, d) * amount by {
                        assert(prefix_cost(reqs@, j + 1, d) == prefix_cost(reqs@, j as int, d));
                    }
                }
            }
            j += 1;
        }
        proof {
            reveal_with_fuel(prefix_cost, 5);
            assert(prefix_cost(reqs@, 4, item) == 0);
        }
        let total = self.amount_of(item) + amount;
        self.set_amount(item, total);
        Ok(total)
    }
}

} // verus!

use vstd::prelude::*;

use crate::actor::clamp_i64;
use crate::entropy::weighted_index;
use crate::rows::LottoRow;

verus! {

/// Number of winners of each lottery draw.
pub const LOTTO_WINNERS: usize = 3;

/// Total tickets held across `rows`.
pub open spec fn tickets_sum(rows: Seq<LottoRow>) -> int
    decreases rows.len(),
{
    if rows.len() == 0 {
        0
    } else {
        tickets_sum(rows.drop_last()) + rows.last().tickets()
    }
}

/// A row's tickets as a draw weight (no weight for a negative count).
pub open spec fn weight(row: LottoRow) -> u64 {
    if row.tickets() > 0 {
        row.tickets() as u64
    } else {
        0
    }
}

/// The weekly lottery.
pub struct Lotto;

impl Lotto {
    /// Tickets held across `rows`, held within `i64`.
    pub fn total_tickets(rows: &Vec<LottoRow>) -> (r: i64)
        ensures
            r == clamp_i64(tickets_sum(rows@)),
    {
        let mut sum: i128 = 0;
        let mut i: usize = 0;
        while i < rows.len()
            invariant
                0 <= i <= rows@.len(),
                sum == tickets_sum(rows@.take(i as int)),
                -0x8000_0000_0000_0000i128 * i <= sum <= 0x8000_0000_0000_0000i128 * i,
            decreases rows@.len() - i,
        {
            proof {
                assert(rows@.take(i + 1).drop_last() =~= rows@.take(i as int));
                assert(rows@.take(i + 1).last() == rows@[i as int]);
                assert(i < 0x1_0000_0000_0000_0000i128);
            }
            let q = rows[i].quantity();
            sum = sum + q as i128;
            i += 1;
        }
        assert(rows@.take(rows@.len() as int) =~= rows@);
        if sum > i64::MAX as i128 {
            i64::MAX
        } else if sum < i64::MIN as i128 {
            i64::MIN
        } else {
            sum as i64
        }
    }

    /// Draws up to `count` winners from `rows` without replacement, each
    /// with a chance in proportion to their tickets; stops early when no
    /// tickets are left.
    pub fn draw_winners(rows: Vec<LottoRow>, count: usize) -> (r: Vec<LottoRow>)
        ensures
            r@.len() <= count,
            forall|i: int| 0 <= i < r@.len() ==> rows@.contains(#[trigger] r@[i]) && r@[i].tickets() > 0,
    {
        let ghost all = rows@;
        let mut left = rows;
        let mut winners: Vec<LottoRow> = Vec::new();
        while winners.len() < count
            invariant
                all == rows@,
                winners@.len() <= count,
                forall|i: int| 0 <= i < winners@.len() ==> all.contains(#[trigger] winners@[i]) && winners@[i].tickets() > 0,
                forall|i: int| 0 <= i < left@.len() ==> all.contains(#[trigger] left@[i]),
            decreases count - winners@.len(),
        {
            let mut weights: Vec<u64> = Vec::new();
            let mut j: usize = 0;
            while j < left.len()
                invariant
                    0 <= j <= left@.len(),
                    weights@.len() == j,
                    forall|k: int| 0 <= k < j ==> weights@[k] == weight(#[trigger] left@[k]),
                decreases left@.len() - j,
            {
                let q = left[j].quantity();
                weights.push(if q > 0 { q as u64 } else { 0 });
                j += 1;
            }
            match weighted_index(&weights) {
                Some(pick) => {
                    assert(weights@[pick as int] == weight(left@[pick as int]));
                    let ghost before = left@;
                    let winner = left.remove(pick);
                    assert(all.contains(before[pick as int]));
                    assert forall|i: int| 0 <= i < left@.len() implies all.contains(#[trigger] left@[i]) by {
                        if i < pick {
                            assert(left@[i] == before[i]);
                        } else {
                            assert(left@[i] == before[i + 1]);
                        }
                    }
                    winners.push(winner);
                },
                None => {
                    return winners;
                },
            }
        }
        winners
    }
}

} // verus!

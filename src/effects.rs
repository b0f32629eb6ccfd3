use vstd::prelude::*;

use crate::actor::{clamp_i64, clamp_to_i64};
use crate::clock::now_timestamp;

verus! {

/// How an effect acts on a payout.
#[derive(Clone, Copy, Debug, PartialEq, Eq, Structural)]
pub enum EffectCategory {
    /// Returns the stake of a lost wager.
    Refund,
    /// Replaces the payout; takes no part in the canonical resolution.
    MultiplicativeReplace,
    /// Adds its value to what the wager pays.
    AdditiveAccumulate,
}

/// A boost that a user can hold: its id, category, the factor it applies
/// to a payout, and how long it lasts once used (`None`: one wager).
#[derive(Clone, Copy)]
pub struct EffectDefinition {
    pub id: &'static str,
    pub category: EffectCategory,
    pub factor: i64,
    pub duration_secs: Option<i64>,
}

impl EffectDefinition {
    /// What the effect makes of a wager of `bet` that pays `payout`: a
    /// refund gives the stake back; the others scale a non-negative payout
    /// by their factor and leave a loss as it is.
    pub open spec fn value(self, bet: i64, payout: i64) -> i64 {
        match self.category {
            EffectCategory::Refund => bet,
            _ => if payout < 0 {
                payout
            } else {
                clamp_i64(payout * self.factor)
            },
        }
    }

    pub fn apply(&self, bet: i64, payout: i64) -> (r: i64)
        ensures
            r == self.value(bet, payout),
    {
        match self.category {
            EffectCategory::Refund => bet,
            _ => {
                if payout < 0 {
                    payout
                } else {
                    let (p, f) = (payout as i128, self.factor as i128);
                    assert(-0x4000_0000_0000_0000_0000_0000_0000_0000i128 <= p * f
                        <= 0x4000_0000_0000_0000_0000_0000_0000_0000i128) by (nonlinear_arith)
                        requires
                            0 <= p <= 0x8000_0000_0000_0000i128,
                            -0x8000_0000_0000_0000i128 <= f <= 0x8000_0000_0000_0000i128,
                    ;
                    clamp_to_i64(p * f)
                }
            },
        }
    }
}

impl EffectDefinition {
    /// Expiry of an instance activated at `now` (Unix seconds): `now` plus
    /// the duration, or none for a single-use effect.
    pub fn expiry_at(&self, now: i64) -> (r: Option<i64>)
        ensures
            r == match self.duration_secs {
                Some(d) => Some(clamp_i64(now + d)),
                None => None,
            },
    {
        match self.duration_secs {
            Some(d) => Some(clamp_to_i64(now as i128 + d as i128)),
            None => None,
        }
    }
}

/// One effect held by a user: its row id, the effect's id and, for a
/// timed effect, the Unix time (seconds) at which it runs out.
pub struct EffectsRow {
    pub id: i32,
    pub item_id: String,
    pub expiry: Option<i64>,
}

/// Whether some definition of `s` has the id `id`.
pub open spec fn defs_have_id(s: Seq<EffectDefinition>, id: Seq<char>) -> bool {
    exists|b: int| 0 <= b < s.len() && #[trigger] s[b].id@ == id
}

/// The catalog of effects, keyed by id.
pub struct EffectRegistry {
    defs: Vec<EffectDefinition>,
}

impl View for EffectRegistry {
    type V = Seq<EffectDefinition>;

    closed spec fn view(&self) -> Seq<EffectDefinition> {
        self.defs@
    }
}

impl EffectRegistry {
    /// No two definitions share an id.
    pub open spec fn wf(&self) -> bool {
        forall|i: int, j: int| 0 <= i < j < self@.len() ==> #[trigger] self@[i].id@ != #[trigger] self@[j].id@
    }

    /// The definition registered under `id`, if any.
    pub open spec fn lookup(&self, id: Seq<char>) -> Option<EffectDefinition> {
        if defs_have_id(self@, id) {
            Some(self@[choose|i: int| 0 <= i < self@.len() && #[trigger] self@[i].id@ == id])
        } else {
            None
        }
    }

    /// The boosts sold in the shop.
    pub fn standard() -> (r: Self)
        ensures
            r.wf(),
            r@.len() == 6,
            r@[0] == (EffectDefinition {
                id: "luckychip",
                category: EffectCategory::Refund,
                factor: 1,
                duration_secs: None,
            }),
            forall|i: int| 1 <= i < 6 ==> (#[trigger] r@[i]).category == EffectCategory::AdditiveAccumulate,
            r@[1].id@ == "payout2x"@ && r@[1].factor == 2 && r@[1].duration_secs == Some(900i64),
            r@[2].id@ == "payout5x"@ && r@[2].factor == 5 && r@[2].duration_secs == Some(600i64),
            r@[3].id@ == "payout10x"@ && r@[3].factor == 10 && r@[3].duration_secs == Some(300i64),
            r@[4].id@ == "payout50x"@ && r@[4].factor == 50 && r@[4].duration_secs == Some(120i64),
            r@[5].id@ == "payout100x"@ && r@[5].factor == 100 && r@[5].duration_secs == Some(60i64),
    {
        proof {
            reveal_strlit("luckychip");
            reveal_strlit("payout2x");
            reveal_strlit("payout5x");
            reveal_strlit("payout10x");
            reveal_strlit("payout50x");
            reveal_strlit("payout100x");
        }
        let defs = vec![
            EffectDefinition {
                id: "luckychip",
                category: EffectCategory::Refund,
                factor: 1,
                duration_secs: None,
            },
            EffectDefinition {
                id: "payout2x",
                category: EffectCategory::AdditiveAccumulate,
                factor: 2,
                duration_secs: Some(15 * 60),
            },
            EffectDefinition {
                id: "payout5x",
                category: EffectCategory::AdditiveAccumulate,
                factor: 5,
                duration_secs: Some(10 * 60),
            },
            EffectDefinition {
                id: "payout10x",
                category: EffectCategory::AdditiveAccumulate,
                factor: 10,
                duration_secs: Some(5 * 60),
            },
            EffectDefinition {
                id: "payout50x",
                category: EffectCategory::AdditiveAccumulate,
                factor: 50,
                duration_secs: Some(2 * 60),
            },
            EffectDefinition {
                id: "payout100x",
                category: EffectCategory::AdditiveAccumulate,
                factor: 100,
                duration_secs: Some(60),
            },
        ];
        let r = EffectRegistry { defs };
        assert(r.wf()) by {
            assert forall|i: int, j: int| 0 <= i < j < r@.len() implies #[trigger] r@[i].id@
                != #[trigger] r@[j].id@ by {
                assert(r@[i].id@.len() != r@[j].id@.len() || r@[i].id@[7] != r@[j].id@[7]
                    || r@[i].id@[6] != r@[j].id@[6]);
            }
        }
        r
    }

    /// The definition registered under `id`.
    pub fn get(&self, id: &str) -> (r: Option<EffectDefinition>)
        requires
            self.wf(),
        ensures
            r == self.lookup(id@),
    {
        let wanted = id.to_owned();
        let mut i: usize = 0;
        while i < self.defs.len()
            invariant
                0 <= i <= self@.len(),
                self.wf(),
                wanted@ == id@,
                forall|j: int| 0 <= j < i ==> #[trigger] self@[j].id@ != id@,
            decreases self@.len() - i,
        {
            if self.defs[i].id.to_owned() == wanted {
                let found = self.defs[i];
                proof {
                    assert(defs_have_id(self@, id@)) by {
                        assert(self@[i as int].id@ == id@);
                    }
                    let k = choose|k: int| 0 <= k < self@.len() && #[trigger] self@[k].id@ == id@;
                    if k != i as int {
                        if k < i as int {
                            assert(self@[k].id@ != self@[i as int].id@);
                        } else {
                            assert(self@[i as int].id@ != self@[k].id@);
                        }
                    }
                }
                return Some(found);
            }
            i += 1;
        }
        None
    }
}

/// Whether `e` is a refund effect of the registry.
pub open spec fn is_refund(registry: EffectRegistry, e: EffectsRow) -> bool {
    match registry.lookup(e.item_id@) {
        Some(d) => d.category == EffectCategory::Refund,
        None => false,
    }
}

/// Index of the first refund effect of `ledger`, or -1.
pub open spec fn first_refund(registry: EffectRegistry, ledger: Seq<EffectsRow>) -> int
    decreases ledger.len(),
{
    if ledger.len() == 0 {
        -1
    } else {
        let r = first_refund(registry, ledger.drop_last());
        if r >= 0 {
            r
        } else if is_refund(registry, ledger.last()) {
            ledger.len() - 1
        } else {
            -1
        }
    }
}

/// Whether a timed effect ran out before `now`.
pub open spec fn expired(e: EffectsRow, now: i64) -> bool {
    match e.expiry {
        Some(t) => t < now,
        None => false,
    }
}

/// Whether the effect at `i` is used up by the resolution: the refund
/// effect, single-use effects and those that ran out.
pub open spec fn spent(ledger: Seq<EffectsRow>, refund: int, i: int, now: i64) -> bool {
    i == refund || ledger[i].expiry is None || expired(ledger[i], now)
}

/// Whether the effect at `i` adds to a won wager's payout: a live additive
/// effect other than the refund.
pub open spec fn contributes(
    registry: EffectRegistry,
    ledger: Seq<EffectsRow>,
    refund: int,
    i: int,
    won: bool,
    now: i64,
) -> bool {
    &&& won
    &&& i != refund
    &&& !expired(ledger[i], now)
    &&& match registry.lookup(ledger[i].item_id@) {
        Some(d) => d.category == EffectCategory::AdditiveAccumulate,
        None => false,
    }
}

/// What the additive effect at `i` adds.
pub open spec fn contribution(registry: EffectRegistry, ledger: Seq<EffectsRow>, i: int, bet: i64, base: i64) -> i64 {
    match registry.lookup(ledger[i].item_id@) {
        Some(d) => d.value(bet, base),
        None => 0,
    }
}

/// The accumulated payout after the first `k` effects: the stake when a
/// refund effect is held and the wager was lost, plus each contribution
/// (held within `i64`).
pub open spec fn accumulated(
    registry: EffectRegistry,
    ledger: Seq<EffectsRow>,
    bet: i64,
    base: i64,
    won: bool,
    now: i64,
    k: int,
) -> i64
    decreases k,
{
    let refund = first_refund(registry, ledger);
    if k <= 0 {
        if refund >= 0 && !won {
            bet
        } else {
            0
        }
    } else {
        let a = accumulated(registry, ledger, bet, base, won, now, k - 1);
        if contributes(registry, ledger, refund, k - 1, won, now) {
            clamp_i64(a + contribution(registry, ledger, k - 1, bet, base))
        } else {
            a
        }
    }
}

/// Whether any effect acts on the wager: a refund of a lost wager, or a
/// contribution.
pub open spec fn boosted(registry: EffectRegistry, ledger: Seq<EffectsRow>, won: bool, now: i64) -> bool {
    let refund = first_refund(registry, ledger);
    (refund >= 0 && !won) || exists|i: int|
        0 <= i < ledger.len() && #[trigger] contributes(registry, ledger, refund, i, won, now)
}

/// The final payout: the base payout when no effect acts, else the larger
/// of the accumulated payout and the base payout.
pub open spec fn resolved(
    registry: EffectRegistry,
    ledger: Seq<EffectsRow>,
    bet: i64,
    base: i64,
    won: bool,
    now: i64,
) -> i64 {
    if boosted(registry, ledger, won, now) {
        let a = accumulated(registry, ledger, bet, base, won, now, ledger.len() as int);
        if a > base {
            a
        } else {
            base
        }
    } else {
        base
    }
}

/// Row ids of the effects among the first `k` that are used up, in ledger
/// order.
pub open spec fn spent_ids(registry: EffectRegistry, ledger: Seq<EffectsRow>, now: i64, k: int) -> Seq<i32>
    decreases k,
{
    if k <= 0 {
        Seq::empty()
    } else {
        let prev = spent_ids(registry, ledger, now, k - 1);
        if spent(ledger, first_refund(registry, ledger), k - 1, now) {
            prev.push(ledger[k - 1].id)
        } else {
            prev
        }
    }
}

proof fn lemma_first_refund_range(registry: EffectRegistry, ledger: Seq<EffectsRow>)
    ensures
        -1 <= first_refund(registry, ledger) < ledger.len(),
        first_refund(registry, ledger) >= 0 ==> is_refund(registry, ledger[first_refund(registry, ledger)]),
        first_refund(registry, ledger) >= 0 ==> forall|j: int|
            0 <= j < first_refund(registry, ledger) ==> !is_refund(registry, #[trigger] ledger[j]),
        first_refund(registry, ledger) < 0 ==> forall|j: int|
            0 <= j < ledger.len() ==> !is_refund(registry, #[trigger] ledger[j]),
    decreases ledger.len(),
{
    if ledger.len() > 0 {
        let init = ledger.drop_last();
        lemma_first_refund_range(registry, init);
        assert forall|j: int| 0 <= j < init.len() implies init[j] == ledger[j] by {}
    }
}

/// Resolves a wager of `bet` whose unboosted payout is `base` against the
/// user's effects at time `now` (Unix seconds). Returns the payout to
/// credit and the row ids of the effects to remove.
pub fn resolve(
    registry: &EffectRegistry,
    ledger: &Vec<EffectsRow>,
    bet: i64,
    base: i64,
    won: bool,
    now: i64,
) -> (r: (i64, Vec<i32>))
    requires
        registry.wf(),
    ensures
        r.0 == resolved(*registry, ledger@, bet, base, won, now),
        r.1@ == spent_ids(*registry, ledger@, now, ledger@.len() as int),
        r.0 >= base,
{
    let n = ledger.len();
    let mut refund: usize = n;
    let mut i: usize = 0;
    proof {
        lemma_first_refund_range(*registry, ledger@);
    }
    while i < n
        invariant
            0 <= i <= n,
            n == ledger@.len(),
            registry.wf(),
            -1 <= first_refund(*registry, ledger@) < n,
            first_refund(*registry, ledger@) >= 0 ==> is_refund(*registry, ledger@[first_refund(*registry, ledger@)]),
            first_refund(*registry, ledger@) >= 0 ==> forall|j: int|
                0 <= j < first_refund(*registry, ledger@) ==> !is_refund(*registry, #[trigger] ledger@[j]),
            first_refund(*registry, ledger@) < 0 ==> forall|j: int|
                0 <= j < n ==> !is_refund(*registry, #[trigger] ledger@[j]),
            refund == n || refund == first_refund(*registry, ledger@),
            refund == n ==> forall|j: int| 0 <= j < i ==> !is_refund(*registry, #[trigger] ledger@[j]),
            refund < n ==> refund < i,
        decreases n - i,
    {
        if refund == n {
            let def = registry.get(ledger[i].item_id.as_str());
            if let Some(d) = def {
                if matches!(d.category, EffectCategory::Refund) {
                    refund = i;
                }
            }
        }
        i += 1;
    }
    let ghost fr = first_refund(*registry, ledger@);
    assert(refund == n ==> fr < 0) by {
        if refund == n && fr >= 0 {
            assert(!is_refund(*registry, ledger@[fr]));
        }
    }
    let mut acc: i64 = if refund < n && !won { bet } else { 0 };
    let mut touched = refund < n && !won;
    let mut spent: Vec<i32> = Vec::new();
    let mut k: usize = 0;
    while k < n
        invariant
            0 <= k <= n,
            n == ledger@.len(),
            registry.wf(),
            refund == n || refund == fr,
            refund == n <==> fr < 0,
            fr == first_refund(*registry, ledger@),
            acc == accumulated(*registry, ledger@, bet, base, won, now, k as int),
            touched == ((fr >= 0 && !won) || exists|j: int|
                0 <= j < k && #[trigger] contributes(*registry, ledger@, fr, j, won, now)),
            spent@ == spent_ids(*registry, ledger@, now, k as int),
        decreases n - k,
    {
        let e = &ledger[k];
        let ghost adds = contributes(*registry, ledger@, fr, k as int, won, now);
        let ghost touched_before = touched;
        let is_refund_row = k == refund;
        let live = match e.expiry {
            Some(t) => !(t < now),
            None => true,
        };
        if is_refund_row || e.expiry.is_none() || !live {
            spent.push(e.id);
        }
        if won && !is_refund_row && live {
            let def = registry.get(e.item_id.as_str());
            if let Some(d) = def {
                if matches!(d.category, EffectCategory::AdditiveAccumulate) {
                    let v = d.apply(bet, base);
                    acc = clamp_to_i64(acc as i128 + v as i128);
                    touched = true;
                }
            }
        }
        proof {
            assert(touched == (touched_before || adds));
            if adds {
                assert(contributes(*registry, ledger@, fr, k as int, won, now));
            } else if exists|j: int| 0 <= j < k + 1 && #[trigger] contributes(*registry, ledger@, fr, j, won, now) {
                let j = choose|j: int| 0 <= j < k + 1 && #[trigger] contributes(*registry, ledger@, fr, j, won, now);
                assert(j < k);
            }
        }
        k += 1;
    }
    let payout = if touched {
        if acc > base { acc } else { base }
    } else {
        base
    };
    (payout, spent)
}

/// `resolve` at the current time.
pub fn payout(registry: &EffectRegistry, ledger: &Vec<EffectsRow>, bet: i64, base: i64, won: bool) -> (r: (
    i64,
    Vec<i32>,
))
    requires
        registry.wf(),
    ensures
        exists|now: i64|
            r.0 == resolved(*registry, ledger@, bet, base, won, now) && r.1@ == spent_ids(
                *registry,
                ledger@,
                now,
                ledger@.len() as int,
            ),
        r.0 >= base,
{
    let now = now_timestamp();
    resolve(registry, ledger, bet, base, won, now)
}

/// Every used-up effect among the first `k` is listed for removal.
proof fn lemma_spent_listed(registry: EffectRegistry, ledger: Seq<EffectsRow>, now: i64, k: int, i: int)
    requires
        0 <= i < k <= ledger.len(),
        spent(ledger, first_refund(registry, ledger), i, now),
    ensures
        spent_ids(registry, ledger, now, k).contains(ledger[i].id),
    decreases k,
{
    let prev = spent_ids(registry, ledger, now, k - 1);
    if i < k - 1 {
        lemma_spent_listed(registry, ledger, now, k - 1, i);
        if spent(ledger, first_refund(registry, ledger), k - 1, now) {
            let j = choose|j: int| 0 <= j < prev.len() && prev[j] == ledger[i].id;
            assert(prev.push(ledger[k - 1].id)[j] == ledger[i].id);
        }
    } else {
        assert(prev.push(ledger[k - 1].id)[prev.len() as int] == ledger[i].id);
    }
}

/// On a lost wager nothing contributes, so the accumulated payout stays at
/// its start.
proof fn lemma_loss_accumulates_nothing(
    registry: EffectRegistry,
    ledger: Seq<EffectsRow>,
    bet: i64,
    base: i64,
    now: i64,
    k: int,
)
    ensures
        accumulated(registry, ledger, bet, base, false, now, k) == accumulated(registry, ledger, bet, base, false, now, 0),
    decreases k,
{
    if k > 0 {
        lemma_loss_accumulates_nothing(registry, ledger, bet, base, now, k - 1);
    }
}

/// With no effects held, the payout is the base payout and nothing is removed.
pub proof fn lemma_no_effects(registry: EffectRegistry, bet: i64, base: i64, won: bool, now: i64)
    ensures
        resolved(registry, Seq::empty(), bet, base, won, now) == base,
        spent_ids(registry, Seq::empty(), now, 0) == Seq::<i32>::empty(),
{
}

/// A refund effect gives back exactly the stake of a lost wager (when the
/// base payout does not exceed it), and is removed whether the wager was won
/// or lost.
pub proof fn lemma_refund_on_loss(registry: EffectRegistry, ledger: Seq<EffectsRow>, bet: i64, base: i64, won: bool, now: i64)
    requires
        first_refund(registry, ledger) >= 0,
        base <= bet,
    ensures
        resolved(registry, ledger, bet, base, false, now) == bet,
        spent_ids(registry, ledger, now, ledger.len() as int).contains(ledger[first_refund(registry, ledger)].id),
{
    lemma_first_refund_range(registry, ledger);
    lemma_loss_accumulates_nothing(registry, ledger, bet, base, now, ledger.len() as int);
    lemma_spent_listed(registry, ledger, now, ledger.len() as int, first_refund(registry, ledger));
}

/// A single-use effect is removed by the resolution, whether or not it
/// contributed.
pub proof fn lemma_single_use_removed(registry: EffectRegistry, ledger: Seq<EffectsRow>, now: i64, i: int)
    requires
        0 <= i < ledger.len(),
        ledger[i].expiry is None,
    ensures
        spent_ids(registry, ledger, now, ledger.len() as int).contains(ledger[i].id),
{
    lemma_spent_listed(registry, ledger, now, ledger.len() as int, i);
}

/// A timed effect that ran out contributes nothing and is removed; one that
/// is still live, additive and not the refund contributes to a won wager.
pub proof fn lemma_timed_effect(registry: EffectRegistry, ledger: Seq<EffectsRow>, won: bool, now: i64, i: int)
    requires
        0 <= i < ledger.len(),
        ledger[i].expiry is Some,
    ensures
        ledger[i].expiry->0 < now ==> !contributes(registry, ledger, first_refund(registry, ledger), i, won, now)
            && spent_ids(registry, ledger, now, ledger.len() as int).contains(ledger[i].id),
        ledger[i].expiry->0 >= now && won && i != first_refund(registry, ledger) && registry.lookup(
            ledger[i].item_id@,
        ) is Some && registry.lookup(ledger[i].item_id@)->0.category == EffectCategory::AdditiveAccumulate
            ==> contributes(registry, ledger, first_refund(registry, ledger), i, won, now),
{
    if ledger[i].expiry->0 < now {
        lemma_spent_listed(registry, ledger, now, ledger.len() as int, i);
    }
}

/// A live additive effect held alone turns a won wager's payout into the
/// larger of its value and the base payout, and stays held; once run out it
/// leaves the base payout and is removed.
pub proof fn lemma_single_timed_effect(
    registry: EffectRegistry,
    e: EffectsRow,
    d: EffectDefinition,
    bet: i64,
    base: i64,
    now: i64,
)
    requires
        e.expiry is Some,
        registry.lookup(e.item_id@) == Some(d),
        d.category == EffectCategory::AdditiveAccumulate,
    ensures
        e.expiry->0 >= now ==> resolved(registry, seq![e], bet, base, true, now) == if d.value(bet, base) > base {
            d.value(bet, base)
        } else {
            base
        } && spent_ids(registry, seq![e], now, 1) == Seq::<i32>::empty(),
        e.expiry->0 < now ==> resolved(registry, seq![e], bet, base, true, now) == base && spent_ids(
            registry,
            seq![e],
            now,
            1,
        ) == seq![e.id],
{
    let ledger = seq![e];
    assert(ledger.drop_last() =~= Seq::<EffectsRow>::empty());
    assert(ledger.last() == e);
    assert(first_refund(registry, Seq::<EffectsRow>::empty()) == -1);
    assert(!is_refund(registry, e));
    assert(first_refund(registry, ledger) == -1);
    if e.expiry->0 >= now {
        assert(contributes(registry, ledger, first_refund(registry, ledger), 0, true, now));
        assert(accumulated(registry, ledger, bet, base, true, now, 0) == 0);
    }
    assert(spent_ids(registry, ledger, now, 0) =~= Seq::<i32>::empty());
    assert(Seq::<i32>::empty().push(e.id) =~= seq![e.id]);
}

/// Effects never leave the payout below the base payout.
pub proof fn lemma_never_below_base(
    registry: EffectRegistry,
    ledger: Seq<EffectsRow>,
    bet: i64,
    base: i64,
    won: bool,
    now: i64,
)
    ensures
        resolved(registry, ledger, bet, base, won, now) >= base,
{
}

} // verus!

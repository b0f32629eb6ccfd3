use vstd::prelude::*;

use crate::actor::{clamp_i64, div_toward_zero, EventRow, max_bet_of};
use crate::clock::today_utc;
use crate::entropy::{random_in, sample_indices};
use crate::events::Event;
use crate::text::{decimal_string, format_num, formatted, signed_decimal};
use vstd::string::StringExecFns;

verus! {

/// Item id of the lottery ticket sold in the shop.
pub open spec fn lotto_ticket_id() -> Seq<char> {
    "lottoticket"@
}

/// Game id that the higher-or-lower game reports.
pub open spec fn higher_lower_id() -> Seq<char> {
    "higherorlower"@
}

/// Smallest transfer that counts as a gift.
pub const GIFT_MINIMUM: i64 = 2500;

/// Progress after adding `value`, held at the target (and within `i64`).
pub open spec fn raised(progress: i64, value: i64, target: i64) -> i64 {
    let sum = clamp_i64(progress + value);
    if sum < target {
        sum
    } else {
        target
    }
}

/// `|v|`, with `i64::MIN` taken to `i64::MAX`.
pub open spec fn magnitude(v: i64) -> i64 {
    if v >= 0 {
        v
    } else {
        clamp_i64(-v)
    }
}

/// One user's progress on one goal for one day.
pub struct GamblingGoalsRow {
    pub user_id: u64,
    pub goal_id: String,
    /// UTC calendar day, in days from the first day of the common era.
    pub day: i32,
    pub progress: i64,
    pub target: i64,
}

impl GamblingGoalsRow {
    pub open spec fn complete(&self) -> bool {
        self.progress == self.target
    }

    /// A fresh row with no progress.
    pub fn new(user_id: u64, goal_id: String, target: i64, day: i32) -> (r: Self)
        ensures
            r.user_id == user_id,
            r.goal_id@ == goal_id@,
            r.day == day,
            r.progress == 0,
            r.target == target,
    {
        GamblingGoalsRow { user_id, goal_id, day, progress: 0, target }
    }

    pub fn goal_id(&self) -> (r: &str)
        ensures
            r@ == self.goal_id@,
    {
        self.goal_id.as_str()
    }

    /// Whether the row belongs to the given day.
    pub fn is_on(&self, day: i32) -> (r: bool)
        ensures
            r == (self.day == day),
    {
        self.day == day
    }

    /// Whether the row belongs to the current UTC day.
    pub fn is_today(&self) -> (r: bool) {
        self.is_on(today_utc())
    }

    /// Adds `value` to the progress, never past the target.
    pub fn update_progress(&mut self, value: i64)
        ensures
            final(self).progress == raised(old(self).progress, value, old(self).target),
            final(self).target == old(self).target,
            final(self).user_id == old(self).user_id,
            final(self).goal_id == old(self).goal_id,
            final(self).day == old(self).day,
    {
        let sum = crate::actor::clamp_to_i64(self.progress as i128 + value as i128);
        self.progress = if sum < self.target { sum } else { self.target };
    }

    pub fn reset_progress(&mut self)
        ensures
            *final(self) == (GamblingGoalsRow { progress: 0, ..*old(self) }),
    {
        self.progress = 0;
    }

    pub fn set_completed(&mut self)
        ensures
            *final(self) == (GamblingGoalsRow { progress: old(self).target, ..*old(self) }),
    {
        self.progress = self.target;
    }

    pub fn is_complete(&self) -> (r: bool)
        ensures
            r == self.complete(),
    {
        self.progress == self.target
    }

    pub fn completed(&self) -> (r: bool)
        ensures
            r == self.complete(),
    {
        self.progress == self.target
    }
}

/// The goals a user can be given for a day.
#[derive(Clone, Copy, Debug, PartialEq, Eq, Structural)]
pub enum GoalDefinition {
    /// Buy a lottery ticket.
    Lotto,
    /// Send a gift of at least `GIFT_MINIMUM` coins.
    Gift,
    /// Win a number of games.
    WinCount,
    /// Reach a streak on higher or lower.
    HigherLower,
    /// Win a number of coins.
    WinMaxBet,
    /// Win three games in a row.
    WinStreak,
    /// Stake a whole balance.
    AllIn,
    /// Send a number of coins.
    SendCoins,
    /// Work or dig a number of times.
    Work,
}

impl GoalDefinition {
    pub open spec fn id_spec(self) -> Seq<char> {
        match self {
            GoalDefinition::Lotto => "lotto"@,
            GoalDefinition::Gift => "gift"@,
            GoalDefinition::WinCount => "win10"@,
            GoalDefinition::HigherLower => "higherlower"@,
            GoalDefinition::WinMaxBet => "winmaxbet"@,
            GoalDefinition::WinStreak => "win3row"@,
            GoalDefinition::AllIn => "allin"@,
            GoalDefinition::SendCoins => "sendcoins"@,
            GoalDefinition::Work => "work"@,
        }
    }

    pub fn id(&self) -> (r: &'static str)
        ensures
            r@ == self.id_spec(),
    {
        match self {
            GoalDefinition::Lotto => "lotto",
            GoalDefinition::Gift => "gift",
            GoalDefinition::WinCount => "win10",
            GoalDefinition::HigherLower => "higherlower",
            GoalDefinition::WinMaxBet => "winmaxbet",
            GoalDefinition::WinStreak => "win3row",
            GoalDefinition::AllIn => "allin",
            GoalDefinition::SendCoins => "sendcoins",
            GoalDefinition::Work => "work",
        }
    }

    /// Whether `t` is a target that this goal may be given, for a user with
    /// `coins` coins and bet limit `max_bet`.
    pub open spec fn target_allowed(self, coins: i64, max_bet: i64, t: i64) -> bool {
        match self {
            GoalDefinition::Lotto => 1 <= t <= 3,
            GoalDefinition::Gift => t == 1,
            GoalDefinition::WinCount => 7 <= t <= 10,
            GoalDefinition::HigherLower => 4 <= t <= 8,
            GoalDefinition::WinMaxBet => t == if max_bet < coins { max_bet } else { coins },
            GoalDefinition::WinStreak => t == 3,
            GoalDefinition::AllIn => {
                let floor = if coins > 1000 { coins } else { 1000 };
                t == if floor < max_bet { floor } else { max_bet }
            },
            GoalDefinition::SendCoins => {
                let share = if coins / 10 < max_bet / 10 { coins / 10 } else { max_bet / 10 };
                t == if share > 2500 { share } else { 2500 }
            },
            GoalDefinition::Work => 3 <= t <= 7,
        }
    }

    /// Sizes the goal for a user; some goals draw their target at random.
    pub fn target<R: EventRow>(&self, row: &R) -> (r: i64)
        ensures
            self.target_allowed(
                row.coin_balance(),
                max_bet_of(row.level_of(), row.prestige_of()),
                r,
            ),
    {
        match self {
            GoalDefinition::Lotto => random_in(1, 3),
            GoalDefinition::Gift => 1,
            GoalDefinition::WinCount => random_in(7, 10),
            GoalDefinition::HigherLower => random_in(4, 8),
            GoalDefinition::WinMaxBet => {
                let max_bet = row.max_bet();
                let coins = row.coins();
                if max_bet < coins { max_bet } else { coins }
            },
            GoalDefinition::WinStreak => 3,
            GoalDefinition::AllIn => {
                let coins = row.coins();
                let max_bet = row.max_bet();
                let floor = if coins > 1000 { coins } else { 1000 };
                if floor < max_bet { floor } else { max_bet }
            },
            GoalDefinition::SendCoins => {
                let coins = row.coins();
                let max_bet = row.max_bet();
                let share = if coins / 10 < max_bet / 10 { coins / 10 } else { max_bet / 10 };
                if share > 2500 { share } else { 2500 }
            },
            GoalDefinition::Work => random_in(3, 7),
        }
    }

    /// The title shown for this goal with the given target.
    pub open spec fn describe(self, t: i64) -> Seq<char> {
        match self {
            GoalDefinition::Lotto => "Buy "@ + signed_decimal(t as int) + " lottery ticket"@,
            GoalDefinition::Gift => "Send a gift"@,
            GoalDefinition::WinCount => "Win "@ + signed_decimal(t as int) + " times"@,
            GoalDefinition::HigherLower => "Hit a streak of "@ + signed_decimal(t as int) + "x on Higher or Lower"@,
            GoalDefinition::WinMaxBet => "Win "@ + formatted(t as int) + " coins"@,
            GoalDefinition::WinStreak => "Win 3 times in a row"@,
            GoalDefinition::AllIn => "Go all in ("@ + formatted(t as int) + ")"@,
            GoalDefinition::SendCoins => "Send coins ("@ + formatted(t as int) + ")"@,
            GoalDefinition::Work => "Work or Dig "@ + signed_decimal(t as int) + "x times"@,
        }
    }

    pub fn description(&self, target: i64) -> (r: String)
        ensures
            r@ == self.describe(target),
    {
        match self {
            GoalDefinition::Lotto => String::from_str("Buy ").concat(decimal_string(target).as_str()).concat(
                " lottery ticket",
            ),
            GoalDefinition::Gift => String::from_str("Send a gift"),
            GoalDefinition::WinCount => String::from_str("Win ").concat(decimal_string(target).as_str()).concat(
                " times",
            ),
            GoalDefinition::HigherLower => String::from_str("Hit a streak of ").concat(
                decimal_string(target).as_str(),
            ).concat("x on Higher or Lower"),
            GoalDefinition::WinMaxBet => String::from_str("Win ").concat(format_num(target).as_str()).concat(
                " coins",
            ),
            GoalDefinition::WinStreak => String::from_str("Win 3 times in a row"),
            GoalDefinition::AllIn => String::from_str("Go all in (").concat(format_num(target).as_str()).concat(
                ")",
            ),
            GoalDefinition::SendCoins => String::from_str("Send coins (").concat(
                format_num(target).as_str(),
            ).concat(")"),
            GoalDefinition::Work => String::from_str("Work or Dig ").concat(decimal_string(target).as_str()).concat(
                "x times",
            ),
        }
    }

    /// The progress a goal has after `event`, and whether the update
    /// reports a change.
    pub open spec fn step(self, progress: i64, target: i64, event: Event) -> (i64, bool) {
        match self {
            GoalDefinition::Lotto => match event {
                Event::ShopPurchase(p) => if p.item_id@ == lotto_ticket_id() {
                    (target, true)
                } else {
                    (progress, false)
                },
                _ => (progress, false),
            },
            GoalDefinition::Gift => match event {
                Event::Send(s) => if s.amount >= GIFT_MINIMUM {
                    (target, true)
                } else {
                    (progress, false)
                },
                _ => (progress, false),
            },
            GoalDefinition::WinCount | GoalDefinition::WinMaxBet => match event {
                Event::Game(g) => if g.payout > 0 {
                    (raised(progress, if self == GoalDefinition::WinCount { 1 } else { g.payout }, target), true)
                } else {
                    (progress, false)
                },
                _ => (progress, false),
            },
            GoalDefinition::HigherLower => match event {
                Event::Game(g) => if g.game_id@ == higher_lower_id() {
                    let reached = div_toward_zero(g.payout as int, 1000) as i64;
                    (if reached < target { reached } else { target }, true)
                } else {
                    (progress, false)
                },
                _ => (progress, false),
            },
            GoalDefinition::WinStreak => match event {
                Event::Game(g) => if g.payout > 0 {
                    (raised(progress, 1, target), true)
                } else {
                    (0, false)
                },
                _ => (progress, false),
            },
            GoalDefinition::AllIn => match event {
                Event::Game(g) => {
                    let p = raised(progress, magnitude(g.payout), target);
                    (p, p == target)
                },
                _ => (progress, false),
            },
            GoalDefinition::SendCoins => match event {
                Event::Send(s) => (raised(progress, s.amount, target), true),
                _ => (progress, false),
            },
            GoalDefinition::Work => match event {
                Event::Work(_) => (raised(progress, 1, target), true),
                _ => (progress, false),
            },
        }
    }

    /// Applies `event` to one goal row; returns whether the goal reports a
    /// change.
    pub fn update(&self, goal: &mut GamblingGoalsRow, event: &Event) -> (r: bool)
        ensures
            (final(goal).progress, r) == self.step(old(goal).progress, old(goal).target, *event),
            final(goal).target == old(goal).target,
            final(goal).user_id == old(goal).user_id,
            final(goal).goal_id == old(goal).goal_id,
            final(goal).day == old(goal).day,
    {
        match self {
            GoalDefinition::Lotto => {
                if let Event::ShopPurchase(p) = event {
                    let ticket = "lottoticket".to_owned();
                    proof { reveal_strlit("lottoticket"); }
                    if p.item_id == ticket {
                        goal.set_completed();
                        return true;
                    }
                }
                false
            },
            GoalDefinition::Gift => {
                if let Event::Send(s) = event {
                    if s.amount >= GIFT_MINIMUM {
                        goal.set_completed();
                        return true;
                    }
                }
                false
            },
            GoalDefinition::WinCount => {
                if let Event::Game(g) = event {
                    if g.payout > 0 {
                        goal.update_progress(1);
                        return true;
                    }
                }
                false
            },
            GoalDefinition::WinMaxBet => {
                if let Event::Game(g) = event {
                    if g.payout > 0 {
                        goal.update_progress(g.payout);
                        return true;
                    }
                }
                false
            },
            GoalDefinition::HigherLower => {
                if let Event::Game(g) = event {
                    let game = "higherorlower".to_owned();
                    proof { reveal_strlit("higherorlower"); }
                    if g.game_id == game {
                        let reached = g.payout / 1000;
                        goal.progress = if reached < goal.target { reached } else { goal.target };
                        return true;
                    }
                }
                false
            },
            GoalDefinition::WinStreak => {
                if let Event::Game(g) = event {
                    if g.payout <= 0 {
                        goal.reset_progress();
                        return false;
                    }
                    goal.update_progress(1);
                    return true;
                }
                false
            },
            GoalDefinition::AllIn => {
                if let Event::Game(g) = event {
                    let size = if g.payout >= 0 {
                        g.payout
                    } else if g.payout == i64::MIN {
                        i64::MAX
                    } else {
                        -g.payout
                    };
                    goal.update_progress(size);
                    return goal.is_complete();
                }
                false
            },
            GoalDefinition::SendCoins => {
                if let Event::Send(s) = event {
                    goal.update_progress(s.amount);
                    return true;
                }
                false
            },
            GoalDefinition::Work => {
                if let Event::Work(_) = event {
                    goal.update_progress(1);
                    return true;
                }
                false
            },
        }
    }
}

/// Whether some definition of `s` has the id `id`.
pub open spec fn seq_has_id(s: Seq<GoalDefinition>, id: Seq<char>) -> bool {
    exists|b: int| 0 <= b < s.len() && #[trigger] s[b].id_spec() == id
}

/// The catalog of goal definitions, keyed by id.
pub struct GoalRegistry {
    goals: Vec<GoalDefinition>,
}

impl View for GoalRegistry {
    type V = Seq<GoalDefinition>;

    closed spec fn view(&self) -> Seq<GoalDefinition> {
        self.goals@
    }
}

impl GoalRegistry {
    /// No two definitions share an id.
    pub open spec fn wf(&self) -> bool {
        forall|i: int, j: int|
            0 <= i < j < self@.len() ==> #[trigger] self@[i].id_spec() != #[trigger] self@[j].id_spec()
    }

    pub open spec fn has_id(&self, id: Seq<char>) -> bool {
        seq_has_id(self@, id)
    }

    /// The definition registered under `id`, if any.
    pub open spec fn lookup(&self, id: Seq<char>) -> Option<GoalDefinition> {
        if self.has_id(id) {
            Some(self@[choose|i: int| 0 <= i < self@.len() && #[trigger] self@[i].id_spec() == id])
        } else {
            None
        }
    }

    /// Builds a registry; a definition whose id is already present is left out.
    pub fn new(goals: Vec<GoalDefinition>) -> (r: Self)
        ensures
            r.wf(),
            forall|i: int| 0 <= i < goals@.len() ==> r.has_id(#[trigger] goals@[i].id_spec()),
            forall|i: int| 0 <= i < r@.len() ==> goals@.contains(#[trigger] r@[i]),
    {
        let mut kept: Vec<GoalDefinition> = Vec::new();
        let mut i: usize = 0;
        while i < goals.len()
            invariant
                0 <= i <= goals@.len(),
                forall|a: int, b: int|
                    0 <= a < b < kept@.len() ==> #[trigger] kept@[a].id_spec() != #[trigger] kept@[b].id_spec(),
                forall|a: int| 0 <= a < i ==> seq_has_id(kept@, #[trigger] goals@[a].id_spec()),
                forall|b: int| 0 <= b < kept@.len() ==> goals@.contains(#[trigger] kept@[b]),
            decreases goals@.len() - i,
        {
            let g = goals[i];
            let id = g.id().to_owned();
            let mut present = false;
            let mut j: usize = 0;
            while j < kept.len()
                invariant
                    0 <= j <= kept@.len(),
                    id@ == g.id_spec(),
                    present ==> seq_has_id(kept@, g.id_spec()),
                    !present ==> forall|b: int| 0 <= b < j ==> #[trigger] kept@[b].id_spec() != g.id_spec(),
                decreases kept@.len() - j,
            {
                if kept[j].id().to_owned() == id {
                    present = true;
                    assert(kept@[j as int].id_spec() == g.id_spec());
                }
                j += 1;
            }
            let ghost before = kept@;
            if !present {
                kept.push(g);
                assert(kept@[kept@.len() - 1].id_spec() == g.id_spec());
                assert forall|a: int| 0 <= a < i implies seq_has_id(kept@, #[trigger] goals@[a].id_spec()) by {
                    let b = choose|b: int| 0 <= b < before.len() && #[trigger] before[b].id_spec() == goals@[a].id_spec();
                    assert(kept@[b] == before[b]);
                }
                assert forall|b: int| 0 <= b < kept@.len() implies goals@.contains(#[trigger] kept@[b]) by {
                    if b < before.len() {
                        assert(kept@[b] == before[b]);
                    } else {
                        assert(goals@[i as int] == kept@[b]);
                    }
                }
            }
            assert(goals@[i as int] == g);
            assert(seq_has_id(kept@, goals@[i as int].id_spec()));
            i += 1;
        }
        GoalRegistry { goals: kept }
    }

    /// The nine standard goals.
    pub fn standard() -> (r: Self)
        ensures
            r.wf(),
            forall|d: GoalDefinition| r.has_id(#[trigger] d.id_spec()),
    {
        let r = GoalRegistry::new(
            vec![
                GoalDefinition::Lotto,
                GoalDefinition::Gift,
                GoalDefinition::WinCount,
                GoalDefinition::HigherLower,
                GoalDefinition::WinMaxBet,
                GoalDefinition::WinStreak,
                GoalDefinition::AllIn,
                GoalDefinition::SendCoins,
                GoalDefinition::Work,
            ],
        );
        r
    }

    pub fn len(&self) -> (r: usize)
        ensures
            r == self@.len(),
    {
        self.goals.len()
    }

    /// The definition registered under `id`.
    pub fn get_definition(&self, id: &str) -> (r: Option<GoalDefinition>)
        requires
            self.wf(),
        ensures
            r == self.lookup(id@),
    {
        let wanted = id.to_owned();
        let mut i: usize = 0;
        while i < self.goals.len()
            invariant
                0 <= i <= self@.len(),
                self.wf(),
                wanted@ == id@,
                forall|j: int| 0 <= j < i ==> #[trigger] self@[j].id_spec() != id@,
            decreases self@.len() - i,
        {
            if self.goals[i].id().to_owned() == wanted {
                let found = self.goals[i];
                proof {
                    assert(self.has_id(id@)) by {
                        assert(self@[i as int].id_spec() == id@);
                    }
                    let k = choose|k: int| 0 <= k < self@.len() && #[trigger] self@[k].id_spec() == id@;
                    assert(self@[i as int].id_spec() == id@);
                    if k != i as int {
                        if k < i as int {
                            assert(self@[k].id_spec() != self@[i as int].id_spec());
                        } else {
                            assert(self@[i as int].id_spec() != self@[k].id_spec());
                        }
                    }
                }
                return Some(found);
            }
            i += 1;
        }
        None
    }

    /// Draws the day's goals: three distinct definitions (all of them when
    /// fewer are registered), uniformly at random.
    pub fn select_daily_goal(&self) -> (r: Vec<GoalDefinition>)
        requires
            self.wf(),
        ensures
            r@.len() == if self@.len() < 3 { self@.len() } else { 3 },
            forall|i: int| 0 <= i < r@.len() ==> self@.contains(#[trigger] r@[i]),
            forall|i: int, j: int|
                0 <= i < j < r@.len() ==> #[trigger] r@[i].id_spec() != #[trigger] r@[j].id_spec(),
    {
        let n = self.goals.len();
        let amount: usize = if n < 3 { n } else { 3 };
        let picks = sample_indices(n, amount);
        let mut out: Vec<GoalDefinition> = Vec::new();
        let mut k: usize = 0;
        while k < picks.len()
            invariant
                0 <= k <= picks@.len(),
                picks@.len() == amount,
                n == self@.len(),
                out@.len() == k,
                forall|a: int| 0 <= a < picks@.len() ==> picks@[a] < n,
                forall|a: int, b: int| 0 <= a < b < picks@.len() ==> picks@[a] != picks@[b],
                forall|a: int| 0 <= a < k ==> out@[a] == self@[picks@[a] as int],
            decreases picks@.len() - k,
        {
            out.push(self.goals[picks[k]]);
            k += 1;
        }
        assert forall|i: int| 0 <= i < out@.len() implies self@.contains(#[trigger] out@[i]) by {
            assert(self@[picks@[i] as int] == out@[i]);
        }
        assert forall|i: int, j: int|
            0 <= i < j < out@.len() implies #[trigger] out@[i].id_spec() != #[trigger] out@[j].id_spec() by {
            let (a, b) = (picks@[i] as int, picks@[j] as int);
            if a < b {
                assert(self@[a].id_spec() != self@[b].id_spec());
            } else {
                assert(self@[b].id_spec() != self@[a].id_spec());
            }
        }
        out
    }
}

impl GamblingGoalsRow {
    /// The goal's title and progress, as the goals page shows them; a goal
    /// without a definition is titled by its id.
    pub fn description(&self, registry: &GoalRegistry) -> (r: String)
        requires
            registry.wf(),
        ensures
            r@ == "**"@ + match registry.lookup(self.goal_id@) {
                Some(d) => d.describe(self.target),
                None => self.goal_id@,
            } + "**\nProgress: `"@ + formatted(self.progress as int) + "/"@ + formatted(self.target as int) + "`"@,
    {
        let title = match registry.get_definition(self.goal_id.as_str()) {
            Some(d) => d.description(self.target),
            None => self.goal_id.clone(),
        };
        String::from_str("**").concat(title.as_str()).concat("**\nProgress: `").concat(
            format_num(self.progress).as_str(),
        ).concat("/").concat(format_num(self.target).as_str()).concat("`")
    }
}

/// A streak goal falls back to no progress on any game that was not won,
/// whatever progress it had.
pub proof fn lemma_streak_resets_on_loss(progress: i64, target: i64, event: Event)
    requires
        match event {
            Event::Game(g) => g.payout <= 0,
            _ => false,
        },
    ensures
        GoalDefinition::WinStreak.step(progress, target, event).0 == 0,
{
}

} // verus!

use vstd::prelude::*;

use crate::actor::{EventRow, max_bet_of};
use crate::clock::today_utc;
use crate::events::Event;
use crate::goals::{GamblingGoalsRow, GoalDefinition, GoalRegistry};

verus! {

/// Coins credited for each goal completed.
pub const COMPLETION_BONUS: i64 = 5_000;

/// Gems credited when the last of the day's goals is completed.
pub const ALL_GOALS_BONUS: i64 = 1;

/// Number of goals a user is given each day.
pub const DAILY_GOAL_COUNT: usize = 3;

/// Whether `goals` is a freshly drawn goal set for `user` on `today`: as many
/// goals as the day asks for (fewer only when fewer are registered), each a
/// distinct registered goal, with no progress and a target that its
/// definition allows for a user with `coins` coins and bet limit `max_bet`.
pub open spec fn fresh_goals(
    registry: GoalRegistry,
    user: u64,
    coins: i64,
    max_bet: i64,
    today: i32,
    goals: Seq<GamblingGoalsRow>,
) -> bool {
    &&& goals.len() == if registry@.len() < DAILY_GOAL_COUNT { registry@.len() } else { DAILY_GOAL_COUNT as nat }
    &&& forall|i: int| 0 <= i < goals.len() ==> {
        let g = #[trigger] goals[i];
        &&& g.user_id == user
        &&& g.day == today
        &&& g.progress == 0
        &&& exists|d: GoalDefinition|
            registry@.contains(d) && d.id_spec() == g.goal_id@ && d.target_allowed(coins, max_bet, g.target)
    }
    &&& forall|i: int, j: int| 0 <= i < j < goals.len() ==> #[trigger] goals[i].goal_id@ != #[trigger] goals[j].goal_id@
}

/// Whether the stored goal set is still the one for `today`.
pub open spec fn current(stored: Seq<GamblingGoalsRow>, today: i32) -> bool {
    stored.len() > 0 && stored[0].day == today
}

/// What reading a user's goals on `today` may give: the stored set while it
/// is current, else a fresh one.
pub open spec fn refreshed(
    registry: GoalRegistry,
    stored: Seq<GamblingGoalsRow>,
    user: u64,
    coins: i64,
    max_bet: i64,
    today: i32,
    goals: Seq<GamblingGoalsRow>,
) -> bool {
    if current(stored, today) {
        goals == stored
    } else {
        fresh_goals(registry, user, coins, max_bet, today, goals)
    }
}

/// The new progress of one goal after `event`, and whether its update
/// reports a change: complete goals and goals without a definition are left
/// alone.
pub open spec fn goal_step(registry: GoalRegistry, g: GamblingGoalsRow, event: Event) -> (i64, bool) {
    if g.complete() {
        (g.progress, false)
    } else {
        match registry.lookup(g.goal_id@) {
            Some(d) => d.step(g.progress, g.target, event),
            None => (g.progress, false),
        }
    }
}

/// One goal row after `event`.
pub open spec fn stepped(registry: GoalRegistry, g: GamblingGoalsRow, event: Event) -> GamblingGoalsRow {
    GamblingGoalsRow { progress: goal_step(registry, g, event).0, ..g }
}

/// Whether the update of goal `g` reports a change and leaves it complete.
pub open spec fn completes(registry: GoalRegistry, g: GamblingGoalsRow, event: Event) -> bool {
    goal_step(registry, g, event).1 && goal_step(registry, g, event).0 == g.target
}

/// Number of goals whose update reports a change and leaves them complete.
pub open spec fn completions(registry: GoalRegistry, goals: Seq<GamblingGoalsRow>, event: Event) -> nat
    decreases goals.len(),
{
    if goals.len() == 0 {
        0
    } else {
        completions(registry, goals.drop_last(), event) + if completes(registry, goals.last(), event) {
            1nat
        } else {
            0nat
        }
    }
}

/// Whether the update of some goal reports a change.
pub open spec fn any_changed(registry: GoalRegistry, goals: Seq<GamblingGoalsRow>, event: Event) -> bool {
    exists|i: int| 0 <= i < goals.len() && #[trigger] goal_step(registry, goals[i], event).1
}

pub open spec fn all_complete(goals: Seq<GamblingGoalsRow>) -> bool {
    forall|i: int| 0 <= i < goals.len() ==> #[trigger] goals[i].complete()
}

/// Every goal of `goals` after `event`.
pub open spec fn stepped_all(registry: GoalRegistry, goals: Seq<GamblingGoalsRow>, event: Event) -> Seq<GamblingGoalsRow> {
    Seq::new(goals.len(), |i: int| stepped(registry, goals[i], event))
}

/// Gems credited for `event`: one when some update reports a change and all
/// goals are complete afterwards.
pub open spec fn gem_bonus(registry: GoalRegistry, goals: Seq<GamblingGoalsRow>, event: Event) -> int {
    if any_changed(registry, goals, event) && all_complete(stepped_all(registry, goals, event)) {
        ALL_GOALS_BONUS as int
    } else {
        0
    }
}

/// Whether the goal set must be saved after `event`: some update reported a
/// change or some progress moved.
pub open spec fn must_save(registry: GoalRegistry, goals: Seq<GamblingGoalsRow>, event: Event) -> bool {
    any_changed(registry, goals, event)
        || exists|i: int| 0 <= i < goals.len() && #[trigger] goal_step(registry, goals[i], event).0 != goals[i].progress
}

pub struct GoalHandler;

impl GoalHandler {
    /// Draws a fresh goal set for `user_id` on `today`, sized for `row`.
    pub fn daily_reset<R: EventRow>(registry: &GoalRegistry, user_id: u64, row: &R, today: i32) -> (r: Vec<
        GamblingGoalsRow,
    >)
        requires
            registry.wf(),
        ensures
            fresh_goals(
                *registry,
                user_id,
                row.coin_balance(),
                max_bet_of(row.level_of(), row.prestige_of()),
                today,
                r@,
            ),
    {
        let picks = registry.select_daily_goal();
        let ghost coins = row.coin_balance();
        let ghost max_bet = max_bet_of(row.level_of(), row.prestige_of());
        let mut goals: Vec<GamblingGoalsRow> = Vec::new();
        let mut k: usize = 0;
        while k < picks.len()
            invariant
                0 <= k <= picks@.len(),
                goals@.len() == k,
                coins == row.coin_balance(),
                max_bet == max_bet_of(row.level_of(), row.prestige_of()),
                forall|i: int| 0 <= i < picks@.len() ==> registry@.contains(#[trigger] picks@[i]),
                forall|i: int| 0 <= i < k ==> {
                    let g = #[trigger] goals@[i];
                    &&& g.user_id == user_id
                    &&& g.day == today
                    &&& g.progress == 0
                    &&& g.goal_id@ == picks@[i].id_spec()
                    &&& picks@[i].target_allowed(coins, max_bet, g.target)
                },
            decreases picks@.len() - k,
        {
            let d = picks[k];
            let target = d.target(row);
            let id = d.id().to_owned();
            goals.push(GamblingGoalsRow::new(user_id, id, target, today));
            k += 1;
        }
        assert(goals@.len() == picks@.len());
        assert forall|i: int| 0 <= i < goals@.len() implies {
            let g = #[trigger] goals@[i];
            exists|d: GoalDefinition|
                registry@.contains(d) && d.id_spec() == g.goal_id@ && d.target_allowed(coins, max_bet, g.target)
        } by {
            let d = picks@[i];
            assert(registry@.contains(d) && d.id_spec() == goals@[i].goal_id@);
        }
        assert forall|i: int, j: int| 0 <= i < j < goals@.len() implies #[trigger] goals@[i].goal_id@
            != #[trigger] goals@[j].goal_id@ by {
            assert(picks@[i].id_spec() != picks@[j].id_spec());
        }
        goals
    }

    /// The user's goals for `today`: the stored set while it is current, else
    /// a freshly drawn one (which the caller then stores).
    pub fn get_user_progress<R: EventRow>(
        registry: &GoalRegistry,
        stored: Vec<GamblingGoalsRow>,
        user_id: u64,
        row: &R,
        today: i32,
    ) -> (r: Vec<GamblingGoalsRow>)
        requires
            registry.wf(),
        ensures
            refreshed(
                *registry,
                stored@,
                user_id,
                row.coin_balance(),
                max_bet_of(row.level_of(), row.prestige_of()),
                today,
                r@,
            ),
    {
        if stored.len() == 0 || !stored[0].is_on(today) {
            Self::daily_reset(registry, user_id, row, today)
        } else {
            stored
        }
    }

    /// Applies `event` to every incomplete goal that has a definition,
    /// credits `COMPLETION_BONUS` coins for each update that reports a change
    /// and leaves its goal complete, and `ALL_GOALS_BONUS` gems when some
    /// update reports a change and every goal is then complete. Returns
    /// whether the goal set must be saved.
    pub fn track<R: EventRow>(
        registry: &GoalRegistry,
        goals: &mut Vec<GamblingGoalsRow>,
        row: &mut R,
        event: &Event,
    ) -> (r: bool)
        requires
            registry.wf(),
            COMPLETION_BONUS * old(goals)@.len() <= i64::MAX,
            old(row).coin_balance() + COMPLETION_BONUS * old(goals)@.len() <= i64::MAX,
            old(row).gem_balance() + ALL_GOALS_BONUS <= i64::MAX,
        ensures
            final(goals)@ == stepped_all(*registry, old(goals)@, *event),
            final(row).coin_balance() == old(row).coin_balance() + COMPLETION_BONUS * completions(
                *registry,
                old(goals)@,
                *event,
            ),
            final(row).gem_balance() == old(row).gem_balance() + gem_bonus(*registry, old(goals)@, *event),
            final(row).level_of() == old(row).level_of(),
            final(row).prestige_of() == old(row).prestige_of(),
            r == must_save(*registry, old(goals)@, *event),
    {
        let ghost before = goals@;
        let n = goals.len();
        let mut count: i64 = 0;
        let mut changed = false;
        let mut moved = false;
        let mut i: usize = 0;
        while i < n
            invariant
                0 <= i <= n,
                n == before.len(),
                goals@.len() == n,
                registry.wf(),
                forall|j: int| 0 <= j < i ==> #[trigger] goals@[j] == stepped(*registry, before[j], *event),
                forall|j: int| i <= j < n ==> #[trigger] goals@[j] == before[j],
                count == completions(*registry, before.take(i as int), *event),
                count <= i,
                COMPLETION_BONUS * n <= i64::MAX,
                changed == exists|j: int| 0 <= j < i && #[trigger] goal_step(*registry, before[j], *event).1,
                moved == exists|j: int|
                    0 <= j < i && #[trigger] goal_step(*registry, before[j], *event).0 != before[j].progress,
            decreases n - i,
        {
            let ghost g = before[i as int];
            assert(goals@[i as int] == g);
            let progress_before = goals[i].progress;
            let mut reported = false;
            if !goals[i].completed() {
                let def = registry.get_definition(goals[i].goal_id());
                if let Some(d) = def {
                    reported = d.update(&mut goals[i], event);
                }
            }
            assert(goals@[i as int] == stepped(*registry, g, *event));
            assert(reported == goal_step(*registry, g, *event).1);
            proof {
                assert(before.take(i + 1).drop_last() =~= before.take(i as int));
                assert(before.take(i + 1).last() == g);
            }
            if reported && goals[i].completed() {
                assert(COMPLETION_BONUS * (count + 1) <= COMPLETION_BONUS * n) by (nonlinear_arith)
                    requires
                        0 <= count + 1 <= n,
                ;
                count = count + 1;
            }
            if reported {
                changed = true;
            }
            if goals[i].progress != progress_before {
                moved = true;
            }
            i += 1;
        }
        assert(before.take(n as int) =~= before);
        assert(goals@ =~= stepped_all(*registry, before, *event));
        let mut all = true;
        let mut k: usize = 0;
        while k < n
            invariant
                0 <= k <= n,
                goals@.len() == n,
                all == forall|j: int| 0 <= j < k ==> #[trigger] goals@[j].complete(),
            decreases n - k,
        {
            if !goals[k].completed() {
                all = false;
            }
            k += 1;
        }
        let gems = if changed && all { ALL_GOALS_BONUS } else { 0 };
        proof {
            lemma_completions_bounded(*registry, before, *event);
        }
        assert(0 <= COMPLETION_BONUS * count <= COMPLETION_BONUS * n) by (nonlinear_arith)
            requires
                0 <= count <= n,
        ;
        row.reward(COMPLETION_BONUS * count, gems);
        changed || moved
    }

    /// Handles one event for its user on `today`: reads the goal set
    /// (drawing a fresh one when `stored` is not current) and tracks the
    /// event on it. Returns the goal set and whether it must be stored.
    pub fn process_goals<R: EventRow>(
        registry: &GoalRegistry,
        stored: Vec<GamblingGoalsRow>,
        row: &mut R,
        event: &Event,
        today: i32,
    ) -> (r: (Vec<GamblingGoalsRow>, bool))
        requires
            registry.wf(),
            COMPLETION_BONUS * (stored@.len() + DAILY_GOAL_COUNT) <= i64::MAX,
            old(row).coin_balance() + COMPLETION_BONUS * (stored@.len() + DAILY_GOAL_COUNT) <= i64::MAX,
            old(row).gem_balance() + ALL_GOALS_BONUS <= i64::MAX,
        ensures
            exists|goals: Seq<GamblingGoalsRow>|
                {
                    &&& refreshed(
                        *registry,
                        stored@,
                        event.actor(),
                        old(row).coin_balance(),
                        max_bet_of(old(row).level_of(), old(row).prestige_of()),
                        today,
                        goals,
                    )
                    &&& r.0@ == stepped_all(*registry, goals, *event)
                    &&& final(row).coin_balance() == old(row).coin_balance() + COMPLETION_BONUS
                        * completions(*registry, goals, *event)
                    &&& final(row).gem_balance() == old(row).gem_balance() + gem_bonus(
                        *registry,
                        goals,
                        *event,
                    )
                    &&& r.1 == (!current(stored@, today) || must_save(*registry, goals, *event))
                },
            final(row).level_of() == old(row).level_of(),
            final(row).prestige_of() == old(row).prestige_of(),
    {
        let user_id = event.user_id();
        let is_current = stored.len() > 0 && stored[0].is_on(today);
        let mut goals = Self::get_user_progress(registry, stored, user_id, row, today);
        let save = Self::track(registry, &mut goals, row, event);
        (goals, !is_current || save)
    }

    /// `process_goals` on the current UTC day.
    pub fn fire<R: EventRow>(
        registry: &GoalRegistry,
        stored: Vec<GamblingGoalsRow>,
        row: &mut R,
        event: &Event,
    ) -> (r: (Vec<GamblingGoalsRow>, bool))
        requires
            registry.wf(),
            COMPLETION_BONUS * (stored@.len() + DAILY_GOAL_COUNT) <= i64::MAX,
            old(row).coin_balance() + COMPLETION_BONUS * (stored@.len() + DAILY_GOAL_COUNT) <= i64::MAX,
            old(row).gem_balance() + ALL_GOALS_BONUS <= i64::MAX,
        ensures
            exists|today: i32, goals: Seq<GamblingGoalsRow>|
                {
                    &&& refreshed(
                        *registry,
                        stored@,
                        event.actor(),
                        old(row).coin_balance(),
                        max_bet_of(old(row).level_of(), old(row).prestige_of()),
                        today,
                        goals,
                    )
                    &&& r.0@ == stepped_all(*registry, goals, *event)
                    &&& final(row).coin_balance() == old(row).coin_balance() + COMPLETION_BONUS
                        * completions(*registry, goals, *event)
                    &&& final(row).gem_balance() == old(row).gem_balance() + gem_bonus(
                        *registry,
                        goals,
                        *event,
                    )
                },
            final(row).level_of() == old(row).level_of(),
            final(row).prestige_of() == old(row).prestige_of(),
    {
        let today = today_utc();
        Self::process_goals(registry, stored, row, event, today)
    }
}

/// At most one completion per goal.
proof fn lemma_completions_bounded(registry: GoalRegistry, goals: Seq<GamblingGoalsRow>, event: Event)
    ensures
        completions(registry, goals, event) <= goals.len(),
    decreases goals.len(),
{
    if goals.len() > 0 {
        lemma_completions_bounded(registry, goals.drop_last(), event);
    }
}

/// Number of goals that go from incomplete to complete on `event`.
pub open spec fn transitions(registry: GoalRegistry, goals: Seq<GamblingGoalsRow>, event: Event) -> nat
    decreases goals.len(),
{
    if goals.len() == 0 {
        0
    } else {
        transitions(registry, goals.drop_last(), event) + if !goals.last().complete() && stepped(
            registry,
            goals.last(),
            event,
        ).complete() {
            1nat
        } else {
            0nat
        }
    }
}

/// Whether a streak goal with a zero target is among `goals`.
pub open spec fn has_zero_streak(registry: GoalRegistry, goals: Seq<GamblingGoalsRow>) -> bool {
    exists|i: int|
        0 <= i < goals.len() && registry.lookup(#[trigger] goals[i].goal_id@) == Some(GoalDefinition::WinStreak)
            && goals[i].target == 0
}

/// Reading the goals twice on one day gives the same goals: the second read
/// returns the set that the first one gave, same ids and same targets.
pub proof fn lemma_selection_stable_within_day(
    registry: GoalRegistry,
    stored: Seq<GamblingGoalsRow>,
    user: u64,
    coins: i64,
    max_bet: i64,
    today: i32,
    first: Seq<GamblingGoalsRow>,
    second: Seq<GamblingGoalsRow>,
)
    requires
        refreshed(registry, stored, user, coins, max_bet, today, first),
        refreshed(registry, first, user, coins, max_bet, today, second),
    ensures
        second == first,
{
    if !current(first, today) {
        if first.len() > 0 {
            assert(first[0].day == today);
        }
        assert(first.len() == 0);
        assert(second.len() == 0);
        assert(second =~= first);
    }
}

/// A goal's update reports a change that leaves it complete exactly when the
/// goal goes from incomplete to complete.
proof fn lemma_completes_iff_transition(registry: GoalRegistry, g: GamblingGoalsRow, event: Event)
    requires
        !(registry.lookup(g.goal_id@) == Some(GoalDefinition::WinStreak) && g.target == 0),
    ensures
        completes(registry, g, event) == (!g.complete() && stepped(registry, g, event).complete()),
{
}

proof fn lemma_transitions_as_completions(registry: GoalRegistry, goals: Seq<GamblingGoalsRow>, event: Event)
    requires
        !has_zero_streak(registry, goals),
    ensures
        completions(registry, goals, event) == transitions(registry, goals, event),
        transitions(registry, goals, event) > 0 <==> exists|i: int|
            0 <= i < goals.len() && #[trigger] completes(registry, goals[i], event),
    decreases goals.len(),
{
    if goals.len() > 0 {
        let init = goals.drop_last();
        assert(!has_zero_streak(registry, init)) by {
            if has_zero_streak(registry, init) {
                let i = choose|i: int|
                    0 <= i < init.len() && registry.lookup(#[trigger] init[i].goal_id@) == Some(
                        GoalDefinition::WinStreak,
                    ) && init[i].target == 0;
                assert(goals[i] == init[i]);
            }
        }
        lemma_transitions_as_completions(registry, init, event);
        let last = goals.last();
        assert(goals[goals.len() - 1] == last);
        lemma_completes_iff_transition(registry, last, event);
        if exists|i: int| 0 <= i < init.len() && #[trigger] completes(registry, init[i], event) {
            let i = choose|i: int| 0 <= i < init.len() && #[trigger] completes(registry, init[i], event);
            assert(goals[i] == init[i]);
        }
        if exists|i: int| 0 <= i < goals.len() && #[trigger] completes(registry, goals[i], event) {
            let i = choose|i: int| 0 <= i < goals.len() && #[trigger] completes(registry, goals[i], event);
            if i < goals.len() - 1 {
                assert(goals[i] == init[i]);
            }
        }
    }
}

/// The coins paid on an event are `COMPLETION_BONUS` for each goal that goes
/// from incomplete to complete on it, and the gem is paid exactly when some
/// goal completes on it and every goal is then complete: only on the event
/// that completes the last goal. (A streak goal with a zero target, which its
/// definition never gives, is left out.)
pub proof fn lemma_bonus_per_completed_goal(registry: GoalRegistry, goals: Seq<GamblingGoalsRow>, event: Event)
    requires
        !has_zero_streak(registry, goals),
    ensures
        COMPLETION_BONUS * completions(registry, goals, event) == COMPLETION_BONUS * transitions(
            registry,
            goals,
            event,
        ),
        gem_bonus(registry, goals, event) == if transitions(registry, goals, event) > 0 && all_complete(
            stepped_all(registry, goals, event),
        ) {
            ALL_GOALS_BONUS as int
        } else {
            0
        },
{
    lemma_transitions_as_completions(registry, goals, event);
    let after = stepped_all(registry, goals, event);
    if all_complete(after) {
        if any_changed(registry, goals, event) {
            let i = choose|i: int| 0 <= i < goals.len() && #[trigger] goal_step(registry, goals[i], event).1;
            assert(after[i].complete());
            assert(completes(registry, goals[i], event));
        }
        if transitions(registry, goals, event) > 0 {
            let i = choose|i: int| 0 <= i < goals.len() && #[trigger] completes(registry, goals[i], event);
            assert(goal_step(registry, goals[i], event).1);
        }
    }
}

} // verus!

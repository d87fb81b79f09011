//! What holds of the game in general, proved from its definitions.
use crate::arena::Arena;
use crate::contact::{catching_boat, contacts_of, meals_of};
use crate::events::ContactQueueView;
use crate::fleet::{stays, FleetView};
use crate::game::{GameOver, GameStates};
use crate::player::{
    rested, BoostCooldown, HungerCountdown, LocomotionState, Player, PlayerStates, TickInput,
};
use crate::rng::GameRng;
use crate::simulation::{RecordedTick, SimulationView, TickReport};
use vstd::prelude::*;

verus! {

/// Playing a recording in two parts, the second from where the first
/// ended, gives the same game as playing it in one go. The game after a
/// recording depends on nothing but the game before it and the recording.
pub proof fn lemma_run_in_two_parts(
    start: SimulationView,
    first: Seq<RecordedTick>,
    second: Seq<RecordedTick>,
)
    ensures
        start.run(first + second) == start.run(first).run(second),
    decreases second.len(),
{
    if second.len() == 0 {
        assert(first + second =~= first);
    } else {
        lemma_run_in_two_parts(start, first, second.drop_last());
        assert((first + second).drop_last() =~= first + second.drop_last());
        assert((first + second).last() == second.last());
    }
}

/// Two games that start alike and are given the same recording end alike,
/// and tell the outside the same in every tick.
pub proof fn lemma_same_recording_same_game(
    a: SimulationView,
    b: SimulationView,
    ticks: Seq<RecordedTick>,
    input: TickInput,
    dt: u32,
)
    requires
        a == b,
    ensures
        a.run(ticks) == b.run(ticks),
        a.run(ticks).report(input, dt) == b.run(ticks).report(input, dt),
{
}

/// A player without a dash left does not start to dash, whatever the
/// input, and its supply stays empty.
pub proof fn lemma_no_dash_without_supply(player: Player, input: TickInput)
    requires
        player.boost_supply.count == 0,
        player.state.kind() != PlayerStates::Boost,
    ensures
        player.spec_handle_input(input).state.kind() != PlayerStates::Boost,
        player.spec_handle_input(input).boost_supply.count == 0,
        !player.boost_starts(),
{
}

/// A tick in which the player has no dash left and gets none from a meal
/// leaves the player without a dash and not dashing, whatever the input,
/// and reports no dash.
pub proof fn lemma_tick_keeps_empty_supply(s: SimulationView, input: TickInput, dt: u32)
    requires
        s.player.boost_supply.count == 0,
        s.player.state.kind() != PlayerStates::Boost,
        input.restart.is_none(),
        meals_of(s.contacts.current.ate, s.player.id) == 0,
    ensures
        s.stepped(input, dt).player.state.kind() != PlayerStates::Boost,
        s.stepped(input, dt).player.boost_supply.count == 0,
        s.report(input, dt).boosted.is_none(),
{
    let timed = s.before_events(input, dt);
    let ready = timed.fed().judged(s.begun().starves(dt)).toggled(input);
    assert(ready.player.boost_supply.count == 0);
    assert(ready.player.state.kind() != PlayerStates::Boost);
    lemma_no_dash_without_supply(ready.player, input);
}

/// One tick as a cooldown sees it: its length in microseconds and whether
/// the boost button is held.
pub struct CooldownTick {
    pub dt: u32,
    pub boost_held: bool,
}

/// Time that the ticks take together.
pub open spec fn time_of(ticks: Seq<CooldownTick>) -> int
    decreases ticks.len(),
{
    if ticks.len() == 0 {
        0
    } else {
        time_of(ticks.drop_last()) + ticks.last().dt
    }
}

/// Whether the boost button is held in every one of the ticks.
pub open spec fn held_throughout(ticks: Seq<CooldownTick>) -> bool {
    forall|i: int| 0 <= i < ticks.len() ==> (#[trigger] ticks[i]).boost_held
}

/// A cooldown, if there is one, after the ticks.
pub open spec fn rested_through(cooldown: Option<BoostCooldown>, ticks: Seq<CooldownTick>) -> Option<
    BoostCooldown,
>
    decreases ticks.len(),
{
    if ticks.len() == 0 {
        cooldown
    } else {
        rested(rested_through(cooldown, ticks.drop_last()), ticks.last().dt, ticks.last().boost_held)
    }
}

/// A cooldown that has just begun is gone after some ticks exactly if there
/// was a tick, the ticks took at least the time of the cooldown, and the
/// boost button was not held in all of them. Before that it is still there:
/// however long the button is held, and however often it is released before
/// the time is over.
pub proof fn lemma_cooldown_ends_when_due(cooldown: BoostCooldown, ticks: Seq<CooldownTick>)
    requires
        cooldown.wf(),
        !cooldown.timer.finished,
        !cooldown.did_release,
    ensures
        rested_through(Some(cooldown), ticks).is_none() <==> ticks.len() > 0 && time_of(ticks)
            >= cooldown.timer.remaining() && !held_throughout(ticks),
        match rested_through(Some(cooldown), ticks) {
            Some(left) => {
                &&& left.wf()
                &&& left.timer.duration == cooldown.timer.duration
                &&& left.did_release == !held_throughout(ticks)
                &&& left.timer.finished == (ticks.len() > 0 && time_of(ticks)
                    >= cooldown.timer.remaining())
                &&& !left.timer.finished ==> left.timer.remaining() == cooldown.timer.remaining()
                    - time_of(ticks)
            },
            None => true,
        },
    decreases ticks.len(),
{
    if ticks.len() > 0 {
        let before = ticks.drop_last();
        let last = ticks.last();
        lemma_cooldown_ends_when_due(cooldown, before);
        lemma_time_is_not_negative(before);
        assert(held_throughout(ticks) <==> held_throughout(before) && last.boost_held) by {
            if held_throughout(before) && last.boost_held {
                assert forall|i: int| 0 <= i < ticks.len() implies (#[trigger] ticks[i]).boost_held by {
                    if i < before.len() {
                        assert(before[i].boost_held);
                    }
                }
            }
            if held_throughout(ticks) {
                assert(ticks[ticks.len() - 1].boost_held);
                assert forall|i: int| 0 <= i < before.len() implies (#[trigger] before[i]).boost_held by {
                    assert(ticks[i].boost_held);
                }
            }
        }
    }
}

/// The ticks take no negative time.
pub proof fn lemma_time_is_not_negative(ticks: Seq<CooldownTick>)
    ensures
        time_of(ticks) >= 0,
    decreases ticks.len(),
{
    if ticks.len() > 0 {
        lemma_time_is_not_negative(ticks.drop_last());
    }
}

/// While a cooldown that has just begun has time left, dashing stays
/// barred, whether the boost button is held or not.
pub proof fn lemma_cooldown_lasts_its_time(cooldown: BoostCooldown, ticks: Seq<CooldownTick>)
    requires
        cooldown.wf(),
        !cooldown.timer.finished,
        !cooldown.did_release,
        time_of(ticks) < cooldown.timer.remaining(),
    ensures
        rested_through(Some(cooldown), ticks).is_some(),
{
    lemma_cooldown_ends_when_due(cooldown, ticks);
}

/// While the boost button is held without a break, dashing stays barred,
/// however much time passes.
pub proof fn lemma_cooldown_waits_for_release(cooldown: BoostCooldown, ticks: Seq<CooldownTick>)
    requires
        cooldown.wf(),
        !cooldown.timer.finished,
        !cooldown.did_release,
        held_throughout(ticks),
    ensures
        rested_through(Some(cooldown), ticks).is_some(),
{
    lemma_cooldown_ends_when_due(cooldown, ticks);
}

/// A dash that starts arms a cooldown that has just begun, for the time of
/// the boost cooldown, and uses up exactly one dash of the supply.
pub proof fn lemma_dash_arms_cooldown(player: Player, target: crate::core2d::Vec2)
    requires
        player.wf(),
        player.boost_starts(),
    ensures
        ({
            let after = player.spec_start_boost(target);
            &&& after.state.kind() == PlayerStates::Boost
            &&& after.boost_supply.count == player.boost_supply.count - 1
            &&& after.cooldown.is_some()
            &&& after.cooldown.unwrap().wf()
            &&& !after.cooldown.unwrap().timer.finished
            &&& !after.cooldown.unwrap().did_release
            &&& after.cooldown.unwrap().timer.remaining() == player.stats.boost_cooldown
            &&& after.is_blocked(PlayerStates::Boost)
        }),
{
}

/// In how many ticks of a recording the player starts a dash.
pub open spec fn dashes(start: SimulationView, ticks: Seq<RecordedTick>) -> nat
    decreases ticks.len(),
{
    if ticks.len() == 0 {
        0
    } else {
        dashes(start, ticks.drop_last()) + if start.run(ticks.drop_last()).report(
            ticks.last().input,
            ticks.last().dt,
        ).boosted.is_some() {
            1nat
        } else {
            0nat
        }
    }
}

/// Time that the ticks of a recording take together.
pub open spec fn duration_of(ticks: Seq<RecordedTick>) -> int
    decreases ticks.len(),
{
    if ticks.len() == 0 {
        0
    } else {
        duration_of(ticks.drop_last()) + ticks.last().dt
    }
}

/// Whether the boost button is held in every tick of a recording.
pub open spec fn boost_held_throughout(ticks: Seq<RecordedTick>) -> bool {
    forall|i: int| 0 <= i < ticks.len() ==> (#[trigger] ticks[i]).input.boost
}

/// Whether no tick of a recording asks for a restart.
pub open spec fn without_restart(ticks: Seq<RecordedTick>) -> bool {
    forall|i: int| 0 <= i < ticks.len() ==> (#[trigger] ticks[i]).input.restart.is_none()
}

/// Whether the player has no meal waiting at the start of the tick that
/// follows the first `played` ticks of a recording.
pub open spec fn unfed_after(start: SimulationView, ticks: Seq<RecordedTick>, played: int) -> bool {
    let s = start.run(ticks.take(played));
    meals_of(s.contacts.current.ate, s.player.id) == 0
}

/// Whether the player eats nothing through a recording.
pub open spec fn never_fed(start: SimulationView, ticks: Seq<RecordedTick>) -> bool {
    forall|played: int| 0 <= played <= ticks.len() ==> #[trigger] unfed_after(start, ticks, played)
}

/// A player that has no dash left and eats nothing never dashes, whatever
/// is pressed: through the whole recording no dash is reported, the player
/// is not dashing, and its supply stays empty.
pub proof fn lemma_no_dash_while_supply_is_empty(start: SimulationView, ticks: Seq<RecordedTick>)
    requires
        start.player.boost_supply.count == 0,
        start.player.state.kind() != PlayerStates::Boost,
        without_restart(ticks),
        never_fed(start, ticks),
    ensures
        dashes(start, ticks) == 0,
        start.run(ticks).player.boost_supply.count == 0,
        start.run(ticks).player.state.kind() != PlayerStates::Boost,
    decreases ticks.len(),
{
    if ticks.len() > 0 {
        let before = ticks.drop_last();
        let last = ticks.last();
        assert(ticks[ticks.len() - 1] == last);
        assert(without_restart(before)) by {
            assert forall|i: int| 0 <= i < before.len() implies (
            #[trigger] before[i]).input.restart.is_none() by {
                assert(ticks[i].input.restart.is_none());
            }
        }
        assert(never_fed(start, before)) by {
            assert forall|played: int| 0 <= played <= before.len() implies #[trigger] unfed_after(
                start,
                before,
                played,
            ) by {
                assert(before.take(played) =~= ticks.take(played));
                assert(unfed_after(start, ticks, played));
            }
        }
        lemma_no_dash_while_supply_is_empty(start, before);
        assert(unfed_after(start, ticks, before.len() as int));
        assert(ticks.take(before.len() as int) =~= before);
        lemma_tick_keeps_empty_supply(start.run(before), last.input, last.dt);
    }
}

/// In a tick in which the player has a cooldown and keeps it through the
/// timers, nothing but the timers touches the cooldown, and no dash is
/// reported. The timers touch it only while the game runs.
pub proof fn lemma_tick_rests_cooldown(s: SimulationView, input: TickInput, dt: u32)
    requires
        input.restart.is_none(),
        s.player.cooldown.is_some(),
    ensures
        !s.is_running() ==> s.stepped(input, dt).player.cooldown == s.player.cooldown && s.report(
            input,
            dt,
        ).boosted.is_none(),
        s.is_running() && rested(s.player.cooldown, dt, input.boost).is_some() ==> s.stepped(
            input,
            dt,
        ).player.cooldown == rested(s.player.cooldown, dt, input.boost) && s.report(
            input,
            dt,
        ).boosted.is_none(),
{
    let timed = s.before_events(input, dt);
    let ready = timed.fed().judged(s.begun().starves(dt)).toggled(input);
    assert(ready.player.cooldown == timed.player.cooldown);
    if ready.player.cooldown.is_some() {
        assert(!ready.player.boost_starts());
    }
    if !s.is_running() {
        assert(timed.player.cooldown == s.player.cooldown);
    }
}

/// After a dash the player does not dash again while the boost button is
/// held without a break, however long, nor before the time of the cooldown
/// has passed, whatever is pressed: through all such ticks the cooldown
/// stays, and no dash is reported.
pub proof fn lemma_no_dash_during_cooldown(
    start: SimulationView,
    cooldown: BoostCooldown,
    ticks: Seq<RecordedTick>,
)
    requires
        start.player.cooldown == Some(cooldown),
        cooldown.wf(),
        !cooldown.timer.finished,
        !cooldown.did_release,
        without_restart(ticks),
        boost_held_throughout(ticks) || duration_of(ticks) < cooldown.timer.remaining(),
    ensures
        dashes(start, ticks) == 0,
        start.run(ticks).player.cooldown.is_some(),
        start.run(ticks).player.is_blocked(PlayerStates::Boost),
        ({
            let left = start.run(ticks).player.cooldown.unwrap();
            &&& left.wf()
            &&& boost_held_throughout(ticks) ==> !left.did_release
            &&& duration_of(ticks) < cooldown.timer.remaining() ==> !left.timer.finished
                && left.timer.remaining() >= cooldown.timer.remaining() - duration_of(ticks)
        }),
    decreases ticks.len(),
{
    if ticks.len() > 0 {
        let before = ticks.drop_last();
        let last = ticks.last();
        assert(ticks[ticks.len() - 1] == last);
        assert(without_restart(before)) by {
            assert forall|i: int| 0 <= i < before.len() implies (
            #[trigger] before[i]).input.restart.is_none() by {
                assert(ticks[i].input.restart.is_none());
            }
        }
        if boost_held_throughout(ticks) {
            assert(boost_held_throughout(before)) by {
                assert forall|i: int| 0 <= i < before.len() implies (
                #[trigger] before[i]).input.boost by {
                    assert(ticks[i].input.boost);
                }
            }
        }
        lemma_duration_is_not_negative(before);
        lemma_no_dash_during_cooldown(start, cooldown, before);
        lemma_tick_rests_cooldown(start.run(before), last.input, last.dt);
    }
}

/// The ticks of a recording take no negative time.
pub proof fn lemma_duration_is_not_negative(ticks: Seq<RecordedTick>)
    ensures
        duration_of(ticks) >= 0,
    decreases ticks.len(),
{
    if ticks.len() > 0 {
        lemma_duration_is_not_negative(ticks.drop_last());
    }
}

/// A boat is taken away exactly if it has left: its hull is beyond a wall
/// and none of its hooks is still in play. A boat with a hook in play
/// stays, and what hangs from a boat stays and goes with it.
pub proof fn lemma_boats_leave_with_their_last_hook(fleet: FleetView, arena: Arena, i: int)
    requires
        fleet.ordered(),
        0 <= i < fleet.boats.len(),
    ensures
        fleet.without_departed(arena).boats.contains(fleet.boats[i]) <==> !fleet.has_left(
            arena,
            fleet.boats[i],
        ),
        forall|j: int|
            0 <= j < fleet.hooks.len() && #[trigger] fleet.hook_in_play(arena, fleet.boats[i], j)
                ==> fleet.without_departed(arena).boats.contains(fleet.boats[i]),
        forall|j: int|
            0 <= j < fleet.hooks.len() && (#[trigger] fleet.hooks[j]).boat == fleet.boats[i].id ==> (
            fleet.without_departed(arena).hooks.contains(fleet.hooks[j]) <==> !fleet.has_left(
                arena,
                fleet.boats[i],
            )),
{
    let boat = fleet.boats[i];
    let gone = fleet.departed(arena);
    assert(gone.contains(boat.id) <==> fleet.has_left(arena, boat)) by {
        if fleet.has_left(arena, boat) {
            assert(fleet.boats[i].id == boat.id);
            assert(fleet.left_among(arena, boat.id, fleet.boats.len() as int));
        }
        if gone.contains(boat.id) {
            let k = choose|k: int|
                0 <= k < fleet.boats.len() && #[trigger] fleet.boats[k].id == boat.id
                    && fleet.has_left(arena, fleet.boats[k]);
            if k < i {
                assert(fleet.boats[k].id < fleet.boats[i].id);
            }
            if i < k {
                assert(fleet.boats[i].id < fleet.boats[k].id);
            }
        }
    }
    lemma_kept_exactly_if_afloat(fleet.boats, gone, i);
    assert forall|j: int|
        0 <= j < fleet.hooks.len() && (#[trigger] fleet.hooks[j]).boat == boat.id implies (
    fleet.without_departed(arena).hooks.contains(fleet.hooks[j]) <==> !fleet.has_left(
        arena,
        boat,
    )) by {
        lemma_kept_exactly_if_afloat(fleet.hooks, gone, j);
    }
}

/// Of the things that belong to boats, exactly those stay whose boat is not
/// among the boats that are gone.
pub proof fn lemma_kept_exactly_if_afloat<T: crate::fleet::BoatOwned>(
    items: Seq<T>,
    gone: Set<u64>,
    i: int,
)
    requires
        0 <= i < items.len(),
    ensures
        items.filter(stays::<T>(gone)).contains(items[i]) <==> !gone.contains(items[i].boat_id()),
{
    let pred = stays::<T>(gone);
    let kept = items.filter(pred);
    if pred(items[i]) {
        items.lemma_filter_contains(pred, i);
    }
    if kept.contains(items[i]) {
        let k = choose|k: int| 0 <= k < kept.len() && kept[k] == items[i];
        items.lemma_filter_pred(pred, k);
    }
}

/// Whether `later` holds all hooks and boats of `earlier` at their places,
/// and maybe more behind them.
pub open spec fn extends(later: FleetView, earlier: FleetView) -> bool {
    &&& earlier.hooks.len() <= later.hooks.len()
    &&& forall|k: int| 0 <= k < earlier.hooks.len() ==> later.hooks[k] == earlier.hooks[k]
    &&& earlier.boats.len() <= later.boats.len()
    &&& forall|k: int| 0 <= k < earlier.boats.len() ==> later.boats[k] == earlier.boats[k]
}

/// Rigging a boat adds to the fleet and takes nothing away.
pub proof fn lemma_rigging_extends(
    fleet: FleetView,
    rng: GameRng,
    stats: crate::boat::BoatStats,
    boat_id: u64,
    facing_right: bool,
    poles: nat,
)
    ensures
        extends(fleet.rigged(rng, stats, boat_id, facing_right, poles).0, fleet),
    decreases poles,
{
    if poles > 0 {
        lemma_rigging_extends(fleet, rng, stats, boat_id, facing_right, (poles - 1) as nat);
    }
}

/// A wave of boats adds to the fleet and takes nothing away.
pub proof fn lemma_boats_extend(
    fleet: FleetView,
    rng: GameRng,
    difficulty: u8,
    arena: Arena,
    count: nat,
)
    ensures
        extends(fleet.with_boats(rng, difficulty, arena, count).0, fleet),
    decreases count,
{
    if count > 0 {
        lemma_boats_extend(fleet, rng, difficulty, arena, (count - 1) as nat);
        let before = fleet.with_boats(rng, difficulty, arena, (count - 1) as nat);
        let drawn = crate::boat::spec_boat_stats(before.1, difficulty);
        let stats = drawn.0;
        let facing_right = drawn.1.next_bool();
        let boat = crate::fleet::new_boat(stats, arena, before.0.next_id, facing_right);
        let launched = FleetView {
            boats: before.0.boats.push(boat),
            next_id: (before.0.next_id + 1 + 3 * stats.num_poles) as u64,
            ..before.0
        };
        lemma_rigging_extends(
            launched,
            drawn.1.after_bool(),
            stats,
            boat.id,
            facing_right,
            stats.num_poles as nat,
        );
    }
}

/// The timers of a tick add to the fleet and take nothing away.
pub proof fn lemma_timers_extend_fleet(s: SimulationView, input: TickInput, dt: u32)
    ensures
        extends(s.timed(input, dt).fleet, s.fleet),
        s.timed(input, dt).player.id == s.player.id,
        s.timed(input, dt).contacts == s.contacts,
        s.timed(input, dt).game_state == s.game_state,
{
    if s.is_running() {
        let difficulty = s.difficulty.spec_tick(dt);
        if s.fleet.has_ids_for_wave() {
            let top = (difficulty.multiplier + 1) as u8;
            lemma_boats_extend(
                s.fleet,
                s.rng.after_range_u8(1, top),
                difficulty.multiplier,
                s.config.arena,
                s.rng.next_range_u8(1, top) as nat,
            );
        }
    }
}

/// A hook that is found in a fleet is found, the same, in a fleet that
/// extends it.
pub proof fn lemma_hook_stays_found(later: FleetView, earlier: FleetView, id: u64, from: int)
    requires
        extends(later, earlier),
        earlier.hook_from(id, from).is_some(),
    ensures
        later.hook_from(id, from) == earlier.hook_from(id, from),
    decreases earlier.hooks.len() - from,
{
    if 0 <= from < earlier.hooks.len() && earlier.hooks[from].id != id {
        lemma_hook_stays_found(later, earlier, id, from + 1);
    }
}

/// A contact waits one tick. A tick that finds the player on a hook does
/// not end the game if no contact was waiting and the player does not
/// starve; the contact is written to the queue. The tick after it ends the
/// game and names the boat of the hook as the winner, if the hook is still
/// there.
pub proof fn lemma_contacts_wait_one_tick(
    s: SimulationView,
    first: TickInput,
    dt1: u32,
    second: TickInput,
    dt2: u32,
)
    requires
        s.is_running(),
        first.restart.is_none(),
        second.restart.is_none(),
        !first.pause,
        s.contacts.current.hooked.len() == 0,
        s.contacts.current.bonked.len() == 0,
        !s.begun().starves(dt1),
        s.stepped(first, dt1).contacts.current.hooked.len() > 0,
        s.stepped(first, dt1).fleet.hook_of(
            s.stepped(first, dt1).contacts.current.hooked[0].hook_entity,
        ).is_some(),
    ensures
        s.report(first, dt1).game_over.is_none(),
        s.stepped(first, dt1).is_running(),
        s.stepped(first, dt1).stepped(second, dt2).game_state.cur_state == GameStates::GameOver,
        s.stepped(first, dt1).report(second, dt2).game_over == Some(
            GameOver {
                winning_boat: Some(
                    s.stepped(first, dt1).fleet.hook_of(
                        s.stepped(first, dt1).contacts.current.hooked[0].hook_entity,
                    ).unwrap().boat,
                ),
            },
        ),
{
    let s1 = s.stepped(first, dt1);
    let timed = s.before_events(first, dt1);
    lemma_timers_extend_fleet(s.begun(), first, dt1);
    let found = timed.fed().judged(false).toggled(first).steered(first).propelled(
        first,
        dt1,
    ).integrated(dt1);
    assert(found.is_running());
    assert(s1.contacts.current == contacts_of(found.player, found.fleet));
    let event = s1.contacts.current.hooked[0];
    assert(event.player_entity == s.player.id);
    assert(s1.player.id == s.player.id);
    let hook = s1.fleet.hook_of(event.hook_entity).unwrap();
    let timed2 = s1.before_events(second, dt2);
    lemma_timers_extend_fleet(s1.begun(), second, dt2);
    lemma_hook_stays_found(timed2.fleet, s1.fleet, event.hook_entity, 0);
    let fed2 = timed2.fed();
    assert(fed2.contacts.previous.hooked == s1.contacts.current.hooked);
    assert(catching_boat(fed2.contacts.previous.hooked, fed2.fleet, fed2.player.id, 0) == Some(
        hook.boat,
    ));
}

/// Time that ticks of the given lengths take together.
pub open spec fn sum_of(ticks: Seq<u32>) -> int
    decreases ticks.len(),
{
    if ticks.len() == 0 {
        0
    } else {
        sum_of(ticks.drop_last()) + ticks.last()
    }
}

/// A countdown after ticks of the given lengths in which nothing is eaten.
pub open spec fn hungered(hunger: HungerCountdown, ticks: Seq<u32>) -> HungerCountdown
    decreases ticks.len(),
{
    if ticks.len() == 0 {
        hunger
    } else {
        hungered(hunger, ticks.drop_last()).spec_tick(ticks.last(), false)
    }
}

/// In how many of the ticks the player starves.
pub open spec fn starvations(hunger: HungerCountdown, ticks: Seq<u32>) -> nat
    decreases ticks.len(),
{
    if ticks.len() == 0 {
        0
    } else {
        starvations(hunger, ticks.drop_last()) + if hungered(
            hunger,
            ticks.drop_last(),
        ).starves_in(ticks.last(), false) {
            1nat
        } else {
            0nat
        }
    }
}

/// A player that eats nothing starves exactly once if the ticks take at
/// least the time it had left, and never if they take less.
pub proof fn lemma_starves_exactly_once(hunger: HungerCountdown, ticks: Seq<u32>)
    requires
        !hunger.starved,
    ensures
        starvations(hunger, ticks) == if ticks.len() > 0 && sum_of(ticks) >= hunger.time_left {
            1nat
        } else {
            0nat
        },
        hungered(hunger, ticks).starved == (ticks.len() > 0 && sum_of(ticks) >= hunger.time_left),
        !hungered(hunger, ticks).starved ==> hungered(hunger, ticks).time_left == hunger.time_left
            - sum_of(ticks),
        starvations(hunger, ticks) <= 1,
    decreases ticks.len(),
{
    if ticks.len() > 0 {
        lemma_starves_exactly_once(hunger, ticks.drop_last());
        lemma_sum_is_not_negative(ticks.drop_last());
    }
}

/// Ticks take no negative time.
pub proof fn lemma_sum_is_not_negative(ticks: Seq<u32>)
    ensures
        sum_of(ticks) >= 0,
    decreases ticks.len(),
{
    if ticks.len() > 0 {
        lemma_sum_is_not_negative(ticks.drop_last());
    }
}

/// The tick in which the player starves ends the game and says so.
pub proof fn lemma_starving_ends_the_game(s: SimulationView, input: TickInput, dt: u32)
    requires
        input.restart.is_none(),
        s.begun().starves(dt),
    ensures
        s.stepped(input, dt).game_state.cur_state == GameStates::GameOver,
        s.stepped(input, dt).game_over.is_some(),
        s.stepped(input, dt).player.hunger.starved,
        s.report(input, dt).starved.is_some(),
        s.report(input, dt).game_over.is_some(),
        s.report(input, dt).final_score.is_some(),
{
}

/// A game that is over stays as it is until it is restarted: a tick only
/// drops the contacts that were waiting, and tells the outside nothing.
/// In particular the game does not end a second time.
pub proof fn lemma_over_stays_over(s: SimulationView, input: TickInput, dt: u32)
    requires
        input.restart.is_none(),
        s.game_state.cur_state == GameStates::GameOver,
    ensures
        s.stepped(input, dt) == s.begun(),
        s.report(input, dt) == (TickReport {
            restarted: false,
            boosted: None,
            starved: None,
            game_over: None,
            final_score: None,
        }),
{
}

/// In how many ticks of a recording the game ends.
pub open spec fn endings(start: SimulationView, ticks: Seq<RecordedTick>) -> nat
    decreases ticks.len(),
{
    if ticks.len() == 0 {
        0
    } else {
        endings(start, ticks.drop_last()) + if start.run(ticks.drop_last()).report(
            ticks.last().input,
            ticks.last().dt,
        ).game_over.is_some() {
            1nat
        } else {
            0nat
        }
    }
}

/// In how many ticks of a recording the player starves.
pub open spec fn starvings(start: SimulationView, ticks: Seq<RecordedTick>) -> nat
    decreases ticks.len(),
{
    if ticks.len() == 0 {
        0
    } else {
        starvings(start, ticks.drop_last()) + if start.run(ticks.drop_last()).report(
            ticks.last().input,
            ticks.last().dt,
        ).starved.is_some() {
            1nat
        } else {
            0nat
        }
    }
}

/// Between two restarts a game ends at most once, and the player starves
/// at most once. Once the game has ended it is over for the rest of the
/// recording.
pub proof fn lemma_game_ends_at_most_once(start: SimulationView, ticks: Seq<RecordedTick>)
    requires
        without_restart(ticks),
    ensures
        endings(start, ticks) <= 1,
        starvings(start, ticks) <= endings(start, ticks),
        endings(start, ticks) == 1 ==> start.run(ticks).game_state.cur_state
            == GameStates::GameOver,
        start.game_state.cur_state == GameStates::GameOver ==> endings(start, ticks) == 0
            && start.run(ticks).game_state.cur_state == GameStates::GameOver,
    decreases ticks.len(),
{
    if ticks.len() > 0 {
        let before = ticks.drop_last();
        let last = ticks.last();
        assert(without_restart(before)) by {
            assert forall|i: int| 0 <= i < before.len() implies (
            #[trigger] before[i]).input.restart.is_none() by {
                assert(ticks[i].input.restart.is_none());
            }
        }
        assert(ticks[ticks.len() - 1].input.restart.is_none());
        lemma_game_ends_at_most_once(start, before);
        let s = start.run(before);
        if s.game_state.cur_state == GameStates::GameOver {
            lemma_over_stays_over(s, last.input, last.dt);
        }
    }
}

/// A paused game stays as it is while pausing is not toggled.
pub proof fn lemma_paused_stays_paused(s: SimulationView, input: TickInput, dt: u32)
    requires
        input.restart.is_none(),
        !input.pause,
        s.game_state.cur_state == GameStates::Paused,
    ensures
        s.stepped(input, dt) == s.begun(),
        s.report(input, dt) == (TickReport {
            restarted: false,
            boosted: None,
            starved: None,
            game_over: None,
            final_score: None,
        }),
{
}

/// Until a restart the difficulty never falls and never leaves the range
/// from the lowest to the highest, and the score never falls.
pub proof fn lemma_difficulty_and_score_never_fall(s: SimulationView, input: TickInput, dt: u32)
    requires
        input.restart.is_none(),
        s.difficulty.wf(),
    ensures
        s.stepped(input, dt).difficulty.multiplier >= s.difficulty.multiplier,
        1 <= s.stepped(input, dt).difficulty.multiplier <= crate::game::MAX_DIFFICULTY,
        s.stepped(input, dt).score.count >= s.score.count,
{
}

/// After a restart the score is nothing, the difficulty is the lowest, the
/// game runs, the player is new, idle, without cooldown and with all its
/// time, no boat, line, hook or worm is left, no contact is waiting, and the
/// random stream starts from the fresh seed.
pub proof fn lemma_restart_is_clean(s: SimulationView, input: TickInput, dt: u32)
    requires
        input.restart.is_some(),
    ensures
        ({
            let after = s.stepped(input, dt);
            &&& after.config == s.config
            &&& after.score.count == 0
            &&& after.difficulty.multiplier == 1
            &&& after.game_state.cur_state == GameStates::Running
            &&& after.game_over.is_none()
            &&& after.player == s.config.fresh_player(s.fleet.next_id)
            &&& after.player.state == LocomotionState::Idle
            &&& after.player.cooldown.is_none()
            &&& !after.player.is_blocked(PlayerStates::Boost)
            &&& after.player.hunger.time_left == s.config.hunger_time
            &&& !after.player.hunger.starved
            &&& after.player.boost_supply.count == s.config.max_boosts
            &&& after.fleet.boats.len() == 0
            &&& after.fleet.lines.len() == 0
            &&& after.fleet.hooks.len() == 0
            &&& after.fleet.worms.len() == 0
            &&& after.contacts == ContactQueueView::empty()
            &&& after.rng == (GameRng { seed: input.restart.unwrap(), word_pos: 0 })
        }),
        s.config.wf() ==> s.stepped(input, dt).wf(),
        s.report(input, dt).restarted,
{
}

} // verus!

//! Finding the contacts of the player with hooks, worms and boats, and
//! deciding what ends the game.
use crate::boat::{Boat, Hook, Worm};
use crate::collision::{ aabb_at, aabb_intersects, box_at, check_aabb_collision, Aabb2d, Collider, };
use crate::events::{ContactEventsView, PlayerAte, PlayerBonked, PlayerHooked};
use crate::fleet::{Fleet, FleetView};
use crate::game::GameOver;
use crate::player::Player;
use vstd::prelude::*;

verus! {

/// The box of the player.
pub open spec fn player_box(player: Player) -> Aabb2d {
    box_at(player.position.x as int, player.position.y as int, player.collider)
}

/// The box of something that hangs from `boat` at `offset`.
pub open spec fn hanging_box(boat: Boat, offset: crate::core2d::Vec2, collider: Collider) -> Aabb2d {
    box_at(boat.position.x + offset.x, boat.position.y + offset.y, collider)
}

/// The test for a hook that the player touches. A hook whose boat is not in
/// the fleet is nowhere, and is not touched.
pub open spec fn hook_touched(player: Player, fleet: FleetView) -> spec_fn(Hook) -> bool {
    |hook: Hook|
        match fleet.boat_of(hook.boat) {
            Some(boat) => aabb_intersects(
                player_box(player),
                hanging_box(boat, hook.offset, hook.collider),
            ),
            None => false,
        }
}

/// The test for a worm that the player touches. A worm whose boat is not in
/// the fleet is nowhere, and is not touched.
pub open spec fn worm_touched(player: Player, fleet: FleetView) -> spec_fn(Worm) -> bool {
    |worm: Worm|
        match fleet.boat_of(worm.boat) {
            Some(boat) => aabb_intersects(
                player_box(player),
                hanging_box(boat, worm.offset, worm.collider),
            ),
            None => false,
        }
}

/// The test for a worm that the player does not touch.
pub open spec fn worm_spared(player: Player, fleet: FleetView) -> spec_fn(Worm) -> bool {
    |worm: Worm| !worm_touched(player, fleet)(worm)
}

/// The test for a boat whose hull the player touches.
pub open spec fn boat_touched(player: Player) -> spec_fn(Boat) -> bool {
    |boat: Boat|
        aabb_intersects(
            player_box(player),
            box_at(boat.position.x as int, boat.position.y as int, boat.collider),
        )
}

/// The contact of the player with a hook.
pub open spec fn hooked_by(player: Player) -> spec_fn(Hook) -> PlayerHooked {
    |hook: Hook| PlayerHooked { player_entity: player.id, hook_entity: hook.id }
}

/// The contact of the player with a worm.
pub open spec fn eaten_by(player: Player) -> spec_fn(Worm) -> PlayerAte {
    |worm: Worm| PlayerAte { player_entity: player.id, worm_entity: worm.id }
}

/// The contact of the player with the hull of a boat.
pub open spec fn bonked_by(player: Player) -> spec_fn(Boat) -> PlayerBonked {
    |boat: Boat| PlayerBonked { player_entity: player.id, boat_entity: boat.id }
}

/// A contact with each hook that the player touches, in the order of the
/// hooks.
pub open spec fn hook_contacts(player: Player, fleet: FleetView) -> Seq<PlayerHooked> {
    fleet.hooks.filter(hook_touched(player, fleet)).map_values(hooked_by(player))
}

/// A contact with each worm that the player touches, in the order of the
/// worms.
pub open spec fn worm_contacts(player: Player, fleet: FleetView) -> Seq<PlayerAte> {
    fleet.worms.filter(worm_touched(player, fleet)).map_values(eaten_by(player))
}

/// A contact with each boat whose hull the player touches, in the order of
/// the boats.
pub open spec fn boat_contacts(player: Player, fleet: FleetView) -> Seq<PlayerBonked> {
    fleet.boats.filter(boat_touched(player)).map_values(bonked_by(player))
}

/// All contacts of the player with the fleet.
pub open spec fn contacts_of(player: Player, fleet: FleetView) -> ContactEventsView {
    ContactEventsView {
        hooked: hook_contacts(player, fleet),
        ate: worm_contacts(player, fleet),
        bonked: boat_contacts(player, fleet),
    }
}

/// The fleet without the worms that the player touches.
pub open spec fn without_eaten(player: Player, fleet: FleetView) -> FleetView {
    FleetView { worms: fleet.worms.filter(worm_spared(player, fleet)), ..fleet }
}

fn get_player_aabb(player: &Player) -> (aabb: Aabb2d)
    ensures
        aabb == player_box(*player),
{
    aabb_at(player.position.x as i64, player.position.y as i64, &player.collider)
}

fn touches_hanging(
    player_aabb: &Aabb2d,
    fleet: &Fleet,
    owner: u64,
    offset: crate::core2d::Vec2,
    collider: &Collider,
) -> (hit: bool)
    ensures
        hit == match fleet@.boat_of(owner) {
            Some(boat) => aabb_intersects(*player_aabb, hanging_box(boat, offset, *collider)),
            None => false,
        },
{
    match fleet.boat_of(owner) {
        Some(boat) => {
            let other: Aabb2d = aabb_at(
                boat.position.x as i64 + offset.x as i64,
                boat.position.y as i64 + offset.y as i64,
                collider,
            );
            check_aabb_collision(player_aabb, &other)
        },
        None => false,
    }
}

/// Finds the hooks that the player touches.
pub fn player_hook_collision_system(player: &Player, fleet: &Fleet) -> (events: Vec<PlayerHooked>)
    ensures
        events@ == hook_contacts(*player, fleet@),
{
    let player_aabb: Aabb2d = get_player_aabb(player);
    let ghost touched = hook_touched(*player, fleet@);
    let ghost event = hooked_by(*player);
    let mut events: Vec<PlayerHooked> = Vec::new();
    let mut i: usize = 0;
    proof {
        reveal(Seq::filter);
        assert(fleet@.hooks.take(0) =~= Seq::<Hook>::empty());
        assert(Seq::<Hook>::empty().filter(touched).map_values(event) =~= Seq::<
            PlayerHooked,
        >::empty());
    }
    while i < fleet.hooks.len()
        invariant
            i <= fleet.hooks.len(),
            player_aabb == player_box(*player),
            touched == hook_touched(*player, fleet@),
            event == hooked_by(*player),
            events@ == fleet@.hooks.take(i as int).filter(touched).map_values(event),
        decreases fleet.hooks.len() - i,
    {
        let hook: Hook = fleet.hooks[i];
        proof {
            let seen = fleet@.hooks.take(i as int);
            assert(fleet@.hooks.take(i + 1) =~= seen.push(hook));
            seen.lemma_filter_push(hook, touched);
            assert(seen.filter(touched).push(hook).map_values(event) =~= seen.filter(
                touched,
            ).map_values(event).push(event(hook)));
        }
        if touches_hanging(&player_aabb, fleet, hook.boat, hook.offset, &hook.collider) {
            events.push(PlayerHooked { player_entity: player.id, hook_entity: hook.id });
        }
        i = i + 1;
    }
    assert(fleet@.hooks.take(fleet.hooks.len() as int) =~= fleet@.hooks);
    events
}

/// Finds the worms that the player touches and takes them out of the fleet.
pub fn player_worm_collision_system(player: &Player, fleet: &mut Fleet) -> (events: Vec<PlayerAte>)
    ensures
        events@ == worm_contacts(*player, old(fleet)@),
        final(fleet)@ == without_eaten(*player, old(fleet)@),
{
    let player_aabb: Aabb2d = get_player_aabb(player);
    let ghost touched = worm_touched(*player, fleet@);
    let ghost spared = worm_spared(*player, fleet@);
    let ghost event = eaten_by(*player);
    let mut events: Vec<PlayerAte> = Vec::new();
    let mut left: Vec<Worm> = Vec::new();
    let mut i: usize = 0;
    proof {
        reveal(Seq::filter);
        assert(fleet@.worms.take(0) =~= Seq::<Worm>::empty());
        assert(Seq::<Worm>::empty().filter(touched).map_values(event) =~= Seq::<
            PlayerAte,
        >::empty());
        assert(Seq::<Worm>::empty().filter(spared) =~= Seq::<Worm>::empty());
    }
    while i < fleet.worms.len()
        invariant
            i <= fleet.worms.len(),
            *fleet == *old(fleet),
            player_aabb == player_box(*player),
            touched == worm_touched(*player, fleet@),
            spared == worm_spared(*player, fleet@),
            event == eaten_by(*player),
            events@ == fleet@.worms.take(i as int).filter(touched).map_values(event),
            left@ == fleet@.worms.take(i as int).filter(spared),
        decreases fleet.worms.len() - i,
    {
        let worm: Worm = fleet.worms[i];
        proof {
            let seen = fleet@.worms.take(i as int);
            assert(fleet@.worms.take(i + 1) =~= seen.push(worm));
            seen.lemma_filter_push(worm, touched);
            seen.lemma_filter_push(worm, spared);
            assert(seen.filter(touched).push(worm).map_values(event) =~= seen.filter(
                touched,
            ).map_values(event).push(event(worm)));
        }
        if touches_hanging(&player_aabb, fleet, worm.boat, worm.offset, &worm.collider) {
            events.push(PlayerAte { player_entity: player.id, worm_entity: worm.id });
        } else {
            left.push(worm);
        }
        i = i + 1;
    }
    assert(fleet@.worms.take(fleet.worms.len() as int) =~= fleet@.worms);
    fleet.worms = left;
    events
}

/// Finds the boats whose hull the player touches.
pub fn player_boat_collision_system(player: &Player, fleet: &Fleet) -> (events: Vec<PlayerBonked>)
    ensures
        events@ == boat_contacts(*player, fleet@),
{
    let player_aabb: Aabb2d = get_player_aabb(player);
    let ghost touched = boat_touched(*player);
    let ghost event = bonked_by(*player);
    let mut events: Vec<PlayerBonked> = Vec::new();
    let mut i: usize = 0;
    proof {
        reveal(Seq::filter);
        assert(fleet@.boats.take(0) =~= Seq::<Boat>::empty());
        assert(Seq::<Boat>::empty().filter(touched).map_values(event) =~= Seq::<
            PlayerBonked,
        >::empty());
    }
    while i < fleet.boats.len()
        invariant
            i <= fleet.boats.len(),
            player_aabb == player_box(*player),
            touched == boat_touched(*player),
            event == bonked_by(*player),
            events@ == fleet@.boats.take(i as int).filter(touched).map_values(event),
        decreases fleet.boats.len() - i,
    {
        let boat: Boat = fleet.boats[i];
        proof {
            let seen = fleet@.boats.take(i as int);
            assert(fleet@.boats.take(i + 1) =~= seen.push(boat));
            seen.lemma_filter_push(boat, touched);
            assert(seen.filter(touched).push(boat).map_values(event) =~= seen.filter(
                touched,
            ).map_values(event).push(event(boat)));
        }
        let other: Aabb2d = aabb_at(
            boat.position.x as i64,
            boat.position.y as i64,
            &boat.collider,
        );
        if check_aabb_collision(&player_aabb, &other) {
            events.push(PlayerBonked { player_entity: player.id, boat_entity: boat.id });
        }
        i = i + 1;
    }
    assert(fleet@.boats.take(fleet.boats.len() as int) =~= fleet@.boats);
    events
}

/// The test for a meal of the player with the id `player_id`.
pub open spec fn meal_of(player_id: u64) -> spec_fn(PlayerAte) -> bool {
    |event: PlayerAte| event.player_entity == player_id
}

/// How many of the contacts are meals of the player with the id
/// `player_id`.
pub open spec fn meals_of(ate: Seq<PlayerAte>, player_id: u64) -> nat {
    ate.filter(meal_of(player_id)).len()
}

/// Counts the meals of a player among the contacts.
pub fn count_meals(ate: &Vec<PlayerAte>, player_id: u64) -> (meals: usize)
    ensures
        meals == meals_of(ate@, player_id),
{
    let ghost pred = meal_of(player_id);
    let mut meals: usize = 0;
    let mut i: usize = 0;
    proof {
        reveal(Seq::filter);
        assert(ate@.take(0) =~= Seq::<PlayerAte>::empty());
    }
    while i < ate.len()
        invariant
            i <= ate.len(),
            pred == meal_of(player_id),
            meals == ate@.take(i as int).filter(pred).len(),
            meals <= i,
        decreases ate.len() - i,
    {
        proof {
            let seen = ate@.take(i as int);
            assert(ate@.take(i + 1) =~= seen.push(ate@[i as int]));
            seen.lemma_filter_push(ate@[i as int], pred);
        }
        if ate[i].player_entity == player_id {
            meals = meals + 1;
        }
        i = i + 1;
    }
    assert(ate@.take(ate.len() as int) =~= ate@);
    meals
}

/// The boat of the first hook contact, at or after the index `from`, that
/// names the player `player_id` and a hook that is still in the fleet.
pub open spec fn catching_boat(
    hooked: Seq<PlayerHooked>,
    fleet: FleetView,
    player_id: u64,
    from: int,
) -> Option<u64>
    decreases hooked.len() - from,
{
    if from < 0 || from >= hooked.len() {
        None
    } else if hooked[from].player_entity == player_id && fleet.hook_of(
        hooked[from].hook_entity,
    ).is_some() {
        Some(fleet.hook_of(hooked[from].hook_entity).unwrap().boat)
    } else {
        catching_boat(hooked, fleet, player_id, from + 1)
    }
}

/// The boat of the first hull contact, at or after the index `from`, that
/// names the player `player_id` and a boat that is still in the fleet.
pub open spec fn bonking_boat(
    bonked: Seq<PlayerBonked>,
    fleet: FleetView,
    player_id: u64,
    from: int,
) -> Option<u64>
    decreases bonked.len() - from,
{
    if from < 0 || from >= bonked.len() {
        None
    } else if bonked[from].player_entity == player_id && fleet.boat_of(
        bonked[from].boat_entity,
    ).is_some() {
        Some(bonked[from].boat_entity)
    } else {
        bonking_boat(bonked, fleet, player_id, from + 1)
    }
}

/// What ends the game, if anything does.
///
/// A hook that caught the player ends it first, and the boat of the hook
/// wins. If there is none, starving ends it, and no boat wins. If the player
/// did not starve either, a hull that the player ran into ends it, and the
/// boat wins. Contacts that name another player, or a hook or a boat that is
/// no longer there, are passed over.
pub open spec fn game_over_cause(
    hooked: Seq<PlayerHooked>,
    bonked: Seq<PlayerBonked>,
    starved: bool,
    fleet: FleetView,
    player_id: u64,
) -> Option<GameOver> {
    match catching_boat(hooked, fleet, player_id, 0) {
        Some(boat) => Some(GameOver { winning_boat: Some(boat) }),
        None => if starved {
            Some(GameOver { winning_boat: None })
        } else {
            match bonking_boat(bonked, fleet, player_id, 0) {
                Some(boat) => Some(GameOver { winning_boat: Some(boat) }),
                None => None,
            }
        },
    }
}

/// Decides from the contacts of the tick before, and from whether the
/// player starved, what ends the game.
pub fn end_game_system(
    hooked: &Vec<PlayerHooked>,
    bonked: &Vec<PlayerBonked>,
    starved: bool,
    fleet: &Fleet,
    player_id: u64,
) -> (cause: Option<GameOver>)
    ensures
        cause == game_over_cause(hooked@, bonked@, starved, fleet@, player_id),
{
    let mut i: usize = 0;
    while i < hooked.len()
        invariant
            i <= hooked.len(),
            catching_boat(hooked@, fleet@, player_id, 0) == catching_boat(
                hooked@,
                fleet@,
                player_id,
                i as int,
            ),
        decreases hooked.len() - i,
    {
        if hooked[i].player_entity == player_id {
            match fleet.hook_of(hooked[i].hook_entity) {
                Some(hook) => {
                    return Some(GameOver { winning_boat: Some(hook.boat) });
                },
                None => {},
            }
        }
        i = i + 1;
    }
    if starved {
        return Some(GameOver { winning_boat: None });
    }
    let mut j: usize = 0;
    while j < bonked.len()
        invariant
            j <= bonked.len(),
            !starved,
            catching_boat(hooked@, fleet@, player_id, 0).is_none(),
            bonking_boat(bonked@, fleet@, player_id, 0) == bonking_boat(
                bonked@,
                fleet@,
                player_id,
                j as int,
            ),
        decreases bonked.len() - j,
    {
        if bonked[j].player_entity == player_id {
            match fleet.boat_of(bonked[j].boat_entity) {
                Some(_) => {
                    return Some(GameOver { winning_boat: Some(bonked[j].boat_entity) });
                },
                None => {},
            }
        }
        j = j + 1;
    }
    None
}

} // verus!

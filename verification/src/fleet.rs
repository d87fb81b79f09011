//! All boats in play with their lines, hooks and worms, kept in flat lists
//! that are tied together by the ids of the boats.
use crate::arena::Arena;
use crate::boat::{
    boat_stats_factory, rig_pole, spec_boat_stats, spec_rig_pole, Boat, BoatStats, Hook, Line,
    RiggedPole, Worm, SPAWN_PERIOD, WAVE_ID_RESERVE,
};
use crate::collision::Collider;
use crate::core2d::{advance_point, advanced_point, clamp_i32, saturate, Vec2, UNIT};
use crate::rng::GameRng;
use crate::timer::{Timer, TimerMode};
use vstd::prelude::*;

verus! {

/// The boats in play and what hangs from them. `next_id` is the id that
/// the next new entity takes.
#[derive(Debug)]
pub struct Fleet {
    pub boats: Vec<Boat>,
    pub lines: Vec<Line>,
    pub hooks: Vec<Hook>,
    pub worms: Vec<Worm>,
    pub next_id: u64,
}

/// The fleet, as sequences.
pub struct FleetView {
    pub boats: Seq<Boat>,
    pub lines: Seq<Line>,
    pub hooks: Seq<Hook>,
    pub worms: Seq<Worm>,
    pub next_id: u64,
}

impl View for Fleet {
    type V = FleetView;

    open spec fn view(&self) -> FleetView {
        FleetView {
            boats: self.boats@,
            lines: self.lines@,
            hooks: self.hooks@,
            worms: self.worms@,
            next_id: self.next_id,
        }
    }
}

/// The boat that is put in the water for `stats`: just beyond the left wall
/// if it goes right and just beyond the right wall if it goes left, on the
/// surface, and moving toward the other side at its speed.
pub open spec fn new_boat(stats: BoatStats, arena: Arena, id: u64, facing_right: bool) -> Boat {
    Boat {
        id,
        position: Vec2 {
            x: (if facing_right {
                -arena.half_width() - stats.width + UNIT
            } else {
                arena.half_width() + stats.width - UNIT
            }) as i32,
            y: clamp_i32(arena.surface()) as i32,
        },
        velocity: Vec2 {
            x: if facing_right {
                stats.speed
            } else {
                (-stats.speed) as i32
            },
            y: 0,
        },
        collider: Collider { width: stats.width, height: stats.height },
        facing_right,
        num_lines: stats.num_poles,
    }
}

impl FleetView {
    /// No boats, and `next_id` for the next entity.
    pub open spec fn empty(next_id: u64) -> FleetView {
        FleetView {
            boats: Seq::empty(),
            lines: Seq::empty(),
            hooks: Seq::empty(),
            worms: Seq::empty(),
            next_id,
        }
    }

    /// Whether the boats stand in the order of their ids, all below the
    /// next id. No two boats of such a fleet have the same id.
    pub open spec fn ordered(self) -> bool {
        &&& forall|i: int, j: int|
            #![trigger self.boats[i], self.boats[j]]
            0 <= i < j < self.boats.len() ==> self.boats[i].id < self.boats[j].id
        &&& forall|i: int|
            0 <= i < self.boats.len() ==> (#[trigger] self.boats[i]).id < self.next_id
    }

    /// The fleet with the gear of one more rod.
    pub open spec fn with_pole(self, pole: RiggedPole) -> FleetView {
        FleetView {
            lines: self.lines.push(pole.line),
            hooks: self.hooks.push(pole.hook),
            worms: match pole.worm {
                Some(worm) => self.worms.push(worm),
                None => self.worms,
            },
            ..self
        }
    }

    /// The fleet and the stream after the first `poles` rods of a boat have
    /// been rigged, one after the other.
    pub open spec fn rigged(
        self,
        rng: GameRng,
        stats: BoatStats,
        boat_id: u64,
        facing_right: bool,
        poles: nat,
    ) -> (FleetView, GameRng)
        decreases poles,
    {
        if poles == 0 {
            (self, rng)
        } else {
            let before = self.rigged(rng, stats, boat_id, facing_right, (poles - 1) as nat);
            let pole = spec_rig_pole(stats, boat_id, facing_right, before.1, poles as int);
            (before.0.with_pole(pole), pole.rng)
        }
    }

    /// The fleet and the stream after a boat with `stats` has been put in
    /// the water: the side it comes from is drawn first, and its rods are
    /// rigged after that. The boat takes the next id, and three ids are set
    /// aside for each of its rods.
    pub open spec fn with_boat(self, rng: GameRng, stats: BoatStats, arena: Arena) -> (
        FleetView,
        GameRng,
    ) {
        let facing_right = rng.next_bool();
        let boat = new_boat(stats, arena, self.next_id, facing_right);
        let launched = FleetView {
            boats: self.boats.push(boat),
            next_id: (self.next_id + 1 + 3 * stats.num_poles) as u64,
            ..self
        };
        launched.rigged(rng.after_bool(), stats, boat.id, facing_right, stats.num_poles as nat)
    }

    /// The fleet and the stream after the first `count` boats of a wave:
    /// for each boat its stats are drawn, and the boat is put in the water.
    pub open spec fn with_boats(self, rng: GameRng, difficulty: u8, arena: Arena, count: nat) -> (
        FleetView,
        GameRng,
    )
        decreases count,
    {
        if count == 0 {
            (self, rng)
        } else {
            let before = self.with_boats(rng, difficulty, arena, (count - 1) as nat);
            let drawn = spec_boat_stats(before.1, difficulty);
            before.0.with_boat(drawn.1, drawn.0, arena)
        }
    }

    /// Whether there are ids left for another wave.
    pub open spec fn has_ids_for_wave(self) -> bool {
        self.next_id <= u64::MAX - WAVE_ID_RESERVE
    }

    /// The fleet and the stream after a wave of boats: the number of boats
    /// is drawn from 1 to the difficulty, and that many are put in the
    /// water. Without ids left there is no wave and nothing is drawn.
    pub open spec fn with_wave(self, rng: GameRng, difficulty: u8, arena: Arena) -> (
        FleetView,
        GameRng,
    ) {
        if self.has_ids_for_wave() {
            let top = (difficulty + 1) as u8;
            self.with_boats(
                rng.after_range_u8(1, top),
                difficulty,
                arena,
                rng.next_range_u8(1, top) as nat,
            )
        } else {
            (self, rng)
        }
    }

    /// The fleet after every boat has moved along its velocity for `dt`
    /// microseconds. What hangs from a boat moves with it.
    pub open spec fn moved(self, dt: u32) -> FleetView {
        FleetView {
            boats: self.boats.map_values(
                |b: Boat|
                    Boat { position: advance_point(b.position, b.velocity, dt as int), ..b },
            ),
            ..self
        }
    }
}

/// Rigs all rods of a boat.
pub fn spawn_lines(stats: &BoatStats, boat: &Boat, rng: &mut GameRng, fleet: &mut Fleet)
    requires
        stats.wf(),
        boat.id + 3 * stats.num_poles <= u64::MAX,
    ensures
        (final(fleet)@, *final(rng)) == old(fleet)@.rigged(
            *old(rng),
            *stats,
            boat.id,
            boat.facing_right,
            stats.num_poles as nat,
        ),
        final(fleet).next_id == old(fleet).next_id,
        final(fleet).boats@ == old(fleet).boats@,
{
    let mut pole: u8 = 0;
    while pole < stats.num_poles
        invariant
            stats.wf(),
            boat.id + 3 * stats.num_poles <= u64::MAX,
            pole <= stats.num_poles,
            fleet.next_id == old(fleet).next_id,
            fleet.boats@ == old(fleet).boats@,
            (fleet@, *rng) == old(fleet)@.rigged(
                *old(rng),
                *stats,
                boat.id,
                boat.facing_right,
                pole as nat,
            ),
        decreases stats.num_poles - pole,
    {
        pole = pole + 1;
        let gear: (Line, Hook, Option<Worm>) = rig_pole(
            stats,
            boat.id,
            boat.facing_right,
            rng,
            pole,
        );
        fleet.lines.push(gear.0);
        fleet.hooks.push(gear.1);
        match gear.2 {
            Some(worm) => {
                fleet.worms.push(worm);
            },
            None => {},
        }
    }
}

/// Puts a boat with `stats` in the water and rigs it.
pub fn spawn_boat(stats: BoatStats, arena: &Arena, rng: &mut GameRng, fleet: &mut Fleet)
    requires
        stats.wf(),
        arena.wf(),
        old(fleet).next_id + 1 + 3 * stats.num_poles <= u64::MAX,
    ensures
        (final(fleet)@, *final(rng)) == old(fleet)@.with_boat(*old(rng), stats, *arena),
        final(fleet).next_id == old(fleet).next_id + 1 + 3 * stats.num_poles,
        old(fleet)@.ordered() ==> final(fleet)@.ordered(),
{
    let facing_right: bool = rng.gen_bool();
    let half_width: i32 = arena.width / 2;
    let boat: Boat = Boat {
        id: fleet.next_id,
        position: Vec2 {
            x: if facing_right {
                -half_width - stats.width + UNIT
            } else {
                half_width + stats.width - UNIT
            },
            y: saturate((arena.height / 2) as i64 + arena.offset as i64),
        },
        velocity: Vec2 {
            x: if facing_right {
                stats.speed
            } else {
                -stats.speed
            },
            y: 0,
        },
        collider: Collider { width: stats.width, height: stats.height },
        facing_right,
        num_lines: stats.num_poles,
    };
    fleet.boats.push(boat);
    fleet.next_id = fleet.next_id + 1 + 3 * stats.num_poles as u64;
    proof {
        assert(boat == new_boat(stats, *arena, old(fleet).next_id, facing_right));
        assert(fleet.next_id == (old(fleet).next_id + 1 + 3 * stats.num_poles) as u64);
        if old(fleet)@.ordered() {
            let before = old(fleet)@.boats;
            let after = fleet@.boats;
            assert(after =~= before.push(boat));
            assert forall|i: int, j: int|
                #![trigger after[i], after[j]]
                0 <= i < j < after.len() implies after[i].id < after[j].id by {
                assert(after[i] == before[i]);
                if j < before.len() {
                    assert(after[j] == before[j]);
                }
            }
            assert forall|i: int| 0 <= i < after.len() implies (#[trigger] after[i]).id
                < fleet.next_id by {
                if i < before.len() {
                    assert(after[i] == before[i]);
                }
            }
        }
    }
    spawn_lines(&stats, &boat, rng, fleet);
}

/// Times the waves of boats.
#[derive(Clone, Copy, Debug, PartialEq, Eq, Structural)]
pub struct BoatSpawner {
    pub spawn_timer: Timer,
}

impl BoatSpawner {
    /// Whether the timer of the spawner is well formed and repeats.
    pub open spec fn wf(&self) -> bool {
        self.spawn_timer.wf() && self.spawn_timer.mode == TimerMode::Repeating
    }

    /// A spawner whose first wave is a whole period away.
    pub open spec fn spec_new() -> BoatSpawner {
        BoatSpawner { spawn_timer: Timer::from_micros(SPAWN_PERIOD, TimerMode::Repeating) }
    }

    /// A spawner whose first wave is a whole period away.
    #[verifier::when_used_as_spec(spec_new)]
    pub fn new() -> (spawner: BoatSpawner)
        ensures
            spawner == Self::spec_new(),
            spawner.wf(),
    {
        BoatSpawner { spawn_timer: Timer::from_micros(SPAWN_PERIOD, TimerMode::Repeating) }
    }
}

/// Moves the spawner forward by one tick and, if its timer ran out in this
/// tick, sends a wave of boats.
pub fn boat_spawner_system(
    spawner: &mut BoatSpawner,
    dt: u32,
    difficulty: u8,
    arena: &Arena,
    rng: &mut GameRng,
    fleet: &mut Fleet,
)
    requires
        old(spawner).wf(),
        arena.wf(),
        1 <= difficulty <= 4,
    ensures
        final(spawner).spawn_timer == old(spawner).spawn_timer.spec_tick(dt),
        final(spawner).wf(),
        (final(fleet)@, *final(rng)) == if final(spawner).spawn_timer.finished {
            old(fleet)@.with_wave(*old(rng), difficulty, *arena)
        } else {
            (old(fleet)@, *old(rng))
        },
        old(fleet)@.ordered() ==> final(fleet)@.ordered(),
{
    spawner.spawn_timer.tick(dt);
    if spawner.spawn_timer.finished() && fleet.next_id <= u64::MAX - WAVE_ID_RESERVE {
        let count: u8 = rng.gen_range_u8(1, difficulty + 1);
        let ghost rng0 = *rng;
        let mut sent: u8 = 0;
        while sent < count
            invariant
                arena.wf(),
                1 <= difficulty <= 4,
                sent <= count <= 4,
                fleet.next_id <= old(fleet).next_id + 28 * sent,
                old(fleet).next_id <= u64::MAX - WAVE_ID_RESERVE,
                old(fleet)@.ordered() ==> fleet@.ordered(),
                (fleet@, *rng) == old(fleet)@.with_boats(rng0, difficulty, *arena, sent as nat),
            decreases count - sent,
        {
            let stats: BoatStats = boat_stats_factory(difficulty, rng);
            spawn_boat(stats, arena, rng, fleet);
            sent = sent + 1;
        }
    }
}

impl Fleet {
    /// A fleet without boats.
    pub fn new(next_id: u64) -> (fleet: Fleet)
        ensures
            fleet@ == FleetView::empty(next_id),
    {
        Fleet {
            boats: Vec::new(),
            lines: Vec::new(),
            hooks: Vec::new(),
            worms: Vec::new(),
            next_id,
        }
    }

    /// Hands out the next id. When the ids have run out, the last one is
    /// handed out again.
    pub fn take_id(&mut self) -> (id: u64)
        ensures
            id == old(self).next_id,
            final(self)@ == (FleetView {
                next_id: if old(self).next_id < u64::MAX {
                    (old(self).next_id + 1) as u64
                } else {
                    u64::MAX
                },
                ..old(self)@
            }),
    {
        let id: u64 = self.next_id;
        if self.next_id < u64::MAX {
            self.next_id = self.next_id + 1;
        }
        id
    }

    /// Whether the boats stand in the order of their ids, all below the
    /// next id.
    pub fn is_ordered(&self) -> (ok: bool)
        ensures
            ok == self@.ordered(),
    {
        let mut i: usize = 0;
        while i < self.boats.len()
            invariant
                i <= self.boats.len(),
                forall|a: int, b: int|
                    #![trigger self.boats@[a], self.boats@[b]]
                    0 <= a < b < i ==> self.boats@[a].id < self.boats@[b].id,
                forall|a: int| 0 <= a < i ==> (#[trigger] self.boats@[a]).id < self.next_id,
            decreases self.boats.len() - i,
        {
            if self.boats[i].id >= self.next_id {
                assert(self@.boats[i as int].id >= self.next_id);
                return false;
            }
            if i > 0 && self.boats[i - 1].id >= self.boats[i].id {
                assert(self@.boats[i - 1].id >= self@.boats[i as int].id);
                return false;
            }
            assert forall|a: int, b: int|
                #![trigger self.boats@[a], self.boats@[b]]
                0 <= a < b < i + 1 implies self.boats@[a].id < self.boats@[b].id by {
                if b == i && a < i - 1 {
                    assert(self.boats@[a].id < self.boats@[i - 1].id);
                }
            }
            i = i + 1;
        }
        true
    }

    /// Carries every boat along its velocity for `dt` microseconds.
    pub fn move_boats(&mut self, dt: u32)
        ensures
            final(self)@ == old(self)@.moved(dt),
            old(self)@.ordered() ==> final(self)@.ordered(),
    {
        let mut moved: Vec<Boat> = Vec::new();
        let mut i: usize = 0;
        while i < self.boats.len()
            invariant
                i <= self.boats.len(),
                *self == *old(self),
                moved@ == old(self)@.moved(dt).boats.take(i as int),
            decreases self.boats.len() - i,
        {
            let b: Boat = self.boats[i];
            moved.push(Boat { position: advanced_point(b.position, b.velocity, dt), ..b });
            assert(moved@ =~= old(self)@.moved(dt).boats.take(i + 1));
            i = i + 1;
        }
        assert(moved@ =~= old(self)@.moved(dt).boats);
        self.boats = moved;
    }
}

/// Something that belongs to a boat: a line, a hook or a worm, and the boat
/// itself.
pub trait BoatOwned: Copy {
    /// Id of the boat this belongs to.
    spec fn boat_id(&self) -> u64;

    fn owner(&self) -> (id: u64)
        ensures
            id == self.boat_id(),
    ;
}

impl BoatOwned for Boat {
    open spec fn boat_id(&self) -> u64 {
        self.id
    }

    fn owner(&self) -> (id: u64) {
        self.id
    }
}

impl BoatOwned for Line {
    open spec fn boat_id(&self) -> u64 {
        self.boat
    }

    fn owner(&self) -> (id: u64) {
        self.boat
    }
}

impl BoatOwned for Hook {
    open spec fn boat_id(&self) -> u64 {
        self.boat
    }

    fn owner(&self) -> (id: u64) {
        self.boat
    }
}

impl BoatOwned for Worm {
    open spec fn boat_id(&self) -> u64 {
        self.boat
    }

    fn owner(&self) -> (id: u64) {
        self.boat
    }
}

/// The test that keeps what does not belong to a boat of `gone`.
pub open spec fn stays<T: BoatOwned>(gone: Set<u64>) -> spec_fn(T) -> bool {
    |x: T| !gone.contains(x.boat_id())
}

impl FleetView {
    /// Whether the hook at `j` belongs to `boat` and is still within reach
    /// of the playfield: not beyond the left or the right wall by more than
    /// its width.
    pub open spec fn hook_in_play(self, arena: Arena, boat: Boat, j: int) -> bool {
        self.hooks[j].boat == boat.id && !arena.spec_is_outside(
            boat.position.x + self.hooks[j].offset.x,
            self.hooks[j].collider.width as int,
        )
    }

    /// Whether a boat has left the playfield: its hull is beyond the left or
    /// the right wall by more than its width, and none of its hooks is still
    /// in play.
    pub open spec fn has_left(self, arena: Arena, boat: Boat) -> bool {
        &&& arena.spec_is_outside(boat.position.x as int, boat.collider.width as int)
        &&& forall|j: int| 0 <= j < self.hooks.len() ==> !#[trigger] self.hook_in_play(arena, boat, j)
    }

    /// Whether one of the first `count` boats has the id `id` and has left.
    pub open spec fn left_among(self, arena: Arena, id: u64, count: int) -> bool {
        exists|i: int|
            0 <= i < count && #[trigger] self.boats[i].id == id && self.has_left(
                arena,
                self.boats[i],
            )
    }

    /// The ids of the boats that have left.
    pub open spec fn departed(self, arena: Arena) -> Set<u64> {
        Set::new(|id: u64| self.left_among(arena, id, self.boats.len() as int))
    }

    /// The fleet without the boats that have left and without what hangs
    /// from them.
    pub open spec fn without_departed(self, arena: Arena) -> FleetView {
        let gone = self.departed(arena);
        FleetView {
            boats: self.boats.filter(stays::<Boat>(gone)),
            lines: self.lines.filter(stays::<Line>(gone)),
            hooks: self.hooks.filter(stays::<Hook>(gone)),
            worms: self.worms.filter(stays::<Worm>(gone)),
            next_id: self.next_id,
        }
    }

    /// The first boat at or after the index `from` that has the id `id`.
    pub open spec fn boat_from(self, id: u64, from: int) -> Option<Boat>
        decreases self.boats.len() - from,
    {
        if from < 0 || from >= self.boats.len() {
            None
        } else if self.boats[from].id == id {
            Some(self.boats[from])
        } else {
            self.boat_from(id, from + 1)
        }
    }

    /// The first boat with the id `id`.
    pub open spec fn boat_of(self, id: u64) -> Option<Boat> {
        self.boat_from(id, 0)
    }

    /// The first hook at or after the index `from` that has the id `id`.
    pub open spec fn hook_from(self, id: u64, from: int) -> Option<Hook>
        decreases self.hooks.len() - from,
    {
        if from < 0 || from >= self.hooks.len() {
            None
        } else if self.hooks[from].id == id {
            Some(self.hooks[from])
        } else {
            self.hook_from(id, from + 1)
        }
    }

    /// The first hook with the id `id`.
    pub open spec fn hook_of(self, id: u64) -> Option<Hook> {
        self.hook_from(id, 0)
    }
}

/// Boats that stand in the order of their ids still do so when some of
/// them are taken away.
pub proof fn lemma_filter_keeps_order(boats: Seq<Boat>, keep: spec_fn(Boat) -> bool, next_id: u64)
    requires
        forall|i: int, j: int| 0 <= i < j < boats.len() ==> boats[i].id < boats[j].id,
        forall|i: int| 0 <= i < boats.len() ==> boats[i].id < next_id,
    ensures
        forall|i: int, j: int|
            0 <= i < j < boats.filter(keep).len() ==> boats.filter(keep)[i].id < boats.filter(
                keep,
            )[j].id,
        forall|i: int| 0 <= i < boats.filter(keep).len() ==> boats.filter(keep)[i].id < next_id,
        boats.len() > 0 ==> forall|i: int|
            0 <= i < boats.filter(keep).len() ==> boats.filter(keep)[i].id <= boats.last().id,
    decreases boats.len(),
{
    reveal(Seq::filter);
    if boats.len() > 0 {
        let init = boats.drop_last();
        lemma_filter_keeps_order(init, keep, next_id);
        let kept = init.filter(keep);
        assert forall|i: int| 0 <= i < kept.len() implies kept[i].id < boats.last().id by {
            if init.len() > 0 {
                assert(kept[i].id <= init.last().id);
                assert(init.last() == boats[boats.len() - 2]);
            }
        }
    }
}

fn id_in(ids: &Vec<u64>, id: u64) -> (found: bool)
    ensures
        found == ids@.contains(id),
{
    let mut i: usize = 0;
    while i < ids.len()
        invariant
            i <= ids.len(),
            forall|j: int| 0 <= j < i ==> ids@[j] != id,
        decreases ids.len() - i,
    {
        if ids[i] == id {
            return true;
        }
        i = i + 1;
    }
    false
}

fn retain_afloat<T: BoatOwned>(items: &Vec<T>, gone: &Vec<u64>) -> (kept: Vec<T>)
    ensures
        kept@ == items@.filter(stays::<T>(gone@.to_set())),
{
    let ghost pred = stays::<T>(gone@.to_set());
    let mut kept: Vec<T> = Vec::new();
    let mut i: usize = 0;
    assert(items@.take(0) =~= Seq::<T>::empty());
    assert(Seq::<T>::empty().filter(pred) =~= Seq::<T>::empty()) by {
        reveal(Seq::filter);
    }
    while i < items.len()
        invariant
            i <= items.len(),
            pred == stays::<T>(gone@.to_set()),
            kept@ == items@.take(i as int).filter(pred),
        decreases items.len() - i,
    {
        let item: T = items[i];
        let owner: u64 = item.owner();
        proof {
            assert(items@.take(i + 1) =~= items@.take(i as int).push(item));
            items@.take(i as int).lemma_filter_push(item, pred);
        }
        if !id_in(gone, owner) {
            kept.push(item);
        }
        i = i + 1;
    }
    assert(items@.take(items.len() as int) =~= items@);
    kept
}

impl Fleet {
    /// Whether the boat at `index` has left the playfield.
    pub fn boat_has_left(&self, arena: &Arena, index: usize) -> (left: bool)
        requires
            index < self.boats.len(),
        ensures
            left == self@.has_left(*arena, self.boats[index as int]),
    {
        let boat: Boat = self.boats[index];
        if !arena.is_outside(boat.position.x as i64, boat.collider.width) {
            return false;
        }
        let mut j: usize = 0;
        while j < self.hooks.len()
            invariant
                j <= self.hooks.len(),
                boat == self.boats[index as int],
                forall|k: int| 0 <= k < j ==> !#[trigger] self@.hook_in_play(*arena, boat, k),
            decreases self.hooks.len() - j,
        {
            let hook: Hook = self.hooks[j];
            if hook.boat == boat.id && !arena.is_outside(
                boat.position.x as i64 + hook.offset.x as i64,
                hook.collider.width,
            ) {
                assert(self@.hook_in_play(*arena, boat, j as int));
                return false;
            }
            j = j + 1;
        }
        true
    }

    /// The first boat with the id `id`, if there is one.
    pub fn boat_of(&self, id: u64) -> (found: Option<Boat>)
        ensures
            found == self@.boat_of(id),
    {
        let mut i: usize = 0;
        while i < self.boats.len()
            invariant
                i <= self.boats.len(),
                self@.boat_of(id) == self@.boat_from(id, i as int),
            decreases self.boats.len() - i,
        {
            if self.boats[i].id == id {
                return Some(self.boats[i]);
            }
            i = i + 1;
        }
        None
    }

    /// The first hook with the id `id`, if there is one.
    pub fn hook_of(&self, id: u64) -> (found: Option<Hook>)
        ensures
            found == self@.hook_of(id),
    {
        let mut i: usize = 0;
        while i < self.hooks.len()
            invariant
                i <= self.hooks.len(),
                self@.hook_of(id) == self@.hook_from(id, i as int),
            decreases self.hooks.len() - i,
        {
            if self.hooks[i].id == id {
                return Some(self.hooks[i]);
            }
            i = i + 1;
        }
        None
    }
}

/// Takes the boats that have left the playfield out of play, with
/// everything that hangs from them.
pub fn despawn_boat_system(arena: &Arena, fleet: &mut Fleet)
    ensures
        final(fleet)@ == old(fleet)@.without_departed(*arena),
        old(fleet)@.ordered() ==> final(fleet)@.ordered(),
{
    let mut gone: Vec<u64> = Vec::new();
    let mut i: usize = 0;
    while i < fleet.boats.len()
        invariant
            i <= fleet.boats.len(),
            *fleet == *old(fleet),
            forall|id: u64| gone@.contains(id) <==> fleet@.left_among(*arena, id, i as int),
        decreases fleet.boats.len() - i,
    {
        let ghost before = gone@;
        let left: bool = fleet.boat_has_left(arena, i);
        if left {
            gone.push(fleet.boats[i].id);
        }
        proof {
            let boat = fleet.boats[i as int];
            assert forall|id: u64| gone@.contains(id) <==> fleet@.left_among(
                *arena,
                id,
                i + 1,
            ) by {
                if left {
                    assert(gone@ =~= before.push(boat.id));
                    if before.contains(id) {
                        let k = choose|k: int| 0 <= k < before.len() && before[k] == id;
                        assert(gone@[k] == id);
                    }
                    if id == boat.id {
                        assert(gone@[before.len() as int] == id);
                        assert(fleet@.boats[i as int].id == id);
                    }
                }
                if fleet@.left_among(*arena, id, i as int) {
                    let w = choose|w: int|
                        0 <= w < i && #[trigger] fleet@.boats[w].id == id && fleet@.has_left(
                            *arena,
                            fleet@.boats[w],
                        );
                    assert(0 <= w < i + 1);
                }
            }
        }
        i = i + 1;
    }
    proof {
        assert(gone@.to_set() =~= fleet@.departed(*arena));
        if fleet@.ordered() {
            lemma_filter_keeps_order(fleet@.boats, stays::<Boat>(gone@.to_set()), fleet.next_id);
        }
    }
    let boats: Vec<Boat> = retain_afloat(&fleet.boats, &gone);
    let lines: Vec<Line> = retain_afloat(&fleet.lines, &gone);
    let hooks: Vec<Hook> = retain_afloat(&fleet.hooks, &gone);
    let worms: Vec<Worm> = retain_afloat(&fleet.worms, &gone);
    fleet.boats = boats;
    fleet.lines = lines;
    fleet.hooks = hooks;
    fleet.worms = worms;
}

/// Takes all worms away, as the end of a game does.
pub fn despawn_worms_on_game_over(fleet: &mut Fleet)
    ensures
        final(fleet)@ == (FleetView { worms: Seq::empty(), ..old(fleet)@ }),
{
    fleet.worms = Vec::new();
}

/// Takes all boats out of play, with everything that hangs from them, and
/// starts the spawner anew.
pub fn reset_boats_on_restart(fleet: &mut Fleet, spawner: &mut BoatSpawner)
    ensures
        final(fleet)@ == FleetView::empty(old(fleet).next_id),
        *final(spawner) == BoatSpawner::new(),
        final(spawner).wf(),
{
    fleet.boats = Vec::new();
    fleet.lines = Vec::new();
    fleet.hooks = Vec::new();
    fleet.worms = Vec::new();
    *spawner = BoatSpawner::new();
}

} // verus!

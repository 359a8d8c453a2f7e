//! The entity store and the command buffer.
//!
//! Entities are opaque identifiers; the store keeps one typed array per
//! entity class, each slot pairing the identifier with the components of
//! that class. Two lifecycle strategies coexist: asteroids form a
//! recycled pool of constant cardinality (no identifiers needed, slots
//! are never deleted), while lasers and life icons are spawned and
//! despawned through the command buffer.
//!
//! Structural mutation (creation, deletion) during a tick goes through
//! [`CommandBuffer`] only, and is applied in one batch by [`flush`] after
//! every system has run, so no system ever iterates a store that another
//! request is mutating.

use crate::components::{Asteroid, Laser, Life, Position, Ship};
use crate::resources::{LaserResource, PlayState, ScreenBounds};
use crate::fixed::TUNING_MAX;
use vstd::math::min;
use vstd::prelude::*;

verus! {

/// One slot of the asteroid pool: the asteroid with its position.
#[derive(Clone, Copy, PartialEq, Eq, Structural, Debug)]
pub struct AsteroidEntity {
    pub asteroid: Asteroid,
    pub position: Position,
}

impl AsteroidEntity {
    /// A pool slot is within bounds and not below the point where the
    /// asteroid system would already have relocated it.
    pub open spec fn wf(self) -> bool {
        &&& self.asteroid.wf()
        &&& self.position.wf()
        &&& self.position.y >= -self.asteroid.height
    }
}

/// One live laser: its entity identifier, the beam and its position.
#[derive(Clone, Copy, PartialEq, Eq, Structural, Debug)]
pub struct LaserEntity {
    pub id: u64,
    pub laser: Laser,
    pub position: Position,
}

impl LaserEntity {
    pub open spec fn wf(self) -> bool {
        &&& self.laser.wf()
        &&& self.position.wf()
    }
}

/// One live life icon: its entity identifier and its rank.
#[derive(Clone, Copy, PartialEq, Eq, Structural, Debug)]
pub struct LifeEntity {
    pub id: u64,
    pub life: Life,
}

/// A request, raised during the tick, to create one laser at flush time.
#[derive(Clone, Copy, PartialEq, Eq, Structural, Debug)]
pub struct LaserSpawn {
    pub laser: Laser,
    pub position: Position,
}

impl LaserSpawn {
    pub open spec fn wf(self) -> bool {
        &&& self.laser.wf()
        &&& self.position.wf()
    }
}

/// The deferred queue of entity-creation and entity-deletion requests.
/// Systems append to it while they iterate the store; [`flush`] applies
/// it in one batch once every system has run. Deleting an entity twice is
/// an idempotent no-op.
pub struct CommandBuffer {
    /// Lasers to create, in request order.
    pub laser_spawns: Vec<LaserSpawn>,
    /// Identifiers of lasers to delete.
    pub laser_deletes: Vec<u64>,
    /// Identifiers of life icons to delete.
    pub life_deletes: Vec<u64>,
}

impl CommandBuffer {
    pub open spec fn wf(self) -> bool {
        forall|i: int| 0 <= i < self.laser_spawns.len() ==> (#[trigger] self.laser_spawns[i]).wf()
    }

    /// An empty buffer, made at the start of each tick.
    pub fn new() -> (r: CommandBuffer)
        ensures
            r.laser_spawns@ == Seq::<LaserSpawn>::empty(),
            r.laser_deletes@ == Seq::<u64>::empty(),
            r.life_deletes@ == Seq::<u64>::empty(),
            r.wf(),
    {
        let r = CommandBuffer { laser_spawns: Vec::new(), laser_deletes: Vec::new(), life_deletes: Vec::new() };
        proof {
            assert(r.laser_spawns@ =~= Seq::<LaserSpawn>::empty());
            assert(r.laser_deletes@ =~= Seq::<u64>::empty());
            assert(r.life_deletes@ =~= Seq::<u64>::empty());
        }
        r
    }
}

/// The lasers that survive a batch of deletion requests, in store order.
pub open spec fn live_lasers(lasers: Seq<LaserEntity>, deletes: Seq<u64>) -> Seq<LaserEntity>
    decreases lasers.len(),
{
    if lasers.len() == 0 {
        Seq::empty()
    } else {
        let rest = live_lasers(lasers.drop_last(), deletes);
        if deletes.contains(lasers.last().id) {
            rest
        } else {
            rest.push(lasers.last())
        }
    }
}

/// The life icons that survive a batch of deletion requests, in store order.
pub open spec fn live_icons(icons: Seq<LifeEntity>, deletes: Seq<u64>) -> Seq<LifeEntity>
    decreases icons.len(),
{
    if icons.len() == 0 {
        Seq::empty()
    } else {
        let rest = live_icons(icons.drop_last(), deletes);
        if deletes.contains(icons.last().id) {
            rest
        } else {
            rest.push(icons.last())
        }
    }
}

/// The laser entities a batch of spawn requests creates, with identifiers
/// counted off from `base`.
pub open spec fn spawned_lasers(spawns: Seq<LaserSpawn>, base: int) -> Seq<LaserEntity> {
    Seq::new(spawns.len(), |i: int| LaserEntity {
        id: (base + i) as u64,
        laser: spawns[i].laser,
        position: spawns[i].position,
    })
}

/// The world: the entity store plus the global resources. Exactly one
/// ship exists, created at setup and never destroyed, so the ship's
/// components live directly in the world rather than behind a list.
pub struct World {
    /// The dimensions of the visible screen.
    pub screen: ScreenBounds,
    /// The number of lives left.
    pub play_state: PlayState,
    /// How many life icons the world started with.
    pub initial_lives: u8,
    /// The singleton ship.
    pub ship: Ship,
    /// The ship's position.
    pub ship_position: Position,
    /// The template for fired lasers, set by world setup.
    pub laser_resource: Option<LaserResource>,
    /// The recycled asteroid pool; its cardinality never changes.
    pub asteroids: Vec<AsteroidEntity>,
    /// The live lasers.
    pub lasers: Vec<LaserEntity>,
    /// The live life icons, in rank order.
    pub life_icons: Vec<LifeEntity>,
    /// The next unused entity identifier.
    pub next_id: u64,
}

impl World {
    /// Every asteroid slot is well formed.
    pub open spec fn asteroids_wf(self) -> bool {
        forall|i: int| 0 <= i < self.asteroids.len() ==> (#[trigger] self.asteroids[i]).wf()
    }

    /// Every laser is well formed, flies low enough that one more tick of
    /// movement stays in range (a surviving laser is at or below the
    /// screen top, a fresh one leaves from the ship's top edge), and
    /// identifiers are unambiguous.
    pub open spec fn lasers_wf(self) -> bool {
        &&& forall|i: int| 0 <= i < self.lasers.len() ==> (#[trigger] self.lasers[i]).wf()
        &&& forall|i: int|
            0 <= i < self.lasers.len() ==> 0 <= (#[trigger] self.lasers[i]).position.y <= 3 * TUNING_MAX
        &&& forall|i: int| 0 <= i < self.lasers.len() ==> (#[trigger] self.lasers[i]).id < self.next_id
        &&& forall|i: int, j: int|
            0 <= i < j < self.lasers.len() ==> self.lasers[i].id != self.lasers[j].id
    }

    /// The live icons are exactly the ranks below `min(initial_lives,
    /// lives)`, kept in rank order, with unambiguous identifiers.
    pub open spec fn icons_wf(self) -> bool {
        &&& self.life_icons.len() == min(self.initial_lives as int, self.play_state.lives as int)
        &&& forall|i: int|
            0 <= i < self.life_icons.len() ==> (#[trigger] self.life_icons[i]).life.life_number == i
        &&& forall|i: int|
            0 <= i < self.life_icons.len() ==> (#[trigger] self.life_icons[i]).id < self.next_id
        &&& forall|i: int, j: int|
            0 <= i < j < self.life_icons.len() ==> self.life_icons[i].id != self.life_icons[j].id
    }

    /// The ship stays between the walls.
    pub open spec fn ship_wf(self) -> bool {
        &&& self.ship.wf()
        &&& self.ship_position.wf()
        &&& self.ship.width <= self.screen.width
        &&& -(self.ship.width as int / 2) <= self.ship_position.x
        &&& self.ship_position.x <= self.screen.width - self.ship.width as int / 2
        &&& 0 <= self.ship_position.y <= TUNING_MAX
    }

    /// The world invariant, re-established at the end of every tick.
    pub open spec fn wf(self) -> bool {
        &&& self.screen.wf()
        &&& self.ship_wf()
        &&& self.asteroids_wf()
        &&& self.lasers_wf()
        &&& self.icons_wf()
        &&& match self.laser_resource {
            Some(r) => r.wf(),
            None => true,
        }
    }

    /// An empty world over the given screen: no pool, no lasers, no
    /// icons, a stationary zero-sized ship, no lives yet.
    pub fn new(screen: ScreenBounds) -> (r: World)
        requires
            screen.wf(),
        ensures
            r.wf(),
            r.screen == screen,
            r.play_state.lives == 0,
            r.initial_lives == 0,
            r.asteroids@ == Seq::<AsteroidEntity>::empty(),
            r.lasers@ == Seq::<LaserEntity>::empty(),
            r.life_icons@ == Seq::<LifeEntity>::empty(),
            r.laser_resource is None,
            r.next_id == 0,
    {
        let r = World {
            screen,
            play_state: PlayState { lives: 0 },
            initial_lives: 0,
            ship: Ship { velocity: 0, width: 0, height: 0, trigger_reset_timer: 0 },
            ship_position: Position { x: 0, y: 0 },
            laser_resource: None,
            asteroids: Vec::new(),
            lasers: Vec::new(),
            life_icons: Vec::new(),
            next_id: 0,
        };
        proof {
            assert(r.asteroids@ =~= Seq::<AsteroidEntity>::empty());
            assert(r.lasers@ =~= Seq::<LaserEntity>::empty());
            assert(r.life_icons@ =~= Seq::<LifeEntity>::empty());
        }
        r
    }
}

/// What survives a batch of deletions: every survivor is one of the
/// stored lasers and not a deleted one, and every stored laser that is
/// not deleted survives.
pub proof fn lemma_live_lasers_elements(lasers: Seq<LaserEntity>, deletes: Seq<u64>)
    ensures
        live_lasers(lasers, deletes).len() <= lasers.len(),
        forall|k: int|
            0 <= k < live_lasers(lasers, deletes).len() ==> exists|i: int|
                0 <= i < lasers.len() && #[trigger] live_lasers(lasers, deletes)[k] == lasers[i],
        forall|k: int|
            0 <= k < live_lasers(lasers, deletes).len() ==> !deletes.contains(
                (#[trigger] live_lasers(lasers, deletes)[k]).id,
            ),
        forall|i: int|
            0 <= i < lasers.len() && !deletes.contains((#[trigger] lasers[i]).id)
                ==> live_lasers(lasers, deletes).contains(lasers[i]),
    decreases lasers.len(),
{
    if lasers.len() > 0 {
        lemma_live_lasers_elements(lasers.drop_last(), deletes);
        let live = live_lasers(lasers, deletes);
        let rest = live_lasers(lasers.drop_last(), deletes);
        assert(lasers[lasers.len() - 1] == lasers.last());
        assert forall|k: int| 0 <= k < live.len() implies exists|i: int|
            0 <= i < lasers.len() && #[trigger] live[k] == lasers[i] by {
            if k < rest.len() {
                let i = choose|i: int|
                    0 <= i < lasers.drop_last().len() && #[trigger] rest[k] == lasers.drop_last()[i];
                assert(lasers.drop_last()[i] == lasers[i]);
                assert(live[k] == lasers[i]);
            } else {
                assert(live[k] == lasers[lasers.len() - 1]);
            }
        }
        assert forall|i: int|
            0 <= i < lasers.len() && !deletes.contains((#[trigger] lasers[i]).id) implies live.contains(
            lasers[i],
        ) by {
            if i < lasers.len() - 1 {
                assert(lasers.drop_last()[i] == lasers[i]);
                assert(rest.contains(lasers[i]));
                let k = choose|k: int| 0 <= k < rest.len() && rest[k] == lasers[i];
                assert(live[k] == lasers[i]);
            } else {
                assert(live[live.len() - 1] == lasers[i]);
            }
        }
    }
}

/// Distinct stored identifiers stay distinct among the survivors.
pub proof fn lemma_live_lasers_distinct(lasers: Seq<LaserEntity>, deletes: Seq<u64>)
    requires
        forall|i: int, j: int| 0 <= i < j < lasers.len() ==> lasers[i].id != lasers[j].id,
    ensures
        forall|k1: int, k2: int|
            0 <= k1 < k2 < live_lasers(lasers, deletes).len() ==> live_lasers(lasers, deletes)[k1].id
                != live_lasers(lasers, deletes)[k2].id,
    decreases lasers.len(),
{
    if lasers.len() > 0 {
        lemma_live_lasers_distinct(lasers.drop_last(), deletes);
        lemma_live_lasers_elements(lasers.drop_last(), deletes);
        let live = live_lasers(lasers, deletes);
        let rest = live_lasers(lasers.drop_last(), deletes);
        assert forall|k1: int, k2: int| 0 <= k1 < k2 < live.len() implies live[k1].id != live[k2].id by {
            if k2 < rest.len() {
            } else if k2 == rest.len() && live.len() > rest.len() {
                // the appended element is the last stored laser; every
                // earlier survivor comes from the shorter prefix, whose
                // identifiers all differ from the last one
                let i = choose|i: int|
                    0 <= i < lasers.drop_last().len() && #[trigger] rest[k1] == lasers.drop_last()[i];
                assert(lasers[i] == lasers.drop_last()[i]);
                assert(live[k2] == lasers[lasers.len() - 1]);
                assert(lasers[i].id != lasers[lasers.len() - 1].id);
            }
        }
    }
}

/// Whether `ids` holds `id`.
pub fn contains_id(ids: &Vec<u64>, id: u64) -> (r: bool)
    ensures
        r == ids@.contains(id),
{
    let mut i: usize = 0;
    while i < ids.len()
        invariant
            0 <= i <= ids.len(),
            forall|k: int| 0 <= k < i ==> ids@[k] != id,
        decreases ids.len() - i,
    {
        if ids[i] == id {
            return true;
        }
        i += 1;
    }
    false
}

/// Applies the buffered requests in one batch: deletions first, then the
/// spawns, with fresh identifiers counted off from `next_id`. Nothing
/// else of the world changes; in particular the asteroid pool keeps its
/// cardinality, which no request can touch.
pub fn flush(world: &mut World, commands: &CommandBuffer)
    requires
        old(world).next_id + commands.laser_spawns.len() <= u64::MAX,
    ensures
        final(world).lasers@ == live_lasers(old(world).lasers@, commands.laser_deletes@)
            + spawned_lasers(commands.laser_spawns@, old(world).next_id as int),
        final(world).life_icons@ == live_icons(old(world).life_icons@, commands.life_deletes@),
        final(world).next_id == old(world).next_id + commands.laser_spawns.len(),
        final(world).asteroids@ == old(world).asteroids@,
        final(world).screen == old(world).screen,
        final(world).play_state == old(world).play_state,
        final(world).initial_lives == old(world).initial_lives,
        final(world).ship == old(world).ship,
        final(world).ship_position == old(world).ship_position,
        final(world).laser_resource == old(world).laser_resource,
{
    let ghost lasers0 = world.lasers@;
    let mut kept: Vec<LaserEntity> = Vec::new();
    let mut i: usize = 0;
    while i < world.lasers.len()
        invariant
            0 <= i <= world.lasers.len(),
            world.lasers@ == lasers0,
            kept@ == live_lasers(lasers0.take(i as int), commands.laser_deletes@),
        decreases world.lasers.len() - i,
    {
        proof {
            assert(lasers0.take(i + 1).drop_last() =~= lasers0.take(i as int));
            assert(lasers0.take(i + 1).last() == lasers0[i as int]);
        }
        let entity = world.lasers[i];
        if !contains_id(&commands.laser_deletes, entity.id) {
            kept.push(entity);
        }
        i += 1;
    }
    proof {
        assert(lasers0.take(lasers0.len() as int) =~= lasers0);
    }

    let ghost icons0 = world.life_icons@;
    let mut kept_icons: Vec<LifeEntity> = Vec::new();
    let mut j: usize = 0;
    while j < world.life_icons.len()
        invariant
            0 <= j <= world.life_icons.len(),
            world.life_icons@ == icons0,
            kept_icons@ == live_icons(icons0.take(j as int), commands.life_deletes@),
        decreases world.life_icons.len() - j,
    {
        proof {
            assert(icons0.take(j + 1).drop_last() =~= icons0.take(j as int));
            assert(icons0.take(j + 1).last() == icons0[j as int]);
        }
        let icon = world.life_icons[j];
        if !contains_id(&commands.life_deletes, icon.id) {
            kept_icons.push(icon);
        }
        j += 1;
    }
    proof {
        assert(icons0.take(icons0.len() as int) =~= icons0);
    }

    let mut nid: u64 = world.next_id;
    let ghost base = world.next_id as int;
    let ghost survivors = kept@;
    let mut k: usize = 0;
    while k < commands.laser_spawns.len()
        invariant
            0 <= k <= commands.laser_spawns.len(),
            base + commands.laser_spawns.len() <= u64::MAX,
            nid == base + k,
            kept@ == survivors + spawned_lasers(commands.laser_spawns@.take(k as int), base),
        decreases commands.laser_spawns.len() - k,
    {
        let spawn = commands.laser_spawns[k];
        kept.push(LaserEntity { id: nid, laser: spawn.laser, position: spawn.position });
        nid = nid + 1;
        k += 1;
        proof {
            assert(kept@ =~= survivors + spawned_lasers(commands.laser_spawns@.take(k as int), base));
        }
    }
    proof {
        assert(commands.laser_spawns@.take(commands.laser_spawns@.len() as int) =~= commands.laser_spawns@);
    }

    world.lasers = kept;
    world.life_icons = kept_icons;
    world.next_id = nid;
}

} // verus!

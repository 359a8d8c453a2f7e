//! Manages the list of life icons on the UI layer based on the play
//! state: purely reactive, it holds no state of its own.

use crate::resources::PlayState;
use crate::world::{live_icons, CommandBuffer, LifeEntity};
use vstd::prelude::*;

verus! {

/// The deletion requests one pass of the lives system queues: the
/// identifier of every icon whose rank is at or past the number of lives
/// left, in store order. Icons are never recreated once deleted.
pub open spec fn spec_retired_ids(icons: Seq<LifeEntity>, lives: int) -> Seq<u64>
    decreases icons.len(),
{
    if icons.len() == 0 {
        Seq::empty()
    } else {
        spec_retired_ids(icons.drop_last(), lives) + if icons.last().life.life_number >= lives {
            seq![icons.last().id]
        } else {
            Seq::empty()
        }
    }
}

/// An identifier is among the queued deletions exactly when some icon of
/// that identifier has a rank at or past the number of lives left.
pub proof fn lemma_retired_ids_contains(icons: Seq<LifeEntity>, lives: int)
    ensures
        forall|id: u64|
            spec_retired_ids(icons, lives).contains(id) <==> exists|i: int|
                0 <= i < icons.len() && (#[trigger] icons[i]).id == id && icons[i].life.life_number
                    >= lives,
    decreases icons.len(),
{
    if icons.len() > 0 {
        lemma_retired_ids_contains(icons.drop_last(), lives);
        let full = spec_retired_ids(icons, lives);
        let head = spec_retired_ids(icons.drop_last(), lives);
        assert forall|id: u64| full.contains(id) implies exists|i: int|
            0 <= i < icons.len() && (#[trigger] icons[i]).id == id && icons[i].life.life_number
                >= lives by {
            let k = choose|k: int| 0 <= k < full.len() && full[k] == id;
            if k < head.len() {
                assert(head.contains(id));
                let i = choose|i: int|
                    0 <= i < icons.drop_last().len() && (#[trigger] icons.drop_last()[i]).id == id
                        && icons.drop_last()[i].life.life_number >= lives;
                assert(icons[i] == icons.drop_last()[i]);
            } else {
                assert(icons[icons.len() - 1] == icons.last());
            }
        }
        assert forall|id: u64|
            exists|i: int|
                0 <= i < icons.len() && (#[trigger] icons[i]).id == id && icons[i].life.life_number
                    >= lives implies full.contains(id) by {
            let i = choose|i: int|
                0 <= i < icons.len() && (#[trigger] icons[i]).id == id && icons[i].life.life_number
                    >= lives;
            if i < icons.len() - 1 {
                assert(icons.drop_last()[i] == icons[i]);
                assert(head.contains(id));
                let k = choose|k: int| 0 <= k < head.len() && head[k] == id;
                assert(full[k] == id);
            } else {
                assert(full[full.len() - 1] == id);
            }
        }
    }
}

proof fn lemma_icons_prefix_helper(icons: Seq<LifeEntity>, deletes: Seq<u64>, lives: int, n: int)
    requires
        0 <= lives,
        0 <= n <= icons.len(),
        forall|i: int| 0 <= i < icons.len() ==> (#[trigger] icons[i]).life.life_number == i,
        forall|i: int, j: int| 0 <= i < j < icons.len() ==> icons[i].id != icons[j].id,
        forall|id: u64|
            deletes.contains(id) <==> exists|i: int|
                0 <= i < icons.len() && (#[trigger] icons[i]).id == id && icons[i].life.life_number
                    >= lives,
    ensures
        live_icons(icons.take(n), deletes) == if lives < n {
            icons.take(lives)
        } else {
            icons.take(n)
        },
    decreases n,
{
    if n == 0 {
        assert(live_icons(icons.take(0), deletes) =~= icons.take(0));
    } else {
        lemma_icons_prefix_helper(icons, deletes, lives, n - 1);
        assert(icons.take(n).drop_last() =~= icons.take(n - 1));
        assert(icons.take(n).last() == icons[n - 1]);
        if icons[n - 1].life.life_number >= lives {
            assert(deletes.contains(icons[n - 1].id));
        } else {
            assert(!deletes.contains(icons[n - 1].id)) by {
                if deletes.contains(icons[n - 1].id) {
                    let i = choose|i: int|
                        0 <= i < icons.len() && (#[trigger] icons[i]).id == icons[n - 1].id
                            && icons[i].life.life_number >= lives;
                    if i < n - 1 {
                        assert(icons[i].id != icons[n - 1].id);
                    } else if i > n - 1 {
                        assert(icons[n - 1].id != icons[i].id);
                    }
                }
            };
            assert(icons.take(n - 1).push(icons[n - 1]) =~= icons.take(n));
        }
    }
}

/// With the icons stored in rank order, deleting every rank at or past
/// the number of lives leaves exactly the first `lives` icons (all of
/// them when more lives than icons remain).
pub proof fn lemma_icons_prefix(icons: Seq<LifeEntity>, lives: int)
    requires
        0 <= lives,
        forall|i: int| 0 <= i < icons.len() ==> (#[trigger] icons[i]).life.life_number == i,
        forall|i: int, j: int| 0 <= i < j < icons.len() ==> icons[i].id != icons[j].id,
    ensures
        live_icons(icons, spec_retired_ids(icons, lives)) == if lives < icons.len() {
            icons.take(lives)
        } else {
            icons
        },
{
    lemma_retired_ids_contains(icons, lives);
    lemma_icons_prefix_helper(icons, spec_retired_ids(icons, lives), lives, icons.len() as int);
    assert(icons.take(icons.len() as int) =~= icons);
}

/// Deletes the life icons that are no longer backed by a life left.
pub struct LivesSystem;

impl LivesSystem {
    /// Runs a pass of the system over the live icons.
    ///
    /// Each icon whose rank is at or past the current number of lives has
    /// its deletion queued on the command buffer. The pass only reads the
    /// play state; the collision systems own its mutation.
    pub fn run(life_icons: &Vec<LifeEntity>, play_state: &PlayState, commands: &mut CommandBuffer)
        ensures
            final(commands).life_deletes@ == old(commands).life_deletes@ + spec_retired_ids(
                life_icons@,
                play_state.lives as int,
            ),
            final(commands).laser_spawns@ == old(commands).laser_spawns@,
            final(commands).laser_deletes@ == old(commands).laser_deletes@,
    {
        let ghost deletes0 = commands.life_deletes@;
        let mut i: usize = 0;
        while i < life_icons.len()
            invariant
                0 <= i <= life_icons.len(),
                commands.life_deletes@ == deletes0 + spec_retired_ids(
                    life_icons@.take(i as int),
                    play_state.lives as int,
                ),
                commands.laser_spawns@ == old(commands).laser_spawns@,
                commands.laser_deletes@ == old(commands).laser_deletes@,
            decreases life_icons.len() - i,
        {
            proof {
                assert(life_icons@.take(i + 1).drop_last() =~= life_icons@.take(i as int));
                assert(life_icons@.take(i + 1).last() == life_icons@[i as int]);
            }
            let icon = life_icons[i];
            if icon.life.life_number >= play_state.lives {
                commands.life_deletes.push(icon.id);
            }
            proof {
                assert(commands.life_deletes@ =~= deletes0 + spec_retired_ids(
                    life_icons@.take(i + 1),
                    play_state.lives as int,
                ));
            }
            i += 1;
        }
        proof {
            assert(life_icons@.take(life_icons@.len() as int) =~= life_icons@);
        }
    }
}

} // verus!

//! The per-tick collision and scoring pass. Marks are collected over the
//! unchanged state and only then applied, so the outcome does not depend on
//! the order in which pairs are examined, and running the pass again within
//! the same tick changes nothing.

use crate::config::Config;
use crate::missile::Missile;
use crate::pickups::Pickup;
use crate::player::Player;
use vstd::prelude::*;

verus! {

/// Whether the collision pass marks missile `i` for explosion: it touches
/// another missile, or it touches the player.
pub open spec fn missile_marked(missiles: Seq<Missile>, player: Player, i: int) -> bool {
    ||| exists|j: int|
        0 <= j < missiles.len() && j != i && missiles[i].collider.spec_collides(
            (#[trigger] missiles[j]).collider,
        )
    ||| player.collider.spec_collides(missiles[i].collider)
}

/// Whether the collision pass marks the player for explosion: some missile
/// touches it.
pub open spec fn player_marked(missiles: Seq<Missile>, player: Player) -> bool {
    exists|i: int|
        0 <= i < missiles.len() && player.collider.spec_collides((#[trigger] missiles[i]).collider)
}

/// The missile pool after the pass: every marked missile exploded, the rest
/// untouched.
pub open spec fn spec_pass_missiles(missiles: Seq<Missile>, player: Player) -> Seq<Missile> {
    Seq::new(
        missiles.len(),
        |i: int|
            if missile_marked(missiles, player, i) {
                missiles[i].spec_explode()
            } else {
                missiles[i]
            },
    )
}

/// The player after the pass: exploded when marked, untouched otherwise.
pub open spec fn spec_pass_player(missiles: Seq<Missile>, player: Player) -> Player {
    if player_marked(missiles, player) {
        player.spec_explode()
    } else {
        player
    }
}

/// How many of the first `n` missiles the pass newly explodes: marked ones
/// that were still active.
pub open spec fn count_newly_exploded(missiles: Seq<Missile>, player: Player, n: int) -> int
    decreases n,
{
    if n <= 0 {
        0
    } else {
        count_newly_exploded(missiles, player, n - 1) + if missile_marked(missiles, player, n - 1)
            && missiles[n - 1].state is Active {
            1int
        } else {
            0int
        }
    }
}

/// A count of some of the first `n` slots never exceeds `n`.
proof fn lemma_count_le(missiles: Seq<Missile>, player: Player, n: int)
    requires
        n >= 0,
    ensures
        0 <= count_newly_exploded(missiles, player, n) <= n,
    decreases n,
{
    if n > 0 {
        lemma_count_le(missiles, player, n - 1);
    }
}

/// When nothing is marked, nothing is counted.
proof fn lemma_count_zero(missiles: Seq<Missile>, player: Player, n: int)
    requires
        n >= 0,
        forall|i: int| 0 <= i < n ==> !missile_marked(missiles, player, i),
    ensures
        count_newly_exploded(missiles, player, n) == 0,
    decreases n,
{
    if n > 0 {
        lemma_count_zero(missiles, player, n - 1);
    }
}

/// Missile interactions for one tick: every unordered missile pair and every
/// player-missile pair is tested over the unchanged state; then every marked
/// missile explodes, and the player explodes when marked. Returns how many
/// missiles newly exploded, for scoring.
pub fn explosion_collisions(player: &mut Player, missiles: &mut Vec<Missile>, cfg: &Config) -> (count: usize)
    requires
        old(player).wf(),
        cfg.wf(),
        forall|i: int| 0 <= i < old(missiles)@.len() ==> (#[trigger] old(missiles)@[i]).wf(*cfg),
    ensures
        final(missiles)@ == spec_pass_missiles(old(missiles)@, *old(player)),
        *final(player) == spec_pass_player(old(missiles)@, *old(player)),
        count == count_newly_exploded(old(missiles)@, *old(player), old(missiles)@.len() as int),
        final(player).wf(),
        forall|i: int| 0 <= i < final(missiles)@.len() ==> (#[trigger] final(missiles)@[i]).wf(*cfg),
{
    let n: usize = missiles.len();
    let ghost ms0 = missiles@;
    let ghost p0 = *player;

    // Mark phase: decide for every missile, over the unchanged state.
    let mut marks: Vec<bool> = Vec::new();
    let mut i: usize = 0;
    while i < n
        invariant
            n == missiles@.len(),
            missiles@ == ms0,
            *player == p0,
            p0.wf(),
            cfg.wf(),
            forall|k: int| 0 <= k < n ==> (#[trigger] ms0[k]).wf(*cfg),
            0 <= i <= n,
            marks@.len() == i,
            forall|k: int| 0 <= k < i ==> marks@[k] == missile_marked(ms0, p0, k),
        decreases n - i,
    {
        let mi: Missile = missiles[i];
        let mut hit: bool = player.collides_with(&mi);
        let mut j: usize = 0;
        while j < n
            invariant
                n == missiles@.len(),
                missiles@ == ms0,
                *player == p0,
                p0.wf(),
                cfg.wf(),
                forall|k: int| 0 <= k < n ==> (#[trigger] ms0[k]).wf(*cfg),
                0 <= i < n,
                mi == ms0[i as int],
                0 <= j <= n,
                hit == (p0.collider.spec_collides(ms0[i as int].collider) || exists|l: int|
                    0 <= l < j && l != i && ms0[i as int].collider.spec_collides(
                        (#[trigger] ms0[l]).collider,
                    )),
            decreases n - j,
        {
            if j != i {
                let mj: Missile = missiles[j];
                if mi.collides_with(&mj) {
                    hit = true;
                }
            }
            j = j + 1;
        }
        marks.push(hit);
        i = i + 1;
    }

    // Decide the player's fate over the same unchanged state.
    let mut player_hit: bool = false;
    let mut k: usize = 0;
    while k < n
        invariant
            n == missiles@.len(),
            missiles@ == ms0,
            *player == p0,
            p0.wf(),
            cfg.wf(),
            forall|l: int| 0 <= l < n ==> (#[trigger] ms0[l]).wf(*cfg),
            0 <= k <= n,
            player_hit == (exists|l: int|
                0 <= l < k && p0.collider.spec_collides((#[trigger] ms0[l]).collider)),
        decreases n - k,
    {
        let mk: Missile = missiles[k];
        if player.collides_with(&mk) {
            player_hit = true;
        }
        k = k + 1;
    }

    // Apply phase: explode what was marked.
    let mut count: usize = 0;
    let mut a: usize = 0;
    while a < n
        invariant
            n == missiles@.len(),
            *player == p0,
            cfg.wf(),
            marks@.len() == n,
            forall|l: int| 0 <= l < n ==> marks@[l] == missile_marked(ms0, p0, l),
            forall|l: int| 0 <= l < n ==> (#[trigger] ms0[l]).wf(*cfg),
            0 <= a <= n,
            count <= a,
            count == count_newly_exploded(ms0, p0, a as int),
            forall|l: int| a <= l < n ==> #[trigger] missiles@[l] == ms0[l],
            forall|l: int|
                0 <= l < a ==> #[trigger] missiles@[l] == (if missile_marked(ms0, p0, l) {
                    ms0[l].spec_explode()
                } else {
                    ms0[l]
                }),
            forall|l: int| 0 <= l < n ==> (#[trigger] missiles@[l]).wf(*cfg),
        decreases n - a,
    {
        if marks[a] {
            let mut m: Missile = missiles[a];
            let was_active: bool = match m.state {
                crate::missile::MissileState::Active => true,
                _ => false,
            };
            if was_active {
                count = count + 1;
            }
            m.explode();
            missiles.set(a, m);
        }
        a = a + 1;
    }
    proof {
        assert(missiles@ =~= spec_pass_missiles(ms0, p0));
    }
    if player_hit {
        player.explode();
    }
    count
}

/// Whether the pass collects pickup `i`: the player touches it.
pub open spec fn pickup_hit(pickups: Seq<Pickup>, player: Player, i: int) -> bool {
    player.collider.spec_collides(pickups[i].collider)
}

/// Pickup collection for one tick: every pickup the player touches is
/// collected. Returns how many were collected, for scoring. The player's
/// collider never changes here, so checking and collecting in one sweep is
/// order-independent.
pub fn collect_collisions(player: &Player, pickups: &mut Vec<Pickup>, cfg: &Config) -> (count:
    usize)
    requires
        player.wf(),
        cfg.wf(),
        forall|i: int| 0 <= i < old(pickups)@.len() ==> (#[trigger] old(pickups)@[i]).wf(*cfg),
    ensures
        final(pickups)@.len() == old(pickups)@.len(),
        forall|i: int|
            0 <= i < old(pickups)@.len() ==> #[trigger] final(pickups)@[i] == (if pickup_hit(
                old(pickups)@,
                *player,
                i,
            ) {
                old(pickups)@[i].spec_collect()
            } else {
                old(pickups)@[i]
            }),
        forall|i: int| 0 <= i < final(pickups)@.len() ==> (#[trigger] final(pickups)@[i]).wf(*cfg),
        count <= old(pickups)@.len(),
{
    let n: usize = pickups.len();
    let ghost ps0 = pickups@;
    let mut count: usize = 0;
    let mut k: usize = 0;
    while k < n
        invariant
            n == pickups@.len(),
            player.wf(),
            cfg.wf(),
            forall|l: int| 0 <= l < n ==> (#[trigger] ps0[l]).wf(*cfg),
            0 <= k <= n,
            count <= k,
            forall|l: int| k <= l < n ==> #[trigger] pickups@[l] == ps0[l],
            forall|l: int|
                0 <= l < k ==> #[trigger] pickups@[l] == (if pickup_hit(ps0, *player, l) {
                    ps0[l].spec_collect()
                } else {
                    ps0[l]
                }),
            forall|l: int| 0 <= l < n ==> (#[trigger] pickups@[l]).wf(*cfg),
        decreases n - k,
    {
        let hit: bool = {
            let pk: &Pickup = &pickups[k];
            player.collides_with(pk)
        };
        if hit {
            let ghost before = pickups@;
            let mut p: Pickup = pickups.remove(k);
            p.collect();
            pickups.insert(k, p);
            proof {
                assert(pickups@ =~= before.update(k as int, pickups@[k as int]));
            }
            count = count + 1;
        }
        k = k + 1;
    }
    count
}

/// Within one tick the mark-then-apply pass is idempotent: running it a
/// second time on the state it produced marks nothing, changes nothing and
/// scores nothing. Explosions disable colliders, so already-exploded
/// entities cannot collide again, and unmarked entities did not collide the
/// first time and have not moved.
pub proof fn lemma_explosion_pass_idempotent(missiles: Seq<Missile>, player: Player)
    requires
        forall|i: int|
            0 <= i < missiles.len() ==> ((#[trigger] missiles[i]).collider.enabled <==> missiles[i].state
                is Active),
        player.collider.enabled <==> player.state is Active,
    ensures
        spec_pass_missiles(
            spec_pass_missiles(missiles, player),
            spec_pass_player(missiles, player),
        ) == spec_pass_missiles(missiles, player),
        spec_pass_player(spec_pass_missiles(missiles, player), spec_pass_player(missiles, player))
            == spec_pass_player(missiles, player),
        count_newly_exploded(
            spec_pass_missiles(missiles, player),
            spec_pass_player(missiles, player),
            missiles.len() as int,
        ) == 0,
{
    let ms2 = spec_pass_missiles(missiles, player);
    let p2 = spec_pass_player(missiles, player);
    assert forall|i: int| 0 <= i < ms2.len() implies !missile_marked(ms2, p2, i) by {
        if missile_marked(ms2, p2, i) {
            if exists|j: int|
                0 <= j < ms2.len() && j != i && ms2[i].collider.spec_collides(
                    (#[trigger] ms2[j]).collider,
                ) {
                let j = choose|j: int|
                    0 <= j < ms2.len() && j != i && ms2[i].collider.spec_collides(
                        (#[trigger] ms2[j]).collider,
                    );
                assert(ms2[i].collider.enabled && ms2[j].collider.enabled);
                assert(!missile_marked(missiles, player, i) && ms2[i] == missiles[i]);
                assert(!missile_marked(missiles, player, j) && ms2[j] == missiles[j]);
                assert(missile_marked(missiles, player, i));
            } else {
                assert(p2.collider.spec_collides(ms2[i].collider));
                assert(p2.collider.enabled && ms2[i].collider.enabled);
                assert(!player_marked(missiles, player) && p2 == player);
                assert(!missile_marked(missiles, player, i) && ms2[i] == missiles[i]);
                assert(missile_marked(missiles, player, i));
            }
        }
    }
    assert(spec_pass_missiles(ms2, p2) =~= ms2);
    assert(!player_marked(ms2, p2)) by {
        if player_marked(ms2, p2) {
            let i = choose|i: int|
                0 <= i < ms2.len() && p2.collider.spec_collides((#[trigger] ms2[i]).collider);
            assert(p2.collider.enabled && ms2[i].collider.enabled);
            assert(!player_marked(missiles, player) && p2 == player);
            assert(!missile_marked(missiles, player, i) && ms2[i] == missiles[i]);
            assert(player_marked(missiles, player));
        }
    }
    lemma_count_zero(ms2, p2, missiles.len() as int);
}

} // verus!

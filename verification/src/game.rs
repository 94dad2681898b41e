//! The whole simulation assembled: one structure holding the player, the
//! entity pools, the spawners, the background and the interface, with the
//! fixed per-tick pipeline (input, entity updates, spawns, collision pass,
//! scoring) and the restart fan-out. Within one tick everything runs in a
//! fixed, reproducible order, so outcomes are deterministic given the same
//! inputs, tick lengths and random draws.

use crate::animation::Animation;
use crate::background::Background;
use crate::collider::Collider;
use crate::collisions::{
    collect_collisions, count_newly_exploded, explosion_collisions, pickup_hit, spec_pass_missiles,
    spec_pass_player,
};
use crate::config::{sat_add, Config, FULL_TURN};
use crate::missile::{
    first_inactive, initialise_missiles, spec_missile_spawn_pos, Missile,
};
use crate::pickups::{initialise_pickups, spec_pickup_spawn_pos, Pickup};
use crate::player::{KeyState, Player};
use crate::point::Point;
use crate::ui::UI;
use vstd::prelude::*;

verus! {

/// Every missile advanced by one tick against the already-updated player.
pub open spec fn stepped_missiles(ms: Seq<Missile>, p: Player, cfg: Config, dt: int) -> Seq<
    Missile,
> {
    Seq::new(ms.len(), |i: int| ms[i].spec_update(p, cfg, dt))
}

/// Every pickup advanced by one tick against the already-updated player.
pub open spec fn stepped_pickups(ps: Seq<Pickup>, p: Player, cfg: Config, dt: int) -> Seq<Pickup> {
    Seq::new(ps.len(), |i: int| ps[i].spec_update(p, cfg, dt))
}

/// What one missile-spawner step may do: relates the pool and timer before
/// to the pool and timer after. Deterministic except for the spawn angle.
pub open spec fn missile_gen_step(
    ms: Seq<Missile>,
    t: int,
    p: Player,
    cfg: Config,
    dt: int,
    ms2: Seq<Missile>,
    t2: int,
) -> bool {
    if !(p.state is Active) {
        ms2 == ms && t2 == t
    } else {
        let acc2 = sat_add(t, dt);
        if acc2 <= cfg.missile_spawn_interval_ms {
            t2 == acc2 && ms2 == ms
        } else {
            &&& t2 == acc2 - cfg.missile_spawn_interval_ms
            &&& {
                let idx = first_inactive(ms);
                if idx < ms.len() {
                    &&& ms2.len() == ms.len()
                    &&& (exists|angle: int|
                        0 <= angle < FULL_TURN && ms2[idx] == ms[idx].spec_place(
                            #[trigger] spec_missile_spawn_pos(cfg, angle),
                            Point { x: 0i64, y: 0i64 },
                        ))
                    &&& forall|i: int| 0 <= i < ms.len() && i != idx ==> ms2[i] == ms[i]
                } else {
                    ms2 == ms
                }
            }
        }
    }
}

/// What one pickup-spawner step may do: deterministic except for the spawn
/// angle and radius.
pub open spec fn pickup_gen_step(
    ps: Seq<Pickup>,
    t: int,
    p: Player,
    cfg: Config,
    dt: int,
    ps2: Seq<Pickup>,
    t2: int,
) -> bool {
    if !(p.state is Active) {
        ps2 == ps && t2 == t
    } else {
        let acc2 = sat_add(t, dt);
        if acc2 <= cfg.pickup_spawn_interval_ms {
            t2 == acc2 && ps2 == ps
        } else {
            &&& t2 == acc2 - cfg.pickup_spawn_interval_ms
            &&& {
                let idx = crate::pickups::first_inactive(ps);
                if idx < ps.len() {
                    &&& ps2.len() == ps.len()
                    &&& (exists|angle: int, radius: int|
                        0 <= angle < FULL_TURN && cfg.pickup_min_spawn_radius <= radius
                            <= cfg.pickup_max_spawn_radius && ps2[idx] == ps[idx].spec_place(
                            #[trigger] spec_pickup_spawn_pos(cfg, angle, radius),
                        ))
                    &&& forall|i: int| 0 <= i < ps.len() && i != idx ==> ps2[i] == ps[i]
                } else {
                    ps2 == ps
                }
            }
        }
    }
}

/// A score increased by `d` points, saturating at the top of the counter.
pub open spec fn spec_score_add(s: int, d: int) -> int {
    if s + d <= u64::MAX {
        s + d
    } else {
        u64::MAX as int
    }
}

/// The assembled game.
#[derive(Debug)]
pub struct Game {
    pub cfg: Config,
    pub player: Player,
    pub missiles: Vec<Missile>,
    pub pickups: Vec<Pickup>,
    pub missile_gen: crate::missile::Generator,
    pub pickup_gen: crate::pickups::Generator,
    pub background: Background,
    pub ui: UI,
    pub score: u64,
}

impl Game {
    /// Every part is consistent and the missile pool is not empty.
    pub open spec fn wf(self) -> bool {
        &&& self.cfg.wf()
        &&& self.player.wf()
        &&& self.missiles@.len() >= 1
        &&& forall|i: int| 0 <= i < self.missiles@.len() ==> (#[trigger] self.missiles@[i]).wf(self.cfg)
        &&& forall|i: int| 0 <= i < self.pickups@.len() ==> (#[trigger] self.pickups@[i]).wf(self.cfg)
        &&& self.missile_gen.wf()
        &&& self.pickup_gen.wf()
        &&& self.background.wf()
        &&& self.ui.wf()
    }

    /// Assembles a fresh game: the player active at the screen centre, both
    /// pools initialised with the first missile already placed, timers and
    /// score at zero.
    pub fn new(cfg: Config, background: Background) -> (g: Game)
        requires
            cfg.wf(),
            background.wf(),
        ensures
            g.wf(),
            g.cfg == cfg,
            g.score == 0,
            g.player.state is Active,
            g.missiles@.len() == cfg.max_missiles,
            g.pickups@.len() == cfg.max_pickups,
            g.missile_gen.time_since_last_missile == 0,
            g.pickup_gen.time_since_last_pickup == 0,
    {
        let player = Player::new(
            Collider::new(Point::new(cfg.screen_w / 2, cfg.screen_h / 2), cfg.player_radius),
            Animation::new(cfg.player_explosion_ms, cfg.player_explosion_scale),
        );
        let mut missiles = initialise_missiles(&cfg);
        let mut missile_gen = crate::missile::Generator::new();
        missile_gen.reset_missiles(&mut missiles, &cfg);
        let mut pickups = initialise_pickups(&cfg);
        let mut pickup_gen = crate::pickups::Generator::new();
        pickup_gen.reset_pickups(&mut pickups, &cfg);
        let ui = UI::new(&cfg);
        Game { cfg, player, missiles, pickups, missile_gen, pickup_gen, background, ui, score: 0 }
    }

    /// Hands the current key pair to the player; nothing else moves.
    pub fn input(&mut self, left_key: KeyState, right_key: KeyState)
        requires
            old(self).wf(),
        ensures
            *final(self) == (Game {
                player: old(self).player.spec_input(left_key, right_key),
                ..*old(self)
            }),
            final(self).wf(),
    {
        self.player.input(left_key, right_key);
    }

    /// One simulation tick in the fixed order: player, missiles, pickups,
    /// background, spawners, interface, then the mark-then-apply collision
    /// pass and score accumulation. Returns how many missiles exploded and
    /// how many pickups were collected this tick. The spawners' random
    /// draws are the only freedom: everything else is pinned exactly to the
    /// component transition functions, with the collision pass applied to
    /// whatever pools the spawners produced.
    pub fn tick(&mut self, dt: u32) -> (counts: (usize, usize))
        requires
            old(self).wf(),
        ensures
            final(self).wf(),
            final(self).cfg == old(self).cfg,
            ({
                let cfg = old(self).cfg;
                let p1 = old(self).player.spec_update(cfg, dt as int);
                let ms1 = stepped_missiles(old(self).missiles@, p1, cfg, dt as int);
                let ps1 = stepped_pickups(old(self).pickups@, p1, cfg, dt as int);
                &&& final(self).ui == old(self).ui.spec_update(p1, dt as int)
                &&& final(self).background.layers@.len() == old(self).background.layers@.len()
                &&& (forall|i: int|
                    0 <= i < old(self).background.layers@.len()
                        ==> #[trigger] final(self).background.layers@[i] == old(
                        self,
                    ).background.layers@[i].spec_update(p1, cfg, dt as int))
                &&& exists|ms2: Seq<Missile>, mt2: int|
                    {
                        &&& #[trigger] missile_gen_step(
                            ms1,
                            old(self).missile_gen.time_since_last_missile as int,
                            p1,
                            cfg,
                            dt as int,
                            ms2,
                            mt2,
                        )
                        &&& final(self).missile_gen.time_since_last_missile == mt2
                        &&& final(self).missiles@ == spec_pass_missiles(ms2, p1)
                        &&& final(self).player == spec_pass_player(ms2, p1)
                        &&& counts.0 == count_newly_exploded(ms2, p1, ms2.len() as int)
                    }
                &&& exists|ps2: Seq<Pickup>, pt2: int|
                    {
                        &&& #[trigger] pickup_gen_step(
                            ps1,
                            old(self).pickup_gen.time_since_last_pickup as int,
                            p1,
                            cfg,
                            dt as int,
                            ps2,
                            pt2,
                        )
                        &&& final(self).pickup_gen.time_since_last_pickup == pt2
                        &&& final(self).pickups@.len() == ps2.len()
                        &&& (forall|i: int|
                            0 <= i < ps2.len() ==> #[trigger] final(self).pickups@[i] == (
                            if pickup_hit(ps2, final(self).player, i) {
                                ps2[i].spec_collect()
                            } else {
                                ps2[i]
                            }))
                    }
                &&& final(self).score == spec_score_add(
                    spec_score_add(
                        old(self).score as int,
                        counts.0 * cfg.points_per_missile,
                    ),
                    counts.1 * cfg.points_per_pickup,
                )
            }),
    {
        let cfg: Config = self.cfg;
        self.player.update(&cfg, dt);
        let ghost p1 = self.player;

        // Missiles advance against the updated player.
        let n: usize = self.missiles.len();
        let mut i: usize = 0;
        while i < n
            invariant
                n == self.missiles@.len(),
                0 <= i <= n,
                cfg.wf(),
                self.cfg == old(self).cfg,
                cfg == old(self).cfg,
                self.player == p1,
                p1.wf(),
                self.pickups@ == old(self).pickups@,
                self.missile_gen == old(self).missile_gen,
                self.pickup_gen == old(self).pickup_gen,
                self.background == old(self).background,
                self.ui == old(self).ui,
                self.score == old(self).score,
                forall|k: int|
                    0 <= k < i ==> #[trigger] self.missiles@[k] == old(
                        self,
                    ).missiles@[k].spec_update(p1, cfg, dt as int),
                forall|k: int| i <= k < n ==> #[trigger] self.missiles@[k] == old(self).missiles@[k],
                forall|k: int| 0 <= k < n ==> (#[trigger] self.missiles@[k]).wf(cfg),
            decreases n - i,
        {
            let mut m: Missile = self.missiles[i];
            m.update(&self.player, &cfg, dt);
            self.missiles.set(i, m);
            i = i + 1;
        }
        proof {
            assert(self.missiles@ =~= stepped_missiles(old(self).missiles@, p1, cfg, dt as int));
        }
        let ghost ms1 = self.missiles@;

        // Pickups advance against the updated player.
        let np: usize = self.pickups.len();
        let mut j: usize = 0;
        while j < np
            invariant
                np == self.pickups@.len(),
                0 <= j <= np,
                cfg.wf(),
                self.cfg == old(self).cfg,
                cfg == old(self).cfg,
                self.player == p1,
                p1.wf(),
                self.missiles@ == stepped_missiles(old(self).missiles@, p1, cfg, dt as int),
                self.missile_gen == old(self).missile_gen,
                self.pickup_gen == old(self).pickup_gen,
                self.background == old(self).background,
                self.ui == old(self).ui,
                self.score == old(self).score,
                forall|k: int|
                    0 <= k < j ==> #[trigger] self.pickups@[k] == old(self).pickups@[k].spec_update(
                        p1,
                        cfg,
                        dt as int,
                    ),
                forall|k: int| j <= k < np ==> #[trigger] self.pickups@[k] == old(self).pickups@[k],
                forall|k: int| 0 <= k < np ==> (#[trigger] self.pickups@[k]).wf(cfg),
            decreases np - j,
        {
            let ghost before = self.pickups@;
            let mut p: Pickup = self.pickups.remove(j);
            p.update(&self.player, &cfg, dt);
            self.pickups.insert(j, p);
            proof {
                assert(self.pickups@ =~= before.update(j as int, self.pickups@[j as int]));
            }
            j = j + 1;
        }
        proof {
            assert(self.pickups@ =~= stepped_pickups(old(self).pickups@, p1, cfg, dt as int));
        }
        let ghost ps1 = self.pickups@;

        self.background.update(&self.player, &cfg, dt);
        self.missile_gen.update(&mut self.missiles, &self.player, &cfg, dt);
        let ghost ms2 = self.missiles@;
        let ghost mt2 = self.missile_gen.time_since_last_missile as int;
        self.pickup_gen.update(&mut self.pickups, &self.player, &cfg, dt);
        let ghost ps2 = self.pickups@;
        let ghost pt2 = self.pickup_gen.time_since_last_pickup as int;
        self.ui.update(&self.player, dt);

        proof {
            assert(missile_gen_step(
                ms1,
                old(self).missile_gen.time_since_last_missile as int,
                p1,
                cfg,
                dt as int,
                ms2,
                mt2,
            ));
            assert(pickup_gen_step(
                ps1,
                old(self).pickup_gen.time_since_last_pickup as int,
                p1,
                cfg,
                dt as int,
                ps2,
                pt2,
            ));
        }

        let exploded: usize = explosion_collisions(&mut self.player, &mut self.missiles, &cfg);
        let collected: usize = collect_collisions(&self.player, &mut self.pickups, &cfg);

        proof {
            assert(0 <= (exploded as int) * (cfg.points_per_missile as int)
                < 0x2_0000_0000_0000_0000_0000_0000) by (nonlinear_arith);
            assert(0 <= (collected as int) * (cfg.points_per_pickup as int)
                < 0x2_0000_0000_0000_0000_0000_0000) by (nonlinear_arith);
        }
        let d1: u128 = (exploded as u128) * (cfg.points_per_missile as u128);
        let s1: u64 = if (self.score as u128) + d1 <= u64::MAX as u128 {
            self.score + (d1 as u64)
        } else {
            u64::MAX
        };
        let d2: u128 = (collected as u128) * (cfg.points_per_pickup as u128);
        let s2: u64 = if (s1 as u128) + d2 <= u64::MAX as u128 {
            s1 + (d2 as u64)
        } else {
            u64::MAX
        };
        self.score = s2;
        (exploded, collected)
    }

    /// Game restart: the single external call fanning out to the player
    /// reset and both pool resets, with the score cleared. The background
    /// and the interface follow on the next tick by themselves.
    pub fn restart(&mut self)
        requires
            old(self).wf(),
        ensures
            final(self).wf(),
            final(self).cfg == old(self).cfg,
            final(self).score == 0,
            final(self).player.state is Active,
            final(self).missile_gen.time_since_last_missile == 0,
            final(self).pickup_gen.time_since_last_pickup == 0,
            forall|i: int|
                0 <= i < final(self).pickups@.len() ==> final(self).pickups@[i] == (#[trigger] old(
                    self,
                ).pickups@[i]).spec_reset(),
            forall|i: int|
                1 <= i < final(self).missiles@.len() ==> final(self).missiles@[i]
                    == crate::missile::spec_missile_reset(#[trigger] old(self).missiles@[i]),
            final(self).missiles@[0].state is Active,
            final(self).ui == old(self).ui,
            final(self).background == old(self).background,
    {
        let cfg: Config = self.cfg;
        self.missile_gen.reset_missiles(&mut self.missiles, &cfg);
        self.pickup_gen.reset_pickups(&mut self.pickups, &cfg);
        self.player.reset();
        self.score = 0;
    }
}

} // verus!

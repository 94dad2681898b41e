//! Parallax background layers: each layer's offset accumulates the negative
//! of the player's velocity, scaled by the layer's parallax factor, and is
//! folded back into the layer's repeating tile.

use crate::config::{Config, CFG_LIMIT};
use crate::num::{emod, muldiv};
use crate::player::Player;
use crate::point::{lemma_scroll_step_bounds, Point};
use vstd::prelude::*;

verus! {

/// One background layer: the current tile offset, the tile size it wraps
/// in, and the parallax factor in thousandths.
#[derive(Clone, Copy, Debug, PartialEq, Eq, Structural)]
pub struct BgLayer {
    pub pos: Point,
    pub clamp: Point,
    pub factor: i64,
}

/// How far a layer slides against a velocity component in one tick:
/// `v * dt / 1000` pixels of scroll, scaled by the parallax factor.
pub open spec fn spec_bg_shift(v: int, dt: int, factor: int) -> int {
    muldiv(muldiv(v, dt, 1000), factor, 1000)
}

impl BgLayer {
    /// A usable layer: positive bounded tile, offset inside the tile, and a
    /// bounded factor.
    pub open spec fn wf(self) -> bool {
        &&& 1 <= self.clamp.x <= CFG_LIMIT
        &&& 1 <= self.clamp.y <= CFG_LIMIT
        &&& 0 <= self.pos.x < self.clamp.x
        &&& 0 <= self.pos.y < self.clamp.y
        &&& 0 <= self.factor <= 1000
    }

    /// Builds a layer at offset zero wrapping in the tile `clamp`.
    pub fn new(clamp: Point, factor: i64) -> (l: BgLayer)
        requires
            1 <= clamp.x <= CFG_LIMIT,
            1 <= clamp.y <= CFG_LIMIT,
            0 <= factor <= 1000,
        ensures
            l == (BgLayer { pos: Point { x: 0i64, y: 0i64 }, clamp, factor }),
            l.wf(),
    {
        BgLayer { pos: Point { x: 0, y: 0 }, clamp, factor }
    }

    /// The layer one tick later: slid against the player's velocity and
    /// folded back into the tile.
    pub open spec fn spec_update(self, player: Player, cfg: Config, dt: int) -> BgLayer {
        BgLayer {
            pos: Point {
                x: ((self.pos.x - spec_bg_shift(player.spec_velocity_x(cfg), dt, self.factor as int))
                    % (self.clamp.x as int)) as i64,
                y: ((self.pos.y - spec_bg_shift(player.spec_velocity_y(cfg), dt, self.factor as int))
                    % (self.clamp.y as int)) as i64,
            },
            ..self
        }
    }

    /// Advances the layer by `dt` milliseconds.
    pub fn update(&mut self, player: &Player, cfg: &Config, dt: u32)
        requires
            old(self).wf(),
            player.wf(),
            cfg.wf(),
        ensures
            *final(self) == old(self).spec_update(*player, *cfg, dt as int),
            final(self).wf(),
    {
        let pvel: Point = player.velocity(cfg);
        proof {
            lemma_scroll_step_bounds(pvel.x as int, dt as int);
            lemma_scroll_step_bounds(pvel.y as int, dt as int);
            crate::num::lemma_muldiv_le_first(
                muldiv(pvel.x as int, dt as int, 1000),
                self.factor as int,
                1000,
            );
            crate::num::lemma_muldiv_le_first(
                muldiv(pvel.y as int, dt as int, 1000),
                self.factor as int,
                1000,
            );
        }
        let sx: i64 = crate::num::mul_div(
            crate::num::mul_div(pvel.x, dt as i64, 1000),
            self.factor,
            1000,
        );
        let sy: i64 = crate::num::mul_div(
            crate::num::mul_div(pvel.y, dt as i64, 1000),
            self.factor,
            1000,
        );
        let nx: i64 = emod(self.pos.x - sx, self.clamp.x);
        let ny: i64 = emod(self.pos.y - sy, self.clamp.y);
        self.pos = Point { x: nx, y: ny };
    }
}

/// The parallax background: a stack of layers updated together.
#[derive(Debug)]
pub struct Background {
    pub layers: Vec<BgLayer>,
}

impl Background {
    /// Every layer is usable.
    pub open spec fn wf(self) -> bool {
        forall|i: int| 0 <= i < self.layers@.len() ==> (#[trigger] self.layers@[i]).wf()
    }

    /// Wraps a prepared stack of layers.
    pub fn new(layers: Vec<BgLayer>) -> (b: Background)
        requires
            forall|i: int| 0 <= i < layers@.len() ==> (#[trigger] layers@[i]).wf(),
        ensures
            b.layers@ == layers@,
            b.wf(),
    {
        Background { layers }
    }

    /// Advances every layer by `dt` milliseconds.
    pub fn update(&mut self, player: &Player, cfg: &Config, dt: u32)
        requires
            old(self).wf(),
            player.wf(),
            cfg.wf(),
        ensures
            final(self).layers@.len() == old(self).layers@.len(),
            forall|i: int|
                0 <= i < final(self).layers@.len() ==> #[trigger] final(self).layers@[i] == old(
                    self,
                ).layers@[i].spec_update(*player, *cfg, dt as int),
            final(self).wf(),
    {
        let n: usize = self.layers.len();
        let mut k: usize = 0;
        while k < n
            invariant
                n == self.layers@.len(),
                0 <= k <= n,
                player.wf(),
                cfg.wf(),
                forall|i: int|
                    0 <= i < k ==> #[trigger] self.layers@[i] == old(self).layers@[i].spec_update(
                        *player,
                        *cfg,
                        dt as int,
                    ),
                forall|i: int| k <= i < n ==> #[trigger] self.layers@[i] == old(self).layers@[i],
                forall|i: int| 0 <= i < n ==> (#[trigger] self.layers@[i]).wf(),
            decreases n - k,
        {
            let mut l: BgLayer = self.layers[k];
            l.update(player, cfg, dt);
            self.layers.set(k, l);
            k = k + 1;
        }
    }
}

} // verus!

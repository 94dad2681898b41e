//! Off-screen pointer geometry: given an entity's world position, decide
//! whether it lies outside the screen rectangle, and if so project the ray
//! from the screen centre through the entity onto a rectangle inset from the
//! screen edges, yielding the position and rotation of a directional
//! indicator sprite.

use crate::config::{Config, POS_LIMIT};
use crate::num::{mul_div_wide, muldiv};
use crate::point::{clamp_pos, Point};
use crate::trig::{atan2_milli, atan2_spec};
use vstd::prelude::*;

verus! {

/// Whether `pos` lies outside the screen; touching an edge counts as off
/// screen.
pub open spec fn spec_is_offscreen(cfg: Config, pos: Point) -> bool {
    pos.x <= 0 || pos.y <= 0 || pos.x >= cfg.screen_w || pos.y >= cfg.screen_h
}

/// Tests whether `pos` lies outside the screen.
pub fn is_offscreen(cfg: &Config, pos: Point) -> (r: bool)
    ensures
        r == spec_is_offscreen(*cfg, pos),
{
    pos.x <= 0 || pos.y <= 0 || pos.x >= cfg.screen_w || pos.y >= cfg.screen_h
}

/// The pointer for an off-screen entity: `None` on screen; otherwise the
/// indicator's screen position and rotation in milli-degrees (zero points
/// up). In centred coordinates the ray toward the entity is intersected
/// once with the vertical inset edges and once with the horizontal ones,
/// and whichever candidate falls inside the inset rectangle wins; an entity
/// exactly above or below the centre is special-cased so no slope is ever
/// divided by zero. The returned coordinates are clamped into the world
/// boundary.
pub open spec fn spec_place_pointer(cfg: Config, obj: Point) -> Option<(Point, i64)> {
    if !spec_is_offscreen(cfg, obj) {
        None
    } else {
        let off = cfg.offscreen_offset as int;
        let sx = cfg.screen_w as int;
        let sy = cfg.screen_h as int;
        let px = obj.x - sx / 2;
        let py = obj.y - sy / 2;
        let min_x = -(sx / 2) + off;
        let max_x = sx / 2 - off;
        let min_y = -(sy / 2) + off;
        let max_y = sy / 2 - off;
        if px == 0 {
            if obj.y <= 0 {
                Some((Point { x: 0i64, y: off as i64 }, 0i64))
            } else if obj.y >= sy {
                Some((Point { x: 0i64, y: (sy - off) as i64 }, 180000i64))
            } else {
                None
            }
        } else {
            let c1 = if obj.x <= 0 {
                (min_x, muldiv(min_x, py, px))
            } else if obj.x >= sx {
                (max_x, muldiv(max_x, py, px))
            } else {
                (px, py)
            };
            let c2 = if obj.y <= 0 {
                (muldiv(min_y, px, py), min_y)
            } else if obj.y >= sy {
                (muldiv(max_y, px, py), max_y)
            } else {
                (px, py)
            };
            let fin = if min_x <= c1.0 <= max_x && min_y <= c1.1 <= max_y {
                c1
            } else {
                c2
            };
            Some(
                (
                    Point {
                        x: clamp_pos(fin.0 + sx / 2) as i64,
                        y: clamp_pos(fin.1 + sy / 2) as i64,
                    },
                    (atan2_spec(py, px) + 90000) as i64,
                ),
            )
        }
    }
}

/// Clamps a wide coordinate into the world boundary.
fn clamp_coord_wide(v: i128) -> (r: i64)
    ensures
        r == clamp_pos(v as int),
{
    if v < -(POS_LIMIT as i128) {
        -POS_LIMIT
    } else if v > POS_LIMIT as i128 {
        POS_LIMIT
    } else {
        v as i64
    }
}

/// Computes the off-screen pointer for an entity at `obj_pos`.
pub fn place_pointer(cfg: &Config, obj_pos: Point) -> (r: Option<(Point, i64)>)
    requires
        cfg.wf(),
        obj_pos.within(POS_LIMIT as int),
    ensures
        r == spec_place_pointer(*cfg, obj_pos),
{
    if !is_offscreen(cfg, obj_pos) {
        return None;
    }
    let off: i64 = cfg.offscreen_offset;
    let hx: i64 = cfg.screen_w / 2;
    let hy: i64 = cfg.screen_h / 2;
    let px: i64 = obj_pos.x - hx;
    let py: i64 = obj_pos.y - hy;
    let min_x: i64 = -hx + off;
    let max_x: i64 = hx - off;
    let min_y: i64 = -hy + off;
    let max_y: i64 = hy - off;
    if px == 0 {
        if obj_pos.y <= 0 {
            return Some((Point { x: 0, y: off }, 0));
        }
        if obj_pos.y >= cfg.screen_h {
            return Some((Point { x: 0, y: cfg.screen_h - off }, 180000));
        }
        return None;
    }
    let mut x1: i128 = px as i128;
    let mut y1: i128 = py as i128;
    if obj_pos.x <= 0 {
        x1 = min_x as i128;
        y1 = mul_div_wide(min_x, py, px);
    } else if obj_pos.x >= cfg.screen_w {
        x1 = max_x as i128;
        y1 = mul_div_wide(max_x, py, px);
    }
    let mut x2: i128 = px as i128;
    let mut y2: i128 = py as i128;
    if obj_pos.y <= 0 {
        y2 = min_y as i128;
        x2 = mul_div_wide(min_y, px, py);
    } else if obj_pos.y >= cfg.screen_h {
        y2 = max_y as i128;
        x2 = mul_div_wide(max_y, px, py);
    }
    let (fx, fy): (i128, i128) = if min_x as i128 <= x1 && x1 <= max_x as i128 && min_y as i128
        <= y1 && y1 <= max_y as i128 {
        (x1, y1)
    } else {
        (x2, y2)
    };
    let rot: i64 = atan2_milli(py, px) + 90000;
    Some(
        (
            Point { x: clamp_coord_wide(fx + (hx as i128)), y: clamp_coord_wide(fy + (hy as i128)) },
            rot,
        ),
    )
}

} // verus!

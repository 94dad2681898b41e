//! Sprite-sheet animation timing: an elapsed clock over a fixed length that
//! stops itself on overflow, and the frame arithmetic the renderer consumes
//! (frame lookup by elapsed ratio, and the sub-rectangle grid of a sheet).

use crate::config::{CFG_LIMIT, POS_LIMIT};
use crate::num::{lemma_div_le_k, lemma_div_nonneg, mul_div, muldiv};
use crate::point::Point;
use vstd::prelude::*;

verus! {

/// Playback state of one animation: a position for rendering, a length in
/// milliseconds, the elapsed clock, and a zoom in thousandths.
#[derive(Clone, Copy, Debug, PartialEq, Eq, Structural)]
pub struct Animation {
    pub pos: Point,
    pub length: i64,
    pub elapsed: i64,
    pub playing: bool,
    pub zoom: i64,
}

impl Animation {
    /// A usable animation: positive bounded length, clock inside it, and a
    /// position inside the world boundary.
    pub open spec fn wf(self) -> bool {
        &&& 1 <= self.length <= CFG_LIMIT
        &&& 0 <= self.elapsed <= self.length
        &&& 0 <= self.zoom <= CFG_LIMIT
        &&& self.pos.within(POS_LIMIT as int)
    }

    /// Builds a stopped animation at the origin.
    pub fn new(length: i64, zoom: i64) -> (a: Animation)
        requires
            1 <= length <= CFG_LIMIT,
            0 <= zoom <= CFG_LIMIT,
        ensures
            a == (Animation {
                pos: Point { x: 0i64, y: 0i64 },
                length,
                elapsed: 0i64,
                playing: false,
                zoom,
            }),
            a.wf(),
    {
        Animation { pos: Point { x: 0, y: 0 }, length, elapsed: 0, playing: false, zoom }
    }

    /// The state after `dt` milliseconds: no-op while stopped; stops itself
    /// once the clock would pass the length.
    pub open spec fn spec_update(self, dt: int) -> Animation {
        if !self.playing {
            self
        } else if self.elapsed + dt > self.length {
            Animation { playing: false, elapsed: 0i64, ..self }
        } else {
            Animation { elapsed: (self.elapsed + dt) as i64, ..self }
        }
    }

    /// Advances the clock by `dt` milliseconds.
    pub fn update(&mut self, dt: u32)
        requires
            old(self).wf(),
        ensures
            *final(self) == old(self).spec_update(dt as int),
            final(self).wf(),
    {
        if !self.playing {
            return ;
        }
        let e2: i64 = self.elapsed + (dt as i64);
        if e2 > self.length {
            self.stop();
        } else {
            self.elapsed = e2;
        }
    }

    /// Starts playback from the beginning.
    pub fn play(&mut self)
        ensures
            *final(self) == (Animation { elapsed: 0i64, playing: true, ..*old(self) }),
    {
        self.elapsed = 0;
        self.playing = true;
    }

    /// Halts playback and rewinds the clock.
    pub fn stop(&mut self)
        ensures
            *final(self) == (Animation { elapsed: 0i64, playing: false, ..*old(self) }),
    {
        self.playing = false;
        self.elapsed = 0;
    }

    /// Moves the animation for rendering.
    pub fn set_pos(&mut self, pos: Point)
        requires
            pos.within(POS_LIMIT as int),
        ensures
            *final(self) == (Animation { pos, ..*old(self) }),
    {
        self.pos = pos;
    }

    /// Whether the animation is still playing.
    pub fn is_playing(&self) -> (r: bool)
        ensures
            r == self.playing,
    {
        self.playing
    }

    /// The frame shown at the current clock, out of `frame_count` frames:
    /// the elapsed share of the length, clamped to the last frame.
    pub open spec fn spec_frame_index(self, frame_count: int) -> int {
        let idx = self.elapsed * frame_count / (self.length as int);
        if idx >= frame_count {
            frame_count - 1
        } else {
            idx
        }
    }

    /// Looks up the frame shown at the current clock.
    pub fn frame_index(&self, frame_count: usize) -> (r: usize)
        requires
            self.wf(),
            1 <= frame_count <= 1000000,
        ensures
            r == self.spec_frame_index(frame_count as int),
            r < frame_count,
    {
        proof {
            assert(self.elapsed * frame_count >= 0 && self.elapsed * frame_count <= frame_count
                * self.length) by (nonlinear_arith)
                requires
                    0 <= self.elapsed <= self.length,
                    frame_count >= 1,
            ;
            lemma_div_nonneg(self.elapsed as int * frame_count, self.length as int);
            lemma_div_le_k(self.elapsed as int * frame_count, self.length as int,
                frame_count as int);
            assert(muldiv(self.elapsed as int, frame_count as int, self.length as int)
                == self.elapsed * frame_count / (self.length as int));
        }
        let idx: i64 = mul_div(self.elapsed, frame_count as i64, self.length);
        if idx >= frame_count as i64 {
            frame_count - 1
        } else {
            idx as usize
        }
    }
}

/// The rectangle of the frame at flat row-major index `k` in a sheet cut
/// into cells of `tw` by `th` pixels, `cols` cells per row: `(x, y, w, h)`.
pub open spec fn frame_rect_at(k: int, cols: int, tw: u32, th: u32) -> (u32, u32, u32, u32) {
    (((k % cols) * tw) as u32, ((k / cols) * th) as u32, tw, th)
}

/// The sub-rectangle grid of a `rows` by `cols` sprite sheet of total size
/// `width` by `height` pixels: row-major rectangles, each frame
/// `width / cols` by `height / rows`.
pub fn frame_rects(width: u32, height: u32, rows: u32, cols: u32) -> (r: Vec<(u32, u32, u32, u32)>)
    requires
        1 <= rows <= 1000,
        1 <= cols <= 1000,
    ensures
        r@.len() == rows * cols,
        forall|k: int|
            0 <= k < r@.len() ==> #[trigger] r@[k] == frame_rect_at(k, cols as int, width / cols,
            height / rows),
{
    let tw: u32 = width / cols;
    let th: u32 = height / rows;
    proof {
        assert(cols * tw <= width) by (nonlinear_arith)
            requires
                tw == width as int / cols as int,
                cols >= 1,
        ;
        assert(rows * th <= height) by (nonlinear_arith)
            requires
                th == height as int / rows as int,
                rows >= 1,
        ;
    }
    let mut frames: Vec<(u32, u32, u32, u32)> = Vec::new();
    let mut i: u32 = 0;
    while i < rows
        invariant
            0 <= i <= rows,
            rows <= 1000,
            1 <= cols <= 1000,
            tw == width / cols,
            th == height / rows,
            (cols as int) * tw <= width,
            (rows as int) * th <= height,
            frames@.len() == i * cols,
            forall|k: int|
                0 <= k < frames@.len() ==> #[trigger] frames@[k] == frame_rect_at(k, cols as int,
                tw, th),
        decreases rows - i,
    {
        let mut j: u32 = 0;
        while j < cols
            invariant
                0 <= j <= cols,
                0 <= i < rows,
                rows <= 1000,
                1 <= cols <= 1000,
                tw == width / cols,
                th == height / rows,
                (cols as int) * tw <= width,
                (rows as int) * th <= height,
                frames@.len() == i * cols + j,
                forall|k: int|
                    0 <= k < frames@.len() ==> #[trigger] frames@[k] == frame_rect_at(k,
                    cols as int, tw, th),
            decreases cols - j,
        {
            proof {
                assert(0 <= j * tw <= width && 0 <= i * th <= height) by (nonlinear_arith)
                    requires
                        0 <= j < cols,
                        0 <= i < rows,
                        tw >= 0,
                        th >= 0,
                        (cols as int) * tw <= width,
                        (rows as int) * th <= height,
                ;
                vstd::arithmetic::div_mod::lemma_fundamental_div_mod_converse(
                    i * cols + j,
                    cols as int,
                    i as int,
                    j as int,
                );
            }
            frames.push((j * tw, i * th, tw, th));
            j = j + 1;
        }
        i = i + 1;
        proof {
            assert((i - 1) * cols + cols == i * cols) by (nonlinear_arith);
        }
    }
    frames
}

} // verus!

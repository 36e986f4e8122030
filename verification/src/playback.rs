//! The fixed-rate playback loop.
//!
//! Playback keeps a cursor `idx` in `1..=seq_len`. Each tick clears a fixed
//! region of the surface, looks the current frame's name up in the frame
//! table, and blits the frame's source rectangle to a fixed destination at
//! its own size; then the cursor advances by one, wrapping to 1 past
//! `seq_len`. A missing frame name is a fatal lookup error: the tick issues
//! no draw command and leaves the cursor unchanged.

use vstd::prelude::*;
use vstd::arithmetic::div_mod::{
    lemma_fundamental_div_mod,
    lemma_fundamental_div_mod_converse,
    lemma_mod_bound,
};

use crate::errors::FrameLookupError;
use crate::frames::{table_lookup, FrameRect, FrameTable};
use crate::naming::{frame_name, spec_frame_name};

verus! {

/// Width of the cleared region of the surface.
pub const CLEAR_WIDTH: u16 = 800;

/// Height of the cleared region of the surface.
pub const CLEAR_HEIGHT: u16 = 600;

/// Horizontal position the frame is drawn at.
pub const DEST_X: u16 = 300;

/// Vertical position the frame is drawn at.
pub const DEST_Y: u16 = 300;

/// Number of frames in the animation sequence.
pub const SEQUENCE_LEN: u32 = 8;

/// Milliseconds between ticks.
pub const TICK_PERIOD_MS: u32 = 50;

/// The two drawing operations one successful tick issues, in order: clear
/// the fixed region, then blit the frame's source rectangle, unscaled, to
/// the fixed destination position.
#[derive(Clone, Copy, PartialEq, Eq, Structural, Debug)]
pub struct TickOutput {
    pub clear_x: u16,
    pub clear_y: u16,
    pub clear_w: u16,
    pub clear_h: u16,
    pub src: FrameRect,
    pub dst_x: u16,
    pub dst_y: u16,
    pub dst_w: u16,
    pub dst_h: u16,
}

/// The playback cursor and the length of the sequence it cycles through.
#[derive(Clone, Copy, PartialEq, Eq, Structural, Debug)]
pub struct PlaybackState {
    pub idx: u32,
    pub seq_len: u32,
}

/// Index that follows `idx` in the cyclic sequence `1..=len`.
pub open spec fn spec_next_idx(idx: int, len: int) -> int {
    if idx >= len {
        1
    } else {
        idx + 1
    }
}

/// The draw commands of a successful tick on frame rectangle `rect`.
pub open spec fn spec_tick_output(rect: FrameRect) -> TickOutput {
    TickOutput {
        clear_x: 0,
        clear_y: 0,
        clear_w: CLEAR_WIDTH,
        clear_h: CLEAR_HEIGHT,
        src: rect,
        dst_x: DEST_X,
        dst_y: DEST_Y,
        dst_w: rect.w,
        dst_h: rect.h,
    }
}

impl PlaybackState {
    /// Invariant: the cursor lies in `1..=seq_len`.
    pub open spec fn wf(&self) -> bool {
        1 <= self.idx <= self.seq_len
    }

    /// Playback about to show frame 1 of a sequence of `seq_len` frames.
    pub fn new(seq_len: u32) -> (s: Self)
        requires
            seq_len >= 1,
        ensures
            s.idx == 1,
            s.seq_len == seq_len,
            s.wf(),
    {
        PlaybackState { idx: 1, seq_len }
    }

    /// One tick: look the current frame up, emit its draw commands and
    /// advance the cursor. When the frame name is missing from the table,
    /// fail, issue nothing and leave the state unchanged.
    pub fn tick(&mut self, table: &FrameTable) -> (r: Result<TickOutput, FrameLookupError>)
        requires
            old(self).wf(),
        ensures
            final(self).wf(),
            final(self).seq_len == old(self).seq_len,
            match r {
                Ok(out) => {
                    &&& table_lookup(table@, spec_frame_name(old(self).idx as int)) == Some(out.src)
                    &&& out == spec_tick_output(out.src)
                    &&& final(self).idx as int == spec_next_idx(
                        old(self).idx as int,
                        old(self).seq_len as int,
                    )
                },
                Err(e) => {
                    &&& table_lookup(table@, spec_frame_name(old(self).idx as int)) is None
                    &&& *final(self) == *old(self)
                    &&& e.idx == old(self).idx
                },
            },
    {
        let name = frame_name(self.idx);
        match table.lookup(&name) {
            Some(rect) => {
                let out = TickOutput {
                    clear_x: 0,
                    clear_y: 0,
                    clear_w: CLEAR_WIDTH,
                    clear_h: CLEAR_HEIGHT,
                    src: rect,
                    dst_x: DEST_X,
                    dst_y: DEST_Y,
                    dst_w: rect.w,
                    dst_h: rect.h,
                };
                self.idx = if self.idx >= self.seq_len {
                    1
                } else {
                    self.idx + 1
                };
                Ok(out)
            },
            None => Err(FrameLookupError { idx: self.idx }),
        }
    }
}

/// The cursor after `k` ticks from `start` through the cycle `1..=len`.
pub open spec fn spec_idx_after(start: int, len: int, k: nat) -> int
    decreases k,
{
    if k == 0 {
        start
    } else {
        spec_next_idx(spec_idx_after(start, len, (k - 1) as nat), len)
    }
}

/// Law: from any cursor in range, the cursor stays in `1..=len` after any
/// number of ticks.
pub proof fn lemma_idx_stays_in_range(start: int, len: int, k: nat)
    requires
        1 <= start <= len,
    ensures
        1 <= spec_idx_after(start, len, k) <= len,
    decreases k,
{
    if k > 0 {
        lemma_idx_stays_in_range(start, len, (k - 1) as nat);
    }
}

/// The successor relation of the remainder under adding one.
proof fn lemma_mod_step(a: int, len: int)
    requires
        len >= 1,
        a >= 0,
    ensures
        (a + 1) % len == if a % len == len - 1 {
            0int
        } else {
            a % len + 1
        },
{
    lemma_fundamental_div_mod(a, len);
    lemma_mod_bound(a, len);
    let q = a / len;
    let r = a % len;
    if r == len - 1 {
        assert(a + 1 == (q + 1) * len + 0) by (nonlinear_arith)
            requires
                a == len * q + r,
                r == len - 1,
        ;
        lemma_fundamental_div_mod_converse(a + 1, len, q + 1, 0);
    } else {
        assert(a + 1 == q * len + (r + 1)) by (nonlinear_arith)
            requires
                a == len * q + r,
        ;
        lemma_fundamental_div_mod_converse(a + 1, len, q, r + 1);
    }
}

/// Law: repeated ticks visit the indices cyclically — after `k` ticks from
/// frame 1 the cursor is exactly `1 + (k mod len)`, so the sequence of
/// cursors is `1, 2, ..., len, 1, 2, ...`.
pub proof fn lemma_idx_cycles(len: int, k: nat)
    requires
        1 <= len,
    ensures
        spec_idx_after(1, len, k) == 1 + (k as int) % len,
    decreases k,
{
    if k == 0 {
        lemma_fundamental_div_mod_converse(0, len, 0, 0);
    } else {
        lemma_idx_cycles(len, (k - 1) as nat);
        lemma_mod_step(k as int - 1, len);
        lemma_mod_bound(k as int - 1, len);
    }
}

} // verus!

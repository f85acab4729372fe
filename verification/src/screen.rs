//! The monochrome pixel buffer: one on/off cell per screen position, row-major,
//! with a dirty flag so that several same-cycle mutations cost at most one
//! redraw of the real display.

use vstd::prelude::*;

use crate::SCREEN_SIZE;

verus! {

pub struct Screen {
    pub pixels: Vec<bool>,
    pub needs_refresh: bool,
}

/// What one pass of the display-refresh path does: it reports whether a redraw
/// was owed, leaves every pixel as it was, and clears the dirty flag.
pub open spec fn refresh_step(pre: Screen, post: Screen, redraw: bool) -> bool {
    &&& redraw == pre.needs_refresh
    &&& post.pixels@ == pre.pixels@
    &&& post.needs_refresh == false
}

impl Screen {
    /// The buffer always holds exactly one cell per screen position.
    pub open spec fn wf(self) -> bool {
        self.pixels@.len() == SCREEN_SIZE
    }

    /// A fresh screen: every cell off, nothing to redraw.
    pub fn new() -> (r: Screen)
        ensures
            r.wf(),
            forall|k: int| 0 <= k < SCREEN_SIZE ==> r.pixels@[k] == false,
            r.needs_refresh == false,
    {
        let mut pixels: Vec<bool> = Vec::new();
        for i in iter: 0..SCREEN_SIZE
            invariant
                pixels@.len() == i,
                forall|k: int| 0 <= k < i ==> pixels@[k] == false,
        {
            pixels.push(false);
        }
        Screen { pixels, needs_refresh: false }
    }

    /// Turn every cell off and mark the screen dirty.
    pub fn clear(&mut self)
        requires
            old(self).wf(),
        ensures
            final(self).wf(),
            forall|k: int| 0 <= k < SCREEN_SIZE ==> final(self).pixels@[k] == false,
            final(self).needs_refresh == true,
    {
        let mut pixels: Vec<bool> = Vec::new();
        for i in iter: 0..SCREEN_SIZE
            invariant
                pixels@.len() == i,
                forall|k: int| 0 <= k < i ==> pixels@[k] == false,
        {
            pixels.push(false);
        }
        self.pixels = pixels;
        self.needs_refresh = true;
    }

    /// Read the cell at a row-major index.
    pub fn get_pixel(&self, index: usize) -> (r: bool)
        requires
            self.wf(),
            index < SCREEN_SIZE,
        ensures
            r == self.pixels@[index as int],
    {
        self.pixels[index]
    }

    /// Write the cell at a row-major index and mark the screen dirty.
    pub fn set_pixel(&mut self, index: usize, value: bool)
        requires
            old(self).wf(),
            index < SCREEN_SIZE,
        ensures
            final(self).wf(),
            final(self).pixels@ == old(self).pixels@.update(index as int, value),
            final(self).needs_refresh == true,
    {
        self.pixels[index] = value;
        self.needs_refresh = true;
    }

    /// A read-only view of the whole buffer, for rendering and diagnostics.
    pub fn get_all_pixels(&self) -> (r: &Vec<bool>)
        ensures
            r@ == self.pixels@,
    {
        &self.pixels
    }

    /// One pass of the display-refresh path: say whether a redraw is owed and
    /// clear the dirty flag. The caller hands the buffer to the real display
    /// only when this returns true, so several same-cycle mutations cost at
    /// most one redraw.
    pub fn refresh(&mut self) -> (redraw: bool)
        requires
            old(self).wf(),
        ensures
            final(self).wf(),
            refresh_step(*old(self), *final(self), redraw),
    {
        let redraw = self.needs_refresh;
        self.needs_refresh = false;
        redraw
    }
}

/// Refreshing coalesces: of two passes of the display-refresh path with no
/// pixel mutation between them, at most the first can owe a redraw, so the
/// display sink is invoked at most once.
pub proof fn lemma_refresh_coalesces(s0: Screen, s1: Screen, r1: bool, s2: Screen, r2: bool)
    requires
        refresh_step(s0, s1, r1),
        refresh_step(s1, s2, r2),
    ensures
        !(r1 && r2),
        !r2,
{
}

} // verus!

//! Gallery and lightbox state: an ordered list of images, an
//! open/closed flag, and the index of the image on display.
//!
//! Next and previous wrap around in both directions; opening always
//! resets to the first image; clicking the backdrop closes the overlay
//! while clicks on its content are contained and change nothing.

use vstd::prelude::*;
use vstd::arithmetic::div_mod::{
    lemma_add_mod_noop_right,
    lemma_mod_add_multiples_vanish,
    lemma_mod_pos_bound,
    lemma_mod_self_0,
    lemma_small_mod,
};

verus! {

/// Where a click inside an open lightbox landed: on the dimmed
/// backdrop, or on the overlay's own content.
#[derive(Clone, Copy, PartialEq, Eq, Debug, Structural)]
pub enum LightboxClick {
    Backdrop,
    Content,
}

/// An image gallery with an overlay: the images shown, whether the
/// overlay is open, and which image is current.
pub struct Gallery {
    pub images: Vec<String>,
    pub is_open: bool,
    pub index: usize,
}

impl Gallery {
    /// Well-formedness: at least one image, and the current index in
    /// range. Constructors establish this and every method keeps it.
    pub open spec fn wf(self) -> bool {
        self.images.len() >= 1 && self.index < self.images.len()
    }

    /// A gallery of a cover image followed by the further images, as a
    /// map entry presents them. Starts closed on the cover.
    pub fn from_cover_and_more(cover: String, more: Vec<String>) -> (g: Gallery)
        ensures
            g.wf(),
            g.images@ == seq![cover] + more@,
            !g.is_open,
            g.index == 0,
    {
        let ghost more_view = more@;
        let mut images: Vec<String> = Vec::new();
        images.push(cover);
        let mut rest = more;
        images.append(&mut rest);
        proof {
            assert(images@ =~= seq![cover] + more_view);
        }
        Gallery { images, is_open: false, index: 0 }
    }

    /// A gallery of the further images alone, falling back to the cover
    /// image when there are none, as a project entry presents them.
    pub fn from_more_or_cover(cover: String, more: Vec<String>) -> (g: Gallery)
        ensures
            g.wf(),
            g.images@ == if more@.len() == 0 { seq![cover] } else { more@ },
            !g.is_open,
            g.index == 0,
    {
        if more.is_empty() {
            let mut images: Vec<String> = Vec::new();
            images.push(cover);
            proof {
                assert(images@ =~= seq![cover]);
            }
            Gallery { images, is_open: false, index: 0 }
        } else {
            Gallery { images: more, is_open: false, index: 0 }
        }
    }

    /// Opens the overlay, always back on the first image: no index
    /// survives a close/reopen cycle.
    pub fn open(&mut self)
        ensures
            final(self).is_open,
            final(self).index == 0,
            final(self).images == old(self).images,
    {
        self.is_open = true;
        self.index = 0;
    }

    /// Closes the overlay; the images are untouched.
    pub fn close(&mut self)
        ensures
            !final(self).is_open,
            final(self).index == old(self).index,
            final(self).images == old(self).images,
    {
        self.is_open = false;
    }

    /// A click on the backdrop closes the overlay; a click on the
    /// overlay's content is contained and changes nothing.
    pub fn handle_click(&mut self, target: LightboxClick)
        ensures
            target is Backdrop ==> !final(self).is_open
                && final(self).index == old(self).index
                && final(self).images == old(self).images,
            target is Content ==> *final(self) == *old(self),
    {
        match target {
            LightboxClick::Backdrop => self.close(),
            LightboxClick::Content => {},
        }
    }

    /// Steps to the next image, wrapping from the last back to the
    /// first.
    pub fn next(&mut self)
        requires
            old(self).wf(),
        ensures
            final(self).wf(),
            final(self).index == (old(self).index + 1) % (old(self).images@.len() as int),
            final(self).is_open == old(self).is_open,
            final(self).images == old(self).images,
    {
        let n = self.images.len();
        if self.index + 1 == n {
            self.index = 0;
            proof {
                lemma_mod_self_0(n as int);
            }
        } else {
            self.index = self.index + 1;
            proof {
                lemma_small_mod(self.index as nat, n as nat);
            }
        }
    }

    /// Steps to the previous image, wrapping from the first to the
    /// last: from index 0 it lands on index `N - 1`.
    pub fn prev(&mut self)
        requires
            old(self).wf(),
        ensures
            final(self).wf(),
            final(self).index == if old(self).index == 0 {
                old(self).images@.len() - 1
            } else {
                old(self).index - 1
            },
            final(self).is_open == old(self).is_open,
            final(self).images == old(self).images,
    {
        if self.index == 0 {
            self.index = self.images.len() - 1;
        } else {
            self.index = self.index - 1;
        }
    }

    /// The image currently on display.
    pub fn current(&self) -> (img: &String)
        requires
            self.wf(),
        ensures
            *img == self.images@[self.index as int],
    {
        &self.images[self.index]
    }
}

/// The index reached from `i` after `steps` "next" steps through `n`
/// images, each one advancing by one with wraparound.
pub open spec fn spec_advance(i: int, steps: nat, n: int) -> int
    recommends
        n >= 1,
    decreases steps,
{
    if steps == 0 {
        i
    } else {
        spec_advance((i + 1) % n, (steps - 1) as nat, n)
    }
}

/// Repeated "next" steps add up modulo the image count.
pub proof fn lemma_advance_adds(i: int, steps: nat, n: int)
    requires
        n >= 1,
        0 <= i < n,
    ensures
        spec_advance(i, steps, n) == (i + steps) % n,
    decreases steps,
{
    if steps == 0 {
        lemma_small_mod(i as nat, n as nat);
    } else {
        lemma_mod_pos_bound(i + 1, n);
        lemma_advance_adds((i + 1) % n, (steps - 1) as nat, n);
        lemma_add_mod_noop_right(steps - 1, i + 1, n);
    }
}

/// Taking "next" as many times as the gallery has images returns to the
/// image one started from.
pub proof fn lemma_full_cycle(i: int, n: int)
    requires
        n >= 1,
        0 <= i < n,
    ensures
        spec_advance(i, n as nat, n) == i,
{
    lemma_advance_adds(i, n as nat, n);
    lemma_mod_add_multiples_vanish(i, n);
    lemma_small_mod(i as nat, n as nat);
}

} // verus!

//! Opaque visual-handle tokens.
//!
//! The simulation core never renders anything itself: each segment and the
//! food cell carry a token that the rendering collaborator maps to whatever
//! it draws.  Tokens are allocated here from a monotone counter, so a fresh
//! token never collides with a live one.

use vstd::prelude::*;

verus! {

/// Allocator of visual-handle tokens.  `next` is strictly above every token
/// handed out so far.
#[derive(Clone, Copy, PartialEq, Eq, Structural, Debug)]
pub struct VisualAlloc {
    pub next: u64,
}

impl VisualAlloc {
    /// An allocator that has handed out no token yet.
    pub fn new() -> (a: VisualAlloc)
        ensures
            a.next == 0,
    {
        VisualAlloc { next: 0 }
    }

    /// Hands out a token never handed out before.
    pub fn fresh(&mut self) -> (h: u64)
        requires
            old(self).next < u64::MAX,
        ensures
            h == old(self).next,
            final(self).next == old(self).next + 1,
    {
        let h = self.next;
        self.next = self.next + 1;
        h
    }
}

} // verus!

//! The scroll controller: one offset, kept within the content.
//!
//! Lengths are in thousandths of a pixel.

use vstd::prelude::*;

verus! {

/// The largest offset at which the viewport still shows content.
pub open spec fn max_offset(content_height: nat, viewport_height: nat) -> nat {
    if content_height > viewport_height {
        (content_height - viewport_height) as nat
    } else {
        0
    }
}

/// `x` clamped to `[0, hi]`.
pub open spec fn clamp(x: int, hi: nat) -> nat {
    if x < 0 {
        0
    } else if x > hi {
        hi
    } else {
        x as nat
    }
}

/// What the controller holds.
pub ghost struct ScrollView {
    pub offset: nat,
    pub content_height: nat,
    pub viewport_height: nat,
}

impl ScrollView {
    /// The offset lies within the content.
    pub open spec fn wf(self) -> bool {
        self.offset <= max_offset(self.content_height, self.viewport_height)
    }

    /// The state after `note_content(height, viewport_height)`.
    pub open spec fn noted(self, height: nat, viewport_height: nat) -> ScrollView {
        ScrollView {
            offset: clamp(self.offset as int, max_offset(height, viewport_height)),
            content_height: height,
            viewport_height,
        }
    }

    /// The state after `scroll_by(delta, viewport_height)`.
    pub open spec fn scrolled(self, delta: int, viewport_height: nat) -> ScrollView {
        ScrollView {
            offset: clamp(self.offset + delta, max_offset(self.content_height, viewport_height)),
            content_height: self.content_height,
            viewport_height,
        }
    }
}

/// A scroll offset over content of a known height.
#[derive(Debug, Clone, Copy, PartialEq, Eq)]
pub struct ScrollState {
    offset: u64,
    content_height: u64,
    viewport_height: u64,
}

impl View for ScrollState {
    type V = ScrollView;

    closed spec fn view(&self) -> ScrollView {
        ScrollView {
            offset: self.offset as nat,
            content_height: self.content_height as nat,
            viewport_height: self.viewport_height as nat,
        }
    }
}

impl ScrollState {
    /// At the top of empty content.
    pub fn new() -> (r: ScrollState)
        ensures
            r@ == (ScrollView { offset: 0, content_height: 0, viewport_height: 0 }),
            r@.wf(),
    {
        ScrollState { offset: 0, content_height: 0, viewport_height: 0 }
    }

    pub fn offset(&self) -> (r: u64)
        ensures
            r == self@.offset,
    {
        self.offset
    }

    pub fn content_height(&self) -> (r: u64)
        ensures
            r == self@.content_height,
    {
        self.content_height
    }

    /// Records the content and viewport heights and clamps the offset to
    /// `[0, max(0, height - viewport_height)]`.
    pub fn note_content(&mut self, height: u64, viewport_height: u64)
        ensures
            final(self)@ == old(self)@.noted(height as nat, viewport_height as nat),
            final(self)@.wf(),
            final(self)@.offset <= max_offset(height as nat, viewport_height as nat),
    {
        let max = if height > viewport_height {
            height - viewport_height
        } else {
            0
        };
        if self.offset > max {
            self.offset = max;
        }
        self.content_height = height;
        self.viewport_height = viewport_height;
    }

    /// Moves the offset by `delta` and clamps it against the last known
    /// content height.
    pub fn scroll_by(&mut self, delta: i64, viewport_height: u64)
        ensures
            final(self)@ == old(self)@.scrolled(delta as int, viewport_height as nat),
            final(self)@.wf(),
    {
        let max = if self.content_height > viewport_height {
            self.content_height - viewport_height
        } else {
            0
        };
        let off = self.offset;
        let next: u64 = if delta >= 0 {
            let step = delta as u64;
            if off >= max || max - off <= step {
                max
            } else {
                off + step
            }
        } else {
            let step = (-(delta as i128)) as u64;
            if off <= step {
                0
            } else if off - step > max {
                max
            } else {
                off - step
            }
        };
        self.offset = next;
        self.viewport_height = viewport_height;
    }
}

/// Noting the same heights twice, with no scrolling in between, leaves the
/// offset where the first call put it.
pub proof fn lemma_note_content_idempotent(s: ScrollView, height: nat, viewport_height: nat)
    ensures
        s.noted(height, viewport_height).noted(height, viewport_height) == s.noted(
            height,
            viewport_height,
        ),
{
}

/// After noting any heights, the offset lies in `[0, max(0, height - viewport)]`.
pub proof fn lemma_noted_offset_in_range(s: ScrollView, height: nat, viewport_height: nat)
    ensures
        0 <= s.noted(height, viewport_height).offset <= max_offset(height, viewport_height),
        s.noted(height, viewport_height).wf(),
{
}

} // verus!

//! The surface lifecycle: configure events, pointer scrolling and the
//! decisions of each draw. Whoever owns the compositor connection performs
//! what these decisions ask for.

use vstd::prelude::*;
use crate::pool::{BufferPool, frame_size};
use crate::raster::{LinePlacement, Renderer, capped_height};
use crate::scroll::ScrollState;
use crate::styled::{StyledLine, lines_view};

verus! {

/// Smallest pointer scroll, in thousandths of a pixel, that moves the
/// panel; smaller ones are ignored.
pub const SCROLL_THRESHOLD: i64 = 10;

/// The negotiated drawable size, in pixels, and whether the compositor has
/// configured the surface at least once.
#[derive(Debug, Clone, Copy, PartialEq, Eq, Structural)]
pub struct SurfaceState {
    pub width: u32,
    pub height: u32,
    pub configured: bool,
}

/// What a configure event asks of the caller.
#[derive(Debug, Clone, Copy, PartialEq, Eq, Structural)]
pub enum ConfigureAction {
    /// Grow the backing memory to this many bytes if given, then draw.
    Draw { grow_to: Option<usize> },
    /// A frame of the negotiated size does not fit in memory: a fatal error.
    TooLarge,
}

/// One frame to present.
#[derive(Debug, Clone, PartialEq, Eq)]
pub struct Frame {
    pub width: u32,
    pub height: u32,
    /// Bytes of the frame buffer, four per pixel.
    pub bytes: usize,
    /// Grow the backing memory to this many bytes before taking the buffer.
    pub grow_to: Option<usize>,
    /// The scroll offset the frame is drawn at.
    pub offset: u64,
    /// The lines to draw, top to bottom.
    pub placements: Vec<LinePlacement>,
}

/// The panel's state across events.
#[derive(Debug, Clone, Copy, PartialEq, Eq)]
pub struct Panel {
    pub surface: SurfaceState,
    pub pool: BufferPool,
    pub scroll: ScrollState,
    /// The size asked for at creation, used where the compositor proposes 0.
    pub default_width: u32,
    pub default_height: u32,
}

/// Whether a draw has anything to draw on.
pub open spec fn drawable(s: SurfaceState) -> bool {
    s.configured && s.width > 0 && s.height > 0
}

/// The pool's capacity after making room for `bytes`.
pub open spec fn grown(capacity: nat, bytes: nat) -> nat {
    if bytes > capacity {
        bytes
    } else {
        capacity
    }
}

/// The growth a request for `bytes` asks for.
pub open spec fn growth(capacity: nat, bytes: usize) -> Option<usize> {
    if bytes > capacity {
        Some(bytes)
    } else {
        None
    }
}

/// The viewport height in thousandths of a pixel.
pub open spec fn viewport_of(height: u32) -> nat {
    height as nat * 1000
}

impl Panel {
    /// An unconfigured panel that asks for `default_width` by
    /// `default_height` pixels, with `pool_capacity` bytes of backing memory.
    pub fn new(default_width: u32, default_height: u32, pool_capacity: usize) -> (r: Panel)
        ensures
            r.surface == (SurfaceState { width: 0, height: 0, configured: false }),
            r.pool@ == pool_capacity,
            r.scroll@.offset == 0,
            r.scroll@.content_height == 0,
            r.default_width == default_width,
            r.default_height == default_height,
    {
        Panel {
            surface: SurfaceState { width: 0, height: 0, configured: false },
            pool: BufferPool::new(pool_capacity),
            scroll: ScrollState::new(),
            default_width,
            default_height,
        }
    }

    /// A configure event proposing `width` by `height`; a zero dimension
    /// falls back to the default. The surface becomes configured, the pool
    /// grows where the new frame exceeds it, and a draw follows.
    pub fn configure(&mut self, width: u32, height: u32) -> (r: ConfigureAction)
        ensures
            ({
                let w = if width > 0 { width } else { old(self).default_width };
                let h = if height > 0 { height } else { old(self).default_height };
                if frame_size(w, h) <= usize::MAX {
                    &&& final(self).surface == (SurfaceState { width: w, height: h, configured: true })
                    &&& final(self).pool@ == grown(old(self).pool@, frame_size(w, h))
                    &&& r == ConfigureAction::Draw {
                        grow_to: growth(old(self).pool@, frame_size(w, h) as usize),
                    }
                    &&& final(self).scroll == old(self).scroll
                    &&& final(self).default_width == old(self).default_width
                    &&& final(self).default_height == old(self).default_height
                } else {
                    &&& r == ConfigureAction::TooLarge
                    &&& *final(self) == *old(self)
                }
            }),
    {
        let w = if width > 0 {
            width
        } else {
            self.default_width
        };
        let h = if height > 0 {
            height
        } else {
            self.default_height
        };
        match BufferPool::frame_bytes(w, h) {
            Some(bytes) => {
                let grow_to = self.pool.reserve(bytes);
                self.surface = SurfaceState { width: w, height: h, configured: true };
                ConfigureAction::Draw { grow_to }
            },
            None => ConfigureAction::TooLarge,
        }
    }

    /// The size to draw at, or `None` when a draw must do nothing: before
    /// the first configure event or with a zero dimension.
    pub fn begin_draw(&self) -> (r: Option<(u32, u32)>)
        ensures
            r == if drawable(self.surface) {
                Some((self.surface.width, self.surface.height))
            } else {
                None::<(u32, u32)>
            },
    {
        if self.surface.configured && self.surface.width > 0 && self.surface.height > 0 {
            Some((self.surface.width, self.surface.height))
        } else {
            None
        }
    }

    /// The draw step for freshly produced `lines`: the content height is
    /// noted (which clamps the scroll offset), a buffer of the surface's
    /// size is taken from the pool, and the visible lines are laid out at
    /// the offset. Where the surface cannot be drawn on, nothing is taken
    /// and nothing changes.
    pub fn draw_frame(&mut self, renderer: &Renderer, lines: &Vec<StyledLine>) -> (r: Option<Frame>)
        ensures
            !drawable(old(self).surface) || frame_size(old(self).surface.width, old(self).surface.height) > usize::MAX
                ==> r is None && *final(self) == *old(self),
            drawable(old(self).surface) && frame_size(old(self).surface.width, old(self).surface.height) <= usize::MAX
                ==> ({
                let w = old(self).surface.width;
                let h = old(self).surface.height;
                let size = frame_size(w, h);
                let ls = lines_view(lines@);
                &&& final(self).scroll@ == old(self).scroll@.noted(
                    capped_height(ls, renderer.font_size),
                    viewport_of(h),
                )
                &&& final(self).pool@ == grown(old(self).pool@, size)
                &&& final(self).surface == old(self).surface
                &&& final(self).default_width == old(self).default_width
                &&& final(self).default_height == old(self).default_height
                &&& r matches Some(f) && {
                    &&& f.width == w
                    &&& f.height == h
                    &&& f.bytes == size
                    &&& f.grow_to == growth(old(self).pool@, size as usize)
                    &&& f.offset == final(self).scroll@.offset
                    &&& renderer.lays_out(ls, f.offset as nat, viewport_of(h), f.placements@)
                }
            }),
    {
        let (w, h) = match self.begin_draw() {
            Some(size) => size,
            None => return None,
        };
        let bytes = match BufferPool::frame_bytes(w, h) {
            Some(b) => b,
            None => return None,
        };
        let content = renderer.content_height(lines);
        self.scroll.note_content(content, h as u64 * 1000);
        let grow_to = self.pool.reserve(bytes);
        let offset = self.scroll.offset();
        let placements = renderer.layout(lines, h, offset);
        Some(Frame { width: w, height: h, bytes, grow_to, offset, placements })
    }

    /// A vertical pointer scroll of `delta` thousandths of a pixel. Returns
    /// whether the panel moved and must be drawn again: scrolls no larger
    /// than the threshold are ignored.
    pub fn on_scroll(&mut self, delta: i64) -> (redraw: bool)
        ensures
            redraw == (delta > SCROLL_THRESHOLD || delta < -SCROLL_THRESHOLD),
            redraw ==> final(self).scroll@ == old(self).scroll@.scrolled(
                delta as int,
                viewport_of(old(self).surface.height),
            ),
            !redraw ==> final(self).scroll == old(self).scroll,
            final(self).surface == old(self).surface,
            final(self).pool == old(self).pool,
            final(self).default_width == old(self).default_width,
            final(self).default_height == old(self).default_height,
    {
        if delta > SCROLL_THRESHOLD || delta < -SCROLL_THRESHOLD {
            self.scroll.scroll_by(delta, self.surface.height as u64 * 1000);
            true
        } else {
            false
        }
    }
}

} // verus!

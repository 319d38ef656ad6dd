//! The rasterizer's decisions: line heights, which lines a scrolled
//! viewport shows and where, and the byte order handed to the compositor.
//!
//! Vertical positions are in thousandths of a pixel; font sizes are in
//! hundredths of a point, and a line is 1.4 times its font size high.

use vstd::prelude::*;
use crate::color::{Color, color_of, parse_hex_color};
use crate::styled::{LineView, StyledLine, lines_view};

verus! {

/// Thousandths of a pixel of line height per hundredth of a point of font
/// size.
pub const LINE_HEIGHT_FACTOR: u64 = 14;

/// The largest line height any font size gives.
pub open spec fn max_line_height() -> nat {
    4294967295 * 14
}

/// The font size a line is drawn at.
pub open spec fn effective_size(l: LineView, default_size: u32) -> u32 {
    match l.style.font_size {
        Some(s) => s,
        None => default_size,
    }
}

/// The height of a line.
pub open spec fn line_height(l: LineView, default_size: u32) -> nat {
    effective_size(l, default_size) as nat * 14
}

/// The height of the first `k` lines.
pub open spec fn heights_before(ls: Seq<LineView>, default_size: u32, k: int) -> nat
    decreases k,
{
    if k <= 0 {
        0
    } else {
        heights_before(ls, default_size, k - 1) + line_height(ls[k - 1], default_size)
    }
}

/// The height of all the lines.
pub open spec fn total_height(ls: Seq<LineView>, default_size: u32) -> nat {
    heights_before(ls, default_size, ls.len() as int)
}

/// The height of all the lines, capped at `u64::MAX`.
pub open spec fn capped_height(ls: Seq<LineView>, default_size: u32) -> nat {
    if total_height(ls, default_size) <= u64::MAX {
        total_height(ls, default_size)
    } else {
        u64::MAX as nat
    }
}

/// The bottom edge (the baseline) of line `k` in the viewport scrolled by
/// `offset`.
pub open spec fn bottom(ls: Seq<LineView>, default_size: u32, offset: nat, k: int) -> int {
    heights_before(ls, default_size, k + 1) - offset
}

/// The top edge of line `k` in the viewport scrolled by `offset`.
pub open spec fn top(ls: Seq<LineView>, default_size: u32, offset: nat, k: int) -> int {
    bottom(ls, default_size, offset, k) - line_height(ls[k], default_size)
}

/// Whether line `k` is drawn in a viewport `viewport` high: it does not end
/// above the viewport, and neither it nor any line before it starts below.
pub open spec fn visible(ls: Seq<LineView>, default_size: u32, offset: nat, viewport: nat, k: int) -> bool {
    &&& 0 <= k < ls.len()
    &&& bottom(ls, default_size, offset, k) >= 0
    &&& forall|j: int| 0 <= j <= k ==> #[trigger] top(ls, default_size, offset, j) <= viewport
}

/// Where and how one line is drawn.
#[derive(Debug, Clone, Copy, PartialEq, Eq, Structural)]
pub struct LinePlacement {
    /// The line's position in the sequence.
    pub index: usize,
    /// Its bottom edge, where the text's baseline goes.
    pub baseline: i128,
    pub line_height: u64,
    pub font_size: u32,
    pub fg: Color,
    /// The color of a full-width band behind the line, if any.
    pub bg: Option<Color>,
}

/// The panel's drawing defaults. The font size is in hundredths of a point.
#[derive(Debug, Clone, Copy, PartialEq, Eq, Structural)]
pub struct Renderer {
    pub font_size: u32,
    pub fg: Color,
    pub bg: Color,
}

impl Renderer {
    /// Whether `p` places line `k` of `ls` at its position for `offset`, in
    /// its own colors and size or the defaults.
    pub open spec fn places(self, ls: Seq<LineView>, offset: nat, p: LinePlacement, k: int) -> bool {
        let l = ls[k];
        &&& p.index == k
        &&& p.baseline == bottom(ls, self.font_size, offset, k)
        &&& p.line_height == line_height(l, self.font_size)
        &&& p.font_size == effective_size(l, self.font_size)
        &&& p.fg == match l.style.fg_color {
            Some(c) => color_of(c),
            None => self.fg,
        }
        &&& p.bg == match l.style.bg_color {
            Some(c) => Some(color_of(c)),
            None => None,
        }
    }

    /// Whether `r` draws exactly the visible lines of `ls`, in order.
    pub open spec fn lays_out(self, ls: Seq<LineView>, offset: nat, viewport: nat, r: Seq<LinePlacement>) -> bool {
        &&& forall|i: int| 0 <= i < r.len() ==> visible(ls, self.font_size, offset, viewport, #[trigger] r[i].index as int)
        &&& forall|i: int| 0 <= i < r.len() ==> self.places(ls, offset, #[trigger] r[i], r[i].index as int)
        &&& forall|i: int, j: int| 0 <= i < j < r.len() ==> r[i].index < r[j].index
        &&& forall|k: int| #[trigger] visible(ls, self.font_size, offset, viewport, k) ==> exists|i: int| 0 <= i < r.len() && #[trigger] r[i].index == k
    }

    /// Defaults from a font size and two hex colors.
    pub fn new(font_size: u32, fg_hex: &str, bg_hex: &str) -> (r: Renderer)
        ensures
            r == (Renderer { font_size, fg: color_of(fg_hex@), bg: color_of(bg_hex@) }),
    {
        Renderer { font_size, fg: parse_hex_color(fg_hex), bg: parse_hex_color(bg_hex) }
    }

    /// The height of a line.
    pub fn line_height(&self, line: &StyledLine) -> (r: u64)
        ensures
            r == line_height(line@, self.font_size),
    {
        let size = match line.style.font_size {
            Some(s) => s,
            None => self.font_size,
        };
        size as u64 * LINE_HEIGHT_FACTOR
    }

    /// The height of all the lines, or `u64::MAX` where it is larger.
    pub fn content_height(&self, lines: &Vec<StyledLine>) -> (r: u64)
        ensures
            r as nat == capped_height(lines_view(lines@), self.font_size),
    {
        let ghost ls = lines_view(lines@);
        let mut h: u64 = 0;
        let mut k: usize = 0;
        while k < lines.len()
            invariant
                k <= lines@.len(),
                ls == lines_view(lines@),
                h as nat == if heights_before(ls, self.font_size, k as int) <= u64::MAX {
                    heights_before(ls, self.font_size, k as int)
                } else {
                    u64::MAX as nat
                },
            decreases lines@.len() - k,
        {
            let lh = self.line_height(&lines[k]);
            h = h.saturating_add(lh);
            k = k + 1;
        }
        h
    }

    /// The lines a viewport `height` pixels high shows when scrolled by
    /// `offset` (thousandths of a pixel), top to bottom: lines that end
    /// above the viewport are passed over, and the first line that starts
    /// below it ends the walk.
    pub fn layout(&self, lines: &Vec<StyledLine>, height: u32, offset: u64) -> (r: Vec<LinePlacement>)
        ensures
            self.lays_out(lines_view(lines@), offset as nat, height as nat * 1000, r@),
    {
        let ghost ls = lines_view(lines@);
        let ghost d = self.font_size;
        let viewport: i128 = height as i128 * 1000;
        let mut out: Vec<LinePlacement> = Vec::new();
        let mut y: i128 = -(offset as i128);
        let mut k: usize = 0;
        while k < lines.len()
            invariant
                k <= lines@.len(),
                ls == lines_view(lines@),
                d == self.font_size,
                viewport == height as nat * 1000,
                y == heights_before(ls, d, k as int) - offset,
                y <= viewport + max_line_height(),
                forall|j: int| 0 <= j < k ==> #[trigger] top(ls, d, offset as nat, j) <= viewport,
                forall|i: int| 0 <= i < out@.len() ==> visible(ls, d, offset as nat, viewport as nat, #[trigger] out@[i].index as int),
                forall|i: int| 0 <= i < out@.len() ==> self.places(ls, offset as nat, #[trigger] out@[i], out@[i].index as int),
                forall|i: int| 0 <= i < out@.len() ==> out@[i].index < k,
                forall|i: int, j: int| 0 <= i < j < out@.len() ==> out@[i].index < out@[j].index,
                forall|q: int| 0 <= q < k && #[trigger] visible(ls, d, offset as nat, viewport as nat, q) ==> exists|i: int| 0 <= i < out@.len() && #[trigger] out@[i].index == q,
            decreases lines@.len() - k,
        {
            let line = &lines[k];
            let lh = self.line_height(line);
            assert(line@ == ls[k as int]);
            y = y + lh as i128;
            assert(y == bottom(ls, d, offset as nat, k as int));
            if y < 0 {
                assert(!visible(ls, d, offset as nat, viewport as nat, k as int));
                k = k + 1;
            } else if y - (lh as i128) > viewport {
                assert(top(ls, d, offset as nat, k as int) > viewport);
                assert forall|q: int| #[trigger] visible(ls, d, offset as nat, viewport as nat, q) implies q < k by {
                    if q >= k {
                        assert(top(ls, d, offset as nat, k as int) <= viewport);
                    }
                }
                return out;
            } else {
                let fg = match &line.style.fg_color {
                    Some(c) => parse_hex_color(c.as_str()),
                    None => self.fg,
                };
                let bg = match &line.style.bg_color {
                    Some(c) => Some(parse_hex_color(c.as_str())),
                    None => None,
                };
                let size = match line.style.font_size {
                    Some(s) => s,
                    None => self.font_size,
                };
                let p = LinePlacement { index: k, baseline: y, line_height: lh, font_size: size, fg, bg };
                assert(visible(ls, d, offset as nat, viewport as nat, k as int));
                let ghost prev = out@;
                out.push(p);
                assert forall|q: int| 0 <= q < k + 1 && #[trigger] visible(ls, d, offset as nat, viewport as nat, q)
                    implies exists|i: int| 0 <= i < out@.len() && #[trigger] out@[i].index == q by {
                    if q < k {
                        let i = choose|i: int| 0 <= i < prev.len() && #[trigger] prev[i].index == q;
                        assert(out@[i] == prev[i]);
                    } else {
                        assert(out@[out@.len() - 1].index == q);
                    }
                }
                k = k + 1;
            }
        }
        out
    }
}

/// Line `j` is never drawn when line `k`, at or before it, starts below
/// the viewport.
pub proof fn lemma_culling_stops_at_first_line_below(
    ls: Seq<LineView>,
    default_size: u32,
    offset: nat,
    viewport: nat,
    k: int,
    j: int,
)
    requires
        0 <= k <= j < ls.len(),
        top(ls, default_size, offset, k) > viewport,
    ensures
        !visible(ls, default_size, offset, viewport, j),
{
}

/// Byte `i` of the presentation order (B, G, R, A per pixel) of the
/// rasterizer's R, G, B, A pixels `px`.
pub open spec fn presented_byte(px: Seq<u8>, i: int) -> u8 {
    let base = i - i % 4;
    if i % 4 == 0 {
        px[base + 2]
    } else if i % 4 == 1 {
        px[base + 1]
    } else if i % 4 == 2 {
        px[base]
    } else {
        px[base + 3]
    }
}

/// Whether byte `i` belongs to a pixel that both `px` and a buffer of
/// `len` bytes hold whole.
pub open spec fn in_common_pixel(px: Seq<u8>, len: nat, i: int) -> bool {
    &&& 0 <= i
    &&& i - i % 4 + 4 <= px.len()
    &&& i - i % 4 + 4 <= len
}

/// Writes the R, G, B, A pixels of `pixels` into `buffer` as B, G, R, A,
/// for every pixel both hold whole; the other bytes of `buffer` are left
/// as they were.
pub fn to_presentation_order(pixels: &[u8], buffer: &mut [u8])
    ensures
        final(buffer)@.len() == old(buffer)@.len(),
        forall|i: int| 0 <= i < old(buffer)@.len() ==> #[trigger] final(buffer)@[i] == if in_common_pixel(pixels@, old(buffer)@.len(), i) {
            presented_byte(pixels@, i)
        } else {
            old(buffer)@[i]
        },
{
    let n = pixels.len();
    let m = buffer.len();
    let mut i: usize = 0;
    while n - i >= 4 && m - i >= 4
        invariant
            n == pixels@.len(),
            m == old(buffer)@.len(),
            buffer@.len() == m,
            i <= n,
            i <= m,
            i % 4 == 0,
            forall|j: int| 0 <= j < m ==> #[trigger] buffer@[j] == if j < i {
                presented_byte(pixels@, j)
            } else {
                old(buffer)@[j]
            },
        decreases n - i,
    {
        buffer[i] = pixels[i + 2];
        buffer[i + 1] = pixels[i + 1];
        buffer[i + 2] = pixels[i];
        buffer[i + 3] = pixels[i + 3];
        i = i + 4;
    }
    assert forall|j: int| 0 <= j < m implies (j < i <==> #[trigger] in_common_pixel(pixels@, m as nat, j)) by {
        assert(i % 4 == 0);
    }
}

/// One pixel `(r, g, b, a)` is presented as `(b, g, r, a)`, and presenting
/// those bytes once more gives back `(r, g, b, a)`.
pub proof fn lemma_pixel_order(r: u8, g: u8, b: u8, a: u8)
    ensures
        Seq::new(4, |i: int| presented_byte(seq![r, g, b, a], i)) == seq![b, g, r, a],
        Seq::new(4, |i: int| presented_byte(seq![b, g, r, a], i)) == seq![r, g, b, a],
{
    assert(Seq::new(4, |i: int| presented_byte(seq![r, g, b, a], i)) =~= seq![b, g, r, a]);
    assert(Seq::new(4, |i: int| presented_byte(seq![b, g, r, a], i)) =~= seq![r, g, b, a]);
}

} // verus!

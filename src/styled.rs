//! The content unit: a line of text with an optional visual override.

use vstd::prelude::*;

verus! {

/// Optional overrides of the panel's defaults for one line.
///
/// Colors are kept as written (`"#rrggbb"` or `"#rrggbbaa"`); the font size
/// is in hundredths of a point.
#[derive(Debug, Clone, PartialEq, Eq)]
pub struct LineStyle {
    pub fg_color: Option<String>,
    pub bg_color: Option<String>,
    pub font_size: Option<u32>,
}

/// A line of text with its style.
#[derive(Debug, Clone, PartialEq, Eq)]
pub struct StyledLine {
    pub text: String,
    pub style: LineStyle,
}

/// What a `LineStyle` holds, with its strings as character sequences.
pub ghost struct StyleView {
    pub fg_color: Option<Seq<char>>,
    pub bg_color: Option<Seq<char>>,
    pub font_size: Option<u32>,
}

/// What a `StyledLine` holds.
pub ghost struct LineView {
    pub text: Seq<char>,
    pub style: StyleView,
}

pub open spec fn opt_text(o: Option<String>) -> Option<Seq<char>> {
    match o {
        Some(s) => Some(s@),
        None => None,
    }
}

/// The style that overrides nothing.
pub open spec fn no_style() -> StyleView {
    StyleView { fg_color: None, bg_color: None, font_size: None }
}

/// An unstyled line of the given text.
pub open spec fn plain_line(text: Seq<char>) -> LineView {
    LineView { text, style: no_style() }
}

impl View for LineStyle {
    type V = StyleView;

    open spec fn view(&self) -> StyleView {
        StyleView {
            fg_color: opt_text(self.fg_color),
            bg_color: opt_text(self.bg_color),
            font_size: self.font_size,
        }
    }
}

impl View for StyledLine {
    type V = LineView;

    open spec fn view(&self) -> LineView {
        LineView { text: self.text@, style: self.style@ }
    }
}

/// The views of a sequence of lines.
pub open spec fn lines_view(lines: Seq<StyledLine>) -> Seq<LineView> {
    lines.map_values(|l: StyledLine| l@)
}

pub fn copy_text(o: &Option<String>) -> (r: Option<String>)
    ensures
        opt_text(r) == opt_text(*o),
{
    match o {
        Some(s) => Some(s.clone()),
        None => None,
    }
}

impl Default for LineStyle {
    fn default() -> (r: LineStyle)
        ensures
            r@ == no_style(),
    {
        LineStyle { fg_color: None, bg_color: None, font_size: None }
    }
}

impl LineStyle {
    /// A copy that holds the same overrides.
    pub fn copied(&self) -> (r: LineStyle)
        ensures
            r@ == self@,
    {
        LineStyle {
            fg_color: copy_text(&self.fg_color),
            bg_color: copy_text(&self.bg_color),
            font_size: self.font_size,
        }
    }
}

impl StyledLine {
    /// A line with no style override.
    pub fn plain(text: String) -> (r: StyledLine)
        ensures
            r@ == plain_line(text@),
    {
        StyledLine { text, style: LineStyle::default() }
    }

    /// A line with the given style.
    pub fn styled(text: String, style: LineStyle) -> (r: StyledLine)
        ensures
            r@ == (LineView { text: text@, style: style@ }),
    {
        StyledLine { text, style }
    }

    /// A copy that holds the same text and style.
    pub fn copied(&self) -> (r: StyledLine)
        ensures
            r@ == self@,
    {
        StyledLine { text: self.text.clone(), style: self.style.copied() }
    }
}

impl From<String> for StyledLine {
    fn from(text: String) -> (r: StyledLine) {
        StyledLine {
            text,
            style: LineStyle { fg_color: None, bg_color: None, font_size: None },
        }
    }
}

impl vstd::std_specs::convert::FromSpecImpl<String> for StyledLine {
    open spec fn obeys_from_spec() -> bool {
        true
    }

    open spec fn from_spec(text: String) -> StyledLine {
        StyledLine {
            text,
            style: LineStyle { fg_color: None, bg_color: None, font_size: None },
        }
    }
}

} // verus!

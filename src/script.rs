//! What a script module hands back, independent of the scripting runtime,
//! and how it becomes styled lines.

use vstd::prelude::*;
use crate::styled::{LineStyle, LineView, StyledLine, StyleView, lines_view, opt_text, plain_line, copy_text};

verus! {

/// A map-like value with the fields a styled line is read from. A field
/// holds `None` where the script left it out or gave it another type. The
/// font size is in hundredths of a point.
#[derive(Debug, Clone, PartialEq, Eq)]
pub struct ScriptRecord {
    pub text: Option<String>,
    pub fg_color: Option<String>,
    pub bg_color: Option<String>,
    pub font_size: Option<u32>,
}

/// One value returned by a script.
#[derive(Debug, Clone, PartialEq, Eq)]
pub enum ScriptItem {
    /// A string: one line per line of text.
    Text(String),
    /// A map-like value: one styled line.
    Record(ScriptRecord),
    /// Any other value, as the runtime writes it out.
    Other(String),
}

/// The whole result of a script call: one value, or a list of them.
#[derive(Debug, Clone, PartialEq, Eq)]
pub enum ScriptValue {
    Single(ScriptItem),
    List(Vec<ScriptItem>),
}

/// The index of the first `'\n'` in `s`, or `s.len()` if there is none.
pub open spec fn first_newline(s: Seq<char>) -> nat
    decreases s.len(),
{
    if s.len() == 0 {
        0
    } else if s[0] == '\n' {
        0
    } else {
        1 + first_newline(s.drop_first())
    }
}

/// `l` without one trailing `'\r'`.
pub open spec fn strip_cr(l: Seq<char>) -> Seq<char> {
    if l.len() > 0 && l.last() == '\r' {
        l.drop_last()
    } else {
        l
    }
}

/// The lines of `s`: split at each `'\n'`, with a `'\r'` right before it
/// removed; a final line ending adds no empty line, and the empty text has
/// no lines.
pub open spec fn text_lines(s: Seq<char>) -> Seq<Seq<char>>
    decreases s.len(),
{
    if s.len() == 0 {
        seq![]
    } else {
        let k = first_newline(s);
        if k >= s.len() {
            seq![s]
        } else {
            seq![strip_cr(s.take(k as int))] + text_lines(s.skip((k + 1) as int))
        }
    }
}

/// Relies on `str::lines`: lines end at `\n` or `\r\n`, the terminators are
/// dropped, and a final line ending is optional.
#[verifier::external_body]
fn split_lines(s: &str) -> (r: Vec<String>)
    ensures
        r@.map_values(|l: String| l@) == text_lines(s@),
{
    s.lines().map(|l| l.to_string()).collect()
}

/// The style a record describes.
pub open spec fn record_style(r: ScriptRecord) -> StyleView {
    StyleView { fg_color: opt_text(r.fg_color), bg_color: opt_text(r.bg_color), font_size: r.font_size }
}

/// The lines one value stands for.
pub open spec fn item_lines(item: ScriptItem) -> Seq<LineView> {
    match item {
        ScriptItem::Text(s) => text_lines(s@).map_values(|l: Seq<char>| plain_line(l)),
        ScriptItem::Record(r) => seq![
            LineView {
                text: match r.text {
                    Some(t) => t@,
                    None => Seq::empty(),
                },
                style: record_style(r),
            },
        ],
        ScriptItem::Other(s) => seq![plain_line(s@)],
    }
}

/// The lines a script's result stands for: a list gives the lines of its
/// items, in order.
pub open spec fn value_lines(v: ScriptValue) -> Seq<LineView> {
    match v {
        ScriptValue::Single(item) => item_lines(item),
        ScriptValue::List(items) => items@.map_values(|i: ScriptItem| item_lines(i)).flatten(),
    }
}

/// The lines of one value.
pub fn decode_item(item: &ScriptItem) -> (r: Vec<StyledLine>)
    ensures
        lines_view(r@) == item_lines(*item),
{
    match item {
        ScriptItem::Text(s) => {
            let parts = split_lines(s.as_str());
            let ghost want = text_lines(s@).map_values(|l: Seq<char>| plain_line(l));
            let mut out: Vec<StyledLine> = Vec::new();
            let mut i: usize = 0;
            while i < parts.len()
                invariant
                    i <= parts@.len(),
                    parts@.map_values(|l: String| l@) == text_lines(s@),
                    want == text_lines(s@).map_values(|l: Seq<char>| plain_line(l)),
                    lines_view(out@) =~= want.take(i as int),
                decreases parts@.len() - i,
            {
                assert(parts@.map_values(|l: String| l@)[i as int] == parts@[i as int]@);
                assert(want[i as int] == plain_line(parts@[i as int]@));
                let ghost before = out@;
                out.push(StyledLine::plain(parts[i].clone()));
                i = i + 1;
                assert(lines_view(out@) =~= lines_view(before).push(want[i - 1]));
                assert(want.take(i as int) =~= want.take(i - 1).push(want[i - 1]));
            }
            assert(want.take(i as int) =~= want);
            out
        },
        ScriptItem::Record(rec) => {
            let text = match &rec.text {
                Some(t) => t.clone(),
                None => String::new(),
            };
            let style = LineStyle {
                fg_color: copy_text(&rec.fg_color),
                bg_color: copy_text(&rec.bg_color),
                font_size: rec.font_size,
            };
            let out = vec![StyledLine::styled(text, style)];
            assert(lines_view(out@) =~= item_lines(*item));
            out
        },
        ScriptItem::Other(s) => {
            let out = vec![StyledLine::plain(s.clone())];
            assert(lines_view(out@) =~= item_lines(*item));
            out
        },
    }
}

/// Turns a script's result into lines: a string gives one line per line of
/// text, a record one styled line, anything else one line of its written
/// form; a list gives the lines of its items in order.
pub fn decode(value: &ScriptValue) -> (r: Vec<StyledLine>)
    ensures
        lines_view(r@) == value_lines(*value),
{
    match value {
        ScriptValue::Single(item) => decode_item(item),
        ScriptValue::List(items) => {
            let ghost parts = items@.map_values(|i: ScriptItem| item_lines(i));
            let mut out: Vec<StyledLine> = Vec::new();
            let mut k: usize = 0;
            while k < items.len()
                invariant
                    k <= items@.len(),
                    parts == items@.map_values(|i: ScriptItem| item_lines(i)),
                    lines_view(out@) == parts.take(k as int).flatten(),
                decreases items@.len() - k,
            {
                let mut more = decode_item(&items[k]);
                let ghost before = out@;
                let ghost added = more@;
                out.append(&mut more);
                proof {
                    assert(lines_view(out@) =~= lines_view(before) + lines_view(added));
                    assert(parts.take(k + 1) =~= parts.take(k as int).push(parts[k as int]));
                    parts.take(k as int).lemma_flatten_push(parts[k as int]);
                }
                k = k + 1;
            }
            assert(parts.take(k as int) =~= parts);
            out
        },
    }
}

} // verus!

//! The drawing model: colors, styles, and styled runs of text.
//!
//! The library decides *what* to draw; these types carry that decision to
//! the caller, which maps them onto whatever terminal backend it uses.

use vstd::prelude::*;

verus! {

/// The fixed palette the dashboard draws with.
#[derive(Clone, Copy, Debug, PartialEq, Eq)]
pub enum Color {
    Black,
    White,
    Gray,
    Cyan,
    Green,
    Yellow,
    Red,
    Magenta,
    Blue,
    Rgb(u8, u8, u8),
}

/// Foreground/background colors plus the two modifiers the dashboard uses.
#[derive(Clone, Copy, Debug, PartialEq, Eq)]
pub struct Style {
    pub fg: Option<Color>,
    pub bg: Option<Color>,
    pub bold: bool,
    pub reversed: bool,
}

/// A style with every field unset: unstyled text.
pub open spec fn spec_plain() -> Style {
    Style { fg: None, bg: None, bold: false, reversed: false }
}

/// A style that only sets the foreground color.
pub open spec fn spec_fg(c: Color) -> Style {
    Style { fg: Some(c), bg: None, bold: false, reversed: false }
}

/// A style that sets the foreground color and the bold modifier.
pub open spec fn spec_fg_bold(c: Color) -> Style {
    Style { fg: Some(c), bg: None, bold: true, reversed: false }
}

pub fn plain() -> (s: Style)
    ensures
        s == spec_plain(),
{
    Style { fg: None, bg: None, bold: false, reversed: false }
}

pub fn fg(c: Color) -> (s: Style)
    ensures
        s == spec_fg(c),
{
    Style { fg: Some(c), bg: None, bold: false, reversed: false }
}

/// A style with only the bold modifier set.
pub open spec fn spec_bold() -> Style {
    Style { fg: None, bg: None, bold: true, reversed: false }
}

pub fn bold_style() -> (s: Style)
    ensures
        s == spec_bold(),
{
    Style { fg: None, bg: None, bold: true, reversed: false }
}

pub fn fg_bold(c: Color) -> (s: Style)
    ensures
        s == spec_fg_bold(c),
{
    Style { fg: Some(c), bg: None, bold: true, reversed: false }
}

/// One run of text drawn in one style.
#[derive(Clone, Debug, PartialEq, Eq)]
pub struct Span {
    pub text: String,
    pub style: Style,
}

/// The mathematical content of a `Span`: its characters and style.
#[verifier::ext_equal]
pub ghost struct SpanView {
    pub text: Seq<char>,
    pub style: Style,
}

impl View for Span {
    type V = SpanView;

    open spec fn view(&self) -> SpanView {
        SpanView { text: self.text@, style: self.style }
    }
}

/// The views of a sequence of spans, in order.
pub open spec fn spec_span_views(spans: Seq<Span>) -> Seq<SpanView> {
    Seq::new(spans.len(), |i: int| spans[i]@)
}

/// One line of a panel: spans drawn left to right.
#[derive(Clone, Debug, PartialEq, Eq)]
pub struct Line {
    pub spans: Vec<Span>,
}

impl View for Line {
    type V = Seq<SpanView>;

    open spec fn view(&self) -> Seq<SpanView> {
        spec_span_views(self.spans@)
    }
}

/// One row of the process table: one styled cell per column, plus a style
/// for the row as a whole (background shade, top-row highlight).
#[derive(Clone, Debug, PartialEq, Eq)]
pub struct Row {
    pub cells: Vec<Span>,
    pub style: Style,
}

/// The mathematical content of a `Row`.
#[verifier::ext_equal]
pub ghost struct RowView {
    pub cells: Seq<SpanView>,
    pub style: Style,
}

impl View for Row {
    type V = RowView;

    open spec fn view(&self) -> RowView {
        RowView { cells: spec_span_views(self.cells@), style: self.style }
    }
}

/// Builds a span over the characters of `text`.
pub fn span_from_chars(text: &Vec<char>, style: Style) -> (s: Span)
    ensures
        s@ == (SpanView { text: text@, style }),
{
    Span { text: crate::helpers::chars_to_string(text), style }
}

/// Builds a span over an existing string.
pub fn span_from_str(text: &str, style: Style) -> (s: Span)
    ensures
        s@ == (SpanView { text: text@, style }),
{
    Span { text: text.to_owned(), style }
}

} // verus!

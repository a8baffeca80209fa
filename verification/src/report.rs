//! The building blocks of a textual report: styled pieces of text and
//! numbers, laid out in lines. A report says what is shown and how; the
//! front end turns numbers into digits and styles into escape codes.

use vstd::prelude::*;
use crate::model::Binary64;

verus! {

/// How a piece of text is to appear on a terminal.
#[derive(Debug, Clone, Copy, PartialEq, Eq, Structural)]
pub enum Style {
    Plain,
    CyanBold,
    Cyan,
    GreenBold,
    Green,
    RedBold,
    YellowBold,
    Blue,
    Dimmed,
}

/// One piece of a line.
#[derive(Debug, Clone)]
pub enum Span {
    /// A text in a style.
    Text { text: String, style: Style },
    /// A number, shown in fixed notation with `places` decimals.
    Fixed { value: Binary64, places: u8 },
    /// The difference `to - from`, shown in fixed notation with `places`
    /// decimals.
    FixedDifference { from: Binary64, to: Binary64, places: u8 },
}

/// What a piece of a line is, as mathematics sees it.
pub enum SpanView {
    Text { text: Seq<char>, style: Style },
    Fixed { value: Binary64, places: u8 },
    FixedDifference { from: Binary64, to: Binary64, places: u8 },
}

impl View for Span {
    type V = SpanView;

    open spec fn view(&self) -> SpanView {
        match self {
            Span::Text { text, style } => SpanView::Text { text: text@, style: *style },
            Span::Fixed { value, places } => SpanView::Fixed { value: *value, places: *places },
            Span::FixedDifference { from, to, places } => SpanView::FixedDifference {
                from: *from,
                to: *to,
                places: *places,
            },
        }
    }
}

/// One line of a report: its pieces from left to right. A line without
/// pieces is a blank line.
#[derive(Debug, Clone)]
pub struct Line {
    pub spans: Vec<Span>,
}

/// The views of a run of pieces, in order.
pub open spec fn span_views(spans: Seq<Span>) -> Seq<SpanView> {
    Seq::new(spans.len(), |i: int| spans[i]@)
}

impl View for Line {
    type V = Seq<SpanView>;

    open spec fn view(&self) -> Seq<SpanView> {
        span_views(self.spans@)
    }
}

/// The views of a run of lines, in order.
pub open spec fn line_views(lines: Seq<Line>) -> Seq<Seq<SpanView>> {
    Seq::new(lines.len(), |i: int| lines[i]@)
}

/// A piece of unstyled text.
pub open spec fn text_span(text: Seq<char>) -> SpanView {
    SpanView::Text { text, style: Style::Plain }
}

/// A number in fixed notation.
pub open spec fn fixed_span(value: Binary64, places: u8) -> SpanView {
    SpanView::Fixed { value, places }
}

/// A line of one styled text.
pub open spec fn styled(text: Seq<char>, style: Style) -> Seq<SpanView> {
    seq![SpanView::Text { text, style }]
}

/// A line of one unstyled text.
pub open spec fn plain(text: Seq<char>) -> Seq<SpanView> {
    styled(text, Style::Plain)
}

/// The blank line.
pub open spec fn blank() -> Seq<SpanView> {
    Seq::empty()
}

/// A section title and the rule under it.
pub open spec fn heading(title: Seq<char>, rule: Seq<char>) -> Seq<Seq<SpanView>> {
    seq![styled(title, Style::CyanBold), styled(rule, Style::Cyan)]
}

impl Span {
    /// A piece of unstyled text.
    pub fn plain(text: &str) -> (r: Span)
        ensures
            r@ == text_span(text@),
    {
        Span::Text { text: String::from_str(text), style: Style::Plain }
    }

    /// A piece of text in a style.
    pub fn styled(text: &str, style: Style) -> (r: Span)
        ensures
            r@ == (SpanView::Text { text: text@, style }),
    {
        Span::Text { text: String::from_str(text), style }
    }
}

impl Line {
    /// The blank line.
    pub fn blank() -> (r: Line)
        ensures
            r@ == blank(),
    {
        let r = Line { spans: Vec::new() };
        r
    }

    /// A line of one styled text.
    pub fn styled(text: String, style: Style) -> (r: Line)
        ensures
            r@ == styled(text@, style),
    {
        let mut spans: Vec<Span> = Vec::new();
        spans.push(Span::Text { text, style });
        let r = Line { spans };
        r
    }

    /// A line of one unstyled text.
    pub fn plain(text: String) -> (r: Line)
        ensures
            r@ == plain(text@),
    {
        Line::styled(text, Style::Plain)
    }

    /// A line made of the given pieces.
    pub fn of(spans: Vec<Span>) -> (r: Line)
        ensures
            r@ == span_views(spans@),
    {
        Line { spans }
    }
}

/// Appends one line to a report.
pub fn push_line(out: &mut Vec<Line>, line: Line)
    ensures
        line_views(final(out)@) == line_views(old(out)@).push(line@),
{
    out.push(line);
}

/// Appends a section title and the rule under it to a report.
pub fn push_heading(out: &mut Vec<Line>, title: &str, rule: &str)
    ensures
        line_views(final(out)@) == line_views(old(out)@) + heading(title@, rule@),
{
    push_line(out, Line::styled(String::from_str(title), Style::CyanBold));
    push_line(out, Line::styled(String::from_str(rule), Style::Cyan));
}

/// Appends the lines of `more` to a report.
pub fn push_lines(out: &mut Vec<Line>, more: Vec<Line>)
    ensures
        line_views(final(out)@) == line_views(old(out)@) + line_views(more@),
{
    let mut more = more;
    let ghost added = more@;
    out.append(&mut more);
}

} // verus!

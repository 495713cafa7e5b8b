//! Text with colours, by lines.
use vstd::prelude::*;

use crate::dup::Dup;

verus! {

/// A colour.
#[derive(Debug, Clone, Copy, PartialEq, Eq, Structural)]
pub enum Color {
    Blue,
    Cyan,
    DarkGray,
    Gray,
    Green,
    Magenta,
    Red,
    Yellow,
}

/// How text looks: its colour, what is switched on, and what is switched off.
#[derive(Debug, Clone, Copy, PartialEq, Eq, Structural)]
pub struct Style {
    pub fg: Option<Color>,
    pub bold: bool,
    pub italic: bool,
    pub not_bold: bool,
    pub not_italic: bool,
}

/// How text looks that is not told otherwise.
pub open spec fn plain_style() -> Style {
    Style { fg: None, bold: false, italic: false, not_bold: false, not_italic: false }
}

/// How text looks in a colour.
pub open spec fn in_color(c: Color) -> Style {
    Style { fg: Some(c), ..plain_style() }
}

/// How bold text looks in a colour.
pub open spec fn bold_in(c: Color) -> Style {
    Style { bold: true, ..in_color(c) }
}

impl Default for Style {
    fn default() -> (r: Self)
        ensures
            r == plain_style(),
    {
        Style { fg: None, bold: false, italic: false, not_bold: false, not_italic: false }
    }
}

impl Style {
    /// How text looks in a colour.
    pub fn colored(c: Color) -> (r: Self)
        ensures
            r == in_color(c),
    {
        Style { fg: Some(c), bold: false, italic: false, not_bold: false, not_italic: false }
    }

    /// How bold text looks in a colour.
    pub fn bold(c: Color) -> (r: Self)
        ensures
            r == bold_in(c),
    {
        Style { fg: Some(c), bold: true, italic: false, not_bold: false, not_italic: false }
    }
}

/// The model of `Span`.
#[verifier::ext_equal]
pub struct SpanView {
    pub text: Seq<char>,
    pub style: Style,
}

/// Text that looks the same throughout.
#[derive(Debug, PartialEq)]
pub struct Span {
    pub text: String,
    pub style: Style,
}

impl DeepView for Span {
    type V = SpanView;

    open spec fn deep_view(&self) -> SpanView {
        SpanView { text: self.text@, style: self.style }
    }
}

impl Dup for Span {
    fn dup(&self) -> (r: Self) {
        Span { text: self.text.clone(), style: self.style }
    }
}

/// Text in a style.
pub open spec fn styled(text: Seq<char>, style: Style) -> SpanView {
    SpanView { text, style }
}

impl Span {
    /// Text in a style.
    pub fn styled(text: &str, style: Style) -> (r: Self)
        ensures
            r.deep_view() == styled(text@, style),
    {
        Span { text: text.to_owned(), style }
    }

    /// Text that is not told otherwise.
    pub fn raw(text: &str) -> (r: Self)
        ensures
            r.deep_view() == styled(text@, plain_style()),
    {
        Span { text: text.to_owned(), style: Style::default() }
    }
}

/// A line of text.
#[derive(Debug, PartialEq)]
pub struct Line {
    pub spans: Vec<Span>,
}

impl DeepView for Line {
    type V = Seq<SpanView>;

    open spec fn deep_view(&self) -> Seq<SpanView> {
        self.spans.deep_view()
    }
}

impl Dup for Line {
    fn dup(&self) -> (r: Self) {
        Line { spans: self.spans.dup() }
    }
}

impl Line {
    /// A line with one piece of text.
    pub fn of(s: Span) -> (r: Self)
        ensures
            r.deep_view() == seq![s.deep_view()],
    {
        let mut v: Vec<Span> = Vec::new();
        let ghost x = s.deep_view();
        v.push(s);
        assert(v.deep_view() =~= seq![x]);
        Line { spans: v }
    }

    /// A line with two pieces of text.
    pub fn of_two(s: Span, t: Span) -> (r: Self)
        ensures
            r.deep_view() == seq![s.deep_view(), t.deep_view()],
    {
        let mut v: Vec<Span> = Vec::new();
        let ghost x = s.deep_view();
        let ghost y = t.deep_view();
        v.push(s);
        v.push(t);
        assert(v.deep_view() =~= seq![x, y]);
        Line { spans: v }
    }
}

} // verus!

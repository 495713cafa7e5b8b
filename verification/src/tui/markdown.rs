//! Markdown and differences between files, as lines with colours.
use vstd::prelude::*;
use vstd::string::*;
use pulldown_cmark::Event::{Code, End, HardBreak, Rule, SoftBreak, Start, Text};
use pulldown_cmark::TagEnd::{CodeBlock, Emphasis, Heading, Item, List, Paragraph, Strong};

use crate::dup::Dup;
use crate::text::cat;
use crate::text::line_list;
use crate::text::lines;
use crate::text::repeat;
use crate::text::repeated;
use crate::text::split;
use crate::text::split_list;
use crate::text::starts_with;
use crate::text::views;
use crate::tui::style::Color;
use crate::tui::style::Line;
use crate::tui::style::Span;
use crate::tui::style::SpanView;
use crate::tui::style::Style;
use crate::tui::style::bold_in;
use crate::tui::style::in_color;
use crate::tui::style::plain_style;
use crate::tui::style::styled;

verus! {

/// What a stretch of markdown is.
#[derive(Debug, Clone, Copy, PartialEq, Eq, Structural)]
pub enum MdTag {
    Heading,
    Paragraph,
    CodeBlock,
    List,
    Item,
    Emphasis,
    Strong,
    /// Anything else.
    Other,
}

/// The model of `MdEvent`.
pub enum MdEventView {
    Start(MdTag),
    End(MdTag),
    Text(Seq<char>),
    Code(Seq<char>),
    SoftBreak,
    HardBreak,
    Rule,
    Other,
}

/// What comes next in markdown.
#[derive(Debug, PartialEq)]
pub enum MdEvent {
    Start(MdTag),
    End(MdTag),
    Text(String),
    /// Code within a line.
    Code(String),
    /// The end of a line.
    SoftBreak,
    /// The end of a line that is asked for.
    HardBreak,
    Rule,
    /// Anything else.
    Other,
}

impl DeepView for MdEvent {
    type V = MdEventView;

    open spec fn deep_view(&self) -> MdEventView {
        match *self {
            MdEvent::Start(t) => MdEventView::Start(t),
            MdEvent::End(t) => MdEventView::End(t),
            MdEvent::Text(s) => MdEventView::Text(s@),
            MdEvent::Code(s) => MdEventView::Code(s@),
            MdEvent::SoftBreak => MdEventView::SoftBreak,
            MdEvent::HardBreak => MdEventView::HardBreak,
            MdEvent::Rule => MdEventView::Rule,
            MdEvent::Other => MdEventView::Other,
        }
    }
}

/// What `pulldown_cmark::Parser` finds in a text, in order.
pub uninterp spec fn markdown_events(text: Seq<char>) -> Seq<MdEventView>;

/// `pulldown_cmark::Parser` without extensions: what it finds in a text, in order. Each
/// kind of event and of tag that this module has a variant for is that variant; every
/// other kind is `Other`.
#[verifier::external_body]
fn read_markdown(text: &str) -> (r: Vec<MdEvent>)
    ensures
        r.deep_view() == markdown_events(text@),
{
    let tag = |t| match t {
        Heading(_) => MdTag::Heading,
        Paragraph => MdTag::Paragraph,
        CodeBlock => MdTag::CodeBlock,
        List(_) => MdTag::List,
        Item => MdTag::Item,
        Emphasis => MdTag::Emphasis,
        Strong => MdTag::Strong,
        _ => MdTag::Other,
    };
    let event = |e| match e {
        Start(t) => MdEvent::Start(tag(t.to_end())), End(t) => MdEvent::End(tag(t)),
        Text(s) => MdEvent::Text(s.to_string()), Code(s) => MdEvent::Code(s.to_string()),
        SoftBreak => MdEvent::SoftBreak, HardBreak => MdEvent::HardBreak, Rule => MdEvent::Rule, _ => MdEvent::Other };
    pulldown_cmark::Parser::new(text).map(event).collect()
}

// ---- lines ----

/// The model of `Page`.
#[verifier::ext_equal]
pub struct PageView {
    pub lines: Seq<Seq<SpanView>>,
    pub spans: Seq<SpanView>,
    pub style: Style,
    pub in_code: bool,
    pub depth: nat,
}

/// Lines that are being written.
pub struct Page {
    pub lines: Vec<Line>,
    /// The line that is not ended yet.
    pub spans: Vec<Span>,
    /// How text looks from here on.
    pub style: Style,
    pub in_code: bool,
    /// How deep lists are nested here.
    pub depth: usize,
}

impl DeepView for Page {
    type V = PageView;

    open spec fn deep_view(&self) -> PageView {
        PageView {
            lines: self.lines.deep_view(),
            spans: self.spans.deep_view(),
            style: self.style,
            in_code: self.in_code,
            depth: self.depth as nat,
        }
    }
}

/// A page with nothing on it.
pub open spec fn blank_page() -> PageView {
    PageView {
        lines: Seq::empty(),
        spans: Seq::empty(),
        style: plain_style(),
        in_code: false,
        depth: 0,
    }
}

/// A page whose line is ended, where there is anything on it.
pub open spec fn ended(p: PageView) -> PageView {
    if p.spans.len() == 0 {
        p
    } else {
        PageView { lines: p.lines.push(p.spans), spans: Seq::empty(), ..p }
    }
}

/// A page with a piece of text more.
pub open spec fn with_span(p: PageView, s: SpanView) -> PageView {
    PageView { spans: p.spans.push(s), ..p }
}

/// A page with lines of code more. Each is indented; empty ones only end the line
/// before.
pub open spec fn with_code(p: PageView, parts: Seq<Seq<char>>) -> PageView
    decreases parts.len(),
{
    if parts.len() == 0 {
        p
    } else {
        let before = with_code(p, parts.drop_last());
        let q = if parts.len() > 1 {
            ended(before)
        } else {
            before
        };
        if parts.last().len() == 0 {
            q
        } else {
            with_span(q, styled("  "@ + parts.last(), q.style))
        }
    }
}

/// What stands before an item of a list.
pub open spec fn bullet(depth: nat) -> Seq<char> {
    repeated(
        "  "@,
        if depth == 0 {
            0
        } else {
            (depth - 1) as nat
        },
    ) + "• "@
}

/// A page after what comes next.
pub open spec fn written(p: PageView, e: MdEventView) -> PageView {
    match e {
        MdEventView::Start(MdTag::Heading) => PageView { style: bold_in(Color::Cyan), ..ended(p) },
        MdEventView::End(MdTag::Heading) => PageView { style: plain_style(), ..ended(p) },
        MdEventView::Start(MdTag::Paragraph) => ended(p),
        MdEventView::End(MdTag::Paragraph) => ended(p),
        MdEventView::Start(MdTag::CodeBlock) => PageView {
            in_code: true,
            style: in_color(Color::Gray),
            ..ended(p)
        },
        MdEventView::End(MdTag::CodeBlock) => PageView {
            in_code: false,
            style: plain_style(),
            ..ended(p)
        },
        MdEventView::Start(MdTag::List) => PageView { depth: p.depth + 1, ..p },
        MdEventView::End(MdTag::List) => PageView {
            depth: if p.depth == 0 {
                0
            } else {
                (p.depth - 1) as nat
            },
            ..p
        },
        MdEventView::Start(MdTag::Item) => with_span(
            ended(p),
            styled(bullet(p.depth), plain_style()),
        ),
        MdEventView::End(MdTag::Item) => ended(p),
        MdEventView::Start(MdTag::Emphasis) => PageView {
            style: Style { italic: true, not_italic: false, ..p.style },
            ..p
        },
        MdEventView::End(MdTag::Emphasis) => PageView {
            style: Style { italic: false, not_italic: true, ..p.style },
            ..p
        },
        MdEventView::Start(MdTag::Strong) => PageView {
            style: Style { bold: true, not_bold: false, ..p.style },
            ..p
        },
        MdEventView::End(MdTag::Strong) => PageView {
            style: Style { bold: false, not_bold: true, ..p.style },
            ..p
        },
        MdEventView::Text(t) => if p.in_code {
            with_code(p, split_list(t, "\n"@))
        } else {
            with_span(p, styled(t, p.style))
        },
        MdEventView::Code(c) => with_span(p, styled(c, in_color(Color::Yellow))),
        MdEventView::SoftBreak => ended(p),
        MdEventView::HardBreak => ended(p),
        MdEventView::Rule => PageView {
            lines: ended(p).lines.push(seq![styled("─"@, plain_style())]),
            ..ended(p)
        },
        _ => p,
    }
}

/// The page that markdown comes to.
pub open spec fn page_of(s: Seq<MdEventView>) -> PageView
    decreases s.len(),
{
    if s.len() == 0 {
        blank_page()
    } else {
        written(page_of(s.drop_last()), s.last())
    }
}

/// The lines that markdown comes to.
pub open spec fn lines_of(s: Seq<MdEventView>) -> Seq<Seq<SpanView>> {
    ended(page_of(s)).lines
}

impl Page {
    fn blank() -> (r: Self)
        ensures
            r.deep_view() == blank_page(),
    {
        let r = Page {
            lines: Vec::new(),
            spans: Vec::new(),
            style: Style::default(),
            in_code: false,
            depth: 0,
        };
        assert(r.deep_view() =~= blank_page());
        r
    }

    fn end_line(&mut self)
        ensures
            final(self).deep_view() == ended(old(self).deep_view()),
    {
        let ghost p = self.deep_view();
        assert(p.spans.len() == self.spans@.len());
        if self.spans.len() > 0 {
            let mut taken: Vec<Span> = Vec::new();
            std::mem::swap(&mut taken, &mut self.spans);
            self.lines.push(Line { spans: taken });
            assert(self.lines.deep_view() =~= p.lines.push(p.spans));
            assert(self.spans.deep_view() =~= Seq::<SpanView>::empty());
        }
        assert(self.deep_view() =~= ended(p));
    }

    fn add(&mut self, s: Span)
        ensures
            final(self).deep_view() == with_span(old(self).deep_view(), s.deep_view()),
    {
        let ghost p = self.deep_view();
        let ghost x = s.deep_view();
        self.spans.push(s);
        assert(self.spans.deep_view() =~= p.spans.push(x));
    }

    fn add_code(&mut self, t: &str)
        ensures
            final(self).deep_view() == with_code(old(self).deep_view(), split_list(t@, "\n"@)),
    {
        let ghost p = self.deep_view();
        proof {
            reveal_strlit("\n");
        }
        let parts = split(t, "\n");
        let ghost all = split_list(t@, "\n"@);
        let mut i: usize = 0;
        while i < parts.len()
            invariant
                i <= parts@.len(),
                all == views(parts@),
                self.deep_view() == with_code(p, all.take(i as int)),
            decreases parts@.len() - i,
        {
            assert(all.take(i + 1).drop_last() =~= all.take(i as int));
            assert(all.take(i + 1).last() == parts@[i as int]@);
            if i > 0 {
                self.end_line();
            }
            if parts[i].as_str().unicode_len() > 0 {
                let l = cat("  ", parts[i].as_str());
                let style = self.style;
                self.add(Span { text: l, style });
            }
            i = i + 1;
        }
        assert(all.take(all.len() as int) =~= all);
    }

    fn write(&mut self, e: &MdEvent)
        requires
            old(self).depth < usize::MAX,
        ensures
            final(self).deep_view() == written(old(self).deep_view(), e.deep_view()),
            final(self).depth <= old(self).depth + 1,
    {
        let ghost p = self.deep_view();
        match e {
            MdEvent::Start(t) => match t {
                MdTag::Heading => {
                    self.end_line();
                    self.style = Style::bold(Color::Cyan);
                },
                MdTag::Paragraph => {
                    self.end_line();
                },
                MdTag::CodeBlock => {
                    self.end_line();
                    self.in_code = true;
                    self.style = Style::colored(Color::Gray);
                },
                MdTag::List => {
                    self.depth = self.depth + 1;
                },
                MdTag::Item => {
                    self.end_line();
                    let n: usize = if self.depth == 0 {
                        0
                    } else {
                        self.depth - 1
                    };
                    let pad = repeat("  ", n);
                    let b = cat(pad.as_str(), "• ");
                    self.add(Span { text: b, style: Style::default() });
                },
                MdTag::Emphasis => {
                    self.style.italic = true;
                    self.style.not_italic = false;
                },
                MdTag::Strong => {
                    self.style.bold = true;
                    self.style.not_bold = false;
                },
                MdTag::Other => {},
            },
            MdEvent::End(t) => match t {
                MdTag::Heading => {
                    self.end_line();
                    self.style = Style::default();
                },
                MdTag::Paragraph => {
                    self.end_line();
                },
                MdTag::CodeBlock => {
                    self.end_line();
                    self.in_code = false;
                    self.style = Style::default();
                },
                MdTag::List => {
                    if self.depth > 0 {
                        self.depth = self.depth - 1;
                    }
                },
                MdTag::Item => {
                    self.end_line();
                },
                MdTag::Emphasis => {
                    self.style.italic = false;
                    self.style.not_italic = true;
                },
                MdTag::Strong => {
                    self.style.bold = false;
                    self.style.not_bold = true;
                },
                MdTag::Other => {},
            },
            MdEvent::Text(t) => {
                if self.in_code {
                    proof {
                        lemma_with_code_keeps(p, split_list(t@, "\n"@));
                    }
                    self.add_code(t.as_str());
                } else {
                    let style = self.style;
                    self.add(Span { text: t.clone(), style });
                }
            },
            MdEvent::Code(c) => {
                self.add(Span { text: c.clone(), style: Style::colored(Color::Yellow) });
            },
            MdEvent::SoftBreak => {
                self.end_line();
            },
            MdEvent::HardBreak => {
                self.end_line();
            },
            MdEvent::Rule => {
                self.end_line();
                let ghost q = self.deep_view();
                let l = Line::of(Span::raw("─"));
                let ghost lv = l.deep_view();
                self.lines.push(l);
                assert(self.lines.deep_view() =~= q.lines.push(lv));
            },
            MdEvent::Other => {},
        }
        assert(self.deep_view() =~= written(p, e.deep_view()));
    }
}

proof fn lemma_with_code_keeps(p: PageView, parts: Seq<Seq<char>>)
    ensures
        with_code(p, parts).depth == p.depth,
        with_code(p, parts).style == p.style,
        with_code(p, parts).in_code == p.in_code,
    decreases parts.len(),
{
    if parts.len() > 0 {
        lemma_with_code_keeps(p, parts.drop_last());
    }
}

/// The lines that markdown comes to.
pub fn render_events(events: &Vec<MdEvent>) -> (r: Vec<Line>)
    ensures
        r.deep_view() == lines_of(events.deep_view()),
{
    let ghost all = events.deep_view();
    let mut p = Page::blank();
    let mut i: usize = 0;
    while i < events.len()
        invariant
            i <= events@.len(),
            all == events.deep_view(),
            p.deep_view() == page_of(all.take(i as int)),
            p.depth <= i,
        decreases events@.len() - i,
    {
        assert(all.take(i + 1).drop_last() =~= all.take(i as int));
        assert(all.take(i + 1).last() == events@[i as int].deep_view());
        p.write(&events[i]);
        i = i + 1;
    }
    assert(all.take(all.len() as int) =~= all);
    p.end_line();
    p.lines
}

/// The lines that a text in markdown comes to.
pub fn markdown_to_lines(text: &str) -> (r: Vec<Line>)
    ensures
        r.deep_view() == lines_of(markdown_events(text@)),
{
    let events = read_markdown(text);
    render_events(&events)
}

/// A line of a tool's output: what was added is green, what was taken away is red.
pub open spec fn diff_line(l: Seq<char>) -> Seq<SpanView> {
    seq![
        styled(
            "  "@ + l,
            in_color(
                if "+"@.is_prefix_of(l) {
                    Color::Green
                } else if "-"@.is_prefix_of(l) {
                    Color::Red
                } else {
                    Color::DarkGray
                },
            ),
        ),
    ]
}

/// A tool's output, line by line.
pub open spec fn diff_lines_of(text: Seq<char>) -> Seq<Seq<SpanView>> {
    line_list(text).map_values(|l: Seq<char>| diff_line(l))
}

/// A tool's output, line by line.
pub fn diff_lines(text: &str) -> (r: Vec<Line>)
    ensures
        r.deep_view() == diff_lines_of(text@),
{
    let all = lines(text);
    let mut out: Vec<Line> = Vec::new();
    let mut i: usize = 0;
    while i < all.len()
        invariant
            i <= all@.len(),
            out@.len() == i,
            forall|k: int| 0 <= k < i ==> (#[trigger] out@[k]).deep_view() == diff_line(all@[k]@),
        decreases all@.len() - i,
    {
        let l = all[i].as_str();
        let c = if starts_with(l, "+") {
            Color::Green
        } else if starts_with(l, "-") {
            Color::Red
        } else {
            Color::DarkGray
        };
        let t = cat("  ", l);
        out.push(Line::of(Span { text: t, style: Style::colored(c) }));
        i = i + 1;
    }
    assert(out.deep_view() =~= diff_lines_of(text@));
    out
}

/// What stands before what the model says.
pub open spec fn model_mark() -> SpanView {
    styled("tao "@, bold_in(Color::Green))
}

/// What the model says: its first line is marked.
pub open spec fn marked(md: Seq<Seq<SpanView>>) -> Seq<Seq<SpanView>> {
    if md.len() == 0 {
        seq![seq![model_mark()]]
    } else {
        md.update(0, seq![model_mark()] + md[0])
    }
}

/// Mark what the model says.
pub fn mark_lines(md: Vec<Line>) -> (r: Vec<Line>)
    ensures
        r.deep_view() == marked(md.deep_view()),
{
    let ghost before = md.deep_view();
    let mut md = md;
    if md.len() == 0 {
        let l = Line::of(Span::styled("tao ", Style::bold(Color::Green)));
        let ghost lv = l.deep_view();
        md.push(l);
        assert(md.deep_view() =~= seq![lv]);
    } else {
        let mut spans: Vec<Span> = Vec::new();
        spans.push(Span::styled("tao ", Style::bold(Color::Green)));
        let ghost head = spans.deep_view();
        let mut rest = md[0].spans.dup();
        let ghost tail = rest.deep_view();
        spans.append(&mut rest);
        assert(spans.deep_view() =~= head + tail);
        assert(head =~= seq![model_mark()]);
        assert(tail == before[0]);
        md.set(0, Line { spans });
        assert(md.deep_view() =~= before.update(0, seq![model_mark()] + before[0]));
    }
    md
}

/// What the model says, by lines.
pub fn assistant_lines(text: &str) -> (r: Vec<Line>)
    ensures
        r.deep_view() == marked(lines_of(markdown_events(text@))),
{
    mark_lines(markdown_to_lines(text))
}

// ---- laws ----

/// Whether no line is empty.
pub open spec fn no_line_is_empty(s: Seq<Seq<SpanView>>) -> bool {
    forall|i: int| 0 <= i < s.len() ==> (#[trigger] s[i]).len() > 0
}

proof fn lemma_with_code_lines(p: PageView, parts: Seq<Seq<char>>)
    requires
        no_line_is_empty(p.lines),
    ensures
        no_line_is_empty(with_code(p, parts).lines),
    decreases parts.len(),
{
    if parts.len() > 0 {
        lemma_with_code_lines(p, parts.drop_last());
    }
}

proof fn lemma_page_lines(s: Seq<MdEventView>)
    ensures
        no_line_is_empty(page_of(s).lines),
    decreases s.len(),
{
    if s.len() > 0 {
        lemma_page_lines(s.drop_last());
        let p = page_of(s.drop_last());
        if let MdEventView::Text(t) = s.last() {
            lemma_with_code_lines(p, split_list(t, "\n"@));
        }
    }
}

/// Markdown makes no empty lines, whatever it holds.
pub proof fn law_lines_hold_something(s: Seq<MdEventView>)
    ensures
        no_line_is_empty(lines_of(s)),
        no_line_is_empty(marked(lines_of(s))),
{
    lemma_page_lines(s);
}

/// The lines that are written stay as they are: what comes later only adds to them.
pub proof fn law_written_lines_stay(p: PageView, e: MdEventView)
    ensures
        p.lines.is_prefix_of(written(p, e).lines),
{
    if let MdEventView::Text(t) = e {
        lemma_with_code_prefix(p, split_list(t, "\n"@));
    }
}

proof fn lemma_with_code_prefix(p: PageView, parts: Seq<Seq<char>>)
    ensures
        p.lines.is_prefix_of(with_code(p, parts).lines),
    decreases parts.len(),
{
    if parts.len() > 0 {
        lemma_with_code_prefix(p, parts.drop_last());
        let b = with_code(p, parts.drop_last()).lines;
        let c = with_code(p, parts).lines;
        assert(b.is_prefix_of(c));
        assert(c.take(p.lines.len() as int) =~= p.lines) by {
            assert(b =~= c.take(b.len() as int));
        }
    }
}

} // verus!

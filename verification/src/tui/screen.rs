//! What the screen shows.
use vstd::prelude::*;
use vstd::string::*;

use crate::permission::PermissionMode;
use crate::show::kind_words;
use crate::show::mode_words;
use crate::show::show_kind;
use crate::show::show_mode;
use crate::text::cat3;
use crate::text::cat;
use crate::text::join;
use crate::text::joined;
use crate::text::views;
use crate::tui::markdown::assistant_lines;
use crate::tui::markdown::diff_lines;
use crate::tui::markdown::diff_lines_of;
use crate::tui::markdown::lines_of;
use crate::tui::markdown::markdown_events;
use crate::tui::markdown::marked;
use crate::tui::state::HistoryCell;
use crate::tui::state::HistoryCellView;
use crate::tui::state::PendingApproval;
use crate::tui::state::PendingApprovalView;
use crate::tui::state::status_view;
use crate::tui::style::Color;
use crate::tui::style::Line;
use crate::tui::style::Span;
use crate::tui::style::SpanView;
use crate::tui::style::Style;
use crate::tui::style::bold_in;
use crate::tui::style::in_color;
use crate::tui::style::plain_style;
use crate::tui::style::styled;

verus! {

/// What a picture of the screen is made from.
pub struct RenderState<'a> {
    pub input: &'a str,
    pub history: &'a Vec<HistoryCell>,
    pub live_text: &'a str,
    pub tool_status: &'a Option<(String, bool)>,
    pub running: bool,
    pub error: &'a Option<String>,
    pub model: &'a str,
    pub mode: PermissionMode,
    pub pending_approval: &'a Option<PendingApproval>,
}

/// A window over the screen.
pub struct Popup {
    pub title: Span,
    pub lines: Vec<Line>,
}

/// What the screen shows.
pub struct Screen {
    /// The past, and what the model is saying.
    pub history: Vec<Line>,
    pub status: Line,
    /// What stands over the input.
    pub title: Span,
    pub input: String,
    /// How many characters before the cursor, where there is one.
    pub cursor: Option<usize>,
    /// What stands over the last line of the past.
    pub error: Option<Line>,
    pub popup: Option<Popup>,
}

// ---- the past ----

/// A part of the past, by lines.
pub open spec fn cell_lines(c: HistoryCellView) -> Seq<Seq<SpanView>> {
    match c {
        HistoryCellView::User(t) => seq![
            seq![styled("你 "@, bold_in(Color::Cyan)), styled(t, plain_style())],
        ],
        HistoryCellView::Assistant(t) => marked(lines_of(markdown_events(t))),
        HistoryCellView::Tool(t) => diff_lines_of(t),
    }
}

/// The past, by lines.
pub open spec fn past_lines(s: Seq<HistoryCellView>) -> Seq<Seq<SpanView>>
    decreases s.len(),
{
    if s.len() == 0 {
        Seq::empty()
    } else {
        past_lines(s.drop_last()) + cell_lines(s.last())
    }
}

/// The past and what the model is saying, by lines; where there is nothing yet, a
/// word of welcome.
pub open spec fn history_lines(s: Seq<HistoryCellView>, live: Seq<char>) -> Seq<Seq<SpanView>> {
    if s.len() == 0 && live.len() == 0 {
        seq![
            seq![
                styled(
                    "tao 已就绪。输入任务后按 Enter 发送。Ctrl+C/Ctrl+D 退出。"@,
                    in_color(Color::DarkGray),
                ),
            ],
        ]
    } else if live.len() == 0 {
        past_lines(s)
    } else {
        past_lines(s) + marked(lines_of(markdown_events(live)))
    }
}

fn show_cell(c: &HistoryCell) -> (r: Vec<Line>)
    ensures
        r.deep_view() == cell_lines(c.deep_view()),
{
    match c {
        HistoryCell::User(t) => {
            let l = Line::of_two(
                Span::styled("你 ", Style::bold(Color::Cyan)),
                Span::raw(t.as_str()),
            );
            let ghost lv = l.deep_view();
            let mut v: Vec<Line> = Vec::new();
            v.push(l);
            assert(v.deep_view() =~= seq![lv]);
            v
        },
        HistoryCell::Assistant(t) => assistant_lines(t.as_str()),
        HistoryCell::Tool(t) => diff_lines(t.as_str()),
    }
}

fn show_history(cells: &Vec<HistoryCell>, live: &str) -> (r: Vec<Line>)
    ensures
        r.deep_view() == history_lines(cells.deep_view(), live@),
{
    let ghost all = cells.deep_view();
    assert(all.len() == cells@.len());
    let mut out: Vec<Line> = Vec::new();
    assert(out.deep_view() =~= Seq::<Seq<SpanView>>::empty());
    if cells.len() == 0 && live.unicode_len() == 0 {
        let l = Line::of(
            Span::styled(
                "tao 已就绪。输入任务后按 Enter 发送。Ctrl+C/Ctrl+D 退出。",
                Style::colored(Color::DarkGray),
            ),
        );
        let ghost lv = l.deep_view();
        out.push(l);
        assert(out.deep_view() =~= seq![lv]);
        return out;
    }
    let mut i: usize = 0;
    while i < cells.len()
        invariant
            i <= cells@.len(),
            all == cells.deep_view(),
            out.deep_view() == past_lines(all.take(i as int)),
        decreases cells@.len() - i,
    {
        assert(all.take(i + 1).drop_last() =~= all.take(i as int));
        assert(all.take(i + 1).last() == cells@[i as int].deep_view());
        let ghost before = out.deep_view();
        let mut more = show_cell(&cells[i]);
        let ghost mv = more.deep_view();
        out.append(&mut more);
        assert(out.deep_view() =~= before + mv);
        i = i + 1;
    }
    assert(all.take(all.len() as int) =~= all);
    if live.unicode_len() > 0 {
        let ghost before = out.deep_view();
        let mut more = assistant_lines(live);
        let ghost mv = more.deep_view();
        out.append(&mut more);
        assert(out.deep_view() =~= before + mv);
    }
    out
}

// ---- the status line ----

/// The colour of a mode.
pub open spec fn mode_color(m: PermissionMode) -> Color {
    match m {
        PermissionMode::Bypass => Color::Red,
        PermissionMode::Plan => Color::Magenta,
        PermissionMode::AcceptEdits => Color::Green,
        PermissionMode::Default => Color::Yellow,
    }
}

fn color_of_mode(m: PermissionMode) -> (r: Color)
    ensures
        r == mode_color(m),
{
    match m {
        PermissionMode::Bypass => Color::Red,
        PermissionMode::Plan => Color::Magenta,
        PermissionMode::AcceptEdits => Color::Green,
        PermissionMode::Default => Color::Yellow,
    }
}

/// The status line: the model, the mode, whether a turn runs, and the last tool.
pub open spec fn status_line(
    model: Seq<char>,
    mode: PermissionMode,
    running: bool,
    tool: Option<(Seq<char>, bool)>,
) -> Seq<SpanView> {
    let bar = styled(" │ "@, plain_style());
    Seq::empty().push(styled(" "@ + model + " "@, in_color(Color::Yellow))).push(bar).push(
        styled(" "@ + mode_words(mode) + " "@, bold_in(mode_color(mode))),
    ).push(bar).push(
        if running {
            styled("● working"@, in_color(Color::Blue))
        } else {
            styled("○ idle"@, in_color(Color::DarkGray))
        },
    ).push(bar).push(
        match tool {
            Some((t, ok)) => styled(
                t,
                in_color(
                    if ok {
                        Color::Green
                    } else {
                        Color::Red
                    },
                ),
            ),
            None => styled(""@, plain_style()),
        },
    )
}

fn put(v: &mut Vec<Span>, s: Span)
    ensures
        final(v).deep_view() == old(v).deep_view().push(s.deep_view()),
{
    let ghost before = v.deep_view();
    let ghost x = s.deep_view();
    v.push(s);
    assert(v.deep_view() =~= before.push(x));
}

fn show_status(model: &str, mode: PermissionMode, running: bool, tool: &Option<(String, bool)>) -> (r:
    Line)
    ensures
        r.deep_view() == status_line(model@, mode, running, status_view(*tool)),
{
    let mut v: Vec<Span> = Vec::new();
    assert(v.deep_view() =~= Seq::<SpanView>::empty());
    let m = cat3(" ", model, " ");
    put(&mut v, Span { text: m, style: Style::colored(Color::Yellow) });
    put(&mut v, Span::raw(" │ "));
    let w = cat3(" ", show_mode(mode), " ");
    put(&mut v, Span { text: w, style: Style::bold(color_of_mode(mode)) });
    put(&mut v, Span::raw(" │ "));
    if running {
        put(&mut v, Span::styled("● working", Style::colored(Color::Blue)));
    } else {
        put(&mut v, Span::styled("○ idle", Style::colored(Color::DarkGray)));
    }
    put(&mut v, Span::raw(" │ "));
    match tool {
        Some((t, ok)) => {
            let c = if *ok {
                Color::Green
            } else {
                Color::Red
            };
            put(&mut v, Span::styled(t.as_str(), Style::colored(c)));
        },
        None => {
            put(&mut v, Span::raw(""));
        },
    }
    Line { spans: v }
}

// ---- the window ----

/// What stands before the keys that answer.
pub open spec fn gray(t: Seq<char>) -> SpanView {
    styled(t, in_color(Color::DarkGray))
}

/// The keys that answer a request for approval.
pub open spec fn answer_keys() -> Seq<SpanView> {
    Seq::empty().push(styled("y"@, bold_in(Color::Green))).push(styled("=批准  "@, plain_style())).push(
        styled("s"@, bold_in(Color::Green)),
    ).push(styled("=本次+会话  "@, plain_style())).push(styled("n"@, bold_in(Color::Red))).push(
        styled("=拒绝  "@, plain_style()),
    ).push(styled("a"@, bold_in(Color::Red))).push(styled("=中止"@, plain_style()))
}

/// What is asked of the user.
pub open spec fn popup_lines(p: PendingApprovalView) -> Seq<Seq<SpanView>> {
    let first = Seq::empty().push(seq![gray("工具: "@), styled(p.tool, plain_style())]);
    let second = match p.command {
        Some(c) => first.push(seq![gray("命令: "@), styled(joined(c, " "@), plain_style())]),
        None => first,
    };
    let third = match p.pattern_suggestion {
        Some(s) => second.push(seq![gray("建议规则: "@), styled(s, in_color(Color::Cyan))]),
        None => second,
    };
    third.push(seq![styled(""@, plain_style())]).push(answer_keys())
}

/// What stands over what is asked of the user.
pub open spec fn popup_title(p: PendingApprovalView) -> SpanView {
    styled(" 审批请求 "@ + kind_words(p.kind) + " "@, in_color(Color::Yellow))
}

fn put_line(v: &mut Vec<Line>, l: Line)
    ensures
        final(v).deep_view() == old(v).deep_view().push(l.deep_view()),
{
    let ghost before = v.deep_view();
    let ghost x = l.deep_view();
    v.push(l);
    assert(v.deep_view() =~= before.push(x));
}

fn show_popup(p: &PendingApproval) -> (r: Popup)
    ensures
        r.title.deep_view() == popup_title(p.deep_view()),
        r.lines.deep_view() == popup_lines(p.deep_view()),
{
    let dark = Style::colored(Color::DarkGray);
    let mut v: Vec<Line> = Vec::new();
    assert(v.deep_view() =~= Seq::<Seq<SpanView>>::empty());
    put_line(&mut v, Line::of_two(Span::styled("工具: ", dark), Span::raw(p.tool.as_str())));
    match &p.command {
        Some(c) => {
            assert(views(c@) =~= c.deep_view());
            let t = join(c, " ");
            put_line(&mut v, Line::of_two(Span::styled("命令: ", dark), Span::raw(t.as_str())));
        },
        None => {},
    }
    match &p.pattern_suggestion {
        Some(s) => {
            put_line(
                &mut v,
                Line::of_two(
                    Span::styled("建议规则: ", dark),
                    Span::styled(s.as_str(), Style::colored(Color::Cyan)),
                ),
            );
        },
        None => {},
    }
    put_line(&mut v, Line::of(Span::raw("")));
    let mut k: Vec<Span> = Vec::new();
    assert(k.deep_view() =~= Seq::<SpanView>::empty());
    put(&mut k, Span::styled("y", Style::bold(Color::Green)));
    put(&mut k, Span::raw("=批准  "));
    put(&mut k, Span::styled("s", Style::bold(Color::Green)));
    put(&mut k, Span::raw("=本次+会话  "));
    put(&mut k, Span::styled("n", Style::bold(Color::Red)));
    put(&mut k, Span::raw("=拒绝  "));
    put(&mut k, Span::styled("a", Style::bold(Color::Red)));
    put(&mut k, Span::raw("=中止"));
    put_line(&mut v, Line { spans: k });
    let t = cat3(" 审批请求 ", show_kind(p.kind), " ");
    Popup { title: Span { text: t, style: Style::colored(Color::Yellow) }, lines: v }
}

// ---- all of it ----

/// What the screen shows.
pub fn draw(s: &RenderState) -> (r: Screen)
    ensures
        r.history.deep_view() == history_lines(s.history.deep_view(), s.live_text@),
        r.status.deep_view() == status_line(
            s.model@,
            s.mode,
            s.running,
            status_view(*s.tool_status),
        ),
        r.title.deep_view() == styled(
            if s.running {
                " (running, Esc 不可中断) "@
            } else {
                " prompt "@
            },
            in_color(Color::Cyan),
        ),
        r.input@ == s.input@,
        r.cursor == (if s.running {
            None
        } else {
            Some(s.input@.len() as usize)
        }),
        match *s.error {
            Some(e) => r.error matches Some(l) && l.deep_view() == seq![
                styled(" [error] "@ + e@, in_color(Color::Red)),
            ],
            None => r.error is None,
        },
        match *s.pending_approval {
            Some(p) => r.popup matches Some(w) && w.title.deep_view() == popup_title(p.deep_view())
                && w.lines.deep_view() == popup_lines(p.deep_view()),
            None => r.popup is None,
        },
{
    let title = if s.running {
        " (running, Esc 不可中断) "
    } else {
        " prompt "
    };
    let cursor: Option<usize> = if s.running {
        None
    } else {
        Some(s.input.unicode_len())
    };
    let error = match s.error {
        Some(e) => {
            let t = cat(" [error] ", e.as_str());
            Some(Line::of(Span { text: t, style: Style::colored(Color::Red) }))
        },
        None => None,
    };
    let popup = match s.pending_approval {
        Some(p) => Some(show_popup(p)),
        None => None,
    };
    Screen {
        history: show_history(s.history, s.live_text),
        status: show_status(s.model, s.mode, s.running, s.tool_status),
        title: Span::styled(title, Style::colored(Color::Cyan)),
        input: s.input.to_owned(),
        cursor,
        error,
        popup,
    }
}

/// What of a long past is in sight: the first line that is shown, for a number of
/// lines, a height, and how far above the end the screen stands.
pub open spec fn first_in_sight(lines: nat, height: nat, above: nat) -> nat {
    if lines <= height {
        0
    } else if above >= lines - height {
        0
    } else {
        (lines - height - above) as nat
    }
}

/// The first line that is shown.
pub fn scroll_position(lines: usize, height: usize, above: usize) -> (r: usize)
    ensures
        r == first_in_sight(lines as nat, height as nat, above as nat),
{
    if lines <= height {
        0
    } else if above >= lines - height {
        0
    } else {
        lines - height - above
    }
}

// ---- laws ----

/// Whatever the past, the screen is never empty.
pub proof fn law_screen_is_never_empty(live: Seq<char>)
    ensures
        history_lines(Seq::empty(), live).len() > 0,
{
    if live.len() > 0 {
        assert(marked(lines_of(markdown_events(live))).len() > 0);
    }
}

/// A screen that stands at the end shows the last line.
pub proof fn law_end_is_in_sight(lines: nat, height: nat)
    requires
        lines > height,
    ensures
        first_in_sight(lines, height, 0) + height == lines,
{
}

} // verus!

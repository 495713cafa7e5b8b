//! Lines on the screen.
use vstd::prelude::*;

use crate::agents::SubagentDefView;
use crate::laws::texts::lemma_first_at;
use crate::laws::texts::lemma_first_missing;
use crate::order::goes_before;
use crate::order::largest_first;
use crate::permission::PermissionMode;
use crate::replay::SessionStateView;
use crate::replay::replayed;
use crate::show::mode_words;
use crate::text::clipped;
use crate::text::decimal_of;
use crate::text::joined;
use crate::text::line_list;
use crate::text::repeated;
use crate::text::split_list;
use crate::tui::markdown::MdEventView;
use crate::tui::markdown::MdTag;
use crate::tui::markdown::PageView;
use crate::tui::markdown::marked;
use crate::tui::markdown::with_code;
use crate::tui::markdown::written;
use crate::tui::screen::cell_lines;
use crate::tui::screen::first_in_sight;
use crate::tui::screen::history_lines;
use crate::tui::screen::past_lines;
use crate::tui::screen::popup_lines;
use crate::tui::screen::status_line;
use crate::tui::state::HistoryCellView;
use crate::tui::state::PendingApprovalView;
use crate::tui::state::SessionFileView;
use crate::tui::state::agent_line;
use crate::tui::state::agents_text;
use crate::tui::state::session_line;
use crate::tui::style::Color;
use crate::tui::style::SpanView;
use crate::tui::style::plain_style;

verus! {

/// The text of a line: its pieces one behind the other.
pub open spec fn line_text(l: Seq<SpanView>) -> Seq<char>
    decreases l.len(),
{
    if l.len() == 0 {
        Seq::empty()
    } else {
        line_text(l.drop_last()) + l.last().text
    }
}

/// What the user said is shown behind a mark; of what tools report, added lines are green,
/// removed lines red and all others gray, each moved in by two blanks.
pub proof fn law_cells_are_shown(t: Seq<char>, i: int)
    ensures
        cell_lines(HistoryCellView::User(t)).len() == 1,
        line_text(cell_lines(HistoryCellView::User(t))[0]) == "你 "@ + t,
        cell_lines(HistoryCellView::Tool(t)).len() == line_list(t).len(),
        0 <= i < line_list(t).len() ==> {
            let l = line_list(t)[i];
            let s = cell_lines(HistoryCellView::Tool(t))[i];
            &&& s.len() == 1 && s[0].text == "  "@ + l
            &&& s[0].style.fg == Some(
                if l.len() > 0 && l[0] == '+' {
                    Color::Green
                } else if l.len() > 0 && l[0] == '-' {
                    Color::Red
                } else {
                    Color::DarkGray
                },
            )
        },
{
    reveal_strlit("+");
    reveal_strlit("-");
    assert("+"@.len() == 1 && "-"@.len() == 1);
    assert("+"@[0] != "-"@[0]);
    let u = cell_lines(HistoryCellView::User(t))[0];
    assert(u.drop_last() =~= seq![u[0]]);
    assert(u.drop_last().drop_last() =~= Seq::<SpanView>::empty());
    assert(line_text(u.drop_last().drop_last()) == Seq::<char>::empty());
    assert(line_text(u.drop_last()) =~= "你 "@);
    assert(line_text(u) =~= "你 "@ + t);
    if 0 <= i < line_list(t).len() {
        let l = line_list(t)[i];
        if l.len() > 0 {
            assert(l.subrange(0, 1).len() == 1 && l.subrange(0, 1)[0] == l[0]);
            if l[0] == '+' {
                assert(l.subrange(0, 1) =~= "+"@);
            }
            if l[0] == '-' {
                assert(l.subrange(0, 1) =~= "-"@);
            }
        }
    }
}

/// The history is shown cell by cell, and what the model is saying behind it.
pub proof fn law_history_is_shown(s: Seq<HistoryCellView>, c: HistoryCellView, live: Seq<char>)
    ensures
        history_lines(s.push(c), Seq::empty()) == past_lines(s) + cell_lines(c),
        live.len() > 0 ==> history_lines(s, live) == past_lines(s) + cell_lines(
            HistoryCellView::Assistant(live),
        ),
        s.len() > 0 ==> history_lines(s, Seq::empty()) == past_lines(s),
        past_lines(Seq::empty()) == Seq::<Seq<SpanView>>::empty(),
{
    assert(s.push(c).drop_last() =~= s);
}

/// What the model said is marked as its own on the first line, and nowhere else.
pub proof fn law_model_lines_are_marked(md: Seq<Seq<SpanView>>, i: int)
    ensures
        md.len() == 0 ==> marked(md).len() == 1 && line_text(marked(md)[0]) == "tao "@,
        md.len() > 0 ==> marked(md).len() == md.len() && marked(md)[0].len() == md[0].len() + 1
            && marked(md)[0][0].text == "tao "@ && marked(md)[0].drop_first() == md[0],
        0 < i < md.len() ==> marked(md)[i] == md[i],
{
    if md.len() == 0 {
        let l = marked(md)[0];
        assert(l.drop_last() =~= Seq::<SpanView>::empty());
        assert(line_text(l.drop_last()) == Seq::<char>::empty());
        assert(line_text(l) =~= "tao "@);
    } else {
        assert(marked(md)[0].drop_first() =~= md[0]);
    }
}

/// The status line shows the model, the mode in its own colour, whether a turn runs, and how
/// the last call went.
pub proof fn law_status_is_shown(model: Seq<char>, mode: PermissionMode, running: bool, t: Seq<char>, ok: bool)
    ensures
        ({
            let l = status_line(model, mode, running, Some((t, ok)));
            &&& l.len() == 7
            &&& l[0].text == " "@ + model + " "@
            &&& l[2].text == " "@ + mode_words(mode) + " "@
            &&& l[2].style.fg == Some(
                match mode {
                    PermissionMode::Bypass => Color::Red,
                    PermissionMode::Plan => Color::Magenta,
                    PermissionMode::AcceptEdits => Color::Green,
                    PermissionMode::Default => Color::Yellow,
                },
            )
            &&& running ==> l[4].text == "● working"@
            &&& !running ==> l[4].text == "○ idle"@
            &&& l[6].text == t && l[6].style.fg == Some(
                if ok {
                    Color::Green
                } else {
                    Color::Red
                },
            )
        }),
{
}

/// A request for approval shows the tool, the command and the rule that is suggested, where
/// there are any, and the keys that answer it.
pub proof fn law_requests_are_shown(p: PendingApprovalView, c: Seq<Seq<char>>, rule: Seq<char>)
    requires
        p.command == Some(c),
        p.pattern_suggestion == Some(rule),
    ensures
        ({
            let l = popup_lines(p);
            &&& l.len() == 5
            &&& l[0][1].text == p.tool
            &&& l[1][1].text == joined(c, " "@)
            &&& l[2][1].text == rule
            &&& l[4][0].text == "y"@ && l[4][2].text == "s"@ && l[4][4].text == "n"@ && l[4][6].text
                == "a"@
        }),
{
}

/// Of more lines than fit, those at the end are in sight, or those above them by as much as
/// was scrolled, but never beyond the first.
pub proof fn law_scrolling_shows_what_is_above(lines: nat, height: nat, above: nat)
    ensures
        lines <= height ==> first_in_sight(lines, height, above) == 0,
        lines > height && above <= lines - height ==> first_in_sight(lines, height, above) + height
            + above == lines,
        lines > height && above > lines - height ==> first_in_sight(lines, height, above) == 0,
{
}

// ---- written text ----

/// Text takes the style that holds where it stands; code within a line is yellow.
pub proof fn law_text_takes_its_style(p: PageView, t: Seq<char>)
    ensures
        !p.in_code ==> written(p, MdEventView::Text(t)) == (PageView {
            spans: p.spans.push(SpanView { text: t, style: p.style }),
            ..p
        }),
        written(p, MdEventView::Code(t)).spans.len() == p.spans.len() + 1 && written(
            p,
            MdEventView::Code(t),
        ).spans.last().text == t && written(p, MdEventView::Code(t)).spans.last().style.fg == Some(
            Color::Yellow,
        ),
{
}

/// Headings are bold and cyan, strong text bold and emphasised text italic, between their
/// start and their end; behind a heading text is plain again.
pub proof fn law_marks_change_the_style(p: PageView)
    ensures
        ({
            let h = written(p, MdEventView::Start(MdTag::Heading));
            let s = written(p, MdEventView::Start(MdTag::Strong));
            let m = written(p, MdEventView::Start(MdTag::Emphasis));
            &&& h.style.bold && h.style.fg == Some(Color::Cyan)
            &&& written(h, MdEventView::End(MdTag::Heading)).style == plain_style()
            &&& s.style.bold && s.style.fg == p.style.fg && s.style.italic == p.style.italic
            &&& !written(s, MdEventView::End(MdTag::Strong)).style.bold
            &&& m.style.italic && m.style.fg == p.style.fg && m.style.bold == p.style.bold
            &&& !written(m, MdEventView::End(MdTag::Emphasis)).style.italic
        }),
{
}

/// A code block is gray between its start and its end, and its lines are moved in by two
/// blanks.
pub proof fn law_code_is_moved_in(p: PageView, line: Seq<char>)
    requires
        p.spans.len() == 0,
        line.len() > 0,
        !line.contains('\n'),
    ensures
        ({
            let s = written(p, MdEventView::Start(MdTag::CodeBlock));
            let t = written(s, MdEventView::Text(line + "\n"@));
            let e = written(t, MdEventView::End(MdTag::CodeBlock));
            &&& s.in_code && s.style.fg == Some(Color::Gray)
            &&& e.lines == p.lines.push(
                seq![SpanView { text: "  "@ + line, style: s.style }],
            )
            &&& !e.in_code && e.style == plain_style()
        }),
{
    reveal_strlit("\n");
    let none = Seq::<char>::empty();
    let all = line + "\n"@;
    assert(all =~= line + "\n"@ + none);
    lemma_first_at(line, "\n"@, none);
    assert(all.take(line.len() as int) =~= line);
    assert(all.skip(line.len() as int + 1) =~= none);
    lemma_first_missing(none, "\n"@);
    let parts = split_list(all, "\n"@);
    assert(split_list(none, "\n"@) =~= seq![none]);
    assert(parts =~= seq![line, none]);
    assert(parts.drop_last() =~= seq![line]);
    assert(parts.drop_last().drop_last() =~= Seq::<Seq<char>>::empty());
    let s = written(p, MdEventView::Start(MdTag::CodeBlock));
    assert(with_code(s, parts.drop_last().drop_last()) == s);
    let one = with_code(s, parts.drop_last());
    assert(one.spans =~= seq![SpanView { text: "  "@ + line, style: s.style }]);
    assert(with_code(s, parts).lines =~= p.lines.push(one.spans));
}

/// The items of a list stand behind a dot each, moved in by two blanks for each list around
/// the list; where a list ends, the depth is as it was before it.
pub proof fn law_lists_are_moved_in(p: PageView)
    ensures
        written(written(p, MdEventView::Start(MdTag::List)), MdEventView::End(MdTag::List)) == p,
        written(p, MdEventView::Start(MdTag::Item)).spans.len() == 1,
        p.depth == 1 ==> written(p, MdEventView::Start(MdTag::Item)).spans[0].text == "• "@,
        p.depth == 2 ==> written(p, MdEventView::Start(MdTag::Item)).spans[0].text == "  "@ + "• "@,
{
    assert(repeated("  "@, 0) =~= Seq::<char>::empty());
    reveal_with_fuel(repeated, 3);
    assert(Seq::<char>::empty() + "• "@ =~= "• "@);
    assert(repeated("  "@, 1) =~= "  "@);
}

/// Breaks, paragraphs and items end the line; nothing of it is lost.
pub proof fn law_lines_end_at_breaks(p: PageView, e: MdEventView)
    requires
        p.spans.len() > 0,
        e is SoftBreak || e is HardBreak || e == MdEventView::Start(MdTag::Paragraph) || e
            == MdEventView::End(MdTag::Paragraph) || e == MdEventView::End(MdTag::Item),
    ensures
        written(p, e).lines == p.lines.push(p.spans) && written(p, e).spans.len() == 0,
{
}

// ---- lists on the screen ----

/// A session is listed by the head of its title, the head of its id, and its size.
pub proof fn law_sessions_are_listed(f: SessionFileView, s: SessionStateView, t: Seq<char>)
    requires
        f.text == Some(t),
        replayed(t) == Ok::<_, Seq<char>>(s),
    ensures
        s.title matches Some(title) ==> session_line(f) == clipped(title, 30) + "  ["@ + clipped(
            f.stem,
            8,
        ) + "]  "@ + decimal_of(f.size as nat) + "B\n"@,
{
}

/// Sub-agents and tools of servers are listed one to a line with their descriptions.
pub proof fn law_agents_are_listed(s: Seq<SubagentDefView>, a: SubagentDefView)
    ensures
        agents_text(seq![a]) == "- "@ + a.name + ": "@ + a.description,
        s.len() > 0 ==> agents_text(s.push(a)) == agents_text(s) + "\n"@ + ("- "@ + a.name + ": "@
            + a.description),
{
    let f = |x: SubagentDefView| agent_line(x);
    assert(seq![a].map_values(f) =~= seq![agent_line(a)]);
    assert(s.push(a).map_values(f).drop_last() =~= s.map_values(f));
    assert(s.push(a).map_values(f).last() == agent_line(a));
}

/// The keys go from the largest down, equal ones in the order in which they came, and none is
/// listed twice.
pub proof fn law_orders_list_all(order: Seq<usize>, keys: Seq<u64>, i: int, j: int)
    requires
        largest_first(order, keys),
        0 <= i < j < order.len(),
    ensures
        order.len() == keys.len(),
        order[i] != order[j],
        keys[order[i] as int] >= keys[order[j] as int],
        keys[order[i] as int] == keys[order[j] as int] ==> order[i] < order[j],
{
    assert(goes_before(keys, order[i], order[j]));
}

} // verus!

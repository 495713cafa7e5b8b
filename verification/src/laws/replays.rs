//! What the log brings back.
use vstd::prelude::*;

use crate::content::ContentView;
use crate::json::JsonView;
use crate::json::member;
use crate::log::LogEventView;
use crate::model::ModelContentView;
use crate::model::ModelMessageView;
use crate::op::UserInput;
use crate::permission::PermissionMode;
use crate::recorder::log_line_of;
use crate::replay::SessionStateView;
use crate::replay::all_recalled;
use crate::replay::applied;
use crate::replay::recalled;
use crate::replay::replayed;
use crate::text::line_list;
use crate::text::trimmed;

verus! {

/// Each block of a recorded message comes back as what it was.
pub proof fn law_blocks_come_back(t: Seq<char>, signature: Option<Seq<char>>, id: Seq<char>, name: Seq<char>, input: JsonView, mime: Seq<char>)
    ensures
        recalled(ContentView::Text { text: t }) == ModelContentView::Text(t),
        recalled(ContentView::Thinking { text: t, signature }) == (ModelContentView::Thinking { text: t, signature }),
        recalled(ContentView::ToolUse { call_id: id, name, input }) == (ModelContentView::ToolUse { call_id: id, name, input }),
        recalled(ContentView::Image { mime, data_base64: t }) == (ModelContentView::Image { mime, data_base64: t }),
{
}

/// What the user and the model said, and what tools returned, comes back as messages of
/// the same kind, in order; an error comes back as an error.
pub proof fn law_what_was_said_comes_back(
    s: SessionStateView,
    content: Seq<ContentView>,
    e: LogEventView,
    call_id: Seq<char>,
    output: JsonView,
    text: Seq<char>,
    is_error: bool,
)
    ensures
        ({
            let said = Seq::new(content.len(), |i: int| recalled(content[i]));
            &&& e is UserInput && e->UserInput_content == content ==> applied(s, e).messages
                == s.messages.push(ModelMessageView::User { content: said })
            &&& e is AssistantMessage && e->AssistantMessage_content == content ==> applied(s, e).messages
                == s.messages.push(ModelMessageView::Assistant { content: said })
            &&& e is ToolResult && e->ToolResult_call_id == call_id && e->ToolResult_output == output
                && member(output, "content"@) == Some(JsonView::Text(text)) && member(
                output,
                "is_error"@,
            ) == Some(JsonView::Bool(is_error)) ==> applied(s, e).messages == s.messages.push(
                ModelMessageView::ToolResult {
                    call_id,
                    content: seq![ModelContentView::Text(text)],
                    is_error,
                },
            )
            &&& !(e is UserInput) && !(e is AssistantMessage) && !(e is ToolResult) ==> applied(s, e).messages
                == s.messages
        }),
{
    assert(all_recalled(content) =~= Seq::new(content.len(), |i: int| recalled(content[i])));
}

/// Who the session is, where it runs, what it is called and in which mode it is comes back
/// as it was last said, and nothing else changes it.
pub proof fn law_last_word_on_the_session_counts(s: SessionStateView, e: LogEventView)
    ensures
        ({
            let r = applied(s, e);
            &&& e is SessionMeta ==> r.id == e->SessionMeta_id && r.parent == e->SessionMeta_parent
                && r.cwd == e->SessionMeta_cwd
            &&& !(e is SessionMeta) ==> r.id == s.id && r.parent == s.parent && r.cwd == s.cwd
            &&& e is SessionTitle ==> r.title == Some(e->title)
            &&& !(e is SessionTitle) ==> r.title == s.title
            &&& e is ModeChange ==> r.mode == e->ModeChange_mode
            &&& !(e is ModeChange) ==> r.mode == s.mode
            &&& !(e is PermissionGrant) ==> r.session_grants == s.session_grants
            &&& e is PermissionGrant && !s.session_grants.contains(
                (e->PermissionGrant_tool, e->PermissionGrant_pattern),
            ) ==> r.session_grants == s.session_grants.push(
                (e->PermissionGrant_tool, e->PermissionGrant_pattern),
            )
        }),
{
}

/// A log is taken up line by line; blank lines say nothing, and the first line that cannot
/// be read is what replaying fails with.
pub proof fn law_lines_are_taken_up_in_order(text: Seq<char>, more: Seq<char>, line: Seq<char>)
    requires
        line_list(more) == line_list(text).push(line),
    ensures
        replayed(text) is Err ==> replayed(more) == replayed(text),
        replayed(text) is Ok && trimmed(line).len() == 0 ==> replayed(more) == replayed(text),
        replayed(text) is Ok && trimmed(line).len() > 0 && log_line_of(line) is None ==> replayed(more)
            == Err::<SessionStateView, _>(line),
        replayed(text) is Ok && trimmed(line).len() > 0 && log_line_of(line) is Some ==> replayed(
            more,
        ) == Ok::<_, Seq<char>>(applied(replayed(text)->Ok_0, log_line_of(line)->0.event)),
{
    let a = line_list(text);
    assert(a.push(line).drop_last() =~= a);
}

/// A session that nothing was said of is empty, and asks by default.
pub proof fn law_nothing_comes_of_nothing()
    ensures
        replayed(Seq::empty()) matches Ok(s) && s.messages.len() == 0 && s.session_grants.len() == 0
            && s.mode == PermissionMode::Default && s.title is None && s.parent is None,
{
    assert(line_list(Seq::<char>::empty()) =~= Seq::<Seq<char>>::empty());
}

} // verus!

//! What calls come to before anything is run, and what is said of them afterwards.
use vstd::prelude::*;

use crate::agents::SubagentDef;
use crate::apply_patch::ApplyError;
use crate::apply_patch::FileFact;
use crate::apply_patch::Hunk;
use crate::apply_patch::HunkActionView;
use crate::apply_patch::HunkView;
use crate::apply_patch::PendingOp;
use crate::apply_patch::PendingOpView;
use crate::apply_patch::fact_now;
use crate::apply_patch::fact_views;
use crate::apply_patch::hunk_views;
use crate::apply_patch::op_views;
use crate::apply_patch::patch_plan;
use crate::checkpoint::ShadowRepo;
use crate::checkpoint::SnapshotPlan;
use crate::compact::conversation;
use crate::compact::token_count;
use crate::config::ModelProviderConfig;
use crate::content::ContentView;
use crate::content::ReasoningEffort;
use crate::exec::OnAsk;
use crate::ids::SessionId;
use crate::ids::TurnId;
use crate::instructions::Referred;
use crate::instructions::ReferredView;
use crate::instructions::known;
use crate::json::Json;
use crate::json::JsonView;
use crate::json::member;
use crate::laws::compaction::all_count;
use crate::laws::compaction::law_every_message_counts;
use crate::laws::instruction_files::law_lone_references_give_way;
use crate::laws::limits::law_states_are_kept_apart;
use crate::laws::messages_api::listed;
use crate::laws::patches::are_lines;
use crate::laws::patches::law_added_lines_are_written;
use crate::log::LogEventView;
use crate::mcp::client::CallStep;
use crate::mcp::client::McpCallTool;
use crate::mcp::client::McpToolResult;
use crate::mcp::client::ServedCall;
use crate::mcp::server::text_result_object;
use crate::model::ModelContentView;
use crate::model::ModelError;
use crate::model::ModelMessage;
use crate::model::ModelMessageView;
use crate::model::ModelRequest;
use crate::model::SystemBlock;
use crate::op::OpView;
use crate::op::ReviewDecision;
use crate::op::Submission;
use crate::op::UserInputView;
use crate::paths::is_among;
use crate::paths::joined_path;
use crate::permission::Decision;
use crate::permission::PermissionMode;
use crate::permission::PermissionRule;
use crate::permission::Verdict;
use crate::permissions::PermissionEngine;
use crate::permissions::PermissionKey;
use crate::permissions::decision;
use crate::permissions::glob_hits;
use crate::permissions::key_view;
use crate::recorder::Journal;
use crate::recorder::base_of;
use crate::recorder::sessions_below;
use crate::replay::SessionState;
use crate::server::TurnStart;
use crate::server::WireSession;
use crate::server::entered;
use crate::session::Phase;
use crate::session::Turn;
use crate::session::TurnConfig;
use crate::session::last_reply;
use crate::skills::SkillDef;
use crate::skills::skill_texts;
use crate::task::TaskPlan;
use crate::task::task_refusal;
use crate::text::is_space;
use crate::text::joined;
use crate::text::line_list;
use crate::text::views;
use crate::tools::ToolError;
use crate::tools::ToolOutput;
use crate::tools::ToolRegistry;
use crate::tools::bash::BashPlan;
use crate::tools::command_of;
use crate::tools::edit::EditPlan;
use crate::tools::fs::AtPath;
use crate::tools::fs::ReadPlan;
use crate::tools::fs::WritePlan;
use crate::tools::fs::shown;
use crate::tools::grep::GrepPlan;
use crate::tools::grep::OutputMode;
use crate::tools::grep::cut_short;
use crate::tools::grep::regex_source;
use crate::tools::grep::regex_valid;
use crate::tui::screen::RenderState;
use crate::tui::screen::Screen;
use crate::tui::screen::history_lines;

verus! {

/// A command runs in the working directory unless another is asked for, and for two minutes
/// unless another time is asked for, of which ten minutes are granted at most.
pub proof fn law_commands_are_planned(
    args: &Json,
    cwd: &str,
    command: Seq<Seq<char>>,
    ms: u64,
    dir: Seq<char>,
    r: Result<BashPlan, ToolError>,
)
    requires
        call_ensures(crate::tools::bash::plan, (args, cwd), r),
        command_of(args@) == Some(command),
    ensures
        command.len() == 0 ==> r is Err,
        command.len() > 0 ==> r is Ok && views(r->Ok_0.command@) == command,
        r is Ok && member(args@, "timeout_ms"@) is None ==> r->Ok_0.timeout_ms == 120000,
        r is Ok && member(args@, "timeout_ms"@) == Some(JsonView::Int(ms as int)) ==> r->Ok_0.timeout_ms
            == if ms <= 600000 {
            ms
        } else {
            600000
        },
        r is Ok && member(args@, "cwd"@) is None ==> r->Ok_0.cwd@ == cwd@,
        r is Ok && member(args@, "cwd"@) == Some(JsonView::Text(dir)) ==> r->Ok_0.cwd@
            == joined_path(cwd@, dir),
{
}

/// A file is read from its first line unless another is asked for, and two thousand lines of
/// it unless otherwise asked.
pub proof fn law_reading_is_planned(
    args: &Json,
    cwd: &str,
    p: Seq<char>,
    n: u64,
    r: Result<ReadPlan, ToolError>,
)
    requires
        call_ensures(crate::tools::fs::plan_read, (args, cwd), r),
    ensures
        member(args@, "path"@) is None ==> r is Err,
        member(args@, "path"@) == Some(JsonView::Text(p)) ==> r is Ok && r->Ok_0.path@ == joined_path(
            cwd@,
            p,
        ),
        r is Ok && member(args@, "offset"@) is None ==> r->Ok_0.offset == 1,
        r is Ok && member(args@, "offset"@) == Some(JsonView::Int(n as int)) && n >= 1 ==> r->Ok_0.offset
            == n,
        r is Ok && member(args@, "limit"@) is None ==> r->Ok_0.limit == 2000,
        r is Ok && member(args@, "limit"@) == Some(JsonView::Int(n as int)) ==> r->Ok_0.limit == n,
{
}

/// Reading shows a file, refuses a directory, and fails where there is nothing.
pub proof fn law_reading_is_answered(
    plan: &ReadPlan,
    found: &AtPath,
    r: Result<ToolOutput, ToolError>,
)
    requires
        call_ensures(crate::tools::fs::answer, (plan, found), r),
    ensures
        *found is Nothing ==> r is Err,
        *found is Directory ==> r is Ok && r->Ok_0.is_error,
        *found matches AtPath::File(b) ==> r is Ok && !r->Ok_0.is_error && r->Ok_0.content@ == shown(
            plan.path@,
            b@,
            plan.offset,
            plan.limit,
        ),
{
}

/// What is written is the content that was given, at the path as seen from the working
/// directory.
pub proof fn law_writing_is_planned(
    args: &Json,
    cwd: &str,
    p: Seq<char>,
    c: Seq<char>,
    r: Result<WritePlan, ToolError>,
)
    requires
        call_ensures(crate::tools::fs::plan_write, (args, cwd), r),
    ensures
        member(args@, "path"@) == Some(JsonView::Text(p)) && member(args@, "content"@) == Some(
            JsonView::Text(c),
        ) ==> r is Ok && r->Ok_0.path@ == joined_path(cwd@, p) && r->Ok_0.content@ == c,
        member(args@, "path"@) is None || member(args@, "content"@) is None ==> r is Err,
{
}

/// An edit has the old text, the new text and whether to replace all as they were given; one
/// that would change nothing is refused.
pub proof fn law_editing_is_planned(
    args: &Json,
    cwd: &str,
    p: Seq<char>,
    a: Seq<char>,
    b: Seq<char>,
    r: Result<Result<EditPlan, ToolOutput>, ToolError>,
)
    requires
        call_ensures(crate::tools::edit::plan, (args, cwd), r),
        member(args@, "path"@) == Some(JsonView::Text(p)),
        member(args@, "old_string"@) == Some(JsonView::Text(a)),
        member(args@, "new_string"@) == Some(JsonView::Text(b)),
    ensures
        a == b ==> (r matches Ok(Err(o)) && o.is_error),
        a != b ==> (r matches Ok(Ok(e)) && e.path@ == joined_path(cwd@, p) && e.old_string@ == a
            && e.new_string@ == b && (e.replace_all <==> member(args@, "replace_all"@) == Some(
            JsonView::Bool(true),
        ))),
{
}

/// A search looks for the pattern below the path that is asked for, or else the working
/// directory, and shows lines unless only files are asked for.
pub proof fn law_searching_is_planned(
    args: &Json,
    cwd: &str,
    p: Seq<char>,
    d: Seq<char>,
    r: Result<GrepPlan, ToolError>,
)
    requires
        call_ensures(crate::tools::grep::plan, (args, cwd), r),
        member(args@, "pattern"@) == Some(JsonView::Text(p)),
    ensures
        r is Ok <==> regex_valid(p),
        r is Ok ==> r->Ok_0.pattern@ == p && regex_source(r->Ok_0.regex) == p,
        r is Ok && member(args@, "path"@) is None ==> r->Ok_0.path@ == cwd@,
        r is Ok && member(args@, "path"@) == Some(JsonView::Text(d)) ==> r->Ok_0.path@ == joined_path(
            cwd@,
            d,
        ),
        r is Ok ==> (r->Ok_0.mode == OutputMode::Files <==> member(args@, "output_mode"@) == Some(
            JsonView::Text("files_with_matches"@),
        )),
        r is Ok && member(args@, "glob"@) == Some(JsonView::Text(d)) ==> r->Ok_0.glob is Some
            && r->Ok_0.glob->0@ == d,
        r is Ok && member(args@, "glob"@) is None ==> r->Ok_0.glob is None,
{
}

/// Finding nothing is no failure of a search; a larger exit code is.
pub proof fn law_searches_end(code: i32, stdout: &str, stderr: &str, r: Result<ToolOutput, ToolError>)
    requires
        call_ensures(crate::tools::grep::rg_result, (code, stdout, stderr), r),
    ensures
        r is Err <==> code > 1,
        r is Ok ==> !r->Ok_0.is_error && r->Ok_0.content@ == cut_short(stdout@),
{
}

/// Without a glob every file is searched, with one those that it matches.
pub proof fn law_globs_pick_files(glob: &Option<String>, path: &str, r: bool)
    requires
        call_ensures(crate::tools::grep::wanted, (glob, path), r),
    ensures
        *glob is None ==> r,
        *glob matches Some(g) ==> r == glob_hits(g@, path@),
{
}

/// A sub-agent starts with the prompt as the user's words, in plan mode, with the tools that
/// read and twenty steps.
pub proof fn law_tasks_are_planned(
    input: &Json,
    depth: u32,
    agents: &Vec<SubagentDef>,
    tools: &ToolRegistry,
    model: &str,
    prompt: Seq<char>,
    r: Result<TaskPlan, ToolOutput>,
)
    requires
        call_ensures(crate::task::plan_task, (input, depth, agents, tools, model), r),
    ensures
        r is Ok <==> task_refusal(depth, input@, agents.deep_view()) is None,
        r is Err ==> r->Err_0.is_error,
        r is Ok ==> r->Ok_0.mode == PermissionMode::Plan && r->Ok_0.max_steps == 20,
        r is Ok && member(input@, "prompt"@) == Some(JsonView::Text(prompt)) ==> r->Ok_0.messages.deep_view()
            == seq![ModelMessageView::User { content: seq![ModelContentView::Text(prompt)] }],
        r is Ok ==> r->Ok_0.request.deep_view().tools == r->Ok_0.tools.deep_view(),
{
}

/// A summary is asked for of all messages but the last ones, and of none where there are no
/// more than those.
pub proof fn law_summaries_are_planned(
    model: &str,
    messages: &Vec<ModelMessage>,
    keep: usize,
    r: Option<ModelRequest>,
)
    requires
        call_ensures(crate::compact::plan_compaction, (model, messages, keep), r),
    ensures
        r is None <==> messages@.len() <= keep,
        r is Some ==> r->0.deep_view().messages == seq![
            ModelMessageView::User {
                content: seq![
                    ModelContentView::Text(
                        conversation(
                            messages.deep_view().take(messages@.len() - keep),
                        ),
                    ),
                ],
            },
        ] && r->0.deep_view().model == model@,
{
}

/// A turn that is sent starts with the texts that were entered, as the user's words behind all
/// that was said; they are recorded, and the model is asked with the session's tools.
pub proof fn law_sent_turns_begin(
    s: &WireSession,
    sub: &Submission,
    system: &Vec<SystemBlock>,
    reasoning: Option<ReasoningEffort>,
    text: Seq<char>,
    r: Option<TurnStart>,
)
    requires
        call_ensures(WireSession::begin_turn, (s, sub, system, reasoning), r),
        sub.deep_view().op matches OpView::UserTurn { turn_id, input } && input == seq![
            UserInputView::Text { text },
        ],
    ensures
        r is Some,
        r->0.messages.deep_view() == s.deep_view().messages.push(
            ModelMessageView::User { content: seq![ModelContentView::Text(text)] },
        ),
        r->0.record.deep_view() matches LogEventView::UserInput { content, .. } && content == seq![
            ContentView::Text { text },
        ],
        r->0.request.deep_view().model == s.deep_view().model,
        r->0.request.deep_view().tools == s.deep_view().tools,
        r->0.request.deep_view().system == system.deep_view(),
        r->0.request.deep_view().reasoning == reasoning,
{
    let one = seq![UserInputView::Text { text }];
    assert(one.drop_last() =~= Seq::<UserInputView>::empty());
    assert(entered(one.drop_last()) =~= Seq::<Seq<char>>::empty());
    assert(one.last() == UserInputView::Text { text });
    assert(entered(one) =~= seq![text]);
    assert(joined(seq![text], " "@) == text);
}

/// A turn starts at no step, with the messages that it is given, and trusts its project exactly
/// if that is among the trusted ones.
pub proof fn law_turns_start_fresh(
    config: &TurnConfig,
    tools: Vec<String>,
    turn_id: TurnId,
    cwd: String,
    start_hooks: bool,
    snapshots: bool,
    messages: Vec<ModelMessage>,
    r: Turn,
)
    requires
        call_ensures(
            Turn::new,
            (config, tools, turn_id, cwd, start_hooks, snapshots, messages),
            r,
        ),
    ensures
        r.deep_view().phase == Phase::Ready && r.deep_view().steps == 0,
        r.deep_view().max_steps == config.max_steps,
        r.deep_view().messages == messages.deep_view(),
        r.deep_view().trusted <==> is_among(views(config.trusted_projects@), cwd@),
        r.deep_view().queue.len() == 0,
{
}

/// A session that is taken up again has the mode and the grants of its log, and the rules of
/// the configuration.
pub proof fn law_engines_are_restored(
    state: &SessionState,
    rules: &Vec<PermissionRule>,
    r: PermissionEngine,
)
    requires
        call_ensures(crate::exec::restore_engine, (state, rules), r),
    ensures
        r.deep_view().mode == state.deep_view().mode,
        r.deep_view().rules == rules.deep_view(),
        forall|tool: Seq<char>, pattern: Seq<char>|
            r.deep_view().grants.contains((tool, pattern))
                <==> #[trigger] state.deep_view().session_grants.contains((tool, pattern)),
{
}

/// Without a terminal, requests for approval are answered as the command line says: denied
/// unless it says otherwise.
pub proof fn law_requests_are_answered_unattended(o: &OnAsk, r: ReviewDecision, d: OnAsk)
    requires
        call_ensures(OnAsk::answer, (o,), r),
    ensures
        *o == OnAsk::Deny ==> r == ReviewDecision::Deny,
        *o == OnAsk::Approve ==> r == ReviewDecision::Approve,
{
}

/// The engine decides as it stands: by mode, rules and grants.
pub proof fn law_engines_decide(e: &PermissionEngine, tool: &str, key: Option<&PermissionKey>, r: Decision)
    requires
        call_ensures(PermissionEngine::decide, (e, tool, key), r),
    ensures
        r.deep_view() == decision(e.deep_view(), tool@, key_view(key)),
{
}

/// How a tool is treated without rules goes by its name.
pub proof fn law_defaults_go_by_name(mode: PermissionMode, tool: &str, r: Verdict)
    requires
        call_ensures(crate::permissions::mode_default, (mode, tool), r),
    ensures
        mode == PermissionMode::Plan ==> (r == Verdict::Allow <==> tool@ == "Read"@ || tool@ == "Grep"@
            || tool@ == "Glob"@),
        mode == PermissionMode::Plan ==> r != Verdict::Ask,
        mode == PermissionMode::Default && (tool@ == "Write"@ || tool@ == "Edit"@ || tool@ == "Patch"@
            || tool@ == "Bash"@ || tool@ == "WebFetch"@) ==> r == Verdict::Ask,
        mode == PermissionMode::AcceptEdits && (tool@ == "Write"@ || tool@ == "Edit"@ || tool@
            == "Patch"@) ==> r == Verdict::Allow,
        mode == PermissionMode::AcceptEdits && (tool@ == "Bash"@ || tool@ == "WebFetch"@) ==> r
            == Verdict::Ask,
        mode == PermissionMode::Bypass ==> r == Verdict::Allow,
{
    reveal_strlit("Read");
    reveal_strlit("Grep");
    reveal_strlit("Glob");
    reveal_strlit("Write");
    reveal_strlit("Edit");
    reveal_strlit("Patch");
    reveal_strlit("Bash");
    reveal_strlit("WebFetch");
    assert("Read"@.len() == 4 && "Grep"@.len() == 4 && "Glob"@.len() == 4 && "Write"@.len() == 5 && "Edit"@.len() == 4 && "Patch"@.len() == 5 && "Bash"@.len() == 4 && "WebFetch"@.len() == 8);
    assert("Read"@[0] != "Grep"@[0]);
    assert("Read"@[0] != "Glob"@[0]);
    assert("Read"@[0] != "Edit"@[0]);
    assert("Read"@[0] != "Bash"@[0]);
    assert("Grep"@[1] != "Glob"@[1]);
    assert("Grep"@[0] != "Edit"@[0]);
    assert("Grep"@[0] != "Bash"@[0]);
    assert("Glob"@[0] != "Edit"@[0]);
    assert("Glob"@[0] != "Bash"@[0]);
    assert("Write"@[0] != "Patch"@[0]);
    assert("Edit"@[0] != "Bash"@[0]);
}

/// Conversations are too long where they take more tokens than the limit.
pub proof fn law_long_conversations(messages: &Vec<ModelMessage>, limit: u64, n: u64, r: bool)
    requires
        call_ensures(crate::compact::approx_tokens, (messages,), n),
        call_ensures(crate::compact::is_too_long, (messages, limit), r),
    ensures
        r <==> n > limit,
{
}

/// The whole path of a session's file lies below the home directory; without one there is
/// none.
pub proof fn law_session_files_lie_at_home(cwd: &str, id: &SessionId, home: Option<&str>, r: Option<String>)
    requires
        call_ensures(crate::recorder::session_file_path, (cwd, id, home), r),
    ensures
        home is None ==> r is None,
        home matches Some(h) ==> r is Some && r->0@ == joined_path(
            sessions_below(base_of(h@), cwd@),
            id.deep_view() + ".jsonl"@,
        ),
{
}

/// A snapshot adds the files, commits them and asks for the commit; going back checks that
/// commit out.
pub proof fn law_snapshots_commit_files(
    repo: &ShadowRepo,
    files: &Vec<String>,
    r: Option<SnapshotPlan>,
    commit: &str,
    back: Vec<String>,
)
    requires
        call_ensures(ShadowRepo::snapshot, (repo, files), r),
        call_ensures(ShadowRepo::rollback, (repo, commit), back),
    ensures
        r is None <==> files@.len() == 0,
        r is Some ==> views(r->0.add@).skip(4) == seq!["add"@, "-f"@] + views(files@),
        r is Some ==> views(r->0.head@).skip(4) == seq!["rev-parse"@, "HEAD"@],
        views(back@).skip(4) == seq!["checkout"@, commit@, "--"@, "."@],
{
    let d = repo.git_dir@;
    let w = repo.work_tree@;
    law_states_are_kept_apart(d, w, seq!["add"@, "-f"@] + views(files@));
    law_states_are_kept_apart(d, w, seq!["rev-parse"@, "HEAD"@]);
    law_states_are_kept_apart(d, w, seq!["checkout"@, commit@, "--"@, "."@]);
}

/// What a server's tool returns is handed on; a failure restarts the server once, and is told
/// after that.
pub proof fn law_failed_servers_are_restarted_once(
    outcome: Result<McpToolResult, String>,
    again: bool,
    r: CallStep,
)
    requires
        call_ensures(crate::mcp::client::after_call, (outcome, again), r),
    ensures
        outcome matches Ok(x) ==> (r matches CallStep::Give(o) && o.content@ == x.content@ && o.is_error
            == x.is_error),
        outcome is Err && !again ==> r is Restart,
        outcome is Err && again ==> r is GiveUp,
{
}

// ---- results of two calls ----

/// Of two conversations of which one has a message more, with one text, the one is counted
/// longer than the other by the tokens of that text, whoever the message is from.
pub proof fn law_counts_differ_by_the_message(
    a: &Vec<ModelMessage>,
    b: &Vec<ModelMessage>,
    x: u64,
    y: u64,
    t: Seq<char>,
    n: nat,
    call_id: Seq<char>,
    is_error: bool,
)
    requires
        call_ensures(crate::compact::approx_tokens, (a,), x),
        call_ensures(crate::compact::approx_tokens, (b,), y),
        all_count(a.deep_view()),
        token_count(t) == Some(n),
        x + n <= u64::MAX,
        b.deep_view() == a.deep_view().push(
            ModelMessageView::User { content: seq![ModelContentView::Text(t)] },
        ) || b.deep_view() == a.deep_view().push(
            ModelMessageView::Assistant { content: seq![ModelContentView::Text(t)] },
        ) || b.deep_view() == a.deep_view().push(
            ModelMessageView::ToolResult {
                call_id,
                content: seq![ModelContentView::Text(t)],
                is_error,
            },
        ),
    ensures
        y == x + n,
{
    law_every_message_counts(a.deep_view(), t, n, call_id, is_error);
}

/// In the request that is encoded, the result of a call stands in its place among the
/// messages, under the call's id and as an error exactly if it is one.
pub proof fn law_results_are_encoded(
    req: &ModelRequest,
    a: Result<Json, ModelError>,
    i: int,
    call_id: Seq<char>,
    content: Seq<ModelContentView>,
    is_error: bool,
)
    requires
        call_ensures(crate::providers::anthropic::encode_request, (req,), a),
        0 <= i < req.deep_view().messages.len(),
        req.deep_view().messages[i] == (ModelMessageView::ToolResult { call_id, content, is_error }),
    ensures
        a is Ok,
        ({
            let sent = listed(a->Ok_0@, "messages"@);
            let b = listed(sent[i], "content"@)[0];
            &&& sent.len() == req.deep_view().messages.len()
            &&& member(sent[i], "role"@) == Some(JsonView::Text("user"@))
            &&& listed(sent[i], "content"@).len() == 1
            &&& member(b, "tool_use_id"@) == Some(JsonView::Text(call_id))
            &&& member(b, "is_error"@) == Some(JsonView::Bool(is_error))
        }),
{
    crate::laws::messages_api::law_results_are_sent(req.deep_view(), i);
}

/// A hunk that adds a file that is not there comes to writing exactly its lines.
pub proof fn law_adding_a_file_writes_its_lines(
    hunks: &Vec<Hunk>,
    base: &str,
    facts: &Vec<FileFact>,
    r: Result<(Vec<PendingOp>, String), ApplyError>,
    h: HunkView,
)
    requires
        call_ensures(crate::apply_patch::plan, (hunks, base, facts), r),
        hunk_views(hunks@) == seq![h],
        fact_views(facts@).len() == 1,
        !fact_views(facts@)[0].exists,
        h.action == HunkActionView::Add,
        are_lines(h.add),
    ensures
        r is Ok,
        r->Ok_0.0@.len() == 1,
        r->Ok_0.0@[0].deep_view() matches PendingOpView::Write { path, new } && path == joined_path(
            base@,
            h.path,
        ) && line_list(new) == h.add,
{
    let one = seq![h];
    let f = fact_views(facts@);
    law_added_lines_are_written(h, base@, f[0]);
    assert(one.drop_last() =~= Seq::<HunkView>::empty());
    reveal_with_fuel(patch_plan, 2);
    reveal_with_fuel(fact_now, 1);
    let p = patch_plan(one, base@, f);
    assert(p is Ok);
    assert(p->Ok_0.ops.len() == 1);
    assert(op_views(r->Ok_0.0@) == p->Ok_0.ops);
    assert(op_views(r->Ok_0.0@)[0] == r->Ok_0.0@[0].deep_view());
}

/// A text that is nothing but a reference expands to what the file that it refers to expands
/// to from the file's own directory, one level deeper.
pub proof fn law_references_expand_from_their_file(
    text: &str,
    dir: &str,
    depth: u32,
    files: &Vec<Referred>,
    r: String,
    p: Seq<char>,
    f: ReferredView,
    name: Seq<char>,
    inner: &str,
    parent: &str,
    deeper: u32,
    s: String,
)
    requires
        call_ensures(crate::instructions::expand_at_refs, (text, dir, depth, files), r),
        call_ensures(crate::instructions::expand_at_refs, (inner, parent, deeper, files), s),
        depth <= 8,
        deeper == depth + 1,
        text@ == "@"@ + p,
        p.len() > 0,
        forall|i: int| 0 <= i < p.len() ==> !is_space(#[trigger] p[i]),
        known(files.deep_view(), joined_path(dir@, p)) == Some(f),
        f.is_file,
        f.canonical == Some(name),
        f.content == Some(inner@),
        f.parent == parent@,
    ensures
        r@ == s@ + "\n"@ + "\n"@,
{
    law_lone_references_give_way(p, dir@, depth as int, files.deep_view(), f, inner@, name);
}

/// A call of a server's tool needs a server that is configured and a tool; both, and the
/// arguments, are handed on as they are.
pub proof fn law_served_calls_are_planned(args: &Json, t: &McpCallTool, server: Seq<char>, tool: Seq<char>, r: Result<ServedCall, ToolOutput>)
    requires
        call_ensures(McpCallTool::plan, (t, args), r),
        member(args@, "server"@) == Some(JsonView::Text(server)),
        member(args@, "tool"@) == Some(JsonView::Text(tool)),
    ensures
        server.len() == 0 || tool.len() == 0 || !t.servers.deep_view().contains_key(server) ==> r is Err
            && r->Err_0.is_error,
        server.len() > 0 && tool.len() > 0 && t.servers.deep_view().contains_key(server) ==> r is Ok
            && r->Ok_0.server@ == server && r->Ok_0.tool@ == tool && r->Ok_0.config.deep_view()
            == t.servers.deep_view()[server],
        r is Ok ==> (member(args@, "arguments"@) matches Some(a) ==> r->Ok_0.arguments@ == a),
{
}

// ---- journals, screens and answers ----

/// A journal that is opened again goes on behind the largest number, at the end of its last
/// file.
pub proof fn law_journals_go_on(
    id: SessionId,
    cwd: &str,
    fingerprint: &str,
    segment: u32,
    size: u64,
    largest: Option<u64>,
    r: Journal,
)
    requires
        call_ensures(Journal::open, (id, cwd, fingerprint, segment, size, largest), r),
    ensures
        r.segment == segment && r.offset == size,
        r.deep_view().id == id.deep_view() && r.cwd@ == cwd@,
        largest matches Some(n) ==> (n < u64::MAX ==> r.seq == n + 1),
        largest is None ==> r.seq == 1,
{
}

/// A file of the log is full once it holds more than a mebibyte.
pub proof fn law_files_fill_up(j: &Journal, r: bool)
    requires
        call_ensures(Journal::is_full, (j,), r),
    ensures
        r <==> j.offset > 1048576,
{
}

/// A page is as high as the terminal, less four lines, but never less than one line.
pub proof fn law_pages_fit_the_terminal(h: u16, r: usize, none: usize)
    requires
        call_ensures(crate::tui::state::page_height, (Some(h),), r),
        call_ensures(crate::tui::state::page_height, (None::<u16>,), none),
    ensures
        h > 5 ==> r + 4 == h,
        h <= 5 ==> r == 1,
        none == 20,
{
}

/// Skills are told of where there are any.
pub proof fn law_skills_are_told_of(skills: &Vec<SkillDef>, r: Option<String>)
    requires
        call_ensures(crate::skills::skills_prompt, (skills,), r),
    ensures
        r is None <==> skills@.len() == 0,
        r is Some ==> skill_texts(skills.deep_view()).is_suffix_of(r->0@),
{
    if let Some(t) = r {
        let s = skill_texts(skills.deep_view());
        assert(t@.subrange(t@.len() - s.len(), t@.len() as int) =~= s);
    }
}

/// A provider can be used where its key is set and not empty.
pub proof fn law_keys_must_be_set(p: &ModelProviderConfig, v: Option<&str>, r: Result<(), String>)
    requires
        call_ensures(crate::providers::registry::check_credential, (p, v), r),
    ensures
        r is Ok <==> v is Some && v->0@.len() > 0,
{
}

/// How to answer without a terminal is said by one of two words.
pub proof fn law_answers_are_named(s: &str, r: Result<OnAsk, String>)
    requires
        call_ensures(OnAsk::parse, (s,), r),
    ensures
        r == Ok::<OnAsk, String>(OnAsk::Deny) <==> s@ == "deny"@,
        r == Ok::<OnAsk, String>(OnAsk::Approve) <==> s@ == "approve"@,
        r is Err <==> s@ != "deny"@ && s@ != "approve"@,
{
    reveal_strlit("deny");
    reveal_strlit("approve");
    assert("deny"@.len() == 4 && "approve"@.len() == 7);
}

/// A directory that is asked for is taken as it is; failing that, the current one is, or else
/// the dot.
pub proof fn law_directories_are_asked_for(args: &Json, now: Option<&str>, dir: Seq<char>, r: String)
    requires
        call_ensures(crate::mcp::server::parse_cwd, (args, now), r),
    ensures
        member(args@, "cwd"@) == Some(JsonView::Text(dir)) ==> r@ == dir,
        member(args@, "cwd"@) is None && now is Some ==> r@ == now->0@,
        member(args@, "cwd"@) is None && now is None ==> r@ == "."@,
{
}

/// What is replied to a message is what was said while it ran, or else the last words of the
/// model.
pub proof fn law_replies_are_the_last_words(said: &str, messages: &Vec<ModelMessage>, t: Seq<char>, r: Json)
    requires
        call_ensures(crate::mcp::server::reply, (said, messages), r),
    ensures
        said@.len() > 0 ==> r@ == text_result_object(said@),
        said@.len() == 0 && last_reply(messages.deep_view()) == Some(t) ==> r@ == text_result_object(t),
{
}

/// The screen shows the input with the cursor at its end, or without one while a turn runs; an
/// error and a request for approval are shown where there are any.
pub proof fn law_screens_show_the_state(s: &RenderState, r: Screen)
    requires
        call_ensures(crate::tui::screen::draw, (s,), r),
    ensures
        r.input@ == s.input@,
        s.running ==> r.cursor is None,
        !s.running ==> r.cursor == Some(s.input@.len() as usize),
        r.error is Some <==> *s.error is Some,
        r.popup is Some <==> *s.pending_approval is Some,
        r.history.deep_view() == history_lines(s.history.deep_view(), s.live_text@),
{
}

} // verus!

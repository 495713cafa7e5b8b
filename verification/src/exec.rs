//! One task without a screen: what it starts with, and what it prints.
use vstd::prelude::*;
use vstd::string::*;

use crate::codec::or_null;
use crate::config::CliOverride;
use crate::config::CliOverrideView;
use crate::config::ConfigView;
use crate::config::LoadOpts;
use crate::config::LoadOptsView;
use crate::config::all_overridden;
use crate::content::Content;
use crate::content::ContentView;
use crate::content::ReasoningEffort;
use crate::content::StopReason;
use crate::dup::Dup;
use crate::ids::SessionId;
use crate::ids::TurnId;
use crate::json::Json;
use crate::json::JsonView;
use crate::json::Members;
use crate::log::LogEvent;
use crate::log::LogEventView;
use crate::model::ModelContent;
use crate::model::ModelContentView;
use crate::model::ModelMessage;
use crate::model::ModelMessageView;
use crate::model::ModelRequest;
use crate::model::ModelRequestView;
use crate::model::RequestMeta;
use crate::model::RequestMetaView;
use crate::model::SystemBlock;
use crate::model::SystemBlockView;
use crate::model::ToolSpec;
use crate::model::ToolSpecView;
use crate::op::ReviewDecision;
use crate::permission::PermissionMode;
use crate::permission::PermissionRule;
use crate::permissions::EngineView;
use crate::permissions::PermissionEngine;
use crate::providers::calls::or_text;
use crate::providers::calls::text_or;
use crate::replay::SessionState;
use crate::replay::pairs_view;
use crate::session::TurnEvent;
use crate::session::TurnEventView;
use crate::show::kind_words;
use crate::show::show_kind;
use crate::show::show_stop;
use crate::show::show_verdict;
use crate::show::stop_words;
use crate::show::verdict_words;
use crate::text::cat3;
use crate::text::cat;
use crate::text::cut;
use crate::text::decimal;
use crate::text::decimal_of;
use crate::text::join;
use crate::text::joined;
use crate::text::same;
use crate::text::split_once;
use crate::text::views;

verus! {

/// What becomes of requests for approval when nobody is there to ask.
#[derive(Debug, Clone, Copy, PartialEq, Eq, Structural)]
pub enum OnAsk {
    /// They are refused, and the model is told.
    Deny,
    /// They are granted.
    Approve,
}

impl Default for OnAsk {
    fn default() -> (r: Self)
        ensures
            r == OnAsk::Deny,
    {
        OnAsk::Deny
    }
}

impl OnAsk {
    /// The answer to every request.
    pub fn answer(&self) -> (r: ReviewDecision)
        ensures
            r == (match *self {
                OnAsk::Deny => ReviewDecision::Deny,
                OnAsk::Approve => ReviewDecision::Approve,
            }),
    {
        match self {
            OnAsk::Deny => ReviewDecision::Deny,
            OnAsk::Approve => ReviewDecision::Approve,
        }
    }

    /// The choice with a name.
    pub fn parse(s: &str) -> (r: Result<OnAsk, String>)
        ensures
            if s@ == "deny"@ {
                r == Ok::<OnAsk, String>(OnAsk::Deny)
            } else if s@ == "approve"@ {
                r == Ok::<OnAsk, String>(OnAsk::Approve)
            } else {
                r matches Err(e) && e@ == "--on-ask 无效: "@ + s@ + "(可选: deny/approve)"@
            },
    {
        if same(s, "deny") {
            Ok(OnAsk::Deny)
        } else if same(s, "approve") {
            Ok(OnAsk::Approve)
        } else {
            Err(cat3("--on-ask 无效: ", s, "(可选: deny/approve)"))
        }
    }
}

/// What a task is started with.
pub struct ExecOpts {
    pub prompt: String,
    pub cwd: String,
    /// The model, where it is not that of the settings.
    pub model: Option<String>,
    /// Whether events are printed as JSON.
    pub json: bool,
    pub on_ask: OnAsk,
    /// The session that is taken up again.
    pub resume: Option<String>,
    /// Whether it goes on in a session of its own.
    pub fork: bool,
    pub load_opts: LoadOpts,
}

// ---- the command line ----

/// What is said of a setting without an equals sign.
pub open spec fn bad_override(s: Seq<char>) -> Seq<char> {
    "配置覆盖格式错误: "@ + s + "(应为 key=value)"@
}

/// The settings on the command line, or what is wrong with the first that is not
/// right.
pub open spec fn overrides_in(s: Seq<Seq<char>>) -> Result<Seq<CliOverrideView>, Seq<char>>
    decreases s.len(),
{
    if s.len() == 0 {
        Ok(Seq::empty())
    } else {
        match overrides_in(s.drop_last()) {
            Err(e) => Err(e),
            Ok(v) => match cut(s.last(), "="@) {
                Some((key, value)) => Ok(v.push(CliOverrideView { key, value })),
                None => Err(bad_override(s.last())),
            },
        }
    }
}

proof fn lemma_overrides_err(s: Seq<Seq<char>>, n: int)
    requires
        0 <= n <= s.len(),
        overrides_in(s.take(n)) is Err,
    ensures
        overrides_in(s) == overrides_in(s.take(n)),
    decreases s.len() - n,
{
    if n < s.len() {
        assert(s.take(n + 1).drop_last() =~= s.take(n));
        lemma_overrides_err(s, n + 1);
    } else {
        assert(s.take(n) =~= s);
    }
}

/// The settings on the command line.
pub fn parse_overrides(raw: &Vec<String>) -> (r: Result<Vec<CliOverride>, String>)
    ensures
        match overrides_in(views(raw@)) {
            Ok(v) => r matches Ok(x) && x.deep_view() == v,
            Err(e) => r matches Err(x) && x@ == e,
        },
{
    let ghost all = views(raw@);
    let mut out: Vec<CliOverride> = Vec::new();
    let mut i: usize = 0;
    assert(out.deep_view() =~= Seq::<CliOverrideView>::empty());
    while i < raw.len()
        invariant
            i <= raw@.len(),
            all == views(raw@),
            overrides_in(all.take(i as int)) == Ok::<Seq<CliOverrideView>, Seq<char>>(
                out.deep_view(),
            ),
        decreases raw@.len() - i,
    {
        assert(all.take(i + 1).drop_last() =~= all.take(i as int));
        assert(all.take(i + 1).last() == raw@[i as int]@);
        let ghost before = out.deep_view();
        match split_once(raw[i].as_str(), "=") {
            Some((key, value)) => {
                let o = CliOverride { key, value };
                out.push(o);
                assert(out.deep_view() =~= before.push(o.deep_view()));
            },
            None => {
                proof {
                    lemma_overrides_err(all, i + 1);
                }
                return Err(cat3("配置覆盖格式错误: ", raw[i].as_str(), "(应为 key=value)"));
            },
        }
        i = i + 1;
    }
    assert(all.take(all.len() as int) =~= all);
    Ok(out)
}

/// The settings that leave out all requests for approval.
pub open spec fn bypass_setting() -> CliOverrideView {
    CliOverrideView { key: "permission_mode"@, value: "bypass"@ }
}

/// Where settings come from, as the command line says it.
pub fn build_load_opts(raw: &Vec<String>, profile: &Option<String>, bypass: bool) -> (r: Result<
    LoadOpts,
    String,
>)
    ensures
        match overrides_in(views(raw@)) {
            Ok(v) => r matches Ok(x) && x.deep_view() == (LoadOptsView {
                project_config: None,
                user_config: None,
                profile: profile.deep_view(),
                overrides: if bypass {
                    v.push(bypass_setting())
                } else {
                    v
                },
            }),
            Err(e) => r matches Err(x) && x@ == e,
        },
{
    match parse_overrides(raw) {
        Err(e) => Err(e),
        Ok(mut v) => {
            let ghost before = v.deep_view();
            if bypass {
                let o = CliOverride {
                    key: "permission_mode".to_owned(),
                    value: "bypass".to_owned(),
                };
                v.push(o);
                assert(v.deep_view() =~= before.push(o.deep_view()));
            }
            Ok(
                LoadOpts {
                    project_config: None,
                    user_config: None,
                    profile: profile.dup(),
                    overrides: v,
                },
            )
        },
    }
}

// ---- the start ----

/// A block of the system prompt.
pub open spec fn system_block(text: Seq<char>) -> SystemBlockView {
    SystemBlockView { text, cache_breakpoint: None }
}

/// The system prompt: the instructions and the skills, where there are any, and then
/// what is always said.
pub open spec fn system_with(
    instructions: Option<Seq<char>>,
    skills: Option<Seq<char>>,
    always: Seq<char>,
) -> Seq<SystemBlockView> {
    let first = match instructions {
        Some(t) => Seq::empty().push(system_block(t)),
        None => Seq::empty(),
    };
    let second = match skills {
        Some(t) => first.push(system_block(t)),
        None => first,
    };
    second.push(system_block(always))
}

/// The system prompt.
pub fn system_blocks_with(
    instructions: &Option<String>,
    skills: &Option<String>,
    always: &str,
) -> (r: Vec<SystemBlock>)
    ensures
        r.deep_view() == system_with(instructions.deep_view(), skills.deep_view(), always@),
{
    let mut v: Vec<SystemBlock> = Vec::new();
    match instructions {
        Some(t) => {
            v.push(SystemBlock { text: t.clone(), cache_breakpoint: None });
        },
        None => {},
    }
    match skills {
        Some(t) => {
            v.push(SystemBlock { text: t.clone(), cache_breakpoint: None });
        },
        None => {},
    }
    v.push(SystemBlock { text: always.to_owned(), cache_breakpoint: None });
    assert(v.deep_view() =~= system_with(
        instructions.deep_view(),
        skills.deep_view(),
        always@,
    ));
    v
}

/// The system prompt outside an editor.
pub open spec fn system_of(instructions: Option<Seq<char>>, skills: Option<Seq<char>>) -> Seq<
    SystemBlockView,
> {
    system_with(
        instructions,
        skills,
        "你是 tao,一个 Rust 编写的 coding agent。你可以通过 Bash / Read / Write / Edit / Patch / Grep / Glob 工具帮助用户完成任务。优先用最少的步骤解决问题。"@,
    )
}

/// The system prompt outside an editor.
pub fn system_blocks(instructions: &Option<String>, skills: &Option<String>) -> (r: Vec<SystemBlock>)
    ensures
        r.deep_view() == system_of(instructions.deep_view(), skills.deep_view()),
{
    system_blocks_with(
        instructions,
        skills,
        "你是 tao,一个 Rust 编写的 coding agent。你可以通过 Bash / Read / Write / Edit / Patch / Grep / Glob 工具帮助用户完成任务。优先用最少的步骤解决问题。",
    )
}

/// A message of the user that is one text.
pub open spec fn asked(text: Seq<char>) -> ModelMessageView {
    ModelMessageView::User { content: seq![ModelContentView::Text(text)] }
}

/// A message of the user that is one text.
pub fn user_message(text: &str) -> (r: ModelMessage)
    ensures
        r.deep_view() == asked(text@),
{
    let mut v: Vec<ModelContent> = Vec::new();
    v.push(ModelContent::Text(text.to_owned()));
    assert(v.deep_view() =~= seq![ModelContentView::Text(text@)]);
    ModelMessage::User { content: v }
}

/// What is recorded of a message of the user that is one text.
pub fn user_input_event(text: &str, turn_id: &TurnId) -> (r: LogEvent)
    ensures
        r.deep_view() == (LogEventView::UserInput {
            content: seq![ContentView::Text { text: text@ }],
            turn_id: turn_id.deep_view(),
        }),
{
    let mut v: Vec<Content> = Vec::new();
    v.push(Content::Text { text: text.to_owned() });
    assert(v.deep_view() =~= seq![ContentView::Text { text: text@ }]);
    LogEvent::UserInput { content: v, turn_id: turn_id.clone() }
}

/// What every request of a turn begins as. The messages are added at each step.
pub open spec fn request_of(
    model: Seq<char>,
    system: Seq<SystemBlockView>,
    tools: Seq<ToolSpecView>,
    reasoning: Option<ReasoningEffort>,
    session_id: Seq<char>,
    turn_id: Seq<char>,
) -> ModelRequestView {
    ModelRequestView {
        model,
        system,
        messages: Seq::empty(),
        tools,
        reasoning,
        max_output_tokens: 4096,
        temperature: None,
        metadata: RequestMetaView { session_id: Some(session_id), turn_id: Some(turn_id) },
    }
}

/// What every request of a turn begins as.
pub fn turn_request(
    model: &str,
    system: Vec<SystemBlock>,
    tools: Vec<ToolSpec>,
    reasoning: Option<ReasoningEffort>,
    session_id: &SessionId,
    turn_id: &TurnId,
) -> (r: ModelRequest)
    ensures
        r.deep_view() == request_of(
            model@,
            system.deep_view(),
            tools.deep_view(),
            reasoning,
            session_id.deep_view(),
            turn_id.deep_view(),
        ),
{
    let messages: Vec<ModelMessage> = Vec::new();
    assert(messages.deep_view() =~= Seq::<ModelMessageView>::empty());
    ModelRequest {
        model: model.to_owned(),
        system,
        messages,
        tools,
        reasoning,
        max_output_tokens: 4096,
        temperature: None,
        metadata: RequestMeta {
            session_id: Some(session_id.as_str().to_owned()),
            turn_id: Some(turn_id.as_str().to_owned()),
        },
    }
}

/// The request of a task, without messages and tools, which each step adds.
pub fn exec_request(
    model: &str,
    instructions: &Option<String>,
    reasoning: Option<ReasoningEffort>,
    session_id: &SessionId,
    turn_id: &TurnId,
) -> (r: ModelRequest)
    ensures
        r.deep_view() == request_of(
            model@,
            system_of(instructions.deep_view(), None),
            Seq::empty(),
            reasoning,
            session_id.deep_view(),
            turn_id.deep_view(),
        ),
{
    let tools: Vec<ToolSpec> = Vec::new();
    assert(tools.deep_view() =~= Seq::<ToolSpecView>::empty());
    turn_request(model, system_blocks(instructions, &None), tools, reasoning, session_id, turn_id)
}

/// The permissions of a session that is taken up again: its mode, the rules of the
/// settings, and what was granted for it.
pub fn restore_engine(state: &SessionState, rules: &Vec<PermissionRule>) -> (r: PermissionEngine)
    ensures
        r.inv(),
        r.deep_view() == (EngineView {
            mode: state.mode,
            rules: rules.deep_view(),
            grants: state.deep_view().session_grants.to_set(),
        }),
{
    let mut e = PermissionEngine::new(state.mode, rules.dup());
    let ghost start = e.deep_view();
    let ghost all = pairs_view(state.session_grants@);
    let mut i: usize = 0;
    assert(start.grants =~= all.take(0).to_set());
    while i < state.session_grants.len()
        invariant
            i <= state.session_grants@.len(),
            all == pairs_view(state.session_grants@),
            e.inv(),
            e.deep_view() == (EngineView { grants: all.take(i as int).to_set(), ..start }),
        decreases state.session_grants@.len() - i,
    {
        let g = &state.session_grants[i];
        proof {
            let now = all.take(i + 1);
            let before = all.take(i as int);
            assert(now =~= before.push(all[i as int]));
            assert forall|x: (Seq<char>, Seq<char>)|
                now.to_set().contains(x) == before.to_set().insert(all[i as int]).contains(x) by {
                if before.contains(x) {
                    let k = choose|k: int| 0 <= k < before.len() && before[k] == x;
                    assert(now[k] == x);
                }
                assert(now[i as int] == all[i as int]);
            }
            assert(now.to_set() =~= before.to_set().insert(all[i as int]));
        }
        e.grant(g.0.as_str(), g.1.as_str());
        i = i + 1;
    }
    assert(all.take(all.len() as int) =~= all);
    e
}

// ---- what is printed ----

/// A member with a text.
pub open spec fn typed(t: Seq<char>) -> Map<Seq<char>, JsonView> {
    Map::empty().insert("type"@, JsonView::Text(t))
}

/// An event as it is printed as JSON. Some are not printed.
pub open spec fn event_object(ev: TurnEventView) -> Option<JsonView> {
    match ev {
        TurnEventView::TextDelta(t) => Some(
            JsonView::Object(typed("text_delta"@).insert("text"@, JsonView::Text(t))),
        ),
        TurnEventView::ThinkingDelta(t) => Some(
            JsonView::Object(typed("thinking_delta"@).insert("text"@, JsonView::Text(t))),
        ),
        TurnEventView::ToolCallBegin { call_id, tool } => Some(
            JsonView::Object(
                typed("tool_call_begin"@).insert("call_id"@, JsonView::Text(call_id)).insert(
                    "tool"@,
                    JsonView::Text(tool),
                ),
            ),
        ),
        TurnEventView::ToolCallEnd { call_id } => Some(
            JsonView::Object(typed("tool_call_end"@).insert("call_id"@, JsonView::Text(call_id))),
        ),
        TurnEventView::ToolExecBegin { call_id } => Some(
            JsonView::Object(typed("tool_exec_begin"@).insert("call_id"@, JsonView::Text(call_id))),
        ),
        TurnEventView::ToolExecEnd { call_id, ok, summary } => Some(
            JsonView::Object(
                typed("tool_exec_end"@).insert("call_id"@, JsonView::Text(call_id)).insert(
                    "ok"@,
                    JsonView::Bool(ok),
                ).insert("summary"@, JsonView::Text(summary)),
            ),
        ),
        TurnEventView::ApprovalRequest { call_id, kind, detail } => Some(
            JsonView::Object(
                typed("approval_request"@).insert("call_id"@, JsonView::Text(call_id)).insert(
                    "kind"@,
                    JsonView::Text(kind_words(kind)),
                ).insert("tool"@, or_null::<String>(detail.tool)),
            ),
        ),
        TurnEventView::ApprovalResolved { call_id, decision } => Some(
            JsonView::Object(
                typed("approval_resolved"@).insert("call_id"@, JsonView::Text(call_id)).insert(
                    "decision"@,
                    JsonView::Text(verdict_words(decision)),
                ),
            ),
        ),
        TurnEventView::ModelMessageEnd { stop_reason } => Some(
            JsonView::Object(
                typed("model_message_end"@).insert(
                    "stop_reason"@,
                    JsonView::Text(stop_words(stop_reason)),
                ),
            ),
        ),
        TurnEventView::TurnComplete { stop_reason, steps } => Some(
            JsonView::Object(
                typed("turn_complete"@).insert(
                    "stop_reason"@,
                    JsonView::Text(stop_words(stop_reason)),
                ).insert("steps"@, JsonView::Int(steps as int)),
            ),
        ),
        TurnEventView::Error(m) => Some(
            JsonView::Object(typed("error"@).insert("message"@, JsonView::Text(m))),
        ),
        TurnEventView::Usage(_) => None,
        TurnEventView::BackgroundEvent(_) => None,
    }
}

fn start(t: &str) -> (r: Members)
    ensures
        r@ == typed(t@),
{
    let mut m = Members::new();
    m.put_text("type", t);
    m
}

/// An event as it is printed as JSON.
pub fn event_json(ev: &TurnEvent) -> (r: Option<Json>)
    ensures
        r.deep_view() == event_object(ev.deep_view()),
{
    let m = match ev {
        TurnEvent::TextDelta(t) => {
            let mut m = start("text_delta");
            m.put_text("text", t.as_str());
            m
        },
        TurnEvent::ThinkingDelta(t) => {
            let mut m = start("thinking_delta");
            m.put_text("text", t.as_str());
            m
        },
        TurnEvent::ToolCallBegin { call_id, tool } => {
            let mut m = start("tool_call_begin");
            m.put_text("call_id", call_id.as_str());
            m.put_text("tool", tool.as_str());
            m
        },
        TurnEvent::ToolCallEnd { call_id } => {
            let mut m = start("tool_call_end");
            m.put_text("call_id", call_id.as_str());
            m
        },
        TurnEvent::ToolExecBegin { call_id } => {
            let mut m = start("tool_exec_begin");
            m.put_text("call_id", call_id.as_str());
            m
        },
        TurnEvent::ToolExecEnd { call_id, ok, summary } => {
            let mut m = start("tool_exec_end");
            m.put_text("call_id", call_id.as_str());
            m.put("ok", Json::Bool(*ok));
            m.put_text("summary", summary.as_str());
            m
        },
        TurnEvent::ApprovalRequest { call_id, kind, detail } => {
            let mut m = start("approval_request");
            m.put_text("call_id", call_id.as_str());
            m.put_text("kind", show_kind(*kind));
            match &detail.tool {
                Some(t) => m.put_text("tool", t.as_str()),
                None => m.put("tool", Json::Null),
            }
            m
        },
        TurnEvent::ApprovalResolved { call_id, decision } => {
            let mut m = start("approval_resolved");
            m.put_text("call_id", call_id.as_str());
            m.put_text("decision", show_verdict(*decision));
            m
        },
        TurnEvent::ModelMessageEnd { stop_reason } => {
            let mut m = start("model_message_end");
            m.put_text("stop_reason", show_stop(*stop_reason));
            m
        },
        TurnEvent::TurnComplete { stop_reason, steps } => {
            let mut m = start("turn_complete");
            m.put_text("stop_reason", show_stop(*stop_reason));
            m.put("steps", Json::Unsigned(*steps as u64));
            m
        },
        TurnEvent::Error(e) => {
            let mut m = start("error");
            m.put_text("message", e.as_str());
            m
        },
        TurnEvent::Usage(_) => return None,
        TurnEvent::BackgroundEvent(_) => return None,
    };
    Some(m.done())
}

/// How a turn ended, as JSON.
pub fn result_json(stop_reason: StopReason, steps: u32) -> (r: Json)
    ensures
        r@ == JsonView::Object(
            typed("turn_result"@).insert("stop_reason"@, JsonView::Text(stop_words(stop_reason))).insert(
                "steps"@,
                JsonView::Int(steps as int),
            ),
        ),
{
    let mut m = start("turn_result");
    m.put_text("stop_reason", show_stop(stop_reason));
    m.put("steps", Json::Unsigned(steps as u64));
    m.done()
}

/// An event as it is printed as text. On what is no terminal only text and errors
/// are printed.
pub open spec fn event_line(ev: TurnEventView, terminal: bool) -> Seq<char> {
    match ev {
        TurnEventView::TextDelta(t) => t,
        TurnEventView::Error(m) => "\n[error: "@ + m + "]\n"@,
        _ => if !terminal {
            Seq::empty()
        } else {
            match ev {
                TurnEventView::ToolCallBegin { tool, .. } => "\n[tool: "@ + tool + "]\n"@,
                TurnEventView::ToolExecEnd { ok, summary, .. } => "["@ + (if ok {
                    "✓"@
                } else {
                    "✗"@
                }) + " "@ + summary + "]\n"@,
                TurnEventView::ApprovalRequest { kind, detail, .. } => "\n[审批请求 "@ + kind_words(
                    kind,
                ) + ": "@ + or_text(detail.tool, "?"@) + "]\n"@ + match detail.command {
                    Some(c) => "  命令: "@ + joined(c, " "@) + "\n"@,
                    None => Seq::empty(),
                },
                TurnEventView::ApprovalResolved { decision, .. } => "  审批决定: "@ + verdict_words(
                    decision,
                ) + "\n"@,
                _ => Seq::empty(),
            }
        },
    }
}

fn nothing() -> (r: String)
    ensures
        r@ == Seq::<char>::empty(),
{
    let r = String::new();
    assert(r@ =~= Seq::<char>::empty());
    r
}

/// An event as it is printed as text.
pub fn event_text(ev: &TurnEvent, terminal: bool) -> (r: String)
    ensures
        r@ == event_line(ev.deep_view(), terminal),
{
    match ev {
        TurnEvent::TextDelta(t) => t.clone(),
        TurnEvent::Error(m) => cat3("\n[error: ", m.as_str(), "]\n"),
        _ => {
            if !terminal {
                return nothing();
            }
            match ev {
                TurnEvent::ToolCallBegin { tool, .. } => cat3("\n[tool: ", tool.as_str(), "]\n"),
                TurnEvent::ToolExecEnd { ok, summary, .. } => {
                    let mark = if *ok {
                        "✓"
                    } else {
                        "✗"
                    };
                    let head = cat3("[", mark, " ");
                    cat3(head.as_str(), summary.as_str(), "]\n")
                },
                TurnEvent::ApprovalRequest { kind, detail, .. } => {
                    let tool = text_or(detail.tool.dup(), "?");
                    let head = cat3("\n[审批请求 ", show_kind(*kind), ": ");
                    let line = cat3(head.as_str(), tool.as_str(), "]\n");
                    match &detail.command {
                        Some(c) => {
                            let words = join(c, " ");
                            assert(views(c@) =~= c.deep_view());
                            let more = cat3("  命令: ", words.as_str(), "\n");
                            cat(line.as_str(), more.as_str())
                        },
                        None => {
                            assert(line@ + Seq::<char>::empty() =~= line@);
                            line
                        },
                    }
                },
                TurnEvent::ApprovalResolved { decision, .. } => cat3(
                    "  审批决定: ",
                    show_verdict(*decision),
                    "\n",
                ),
                _ => nothing(),
            }
        },
    }
}

/// How a turn ended, as text.
pub fn result_text(stop_reason: StopReason, steps: u32) -> (r: String)
    ensures
        r@ == "\n[turn complete: "@ + stop_words(stop_reason) + ", "@ + decimal_of(steps as nat)
            + " steps]\n"@,
{
    let n = decimal(steps as u64);
    let head = cat3("\n[turn complete: ", show_stop(stop_reason), ", ");
    cat3(head.as_str(), n.as_str(), " steps]\n")
}

// ---- laws ----

/// The flag that leaves out all requests for approval decides on the mode, whatever
/// stands beside it on the command line.
pub proof fn law_bypass_wins(c: ConfigView, v: Seq<CliOverrideView>)
    requires
        all_overridden(c, v) is Ok,
    ensures
        all_overridden(c, v.push(bypass_setting())) is Ok,
        all_overridden(c, v.push(bypass_setting()))->Ok_0.permission_mode == PermissionMode::Bypass,
{
    let w = v.push(bypass_setting());
    assert(w.drop_last() =~= v);
    reveal_strlit("permission_mode");
    reveal_strlit("model");
    reveal_strlit("model_provider");
    assert("permission_mode"@.len() == 15 && "model"@.len() == 5 && "model_provider"@.len() == 14);
    reveal_strlit("bypass");
    reveal_strlit("default");
    reveal_strlit("plan");
    reveal_strlit("accept-edits");
    assert("bypass"@.len() == 6 && "default"@.len() == 7 && "plan"@.len() == 4
        && "accept-edits"@.len() == 12);
}

} // verus!

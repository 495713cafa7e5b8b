//! Running a prompt from the command line: settings, requests, and what is printed.
use vstd::prelude::*;

use crate::config::AnthropicAuth;
use crate::config::CliOverrideView;
use crate::config::ConfigView;
use crate::config::ModelProviderConfigView;
use crate::config::WireApi;
use crate::config::model_of;
use crate::config::provider_of;
use crate::content::ReasoningEffort;
use crate::content::StopReason;
use crate::event::ApprovalDetailView;
use crate::event::ApprovalKind;
use crate::exec::asked;
use crate::exec::event_line;
use crate::exec::event_object;
use crate::exec::overrides_in;
use crate::exec::request_of;
use crate::exec::system_with;
use crate::json::JsonView;
use crate::json::member;
use crate::laws::texts::lemma_first_at;
use crate::laws::texts::lemma_first_missing;
use crate::model::ModelContentView;
use crate::model::ModelErrorView;
use crate::model::ModelMessageView;
use crate::model::ModelRequestView;
use crate::model::SystemBlockView;
use crate::model::ToolSpecView;
use crate::op::ReviewDecision;
use crate::providers::registry::ClientPlanView;
use crate::providers::registry::http_call;
use crate::providers::registry::resolved_client;
use crate::session::TurnEventView;

verus! {

/// A setting on the command line is a key, an equals sign and a value, which may hold further
/// ones; without the sign it is refused, and the first that is refused is told.
pub proof fn law_settings_are_parted_at_the_sign(
    s: Seq<Seq<char>>,
    key: Seq<char>,
    value: Seq<char>,
    bad: Seq<char>,
)
    requires
        !key.contains('='),
        !bad.contains('='),
    ensures
        overrides_in(Seq::empty()) == Ok::<_, Seq<char>>(Seq::<CliOverrideView>::empty()),
        overrides_in(s) matches Ok(v) ==> overrides_in(s.push(key + "="@ + value)) == Ok::<_, Seq<char>>(
            v.push(CliOverrideView { key, value }),
        ),
        overrides_in(s) is Ok ==> overrides_in(s.push(bad)) == Err::<Seq<CliOverrideView>, _>(
            "配置覆盖格式错误: "@ + bad + "(应为 key=value)"@,
        ),
        overrides_in(s) is Err ==> overrides_in(s.push(key)) == overrides_in(s),
{
    reveal_strlit("=");
    assert("="@.len() == 1);
    let one = key + "="@ + value;
    assert(s.push(one).drop_last() =~= s);
    assert(s.push(bad).drop_last() =~= s);
    assert(s.push(key).drop_last() =~= s);
    lemma_first_at(key, "="@, value);
    assert(one.take(key.len() as int) =~= key);
    assert(one.skip(key.len() as int + 1) =~= value);
    lemma_first_missing(bad, "="@);
}

/// The system prompt is the instructions, the skills and what always holds, in this order,
/// each where there is any.
pub proof fn law_system_prompts_are_put_together(i: Seq<char>, k: Seq<char>, always: Seq<char>)
    ensures
        ({
            let texts = |s: Seq<SystemBlockView>| s.map_values(|b: SystemBlockView| b.text);
            &&& texts(system_with(Some(i), Some(k), always)) == seq![i, k, always]
            &&& texts(system_with(Some(i), None, always)) == seq![i, always]
            &&& texts(system_with(None, Some(k), always)) == seq![k, always]
            &&& texts(system_with(None, None, always)) == seq![always]
        }),
{
    let f = |b: SystemBlockView| b.text;
    assert(system_with(Some(i), Some(k), always).map_values(f) =~= seq![i, k, always]);
    assert(system_with(Some(i), None, always).map_values(f) =~= seq![i, always]);
    assert(system_with(None, Some(k), always).map_values(f) =~= seq![k, always]);
    assert(system_with(None, None, always).map_values(f) =~= seq![always]);
}

/// A turn's request has the model, the prompt, the tools and the effort that it was given, and
/// names the session and the turn.
pub proof fn law_turns_ask_as_configured(
    model: Seq<char>,
    system: Seq<SystemBlockView>,
    tools: Seq<ToolSpecView>,
    reasoning: Option<ReasoningEffort>,
    session: Seq<char>,
    turn: Seq<char>,
    text: Seq<char>,
)
    ensures
        ({
            let r = request_of(model, system, tools, reasoning, session, turn);
            &&& r.model == model && r.system == system && r.tools == tools && r.reasoning == reasoning
            &&& r.messages.len() == 0 && r.max_output_tokens == 4096 && r.temperature is None
            &&& r.metadata.session_id == Some(session) && r.metadata.turn_id == Some(turn)
        }),
        asked(text) == (ModelMessageView::User { content: seq![ModelContentView::Text(text)] }),
{
}

/// Each event is printed as an object of its own type with what it says.
pub proof fn law_events_are_printed(
    t: Seq<char>,
    id: Seq<char>,
    tool: Seq<char>,
    ok: bool,
    stop_reason: StopReason,
    steps: u32,
)
    ensures
        event_object(TurnEventView::TextDelta(t)) matches Some(j) && member(j, "type"@) == Some(
            JsonView::Text("text_delta"@),
        ) && member(j, "text"@) == Some(JsonView::Text(t)),
        event_object(TurnEventView::ThinkingDelta(t)) matches Some(j) && member(j, "type"@) == Some(
            JsonView::Text("thinking_delta"@),
        ) && member(j, "text"@) == Some(JsonView::Text(t)),
        event_object(TurnEventView::ToolCallBegin { call_id: id, tool }) matches Some(j) && member(
            j,
            "type"@,
        ) == Some(JsonView::Text("tool_call_begin"@)) && member(j, "call_id"@) == Some(
            JsonView::Text(id),
        ) && member(j, "tool"@) == Some(JsonView::Text(tool)),
        event_object(TurnEventView::ToolCallEnd { call_id: id }) matches Some(j) && member(j, "type"@)
            == Some(JsonView::Text("tool_call_end"@)) && member(j, "call_id"@) == Some(
            JsonView::Text(id),
        ),
        event_object(TurnEventView::ToolExecBegin { call_id: id }) matches Some(j) && member(
            j,
            "type"@,
        ) == Some(JsonView::Text("tool_exec_begin"@)) && member(j, "call_id"@) == Some(
            JsonView::Text(id),
        ),
        event_object(TurnEventView::ToolExecEnd { call_id: id, ok, summary: t }) matches Some(j)
            && member(j, "type"@) == Some(JsonView::Text("tool_exec_end"@)) && member(j, "call_id"@)
            == Some(JsonView::Text(id)) && member(j, "ok"@) == Some(JsonView::Bool(ok)) && member(
            j,
            "summary"@,
        ) == Some(JsonView::Text(t)),
        event_object(TurnEventView::Error(t)) matches Some(j) && member(j, "type"@) == Some(
            JsonView::Text("error"@),
        ) && member(j, "message"@) == Some(JsonView::Text(t)),
        event_object(TurnEventView::TurnComplete { stop_reason, steps }) matches Some(j) && member(
            j,
            "type"@,
        ) == Some(JsonView::Text("turn_complete"@)) && member(j, "steps"@) == Some(
            JsonView::Int(steps as int),
        ) && member(j, "stop_reason"@) == Some(
            JsonView::Text(
                match stop_reason {
                    StopReason::EndTurn => "EndTurn"@,
                    StopReason::MaxTokens => "MaxTokens"@,
                    StopReason::ToolUse => "ToolUse"@,
                    StopReason::Refused => "Refused"@,
                    StopReason::Interrupted => "Interrupted"@,
                    StopReason::Error => "Error"@,
                    StopReason::MaxSteps => "MaxSteps"@,
                },
            ),
        ),
{
    reveal_strlit("type");
    reveal_strlit("text");
    reveal_strlit("call_id");
    reveal_strlit("tool");
    reveal_strlit("ok");
    reveal_strlit("summary");
    reveal_strlit("message");
    reveal_strlit("steps");
    reveal_strlit("stop_reason");
    assert("type"@.len() == 4 && "text"@.len() == 4 && "call_id"@.len() == 7 && "tool"@.len() == 4 && "ok"@.len() == 2 && "summary"@.len() == 7 && "message"@.len() == 7 && "steps"@.len() == 5 && "stop_reason"@.len() == 11);
    assert("type"@[1] != "text"@[1]);
    assert("type"@[1] != "tool"@[1]);
    assert("text"@[1] != "tool"@[1]);
    assert("call_id"@[0] != "summary"@[0]);
    assert("call_id"@[0] != "message"@[0]);
    assert("summary"@[0] != "message"@[0]);
}

/// A request for approval is printed with what it is about, and its answer by name.
pub proof fn law_approvals_are_printed(
    id: Seq<char>,
    kind: ApprovalKind,
    detail: ApprovalDetailView,
    tool: Seq<char>,
    decision: ReviewDecision,
)
    requires
        detail.tool == Some(tool),
    ensures
        event_object(TurnEventView::ApprovalRequest { call_id: id, kind, detail }) matches Some(j)
            && member(j, "type"@) == Some(JsonView::Text("approval_request"@)) && member(j, "call_id"@)
            == Some(JsonView::Text(id)) && member(j, "tool"@) == Some(JsonView::Text(tool)) && member(
            j,
            "kind"@,
        ) == Some(
            JsonView::Text(
                match kind {
                    ApprovalKind::Exec => "Exec"@,
                    ApprovalKind::Patch => "Patch"@,
                    ApprovalKind::Tool => "Tool"@,
                    ApprovalKind::McpTool => "McpTool"@,
                },
            ),
        ),
        event_object(TurnEventView::ApprovalResolved { call_id: id, decision }) matches Some(j)
            && member(j, "type"@) == Some(JsonView::Text("approval_resolved"@)) && member(j, "call_id"@)
            == Some(JsonView::Text(id)) && member(j, "decision"@) == Some(
            JsonView::Text(
                match decision {
                    ReviewDecision::Approve => "Approve"@,
                    ReviewDecision::ApproveForSession => "ApproveForSession"@,
                    ReviewDecision::Deny => "Deny"@,
                    ReviewDecision::Abort => "Abort"@,
                },
            ),
        ),
{
    reveal_strlit("type");
    reveal_strlit("call_id");
    reveal_strlit("kind");
    reveal_strlit("tool");
    reveal_strlit("decision");
    assert("type"@.len() == 4 && "call_id"@.len() == 7 && "kind"@.len() == 4 && "tool"@.len() == 4 && "decision"@.len() == 8);
    assert("type"@[0] != "kind"@[0]);
    assert("type"@[1] != "tool"@[1]);
    assert("kind"@[0] != "tool"@[0]);
}

/// Text and errors are printed to whatever reads them; calls and how they went only to a
/// terminal.
pub proof fn law_plain_output_is_text(
    t: Seq<char>,
    id: Seq<char>,
    tool: Seq<char>,
    terminal: bool,
)
    ensures
        event_line(TurnEventView::TextDelta(t), terminal) == t,
        event_line(TurnEventView::Error(t), terminal) == "\n[error: "@ + t + "]\n"@,
        event_line(TurnEventView::ThinkingDelta(t), terminal) == Seq::<char>::empty(),
        event_line(TurnEventView::ToolCallBegin { call_id: id, tool }, false) == Seq::<char>::empty(),
        event_line(TurnEventView::ToolCallBegin { call_id: id, tool }, true) == "\n[tool: "@ + tool
            + "]\n"@,
        event_line(TurnEventView::ToolExecEnd { call_id: id, ok: true, summary: t }, true) == "["@
            + "✓"@ + " "@ + t + "]\n"@,
        event_line(TurnEventView::ToolExecEnd { call_id: id, ok: false, summary: t }, true) == "["@
            + "✗"@ + " "@ + t + "]\n"@,
        event_line(TurnEventView::ToolExecEnd { call_id: id, ok: true, summary: t }, false)
            == Seq::<char>::empty(),
{
}

// ---- providers ----

/// The provider is the one that the configuration names, and must be known; a key must be
/// there and must not be empty.
pub proof fn law_clients_need_provider_and_key(
    c: ConfigView,
    id: Seq<char>,
    p: ModelProviderConfigView,
    key: Seq<char>,
    model: Seq<char>,
)
    requires
        provider_of(c) == Some(id),
        model_of(c) == Some(model),
    ensures
        !c.model_providers.contains_key(id) ==> (resolved_client(c, Some(key)) matches Err(e) && e is Build),
        c.model_providers.contains_key(id) && c.model_providers[id] == p ==> {
            &&& resolved_client(c, None) matches Err(e) && e is Auth
            &&& key.len() == 0 ==> (resolved_client(c, Some(key)) matches Err(e) && e is Auth)
            &&& key.len() > 0 ==> resolved_client(c, Some(key)) == Ok::<_, ModelErrorView>(
                ClientPlanView {
                    wire_api: p.wire_api,
                    base_url: p.base_url,
                    auth: p.anthropic_auth,
                    api_key: key,
                    model_id: model,
                },
            )
        },
{
}

/// Each format has its own endpoint below the base address, and the key goes into the header
/// that the format asks for.
pub proof fn law_calls_go_to_their_endpoint(p: ClientPlanView, req: ModelRequestView)
    requires
        p.base_url.len() > 0,
        p.base_url.last() != '/',
    ensures
        ({
            let c = http_call(p, req);
            let bearer = ("authorization"@, "Bearer "@ + p.api_key);
            &&& p.wire_api == WireApi::Anthropic ==> c.url == p.base_url + "/v1/messages"@
                && c.headers.contains(("anthropic-version"@, "2023-06-01"@)) && (p.auth
                == AnthropicAuth::ApiKey ==> c.headers.contains(("x-api-key"@, p.api_key))) && (
            p.auth == AnthropicAuth::Bearer ==> c.headers.contains(bearer))
            &&& p.wire_api == WireApi::OpenaiResponses ==> c.url == p.base_url + "/v1/responses"@
                && c.headers == seq![bearer]
            &&& p.wire_api == WireApi::OpenaiChat ==> c.url == p.base_url + "/v1/chat/completions"@
                && c.headers == seq![bearer]
        }),
{
    let c = http_call(p, req);
    if p.wire_api == WireApi::Anthropic {
        assert(c.headers[0] == ("anthropic-version"@, "2023-06-01"@));
        assert(c.headers.contains(c.headers[1]));
    }
}

} // verus!

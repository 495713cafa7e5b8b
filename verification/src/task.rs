//! Sub-agents at work: what one is given, and what it reports.
use vstd::prelude::*;
use vstd::string::*;

use crate::agents::SubagentDef;
use crate::agents::SubagentDefView;
use crate::content::StopReason;
use crate::dup::Dup;
use crate::json::Json;
use crate::json::JsonView;
use crate::json::member;
use crate::json::text_in;
use crate::model::ModelContent;
use crate::model::ModelContentView;
use crate::model::ModelMessage;
use crate::model::ModelMessageView;
use crate::model::ModelRequest;
use crate::model::ModelRequestView;
use crate::model::RequestMeta;
use crate::model::RequestMetaView;
use crate::model::SystemBlock;
use crate::model::SystemBlockView;
use crate::model::ToolSpecView;
use crate::permission::PermissionMode;
use crate::permission::Verdict;
use crate::permissions::EngineView;
use crate::permissions::decision;
use crate::providers::calls::or_text;
use crate::providers::calls::text_at;
use crate::providers::calls::text_or;
use crate::session::find_reply;
use crate::session::last_reply;
use crate::show::show_stop;
use crate::show::stop_words;
use crate::text::cat3;
use crate::text::cat;
use crate::text::decimal;
use crate::text::decimal_of;
use crate::text::same;
use crate::text::views;
use crate::tools::ToolError;
use crate::tools::ToolErrorView;
use crate::tools::ToolOutput;
use crate::tools::ToolOutputView;
use crate::tools::ToolRegistry;
use crate::tools::law_subset_only_reads;
use crate::tools::readable;
use crate::tools::touched;

verus! {

/// Sub-agents are nested this deep.
pub const MAX_TASK_DEPTH: u32 = 8;

/// A sub-agent's turn has this many steps.
pub const TASK_MAX_STEPS: u32 = 20;

/// What a sub-agent is given.
pub struct TaskPlan {
    pub name: String,
    /// Its request, without the messages.
    pub request: ModelRequest,
    /// Its messages at the start.
    pub messages: Vec<ModelMessage>,
    pub tools: ToolRegistry,
    pub mode: PermissionMode,
    pub max_steps: u32,
}

/// The first sub-agent of a name.
pub open spec fn agent_named(s: Seq<SubagentDefView>, name: Seq<char>) -> Option<SubagentDefView>
    decreases s.len(),
{
    if s.len() == 0 {
        None
    } else if s[0].name == name {
        Some(s[0])
    } else {
        agent_named(s.drop_first(), name)
    }
}

fn find_agent<'a>(v: &'a Vec<SubagentDef>, name: &str) -> (r: Option<&'a SubagentDef>)
    ensures
        match r {
            Some(d) => agent_named(v.deep_view(), name@) == Some(d.deep_view()),
            None => agent_named(v.deep_view(), name@) is None,
        },
{
    let ghost all = v.deep_view();
    let mut i: usize = 0;
    assert(all.skip(0) =~= all);
    while i < v.len()
        invariant
            i <= v@.len(),
            all == v.deep_view(),
            agent_named(all, name@) == agent_named(all.skip(i as int), name@),
        decreases v@.len() - i,
    {
        assert(all.skip(i as int)[0] == v@[i as int].deep_view());
        if same(v[i].name.as_str(), name) {
            return Some(&v[i]);
        }
        assert(all.skip(i as int).drop_first() =~= all.skip(i + 1));
        i = i + 1;
    }
    None
}

/// Why a sub-agent is not run.
pub open spec fn task_refusal(
    depth: u32,
    input: JsonView,
    agents: Seq<SubagentDefView>,
) -> Option<Seq<char>> {
    let name = or_text(text_in(member(input, "subagent"@)), ""@);
    if depth > MAX_TASK_DEPTH {
        Some("子 agent 嵌套深度超限("@ + decimal_of(depth as nat) + "),已拒绝"@)
    } else if name.len() == 0 {
        Some("Task 缺少 subagent 参数"@)
    } else if agent_named(agents, name) is None {
        Some("未知子 agent: "@ + name)
    } else {
        None
    }
}

/// The request of a sub-agent.
pub open spec fn task_request(
    def: SubagentDefView,
    tools: Seq<ToolSpecView>,
    model: Seq<char>,
) -> ModelRequestView {
    ModelRequestView {
        model: or_text(def.model, model),
        system: seq![SystemBlockView { text: def.system_prompt, cache_breakpoint: None }],
        messages: Seq::empty(),
        tools: readable(tools, def.tools),
        reasoning: None,
        max_output_tokens: 4096,
        temperature: None,
        metadata: RequestMetaView { session_id: None, turn_id: None },
    }
}

/// Prepare a sub-agent, or say why it is not run.
pub fn plan_task(
    input: &Json,
    depth: u32,
    agents: &Vec<SubagentDef>,
    tools: &ToolRegistry,
    model: &str,
) -> (r: Result<TaskPlan, ToolOutput>)
    ensures
        match task_refusal(depth, input@, agents.deep_view()) {
            Some(why) => r matches Err(o) && o.deep_view() == (ToolOutputView {
                content: why,
                is_error: true,
            }),
            None => r matches Ok(p) && {
                let name = or_text(text_in(member(input@, "subagent"@)), ""@);
                let def = agent_named(agents.deep_view(), name)->0;
                &&& p.name@ == name
                &&& p.request.deep_view() == task_request(def, tools.deep_view(), model@)
                &&& p.messages.deep_view() == seq![
                    ModelMessageView::User {
                        content: seq![
                            ModelContentView::Text(
                                or_text(text_in(member(input@, "prompt"@)), ""@),
                            ),
                        ],
                    },
                ]
                &&& p.tools.inv()
                &&& p.tools.deep_view() == readable(tools.deep_view(), def.tools)
                &&& p.mode == PermissionMode::Plan
                &&& p.max_steps == TASK_MAX_STEPS
            },
        },
{
    if depth > MAX_TASK_DEPTH {
        let n = decimal(depth as u64);
        let text = cat3("子 agent 嵌套深度超限(", n.as_str(), "),已拒绝");
        return Err(ToolOutput::error(text.as_str()));
    }
    let name = text_or(text_at(input, "subagent"), "");
    let prompt = text_or(text_at(input, "prompt"), "");
    if name.as_str().unicode_len() == 0 {
        return Err(ToolOutput::error("Task 缺少 subagent 参数"));
    }
    match find_agent(agents, name.as_str()) {
        None => {
            let text = cat("未知子 agent: ", name.as_str());
            Err(ToolOutput::error(text.as_str()))
        },
        Some(def) => {
            let sub = tools.readonly_subset(&def.tools);
            assert(views(def.tools@) =~= def.deep_view().tools);
            let block = SystemBlock { text: def.system_prompt.clone(), cache_breakpoint: None };
            let mut system: Vec<SystemBlock> = Vec::new();
            system.push(block);
            assert(system.deep_view() =~= seq![block.deep_view()]);
            let none: Vec<ModelMessage> = Vec::new();
            assert(none.deep_view() =~= Seq::<ModelMessageView>::empty());
            let request = ModelRequest {
                model: text_or(def.model.dup(), model),
                system,
                messages: none,
                tools: sub.specs(),
                reasoning: None,
                max_output_tokens: 4096,
                temperature: None,
                metadata: RequestMeta { session_id: None, turn_id: None },
            };
            let mut content: Vec<ModelContent> = Vec::new();
            content.push(ModelContent::Text(prompt));
            assert(content.deep_view() =~= seq![ModelContentView::Text(prompt@)]);
            let m = ModelMessage::User { content };
            let mut messages: Vec<ModelMessage> = Vec::new();
            messages.push(m);
            assert(messages.deep_view() =~= seq![m.deep_view()]);
            Ok(
                TaskPlan {
                    name,
                    request,
                    messages,
                    tools: sub,
                    mode: PermissionMode::Plan,
                    max_steps: TASK_MAX_STEPS,
                },
            )
        },
    }
}

/// What a sub-agent reports: what it said last, or how its turn ended.
pub open spec fn report_of(s: Seq<ModelMessageView>, end: Result<StopReason, Seq<char>>) -> Seq<char> {
    match last_reply(s) {
        Some(t) => t,
        None => match end {
            Ok(stop) => "[子 agent 无文本输出: "@ + stop_words(stop) + "]"@,
            Err(e) => "[子 agent 错误: "@ + e + "]"@,
        },
    }
}

/// What a sub-agent reports.
pub fn task_report(messages: &Vec<ModelMessage>, end: &Result<StopReason, String>) -> (r: ToolOutput)
    ensures
        r.deep_view() == (ToolOutputView {
            content: report_of(
                messages.deep_view(),
                match *end {
                    Ok(s) => Ok(s),
                    Err(e) => Err(e@),
                },
            ),
            is_error: false,
        }),
{
    let text = match find_reply(messages) {
        Some(t) => t,
        None => match end {
            Ok(s) => cat3("[子 agent 无文本输出: ", show_stop(*s), "]"),
            Err(e) => cat3("[子 agent 错误: ", e.as_str(), "]"),
        },
    };
    ToolOutput::ok(text.as_str())
}

/// What is said where a sub-agent's log could not be made.
pub fn task_log_failure(e: &str) -> (r: ToolError)
    ensures
        r.deep_view() == ToolErrorView::Failed("子会话创建失败: "@ + e@),
{
    ToolError::Failed(cat("子会话创建失败: ", e))
}

// ---- laws ----

/// A sub-agent changes nothing: whatever tools it asks for, it gets none but those
/// that read.
pub proof fn law_subagents_only_read(def: SubagentDefView, tools: Seq<ToolSpecView>, model: Seq<char>, i: int)
    requires
        0 <= i < task_request(def, tools, model).tools.len(),
    ensures
        ({
            let n = task_request(def, tools, model).tools[i].name;
            n == "Read"@ || n == "Grep"@ || n == "Glob"@
        }),
{
    law_subset_only_reads(tools, def.tools);
}

/// A sub-agent can use the tools that it gets: in the mode that it runs in, and without
/// rules, every call of one of them is allowed, whatever it touches.
pub proof fn law_subagents_may_use_their_tools(
    def: SubagentDefView,
    tools: Seq<ToolSpecView>,
    model: Seq<char>,
    i: int,
    args: JsonView,
    cwd: Seq<char>,
)
    requires
        0 <= i < task_request(def, tools, model).tools.len(),
    ensures
        ({
            let n = task_request(def, tools, model).tools[i].name;
            let e = EngineView {
                mode: PermissionMode::Plan,
                rules: Seq::empty(),
                grants: Set::empty(),
            };
            decision(e, n, touched(n, args, cwd)).verdict == Verdict::Allow
        }),
{
    law_subagents_only_read(def, tools, model, i);
    reveal_strlit("Bash");
    reveal_strlit("Read");
    reveal_strlit("Grep");
    reveal_strlit("Glob");
    assert("Bash"@[0] == 'B' && "Read"@[0] == 'R' && "Grep"@[0] == 'G' && "Glob"@[0] == 'G');
}

} // verus!

//! Hooks: commands of the user that run at given points and may refuse.
use vstd::prelude::*;

use crate::dup::Dup;
use crate::json::Json;
use crate::json::JsonView;
use crate::json::Members;
use crate::json::json_text;
use crate::json::print;
use crate::permissions::tool_listed;
use crate::permissions::tool_matches;
use crate::replay::pairs_view;
use crate::text::cat3;
use crate::text::cat;
use crate::text::decimal;
use crate::text::decimal_of;
use crate::text::same;
use crate::text::signed_decimal;
use crate::text::signed_decimal_of;
use crate::text::trim;
use crate::text::trimmed;

verus! {

/// The model of `HookEvent`.
pub enum HookEventView {
    SessionStart,
    SessionEnd,
    PreToolUse { tool: Seq<char> },
    PostToolUse { tool: Seq<char> },
    UserPromptSubmit { text: Seq<char> },
    Notification { message: Seq<char> },
    SubagentStop { name: Seq<char> },
    Stop,
}

/// A point at which hooks run.
#[derive(Debug, PartialEq)]
pub enum HookEvent {
    SessionStart,
    SessionEnd,
    PreToolUse { tool: String },
    PostToolUse { tool: String },
    UserPromptSubmit { text: String },
    Notification { message: String },
    SubagentStop { name: String },
    Stop,
}

impl DeepView for HookEvent {
    type V = HookEventView;

    open spec fn deep_view(&self) -> HookEventView {
        match *self {
            HookEvent::SessionStart => HookEventView::SessionStart,
            HookEvent::SessionEnd => HookEventView::SessionEnd,
            HookEvent::PreToolUse { tool } => HookEventView::PreToolUse { tool: tool.deep_view() },
            HookEvent::PostToolUse { tool } => HookEventView::PostToolUse { tool: tool.deep_view() },
            HookEvent::UserPromptSubmit { text } => HookEventView::UserPromptSubmit { text: text.deep_view() },
            HookEvent::Notification { message } => HookEventView::Notification { message: message.deep_view() },
            HookEvent::SubagentStop { name } => HookEventView::SubagentStop { name: name.deep_view() },
            HookEvent::Stop => HookEventView::Stop,
        }
    }
}

impl Dup for HookEvent {
    fn dup(&self) -> (r: Self) {
        match self {
            HookEvent::SessionStart => HookEvent::SessionStart,
            HookEvent::SessionEnd => HookEvent::SessionEnd,
            HookEvent::PreToolUse { tool } => HookEvent::PreToolUse { tool: tool.dup() },
            HookEvent::PostToolUse { tool } => HookEvent::PostToolUse { tool: tool.dup() },
            HookEvent::UserPromptSubmit { text } => HookEvent::UserPromptSubmit { text: text.dup() },
            HookEvent::Notification { message } => HookEvent::Notification { message: message.dup() },
            HookEvent::SubagentStop { name } => HookEvent::SubagentStop { name: name.dup() },
            HookEvent::Stop => HookEvent::Stop,
        }
    }
}

impl Clone for HookEvent {
    fn clone(&self) -> (r: Self)
        ensures
            r.deep_view() == self.deep_view(),
    {
        self.dup()
    }
}

/// The name of a point.
pub open spec fn hook_name(e: HookEventView) -> Seq<char> {
    match e {
        HookEventView::SessionStart => "SessionStart"@,
        HookEventView::SessionEnd => "SessionEnd"@,
        HookEventView::PreToolUse { tool } => "PreToolUse"@,
        HookEventView::PostToolUse { tool } => "PostToolUse"@,
        HookEventView::UserPromptSubmit { text } => "UserPromptSubmit"@,
        HookEventView::Notification { message } => "Notification"@,
        HookEventView::SubagentStop { name } => "SubagentStop"@,
        HookEventView::Stop => "Stop"@,
    }
}

/// The tool that a point is about.
pub open spec fn hook_tool(e: HookEventView) -> Option<Seq<char>> {
    match e {
        HookEventView::PreToolUse { tool } => Some(tool),
        HookEventView::PostToolUse { tool } => Some(tool),
        _ => None,
    }
}

impl HookEvent {
    /// The name of the point.
    pub fn name(&self) -> (r: &'static str)
        ensures
            r@ == hook_name(self.deep_view()),
    {
        match self {
            HookEvent::SessionStart => "SessionStart",
            HookEvent::SessionEnd => "SessionEnd",
            HookEvent::PreToolUse { tool: _ } => "PreToolUse",
            HookEvent::PostToolUse { tool: _ } => "PostToolUse",
            HookEvent::UserPromptSubmit { text: _ } => "UserPromptSubmit",
            HookEvent::Notification { message: _ } => "Notification",
            HookEvent::SubagentStop { name: _ } => "SubagentStop",
            HookEvent::Stop => "Stop",
        }
    }

    /// The tool that the point is about.
    pub fn tool(&self) -> (r: Option<&str>)
        ensures
            match r {
                Some(t) => hook_tool(self.deep_view()) == Some(t@),
                None => hook_tool(self.deep_view()) is None,
            },
    {
        match self {
            HookEvent::PreToolUse { tool } => Some(tool.as_str()),
            HookEvent::PostToolUse { tool } => Some(tool.as_str()),
            _ => None,
        }
    }
}

/// The model of `HookConfig`.
pub struct HookConfigView {
    pub matcher: Seq<char>,
    pub command: Seq<char>,
    pub timeout_ms: u64,
}

/// A hook.
#[derive(Debug, PartialEq)]
pub struct HookConfig {
    /// Which tools: `*` for all, or names separated by `|`.
    pub matcher: String,
    /// What `sh -c` runs.
    pub command: String,
    pub timeout_ms: u64,
}

impl DeepView for HookConfig {
    type V = HookConfigView;

    open spec fn deep_view(&self) -> HookConfigView {
        HookConfigView {
            matcher: self.matcher.deep_view(),
            command: self.command.deep_view(),
            timeout_ms: self.timeout_ms.deep_view(),
        }
    }
}

impl Dup for HookConfig {
    fn dup(&self) -> (r: Self) {
        HookConfig {
            matcher: self.matcher.dup(),
            command: self.command.dup(),
            timeout_ms: self.timeout_ms.dup(),
        }
    }
}

impl Clone for HookConfig {
    fn clone(&self) -> (r: Self)
        ensures
            r.deep_view() == self.deep_view(),
    {
        self.dup()
    }
}

/// The matcher that a hook has unless told otherwise.
pub fn default_matcher() -> (r: String)
    ensures
        r@ == "*"@,
{
    "*".to_owned()
}

/// The milliseconds that a hook may take unless told otherwise.
pub const DEFAULT_HOOK_TIMEOUT_MS: u64 = 5000;

/// The model of `HookCtx`.
pub struct HookCtxView {
    pub session_id: Seq<char>,
    pub cwd: Seq<char>,
    pub tool_name: Option<Seq<char>>,
    pub tool_input: Option<JsonView>,
}

/// What a hook is told.
#[derive(Debug, PartialEq)]
pub struct HookCtx {
    pub session_id: String,
    pub cwd: String,
    pub tool_name: Option<String>,
    pub tool_input: Option<Json>,
}

impl DeepView for HookCtx {
    type V = HookCtxView;

    open spec fn deep_view(&self) -> HookCtxView {
        HookCtxView {
            session_id: self.session_id.deep_view(),
            cwd: self.cwd.deep_view(),
            tool_name: self.tool_name.deep_view(),
            tool_input: self.tool_input.deep_view(),
        }
    }
}

impl Dup for HookCtx {
    fn dup(&self) -> (r: Self) {
        HookCtx {
            session_id: self.session_id.dup(),
            cwd: self.cwd.dup(),
            tool_name: self.tool_name.dup(),
            tool_input: self.tool_input.dup(),
        }
    }
}

impl Clone for HookCtx {
    fn clone(&self) -> (r: Self)
        ensures
            r.deep_view() == self.deep_view(),
    {
        self.dup()
    }
}

/// The model of `HookOutcome`.
pub enum HookOutcomeView {
    Pass,
    Block(Seq<char>),
}

/// What the hooks of a point come to.
#[derive(Debug, PartialEq)]
pub enum HookOutcome {
    Pass,
    /// A hook refused, with its reason.
    Block(String),
}

impl DeepView for HookOutcome {
    type V = HookOutcomeView;

    open spec fn deep_view(&self) -> HookOutcomeView {
        match *self {
            HookOutcome::Pass => HookOutcomeView::Pass,
            HookOutcome::Block(x) => HookOutcomeView::Block(x.deep_view()),
        }
    }
}

impl Dup for HookOutcome {
    fn dup(&self) -> (r: Self) {
        match self {
            HookOutcome::Pass => HookOutcome::Pass,
            HookOutcome::Block(x) => HookOutcome::Block(x.dup()),
        }
    }
}

impl Clone for HookOutcome {
    fn clone(&self) -> (r: Self)
        ensures
            r.deep_view() == self.deep_view(),
    {
        self.dup()
    }
}

/// The model of `HookExecResult`.
pub enum HookExecResultView {
    Pass,
    Block(Seq<char>),
    Error(Seq<char>),
}

/// What one hook came to.
#[derive(Debug, PartialEq)]
pub enum HookExecResult {
    Pass,
    Block(String),
    /// The hook failed, which stops nothing.
    Error(String),
}

impl DeepView for HookExecResult {
    type V = HookExecResultView;

    open spec fn deep_view(&self) -> HookExecResultView {
        match *self {
            HookExecResult::Pass => HookExecResultView::Pass,
            HookExecResult::Block(x) => HookExecResultView::Block(x.deep_view()),
            HookExecResult::Error(x) => HookExecResultView::Error(x.deep_view()),
        }
    }
}

impl Dup for HookExecResult {
    fn dup(&self) -> (r: Self) {
        match self {
            HookExecResult::Pass => HookExecResult::Pass,
            HookExecResult::Block(x) => HookExecResult::Block(x.dup()),
            HookExecResult::Error(x) => HookExecResult::Error(x.dup()),
        }
    }
}

impl Clone for HookExecResult {
    fn clone(&self) -> (r: Self)
        ensures
            r.deep_view() == self.deep_view(),
    {
        self.dup()
    }
}

/// Whether a hook runs at a point.
pub open spec fn hook_applies(e: HookEventView, matcher: Seq<char>) -> bool {
    matcher == "*"@ || match hook_tool(e) {
        Some(tool) => tool_listed(matcher, tool),
        None => true,
    }
}

/// Whether a hook runs at a point: `*` always does, and so does every hook at a
/// point that is not about a tool.
pub fn matches_event(event: &HookEvent, matcher: &str) -> (r: bool)
    ensures
        r == hook_applies(event.deep_view(), matcher@),
{
    if same(matcher, "*") {
        return true;
    }
    match event.tool() {
        Some(tool) => tool_matches(matcher, tool),
        None => true,
    }
}

/// The hooks that run at a point, in order.
pub open spec fn applying(e: HookEventView, s: Seq<HookConfigView>) -> Seq<HookConfigView>
    decreases s.len(),
{
    if s.len() == 0 {
        Seq::empty()
    } else if hook_applies(e, s.last().matcher) {
        applying(e, s.drop_last()).push(s.last())
    } else {
        applying(e, s.drop_last())
    }
}

/// The hooks that run at a point, in order.
pub fn select_hooks(event: &HookEvent, hooks: &Vec<HookConfig>) -> (r: Vec<HookConfig>)
    ensures
        r.deep_view() == applying(event.deep_view(), hooks.deep_view()),
{
    let mut out: Vec<HookConfig> = Vec::new();
    let mut i: usize = 0;
    let ghost all = hooks.deep_view();
    let ghost e = event.deep_view();
    assert(out.deep_view() =~= applying(e, all.take(0)));
    while i < hooks.len()
        invariant
            i <= hooks@.len(),
            all == hooks.deep_view(),
            e == event.deep_view(),
            out.deep_view() == applying(e, all.take(i as int)),
        decreases hooks@.len() - i,
    {
        let ghost before = out.deep_view();
        assert(all.take(i + 1).drop_last() =~= all.take(i as int));
        assert(all.take(i + 1).last() == hooks@[i as int].deep_view());
        if matches_event(event, hooks[i].matcher.as_str()) {
            let h = hooks[i].dup();
            out.push(h);
            assert(out.deep_view() =~= before.push(h.deep_view()));
        }
        i = i + 1;
    }
    assert(all.take(all.len() as int) =~= all);
    out
}

/// What the hooks of a point come to: the first refusal, if there is one.
pub open spec fn outcome_of(s: Seq<HookExecResultView>) -> HookOutcomeView
    decreases s.len(),
{
    if s.len() == 0 {
        HookOutcomeView::Pass
    } else {
        match s[0] {
            HookExecResultView::Block(reason) => HookOutcomeView::Block(reason),
            _ => outcome_of(s.drop_first()),
        }
    }
}

/// What the hooks of a point come to.
pub fn aggregate(results: &Vec<HookExecResult>) -> (r: HookOutcome)
    ensures
        r.deep_view() == outcome_of(results.deep_view()),
{
    let mut i: usize = 0;
    let ghost all = results.deep_view();
    assert(all.skip(0) =~= all);
    while i < results.len()
        invariant
            i <= results@.len(),
            all == results.deep_view(),
            outcome_of(all) == outcome_of(all.skip(i as int)),
        decreases results@.len() - i,
    {
        assert(all.skip(i as int)[0] == results@[i as int].deep_view());
        match &results[i] {
            HookExecResult::Block(reason) => {
                return HookOutcome::Block(reason.clone());
            },
            _ => {},
        }
        assert(all.skip(i as int).drop_first() =~= all.skip(i + 1));
        i = i + 1;
    }
    HookOutcome::Pass
}

/// A text, or null.
pub open spec fn text_or_null(t: Option<Seq<char>>) -> JsonView {
    match t {
        Some(s) => JsonView::Text(s),
        None => JsonView::Null,
    }
}

/// What a hook is told, as JSON.
pub open spec fn told(e: HookEventView, ctx: HookCtxView) -> JsonView {
    JsonView::Object(
        Map::empty().insert("event"@, JsonView::Text(hook_name(e))).insert(
            "session_id"@,
            JsonView::Text(ctx.session_id),
        ).insert("cwd"@, JsonView::Text(ctx.cwd)).insert(
            "tool_name"@,
            text_or_null(ctx.tool_name),
        ).insert(
            "tool_input"@,
            match ctx.tool_input {
                Some(j) => j,
                None => JsonView::Null,
            },
        ),
    )
}

/// What a hook is told, as the text on its standard input.
pub fn hook_stdin(event: &HookEvent, ctx: &HookCtx) -> (r: String)
    ensures
        r@ == json_text(told(event.deep_view(), ctx.deep_view())),
{
    let mut m = Members::new();
    m.put("event", Json::text(event.name()));
    m.put("session_id", Json::text(ctx.session_id.as_str()));
    m.put("cwd", Json::text(ctx.cwd.as_str()));
    match &ctx.tool_name {
        Some(s) => m.put("tool_name", Json::text(s.as_str())),
        None => m.put("tool_name", Json::Null),
    }
    match &ctx.tool_input {
        Some(j) => m.put("tool_input", j.clone()),
        None => m.put("tool_input", Json::Null),
    }
    print(&m.done())
}

/// An exit code as Rust's debug format has it.
pub open spec fn code_text(code: Option<i32>) -> Seq<char> {
    match code {
        Some(n) => "Some("@ + signed_decimal_of(n as int) + ")"@,
        None => "None"@,
    }
}

/// What a hook that ended comes to: success passes, exit code two refuses with
/// what was written to standard error, anything else is an error.
pub open spec fn ended(success: bool, code: Option<i32>, stderr: Seq<char>) -> HookExecResultView {
    if success {
        HookExecResultView::Pass
    } else if code == Some(2i32) {
        HookExecResultView::Block(trimmed(stderr))
    } else {
        HookExecResultView::Error("退出码 "@ + code_text(code) + ": "@ + trimmed(stderr))
    }
}

/// What a hook that ended comes to.
pub fn hook_result(success: bool, code: Option<i32>, stderr: &str) -> (r: HookExecResult)
    ensures
        r.deep_view() == ended(success, code, stderr@),
{
    if success {
        return HookExecResult::Pass;
    }
    let why = trim(stderr);
    let text = match code {
        Some(n) => {
            if n == 2 {
                return HookExecResult::Block(why);
            }
            let d = signed_decimal(n);
            cat3("Some(", d.as_str(), ")")
        },
        None => "None".to_owned(),
    };
    let head = cat3("退出码 ", text.as_str(), ": ");
    HookExecResult::Error(cat(head.as_str(), why.as_str()))
}

/// What the environment of a hook holds: where programs and the home directory are,
/// and what the hook is run for. Nothing else goes there.
pub open spec fn hook_environment(
    e: HookEventView,
    tool_name: Option<Seq<char>>,
    path: Option<Seq<char>>,
    home: Option<Seq<char>>,
) -> Seq<(Seq<char>, Seq<char>)> {
    let a = match path {
        Some(p) => Seq::empty().push(("PATH"@, p)),
        None => Seq::empty(),
    };
    let b = match home {
        Some(h) => a.push(("HOME"@, h)),
        None => a,
    };
    let c = b.push(("TAO_HOOK_EVENT"@, hook_name(e)));
    match tool_name {
        Some(t) => c.push(("TAO_TOOL_NAME"@, t)),
        None => c,
    }
}

/// What the environment of a hook holds.
pub fn hook_env(event: &HookEvent, ctx: &HookCtx, path: &Option<String>, home: &Option<String>) -> (r:
    Vec<(String, String)>)
    ensures
        pairs_view(r@) == hook_environment(
            event.deep_view(),
            ctx.deep_view().tool_name,
            path.deep_view(),
            home.deep_view(),
        ),
{
    let mut v: Vec<(String, String)> = Vec::new();
    match path {
        Some(p) => {
            v.push(("PATH".to_owned(), p.clone()));
        },
        None => {},
    }
    match home {
        Some(h) => {
            v.push(("HOME".to_owned(), h.clone()));
        },
        None => {},
    }
    v.push(("TAO_HOOK_EVENT".to_owned(), event.name().to_owned()));
    match &ctx.tool_name {
        Some(t) => {
            v.push(("TAO_TOOL_NAME".to_owned(), t.clone()));
        },
        None => {},
    }
    assert(pairs_view(v@) =~= hook_environment(
        event.deep_view(),
        ctx.deep_view().tool_name,
        path.deep_view(),
        home.deep_view(),
    ));
    v
}

/// What a hook that could not be started comes to.
pub fn hook_not_started(e: &str) -> (r: HookExecResult)
    ensures
        r.deep_view() == HookExecResultView::Error("启动失败: "@ + e@),
{
    HookExecResult::Error(cat("启动失败: ", e))
}

/// What a hook that could not be waited for comes to.
pub fn hook_not_waited(e: &str) -> (r: HookExecResult)
    ensures
        r.deep_view() == HookExecResultView::Error("wait 失败: "@ + e@),
{
    HookExecResult::Error(cat("wait 失败: ", e))
}

/// What a hook that took too long comes to.
pub fn hook_timed_out(timeout_ms: u64) -> (r: HookExecResult)
    ensures
        r.deep_view() == HookExecResultView::Error(
            "超时("@ + decimal_of(timeout_ms as nat) + "ms)"@,
        ),
{
    let n = decimal(timeout_ms);
    HookExecResult::Error(cat3("超时(", n.as_str(), "ms)"))
}

// ---- laws ----

/// The hooks of a point refuse if and only if one of them does; an error or a
/// time-out refuses nothing.
pub proof fn law_one_refusal_is_enough(s: Seq<HookExecResultView>)
    ensures
        outcome_of(s) is Block <==> exists|i: int| 0 <= i < s.len() && #[trigger] s[i] is Block,
    decreases s.len(),
{
    if s.len() > 0 {
        let t = s.drop_first();
        law_one_refusal_is_enough(t);
        if s[0] is Block {
        } else if outcome_of(t) is Block {
            let i = choose|i: int| 0 <= i < t.len() && #[trigger] t[i] is Block;
            assert(s[i + 1] is Block);
        } else if exists|i: int| 0 <= i < s.len() && #[trigger] s[i] is Block {
            let i = choose|i: int| 0 <= i < s.len() && #[trigger] s[i] is Block;
            assert(t[i - 1] is Block);
        }
    }
}

/// Keys of providers do not reach hooks: four names at most are set in a hook's
/// environment.
pub proof fn law_hooks_see_no_keys(
    e: HookEventView,
    tool_name: Option<Seq<char>>,
    path: Option<Seq<char>>,
    home: Option<Seq<char>>,
    i: int,
)
    requires
        0 <= i < hook_environment(e, tool_name, path, home).len(),
    ensures
        ({
            let k = hook_environment(e, tool_name, path, home)[i].0;
            k == "PATH"@ || k == "HOME"@ || k == "TAO_HOOK_EVENT"@ || k == "TAO_TOOL_NAME"@
        }),
{
}

} // verus!

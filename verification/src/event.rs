//! What the agent tells its clients.
use vstd::prelude::*;

use crate::codec::Wire;
use crate::codec::default_to;
use crate::codec::maybe;
use crate::codec::need;
use crate::codec::or_null;
use crate::codec::take_bool_or;
use crate::codec::take_maybe;
use crate::codec::take_needed;
use crate::codec::with_some;
use crate::content::PlanItem;
use crate::content::PlanItemView;
use crate::content::StopReason;
use crate::content::TokenUsage;
use crate::content::TokenUsageView;
use crate::dup::Dup;
use crate::ids::CallId;
use crate::ids::SessionId;
use crate::ids::TurnId;
use crate::json::Json;
use crate::json::JsonView;
use crate::json::Members;
use crate::json::lemma_list_view;
use crate::json::lemma_member_decreases;
use crate::json::list_view;
use crate::json::text_in;
use crate::permission::PermissionMode;
use crate::text::same;

verus! {

/// Which stream a piece of output came from.
#[derive(Debug, Clone, Copy, PartialEq, Eq, Structural)]
pub enum ExecStream {
    Stdout,
    Stderr,
}

impl DeepView for ExecStream {
    type V = ExecStream;

    open spec fn deep_view(&self) -> ExecStream {
        *self
    }
}

impl Dup for ExecStream {
    fn dup(&self) -> (r: Self) {
        *self
    }
}

impl ExecStream {
    /// The name on the wire.
    pub open spec fn name(self) -> Seq<char> {
        match self {
            ExecStream::Stdout => "stdout"@,
            ExecStream::Stderr => "stderr"@,
        }
    }

    /// The value with a given name.
    pub open spec fn named(s: Seq<char>) -> Option<ExecStream> {
        if s == "stdout"@ {
            Some(ExecStream::Stdout)
        } else if s == "stderr"@ {
            Some(ExecStream::Stderr)
        } else {
            None
        }
    }

    /// The name on the wire.
    pub fn as_str(&self) -> (r: &'static str)
        ensures
            r@ == self.name(),
    {
        match self {
            ExecStream::Stdout => "stdout",
            ExecStream::Stderr => "stderr",
        }
    }

    /// The value with a given name.
    pub fn from_name(s: &str) -> (r: Option<ExecStream>)
        ensures
            r == ExecStream::named(s@),
    {
        if same(s, "stdout") {
            Some(ExecStream::Stdout)
        } else if same(s, "stderr") {
            Some(ExecStream::Stderr)
        } else {
            None
        }
    }
}

impl Wire for ExecStream {
    open spec fn json(v: ExecStream) -> JsonView {
        JsonView::Text(v.name())
    }

    open spec fn read(j: JsonView) -> Option<ExecStream> {
        match text_in(Some(j)) {
            Some(s) => ExecStream::named(s),
            None => None,
        }
    }

    fn to_json(&self) -> (r: Json) {
        Json::text(self.as_str())
    }

    fn from_json(j: &Json) -> (r: Option<Self>) {
        match j.as_str() {
            Some(s) => ExecStream::from_name(s),
            None => None,
        }
    }

    open spec fn faithful(v: ExecStream) -> bool {
        true
    }

    proof fn round_trip(v: ExecStream) {
        reveal_strlit("stdout");
        reveal_strlit("stderr");
        assert("stdout"@[3] != "stderr"@[3]);
    }
}

/// What a request for approval is about.
#[derive(Debug, Clone, Copy, PartialEq, Eq, Structural)]
pub enum ApprovalKind {
    Exec,
    Patch,
    Tool,
    McpTool,
}

impl DeepView for ApprovalKind {
    type V = ApprovalKind;

    open spec fn deep_view(&self) -> ApprovalKind {
        *self
    }
}

impl Dup for ApprovalKind {
    fn dup(&self) -> (r: Self) {
        *self
    }
}

impl ApprovalKind {
    /// The name on the wire.
    pub open spec fn name(self) -> Seq<char> {
        match self {
            ApprovalKind::Exec => "exec"@,
            ApprovalKind::Patch => "patch"@,
            ApprovalKind::Tool => "tool"@,
            ApprovalKind::McpTool => "mcp_tool"@,
        }
    }

    /// The value with a given name.
    pub open spec fn named(s: Seq<char>) -> Option<ApprovalKind> {
        if s == "exec"@ {
            Some(ApprovalKind::Exec)
        } else if s == "patch"@ {
            Some(ApprovalKind::Patch)
        } else if s == "tool"@ {
            Some(ApprovalKind::Tool)
        } else if s == "mcp_tool"@ {
            Some(ApprovalKind::McpTool)
        } else {
            None
        }
    }

    /// The name on the wire.
    pub fn as_str(&self) -> (r: &'static str)
        ensures
            r@ == self.name(),
    {
        match self {
            ApprovalKind::Exec => "exec",
            ApprovalKind::Patch => "patch",
            ApprovalKind::Tool => "tool",
            ApprovalKind::McpTool => "mcp_tool",
        }
    }

    /// The value with a given name.
    pub fn from_name(s: &str) -> (r: Option<ApprovalKind>)
        ensures
            r == ApprovalKind::named(s@),
    {
        if same(s, "exec") {
            Some(ApprovalKind::Exec)
        } else if same(s, "patch") {
            Some(ApprovalKind::Patch)
        } else if same(s, "tool") {
            Some(ApprovalKind::Tool)
        } else if same(s, "mcp_tool") {
            Some(ApprovalKind::McpTool)
        } else {
            None
        }
    }
}

impl Wire for ApprovalKind {
    open spec fn json(v: ApprovalKind) -> JsonView {
        JsonView::Text(v.name())
    }

    open spec fn read(j: JsonView) -> Option<ApprovalKind> {
        match text_in(Some(j)) {
            Some(s) => ApprovalKind::named(s),
            None => None,
        }
    }

    fn to_json(&self) -> (r: Json) {
        Json::text(self.as_str())
    }

    fn from_json(j: &Json) -> (r: Option<Self>) {
        match j.as_str() {
            Some(s) => ApprovalKind::from_name(s),
            None => None,
        }
    }

    open spec fn faithful(v: ApprovalKind) -> bool {
        true
    }

    proof fn round_trip(v: ApprovalKind) {
        reveal_strlit("exec");
        reveal_strlit("patch");
        reveal_strlit("tool");
        reveal_strlit("mcp_tool");
        assert("exec"@.len() == 4 && "patch"@.len() == 5 && "tool"@.len() == 4 && "mcp_tool"@.len() == 8);
        assert("exec"@[0] != "tool"@[0]);
    }
}

/// The model of `ApprovalDetail`.
pub struct ApprovalDetailView {
    pub rule_matched: Option<Seq<char>>,
    pub command: Option<Seq<Seq<char>>>,
    pub files: Option<Seq<Seq<char>>>,
    pub tool: Option<Seq<char>>,
    pub args_summary: Option<JsonView>,
    pub pattern_suggestion: Option<Seq<char>>,
}

/// What a request for approval shows.
#[derive(Debug, PartialEq)]
pub struct ApprovalDetail {
    /// The rule that asked.
    pub rule_matched: Option<String>,
    /// The command, for one.
    pub command: Option<Vec<String>>,
    /// The files, for a patch.
    pub files: Option<Vec<String>>,
    pub tool: Option<String>,
    pub args_summary: Option<Json>,
    /// An allow rule that would cover the call.
    pub pattern_suggestion: Option<String>,
}

impl DeepView for ApprovalDetail {
    type V = ApprovalDetailView;

    open spec fn deep_view(&self) -> ApprovalDetailView {
        ApprovalDetailView {
            rule_matched: self.rule_matched.deep_view(),
            command: self.command.deep_view(),
            files: self.files.deep_view(),
            tool: self.tool.deep_view(),
            args_summary: self.args_summary.deep_view(),
            pattern_suggestion: self.pattern_suggestion.deep_view(),
        }
    }
}

impl Dup for ApprovalDetail {
    fn dup(&self) -> (r: Self) {
        ApprovalDetail {
            rule_matched: self.rule_matched.dup(),
            command: self.command.dup(),
            files: self.files.dup(),
            tool: self.tool.dup(),
            args_summary: self.args_summary.dup(),
            pattern_suggestion: self.pattern_suggestion.dup(),
        }
    }
}

impl Clone for ApprovalDetail {
    fn clone(&self) -> (r: Self)
        ensures
            r.deep_view() == self.deep_view(),
    {
        self.dup()
    }
}

impl Wire for ApprovalDetail {
    open spec fn json(v: ApprovalDetailView) -> JsonView {
        JsonView::Object(
            with_some::<String>(
                with_some::<Json>(
                with_some::<String>(
                with_some::<Vec<String>>(
                with_some::<Vec<String>>(
                with_some::<String>(
                Map::empty(),
                "rule_matched"@,
                v.rule_matched,
            ),
                "command"@,
                v.command,
            ),
                "files"@,
                v.files,
            ),
                "tool"@,
                v.tool,
            ),
                "args_summary"@,
                v.args_summary,
            ),
                "pattern_suggestion"@,
                v.pattern_suggestion,
            ),
        )
    }

    open spec fn read(j: JsonView) -> Option<ApprovalDetailView> {
        match j {
            JsonView::Object(_) => match (
                maybe::<String>(j, "rule_matched"@),
                maybe::<Vec<String>>(j, "command"@),
                maybe::<Vec<String>>(j, "files"@),
                maybe::<String>(j, "tool"@),
                maybe::<Json>(j, "args_summary"@),
                maybe::<String>(j, "pattern_suggestion"@),
            ) {
                (Some(rule_matched), Some(command), Some(files), Some(tool), Some(args_summary), Some(pattern_suggestion)) => Some(
                    ApprovalDetailView { rule_matched, command, files, tool, args_summary, pattern_suggestion },
                ),
                _ => None,
            },
            _ => None,
        }
    }

    fn to_json(&self) -> (r: Json) {
        let mut m = Members::new();
        m.put_some::<String>("rule_matched", &self.rule_matched);
        m.put_some::<Vec<String>>("command", &self.command);
        m.put_some::<Vec<String>>("files", &self.files);
        m.put_some::<String>("tool", &self.tool);
        m.put_some::<Json>("args_summary", &self.args_summary);
        m.put_some::<String>("pattern_suggestion", &self.pattern_suggestion);
        m.done()
    }

    fn from_json(j: &Json) -> (r: Option<Self>) {
        match j {
            Json::Object(_) => match (
                take_maybe::<String>(j, "rule_matched"),
                take_maybe::<Vec<String>>(j, "command"),
                take_maybe::<Vec<String>>(j, "files"),
                take_maybe::<String>(j, "tool"),
                take_maybe::<Json>(j, "args_summary"),
                take_maybe::<String>(j, "pattern_suggestion"),
            ) {
                (Some(rule_matched), Some(command), Some(files), Some(tool), Some(args_summary), Some(pattern_suggestion)) => Some(
                    ApprovalDetail { rule_matched, command, files, tool, args_summary, pattern_suggestion },
                ),
                _ => None,
            },
            _ => None,
        }
    }

    open spec fn faithful(v: ApprovalDetailView) -> bool {
        v.args_summary != Some(JsonView::Null)
    }

    proof fn round_trip(v: ApprovalDetailView) {
        reveal_strlit("rule_matched");
        reveal_strlit("command");
        reveal_strlit("files");
        reveal_strlit("tool");
        reveal_strlit("args_summary");
        reveal_strlit("pattern_suggestion");
        assert("rule_matched"@.len() == 12 && "command"@.len() == 7 && "files"@.len() == 5 && "tool"@.len() == 4 && "args_summary"@.len() == 12 && "pattern_suggestion"@.len() == 18);
        assert("rule_matched"@[0] != "args_summary"@[0]);
        if let Some(x) = v.rule_matched {
            String::round_trip(x);
        }
        if let Some(x) = v.command {
            <Vec<String> as Wire>::round_trip(x);
        }
        if let Some(x) = v.files {
            <Vec<String> as Wire>::round_trip(x);
        }
        if let Some(x) = v.tool {
            String::round_trip(x);
        }
        if let Some(x) = v.args_summary {
            Json::round_trip(x);
        }
        if let Some(x) = v.pattern_suggestion {
            String::round_trip(x);
        }
        let j = ApprovalDetail::json(v);
        assert(maybe::<String>(j, "rule_matched"@) == Some(v.rule_matched));
        assert(maybe::<Vec<String>>(j, "command"@) == Some(v.command));
        assert(maybe::<Vec<String>>(j, "files"@) == Some(v.files));
        assert(maybe::<String>(j, "tool"@) == Some(v.tool));
        assert(maybe::<Json>(j, "args_summary"@) == Some(v.args_summary));
        assert(maybe::<String>(j, "pattern_suggestion"@) == Some(v.pattern_suggestion));
    }
}

/// The model of `SessionSummary`.
pub struct SessionSummaryView {
    pub id: Seq<char>,
    pub parent: Option<Seq<char>>,
    pub title: Option<Seq<char>>,
    pub cwd: Seq<char>,
    pub updated_at_ms: u64,
    pub size_bytes: u64,
}

/// A session in a list.
#[derive(Debug, PartialEq)]
pub struct SessionSummary {
    pub id: SessionId,
    pub parent: Option<SessionId>,
    pub title: Option<String>,
    pub cwd: String,
    pub updated_at_ms: u64,
    pub size_bytes: u64,
}

impl DeepView for SessionSummary {
    type V = SessionSummaryView;

    open spec fn deep_view(&self) -> SessionSummaryView {
        SessionSummaryView {
            id: self.id.deep_view(),
            parent: self.parent.deep_view(),
            title: self.title.deep_view(),
            cwd: self.cwd.deep_view(),
            updated_at_ms: self.updated_at_ms.deep_view(),
            size_bytes: self.size_bytes.deep_view(),
        }
    }
}

impl Dup for SessionSummary {
    fn dup(&self) -> (r: Self) {
        SessionSummary {
            id: self.id.dup(),
            parent: self.parent.dup(),
            title: self.title.dup(),
            cwd: self.cwd.dup(),
            updated_at_ms: self.updated_at_ms.dup(),
            size_bytes: self.size_bytes.dup(),
        }
    }
}

impl Clone for SessionSummary {
    fn clone(&self) -> (r: Self)
        ensures
            r.deep_view() == self.deep_view(),
    {
        self.dup()
    }
}

impl Wire for SessionSummary {
    open spec fn json(v: SessionSummaryView) -> JsonView {
        JsonView::Object(
            with_some::<SessionId>(
                Map::empty().insert("id"@, SessionId::json(v.id)),
                "parent"@,
                v.parent,
            ).insert("title"@, or_null::<String>(v.title)).insert("cwd"@, String::json(v.cwd)).insert("updated_at_ms"@, u64::json(v.updated_at_ms)).insert("size_bytes"@, u64::json(v.size_bytes)),
        )
    }

    open spec fn read(j: JsonView) -> Option<SessionSummaryView> {
        match (
            need::<SessionId>(j, "id"@),
            maybe::<SessionId>(j, "parent"@),
            maybe::<String>(j, "title"@),
            need::<String>(j, "cwd"@),
            need::<u64>(j, "updated_at_ms"@),
            need::<u64>(j, "size_bytes"@),
        ) {
            (Some(id), Some(parent), Some(title), Some(cwd), Some(updated_at_ms), Some(size_bytes)) => Some(
                SessionSummaryView { id, parent, title, cwd, updated_at_ms, size_bytes },
            ),
            _ => None,
        }
    }

    fn to_json(&self) -> (r: Json) {
        let mut m = Members::new();
        m.put("id", self.id.to_json());
        m.put_some::<SessionId>("parent", &self.parent);
        match &self.title {
                Some(x) => m.put("title", x.to_json()),
                None => m.put("title", Json::Null),
            }
        m.put("cwd", self.cwd.to_json());
        m.put("updated_at_ms", self.updated_at_ms.to_json());
        m.put("size_bytes", self.size_bytes.to_json());
        m.done()
    }

    fn from_json(j: &Json) -> (r: Option<Self>) {
        match (
            take_needed::<SessionId>(j, "id"),
            take_maybe::<SessionId>(j, "parent"),
            take_maybe::<String>(j, "title"),
            take_needed::<String>(j, "cwd"),
            take_needed::<u64>(j, "updated_at_ms"),
            take_needed::<u64>(j, "size_bytes"),
        ) {
            (Some(id), Some(parent), Some(title), Some(cwd), Some(updated_at_ms), Some(size_bytes)) => Some(
                SessionSummary { id, parent, title, cwd, updated_at_ms, size_bytes },
            ),
            _ => None,
        }
    }

    open spec fn faithful(v: SessionSummaryView) -> bool {
        true
    }

    proof fn round_trip(v: SessionSummaryView) {
        reveal_strlit("id");
        reveal_strlit("parent");
        reveal_strlit("title");
        reveal_strlit("cwd");
        reveal_strlit("updated_at_ms");
        reveal_strlit("size_bytes");
        assert("id"@.len() == 2 && "parent"@.len() == 6 && "title"@.len() == 5 && "cwd"@.len() == 3 && "updated_at_ms"@.len() == 13 && "size_bytes"@.len() == 10);
        SessionId::round_trip(v.id);
        if let Some(x) = v.parent {
            SessionId::round_trip(x);
        }
        if let Some(x) = v.title {
            String::round_trip(x);
        }
        String::round_trip(v.cwd);
        u64::round_trip(v.updated_at_ms);
        u64::round_trip(v.size_bytes);
    }
}

/// The model of `McpToolInfo`.
pub struct McpToolInfoView {
    pub server: Seq<char>,
    pub name: Seq<char>,
    pub description: Seq<char>,
}

/// A tool that a tool server offers.
#[derive(Debug, PartialEq)]
pub struct McpToolInfo {
    pub server: String,
    pub name: String,
    pub description: String,
}

impl DeepView for McpToolInfo {
    type V = McpToolInfoView;

    open spec fn deep_view(&self) -> McpToolInfoView {
        McpToolInfoView {
            server: self.server.deep_view(),
            name: self.name.deep_view(),
            description: self.description.deep_view(),
        }
    }
}

impl Dup for McpToolInfo {
    fn dup(&self) -> (r: Self) {
        McpToolInfo {
            server: self.server.dup(),
            name: self.name.dup(),
            description: self.description.dup(),
        }
    }
}

impl Clone for McpToolInfo {
    fn clone(&self) -> (r: Self)
        ensures
            r.deep_view() == self.deep_view(),
    {
        self.dup()
    }
}

impl Wire for McpToolInfo {
    open spec fn json(v: McpToolInfoView) -> JsonView {
        JsonView::Object(
            Map::empty().insert("server"@, String::json(v.server)).insert("name"@, String::json(v.name)).insert("description"@, String::json(v.description)),
        )
    }

    open spec fn read(j: JsonView) -> Option<McpToolInfoView> {
        match (
            need::<String>(j, "server"@),
            need::<String>(j, "name"@),
            need::<String>(j, "description"@),
        ) {
            (Some(server), Some(name), Some(description)) => Some(
                McpToolInfoView { server, name, description },
            ),
            _ => None,
        }
    }

    fn to_json(&self) -> (r: Json) {
        let mut m = Members::new();
        m.put("server", self.server.to_json());
        m.put("name", self.name.to_json());
        m.put("description", self.description.to_json());
        m.done()
    }

    fn from_json(j: &Json) -> (r: Option<Self>) {
        match (
            take_needed::<String>(j, "server"),
            take_needed::<String>(j, "name"),
            take_needed::<String>(j, "description"),
        ) {
            (Some(server), Some(name), Some(description)) => Some(
                McpToolInfo { server, name, description },
            ),
            _ => None,
        }
    }

    open spec fn faithful(v: McpToolInfoView) -> bool {
        true
    }

    proof fn round_trip(v: McpToolInfoView) {
        reveal_strlit("server");
        reveal_strlit("name");
        reveal_strlit("description");
        assert("server"@.len() == 6 && "name"@.len() == 4 && "description"@.len() == 11);
        String::round_trip(v.server);
        String::round_trip(v.name);
        String::round_trip(v.description);
    }
}

/// How a tool server is doing.
#[derive(Debug, Clone, Copy, PartialEq, Eq, Structural)]
pub enum McpServerStatus {
    Connected,
    Connecting,
    Failed,
    Disabled,
}

impl DeepView for McpServerStatus {
    type V = McpServerStatus;

    open spec fn deep_view(&self) -> McpServerStatus {
        *self
    }
}

impl Dup for McpServerStatus {
    fn dup(&self) -> (r: Self) {
        *self
    }
}

impl McpServerStatus {
    /// The name on the wire.
    pub open spec fn name(self) -> Seq<char> {
        match self {
            McpServerStatus::Connected => "connected"@,
            McpServerStatus::Connecting => "connecting"@,
            McpServerStatus::Failed => "failed"@,
            McpServerStatus::Disabled => "disabled"@,
        }
    }

    /// The value with a given name.
    pub open spec fn named(s: Seq<char>) -> Option<McpServerStatus> {
        if s == "connected"@ {
            Some(McpServerStatus::Connected)
        } else if s == "connecting"@ {
            Some(McpServerStatus::Connecting)
        } else if s == "failed"@ {
            Some(McpServerStatus::Failed)
        } else if s == "disabled"@ {
            Some(McpServerStatus::Disabled)
        } else {
            None
        }
    }

    /// The name on the wire.
    pub fn as_str(&self) -> (r: &'static str)
        ensures
            r@ == self.name(),
    {
        match self {
            McpServerStatus::Connected => "connected",
            McpServerStatus::Connecting => "connecting",
            McpServerStatus::Failed => "failed",
            McpServerStatus::Disabled => "disabled",
        }
    }

    /// The value with a given name.
    pub fn from_name(s: &str) -> (r: Option<McpServerStatus>)
        ensures
            r == McpServerStatus::named(s@),
    {
        if same(s, "connected") {
            Some(McpServerStatus::Connected)
        } else if same(s, "connecting") {
            Some(McpServerStatus::Connecting)
        } else if same(s, "failed") {
            Some(McpServerStatus::Failed)
        } else if same(s, "disabled") {
            Some(McpServerStatus::Disabled)
        } else {
            None
        }
    }
}

impl Wire for McpServerStatus {
    open spec fn json(v: McpServerStatus) -> JsonView {
        JsonView::Text(v.name())
    }

    open spec fn read(j: JsonView) -> Option<McpServerStatus> {
        match text_in(Some(j)) {
            Some(s) => McpServerStatus::named(s),
            None => None,
        }
    }

    fn to_json(&self) -> (r: Json) {
        Json::text(self.as_str())
    }

    fn from_json(j: &Json) -> (r: Option<Self>) {
        match j.as_str() {
            Some(s) => McpServerStatus::from_name(s),
            None => None,
        }
    }

    open spec fn faithful(v: McpServerStatus) -> bool {
        true
    }

    proof fn round_trip(v: McpServerStatus) {
        reveal_strlit("connected");
        reveal_strlit("connecting");
        reveal_strlit("failed");
        reveal_strlit("disabled");
        assert("connected"@.len() == 9 && "connecting"@.len() == 10 && "failed"@.len() == 6 && "disabled"@.len() == 8);
    }
}

/// The model of `McpServerHealth`.
pub struct McpServerHealthView {
    pub server: Seq<char>,
    pub status: McpServerStatus,
    pub error: Option<Seq<char>>,
}

/// How a tool server is doing, and why.
#[derive(Debug, PartialEq)]
pub struct McpServerHealth {
    pub server: String,
    pub status: McpServerStatus,
    pub error: Option<String>,
}

impl DeepView for McpServerHealth {
    type V = McpServerHealthView;

    open spec fn deep_view(&self) -> McpServerHealthView {
        McpServerHealthView {
            server: self.server.deep_view(),
            status: self.status.deep_view(),
            error: self.error.deep_view(),
        }
    }
}

impl Dup for McpServerHealth {
    fn dup(&self) -> (r: Self) {
        McpServerHealth {
            server: self.server.dup(),
            status: self.status.dup(),
            error: self.error.dup(),
        }
    }
}

impl Clone for McpServerHealth {
    fn clone(&self) -> (r: Self)
        ensures
            r.deep_view() == self.deep_view(),
    {
        self.dup()
    }
}

impl Wire for McpServerHealth {
    open spec fn json(v: McpServerHealthView) -> JsonView {
        JsonView::Object(
            with_some::<String>(
                Map::empty().insert("server"@, String::json(v.server)).insert("status"@, McpServerStatus::json(v.status)),
                "error"@,
                v.error,
            ),
        )
    }

    open spec fn read(j: JsonView) -> Option<McpServerHealthView> {
        match (
            need::<String>(j, "server"@),
            need::<McpServerStatus>(j, "status"@),
            maybe::<String>(j, "error"@),
        ) {
            (Some(server), Some(status), Some(error)) => Some(
                McpServerHealthView { server, status, error },
            ),
            _ => None,
        }
    }

    fn to_json(&self) -> (r: Json) {
        let mut m = Members::new();
        m.put("server", self.server.to_json());
        m.put("status", self.status.to_json());
        m.put_some::<String>("error", &self.error);
        m.done()
    }

    fn from_json(j: &Json) -> (r: Option<Self>) {
        match (
            take_needed::<String>(j, "server"),
            take_needed::<McpServerStatus>(j, "status"),
            take_maybe::<String>(j, "error"),
        ) {
            (Some(server), Some(status), Some(error)) => Some(
                McpServerHealth { server, status, error },
            ),
            _ => None,
        }
    }

    open spec fn faithful(v: McpServerHealthView) -> bool {
        true
    }

    proof fn round_trip(v: McpServerHealthView) {
        reveal_strlit("server");
        reveal_strlit("status");
        reveal_strlit("error");
        assert("server"@.len() == 6 && "status"@.len() == 6 && "error"@.len() == 5);
        assert("server"@[1] != "status"@[1]);
        String::round_trip(v.server);
        McpServerStatus::round_trip(v.status);
        if let Some(x) = v.error {
            String::round_trip(x);
        }
    }
}

/// The model of `ModelInfo`.
pub struct ModelInfoView {
    pub id: Seq<char>,
    pub provider: Seq<char>,
    pub display: Seq<char>,
    pub context_window: u64,
    pub supports_thinking: bool,
    pub supports_images: bool,
}

/// A model that can be picked.
#[derive(Debug, PartialEq)]
pub struct ModelInfo {
    pub id: String,
    pub provider: String,
    pub display: String,
    pub context_window: u64,
    pub supports_thinking: bool,
    pub supports_images: bool,
}

impl DeepView for ModelInfo {
    type V = ModelInfoView;

    open spec fn deep_view(&self) -> ModelInfoView {
        ModelInfoView {
            id: self.id.deep_view(),
            provider: self.provider.deep_view(),
            display: self.display.deep_view(),
            context_window: self.context_window.deep_view(),
            supports_thinking: self.supports_thinking.deep_view(),
            supports_images: self.supports_images.deep_view(),
        }
    }
}

impl Dup for ModelInfo {
    fn dup(&self) -> (r: Self) {
        ModelInfo {
            id: self.id.dup(),
            provider: self.provider.dup(),
            display: self.display.dup(),
            context_window: self.context_window.dup(),
            supports_thinking: self.supports_thinking.dup(),
            supports_images: self.supports_images.dup(),
        }
    }
}

impl Clone for ModelInfo {
    fn clone(&self) -> (r: Self)
        ensures
            r.deep_view() == self.deep_view(),
    {
        self.dup()
    }
}

impl Wire for ModelInfo {
    open spec fn json(v: ModelInfoView) -> JsonView {
        JsonView::Object(
            Map::empty().insert("id"@, String::json(v.id)).insert("provider"@, String::json(v.provider)).insert("display"@, String::json(v.display)).insert("context_window"@, u64::json(v.context_window)).insert("supports_thinking"@, bool::json(v.supports_thinking)).insert("supports_images"@, bool::json(v.supports_images)),
        )
    }

    open spec fn read(j: JsonView) -> Option<ModelInfoView> {
        match (
            need::<String>(j, "id"@),
            need::<String>(j, "provider"@),
            need::<String>(j, "display"@),
            need::<u64>(j, "context_window"@),
            default_to::<bool>(j, "supports_thinking"@, false),
            default_to::<bool>(j, "supports_images"@, false),
        ) {
            (Some(id), Some(provider), Some(display), Some(context_window), Some(supports_thinking), Some(supports_images)) => Some(
                ModelInfoView { id, provider, display, context_window, supports_thinking, supports_images },
            ),
            _ => None,
        }
    }

    fn to_json(&self) -> (r: Json) {
        let mut m = Members::new();
        m.put("id", self.id.to_json());
        m.put("provider", self.provider.to_json());
        m.put("display", self.display.to_json());
        m.put("context_window", self.context_window.to_json());
        m.put("supports_thinking", self.supports_thinking.to_json());
        m.put("supports_images", self.supports_images.to_json());
        m.done()
    }

    fn from_json(j: &Json) -> (r: Option<Self>) {
        match (
            take_needed::<String>(j, "id"),
            take_needed::<String>(j, "provider"),
            take_needed::<String>(j, "display"),
            take_needed::<u64>(j, "context_window"),
            take_bool_or(j, "supports_thinking", false),
            take_bool_or(j, "supports_images", false),
        ) {
            (Some(id), Some(provider), Some(display), Some(context_window), Some(supports_thinking), Some(supports_images)) => Some(
                ModelInfo { id, provider, display, context_window, supports_thinking, supports_images },
            ),
            _ => None,
        }
    }

    open spec fn faithful(v: ModelInfoView) -> bool {
        true
    }

    proof fn round_trip(v: ModelInfoView) {
        reveal_strlit("id");
        reveal_strlit("provider");
        reveal_strlit("display");
        reveal_strlit("context_window");
        reveal_strlit("supports_thinking");
        reveal_strlit("supports_images");
        assert("id"@.len() == 2 && "provider"@.len() == 8 && "display"@.len() == 7 && "context_window"@.len() == 14 && "supports_thinking"@.len() == 17 && "supports_images"@.len() == 15);
        String::round_trip(v.id);
        String::round_trip(v.provider);
        String::round_trip(v.display);
        u64::round_trip(v.context_window);
        bool::round_trip(v.supports_thinking);
        bool::round_trip(v.supports_images);
    }
}

/// The model of `Event`.
pub struct EventView {
    pub id: Seq<char>,
    pub seq: u64,
    pub turn: Option<Seq<char>>,
    pub msg: EventMsgView,
}

/// What the agent tells its clients. `id` echoes the request, `seq` orders the
/// events of a session, `turn` says which turn the event belongs to.
#[derive(Debug, PartialEq)]
pub struct Event {
    pub id: String,
    pub seq: u64,
    pub turn: Option<TurnId>,
    pub msg: EventMsg,
}

/// The model of `EventMsg`.
pub enum EventMsgView {
    SessionConfigured { protocol_version: u32, session_id: Seq<char>, model: Seq<char>, permission_mode: PermissionMode, cwd: Seq<char> },
    TurnStarted { turn_id: Seq<char> },
    TurnComplete { turn_id: Seq<char>, usage: TokenUsageView, stop_reason: StopReason },
    AgentMessageDelta { text: Seq<char> },
    AgentMessage { text: Seq<char> },
    ReasoningDelta { text: Seq<char> },
    Reasoning { text: Seq<char> },
    ExecCommandBegin { call_id: Seq<char>, command: Seq<Seq<char>>, cwd: Seq<char> },
    ExecCommandOutputDelta { call_id: Seq<char>, stream: ExecStream, chunk: Seq<char> },
    ExecCommandEnd { call_id: Seq<char>, exit_code: i32, duration_ms: u64, truncated: bool },
    PatchApplyBegin { call_id: Seq<char>, files: Seq<Seq<char>> },
    PatchApplyEnd { call_id: Seq<char>, success: bool, diff: Seq<char> },
    ToolCallBegin { call_id: Seq<char>, tool: Seq<char>, summary: Seq<char> },
    ToolCallEnd { call_id: Seq<char>, ok: bool, summary: Seq<char> },
    ApprovalRequest { call_id: Seq<char>, kind: ApprovalKind, detail: ApprovalDetailView },
    PlanUpdated { items: Seq<PlanItemView> },
    TokenCount { used: u64, window: u64 },
    BackgroundEvent { message: Seq<char> },
    PermissionModeChanged { mode: PermissionMode },
    Error { message: Seq<char>, retryable: bool },
    StreamError { message: Seq<char> },
    SessionQueryHistory { events: Seq<EventView>, done: bool },
    SessionQuerySessions { sessions: Seq<SessionSummaryView> },
    SessionQueryMcpTools { tools: Seq<McpToolInfoView>, health: Seq<McpServerHealthView> },
    SessionQueryModels { models: Seq<ModelInfoView> },
}

/// The content of an event.
#[derive(Debug, PartialEq)]
pub enum EventMsg {
    /// The answer to the first message.
    SessionConfigured { protocol_version: u32, session_id: SessionId, model: String, permission_mode: PermissionMode, cwd: String },
    TurnStarted { turn_id: TurnId },
    TurnComplete { turn_id: TurnId, usage: TokenUsage, stop_reason: StopReason },
    AgentMessageDelta { text: String },
    /// The whole text of a message.
    AgentMessage { text: String },
    ReasoningDelta { text: String },
    Reasoning { text: String },
    ExecCommandBegin { call_id: CallId, command: Vec<String>, cwd: String },
    ExecCommandOutputDelta { call_id: CallId, stream: ExecStream, chunk: String },
    ExecCommandEnd { call_id: CallId, exit_code: i32, duration_ms: u64, truncated: bool },
    PatchApplyBegin { call_id: CallId, files: Vec<String> },
    PatchApplyEnd { call_id: CallId, success: bool, diff: String },
    ToolCallBegin { call_id: CallId, tool: String, summary: String },
    ToolCallEnd { call_id: CallId, ok: bool, summary: String },
    ApprovalRequest { call_id: CallId, kind: ApprovalKind, detail: ApprovalDetail },
    PlanUpdated { items: Vec<PlanItem> },
    TokenCount { used: u64, window: u64 },
    BackgroundEvent { message: String },
    PermissionModeChanged { mode: PermissionMode },
    Error { message: String, retryable: bool },
    /// One stream failed; it may be tried again.
    StreamError { message: String },
    SessionQueryHistory { events: Vec<Event>, done: bool },
    SessionQuerySessions { sessions: Vec<SessionSummary> },
    SessionQueryMcpTools { tools: Vec<McpToolInfo>, health: Vec<McpServerHealth> },
    SessionQueryModels { models: Vec<ModelInfo> },
}

/// What an event stands for.
pub open spec fn event_view(e: Event) -> EventView
    decreases e,
{
    EventView {
        id: e.id@,
        seq: e.seq,
        turn: e.turn.deep_view(),
        msg: event_msg_view(e.msg),
    }
}

/// What the content of an event stands for.
pub open spec fn event_msg_view(m: EventMsg) -> EventMsgView
    decreases m,
{
    match m {
        EventMsg::SessionConfigured { protocol_version, session_id, model, permission_mode, cwd } => EventMsgView::SessionConfigured { protocol_version: protocol_version.deep_view(), session_id: session_id.deep_view(), model: model.deep_view(), permission_mode: permission_mode.deep_view(), cwd: cwd.deep_view() },
        EventMsg::TurnStarted { turn_id } => EventMsgView::TurnStarted { turn_id: turn_id.deep_view() },
        EventMsg::TurnComplete { turn_id, usage, stop_reason } => EventMsgView::TurnComplete { turn_id: turn_id.deep_view(), usage: usage.deep_view(), stop_reason: stop_reason.deep_view() },
        EventMsg::AgentMessageDelta { text } => EventMsgView::AgentMessageDelta { text: text.deep_view() },
        EventMsg::AgentMessage { text } => EventMsgView::AgentMessage { text: text.deep_view() },
        EventMsg::ReasoningDelta { text } => EventMsgView::ReasoningDelta { text: text.deep_view() },
        EventMsg::Reasoning { text } => EventMsgView::Reasoning { text: text.deep_view() },
        EventMsg::ExecCommandBegin { call_id, command, cwd } => EventMsgView::ExecCommandBegin { call_id: call_id.deep_view(), command: command.deep_view(), cwd: cwd.deep_view() },
        EventMsg::ExecCommandOutputDelta { call_id, stream, chunk } => EventMsgView::ExecCommandOutputDelta { call_id: call_id.deep_view(), stream: stream.deep_view(), chunk: chunk.deep_view() },
        EventMsg::ExecCommandEnd { call_id, exit_code, duration_ms, truncated } => EventMsgView::ExecCommandEnd { call_id: call_id.deep_view(), exit_code: exit_code.deep_view(), duration_ms: duration_ms.deep_view(), truncated: truncated.deep_view() },
        EventMsg::PatchApplyBegin { call_id, files } => EventMsgView::PatchApplyBegin { call_id: call_id.deep_view(), files: files.deep_view() },
        EventMsg::PatchApplyEnd { call_id, success, diff } => EventMsgView::PatchApplyEnd { call_id: call_id.deep_view(), success: success.deep_view(), diff: diff.deep_view() },
        EventMsg::ToolCallBegin { call_id, tool, summary } => EventMsgView::ToolCallBegin { call_id: call_id.deep_view(), tool: tool.deep_view(), summary: summary.deep_view() },
        EventMsg::ToolCallEnd { call_id, ok, summary } => EventMsgView::ToolCallEnd { call_id: call_id.deep_view(), ok: ok.deep_view(), summary: summary.deep_view() },
        EventMsg::ApprovalRequest { call_id, kind, detail } => EventMsgView::ApprovalRequest { call_id: call_id.deep_view(), kind: kind.deep_view(), detail: detail.deep_view() },
        EventMsg::PlanUpdated { items } => EventMsgView::PlanUpdated { items: items.deep_view() },
        EventMsg::TokenCount { used, window } => EventMsgView::TokenCount { used: used.deep_view(), window: window.deep_view() },
        EventMsg::BackgroundEvent { message } => EventMsgView::BackgroundEvent { message: message.deep_view() },
        EventMsg::PermissionModeChanged { mode } => EventMsgView::PermissionModeChanged { mode: mode.deep_view() },
        EventMsg::Error { message, retryable } => EventMsgView::Error { message: message.deep_view(), retryable: retryable.deep_view() },
        EventMsg::StreamError { message } => EventMsgView::StreamError { message: message.deep_view() },
        EventMsg::SessionQueryHistory { events, done } => EventMsgView::SessionQueryHistory { events: events_view(events@), done: done.deep_view() },
        EventMsg::SessionQuerySessions { sessions } => EventMsgView::SessionQuerySessions { sessions: sessions.deep_view() },
        EventMsg::SessionQueryMcpTools { tools, health } => EventMsgView::SessionQueryMcpTools { tools: tools.deep_view(), health: health.deep_view() },
        EventMsg::SessionQueryModels { models } => EventMsgView::SessionQueryModels { models: models.deep_view() },
    }
}

/// What a list of events stands for.
pub open spec fn events_view(s: Seq<Event>) -> Seq<EventView>
    decreases s,
{
    if s.len() == 0 {
        Seq::empty()
    } else {
        events_view(s.drop_last()).push(event_view(s.last()))
    }
}

/// A list of events stands for what its events stand for.
pub proof fn lemma_events_view(s: Seq<Event>)
    ensures
        events_view(s).len() == s.len(),
        forall|i: int| 0 <= i < s.len() ==> #[trigger] events_view(s)[i] == event_view(s[i]),
    decreases s.len(),
{
    if s.len() > 0 {
        lemma_events_view(s.drop_last());
    }
}

impl DeepView for Event {
    type V = EventView;

    open spec fn deep_view(&self) -> EventView {
        event_view(*self)
    }
}

impl DeepView for EventMsg {
    type V = EventMsgView;

    open spec fn deep_view(&self) -> EventMsgView {
        event_msg_view(*self)
    }
}

/// What the content of an event is written as.
pub open spec fn event_msg_json(v: EventMsgView) -> JsonView
    decreases v,
{
    JsonView::Object(
        match v {
            EventMsgView::SessionConfigured { protocol_version, session_id, model, permission_mode, cwd } => Map::empty().insert("type"@, JsonView::Text("session_configured"@)).insert("protocol_version"@, u32::json(protocol_version)).insert("session_id"@, SessionId::json(session_id)).insert("model"@, String::json(model)).insert("permission_mode"@, PermissionMode::json(permission_mode)).insert("cwd"@, String::json(cwd)),
            EventMsgView::TurnStarted { turn_id } => Map::empty().insert("type"@, JsonView::Text("turn_started"@)).insert("turn_id"@, TurnId::json(turn_id)),
            EventMsgView::TurnComplete { turn_id, usage, stop_reason } => Map::empty().insert("type"@, JsonView::Text("turn_complete"@)).insert("turn_id"@, TurnId::json(turn_id)).insert("usage"@, TokenUsage::json(usage)).insert("stop_reason"@, StopReason::json(stop_reason)),
            EventMsgView::AgentMessageDelta { text } => Map::empty().insert("type"@, JsonView::Text("agent_message_delta"@)).insert("text"@, String::json(text)),
            EventMsgView::AgentMessage { text } => Map::empty().insert("type"@, JsonView::Text("agent_message"@)).insert("text"@, String::json(text)),
            EventMsgView::ReasoningDelta { text } => Map::empty().insert("type"@, JsonView::Text("reasoning_delta"@)).insert("text"@, String::json(text)),
            EventMsgView::Reasoning { text } => Map::empty().insert("type"@, JsonView::Text("reasoning"@)).insert("text"@, String::json(text)),
            EventMsgView::ExecCommandBegin { call_id, command, cwd } => Map::empty().insert("type"@, JsonView::Text("exec_command_begin"@)).insert("call_id"@, CallId::json(call_id)).insert("command"@, <Vec<String> as Wire>::json(command)).insert("cwd"@, String::json(cwd)),
            EventMsgView::ExecCommandOutputDelta { call_id, stream, chunk } => Map::empty().insert("type"@, JsonView::Text("exec_command_output_delta"@)).insert("call_id"@, CallId::json(call_id)).insert("stream"@, ExecStream::json(stream)).insert("chunk"@, String::json(chunk)),
            EventMsgView::ExecCommandEnd { call_id, exit_code, duration_ms, truncated } => Map::empty().insert("type"@, JsonView::Text("exec_command_end"@)).insert("call_id"@, CallId::json(call_id)).insert("exit_code"@, i32::json(exit_code)).insert("duration_ms"@, u64::json(duration_ms)).insert("truncated"@, bool::json(truncated)),
            EventMsgView::PatchApplyBegin { call_id, files } => Map::empty().insert("type"@, JsonView::Text("patch_apply_begin"@)).insert("call_id"@, CallId::json(call_id)).insert("files"@, <Vec<String> as Wire>::json(files)),
            EventMsgView::PatchApplyEnd { call_id, success, diff } => Map::empty().insert("type"@, JsonView::Text("patch_apply_end"@)).insert("call_id"@, CallId::json(call_id)).insert("success"@, bool::json(success)).insert("diff"@, String::json(diff)),
            EventMsgView::ToolCallBegin { call_id, tool, summary } => Map::empty().insert("type"@, JsonView::Text("tool_call_begin"@)).insert("call_id"@, CallId::json(call_id)).insert("tool"@, String::json(tool)).insert("summary"@, String::json(summary)),
            EventMsgView::ToolCallEnd { call_id, ok, summary } => Map::empty().insert("type"@, JsonView::Text("tool_call_end"@)).insert("call_id"@, CallId::json(call_id)).insert("ok"@, bool::json(ok)).insert("summary"@, String::json(summary)),
            EventMsgView::ApprovalRequest { call_id, kind, detail } => Map::empty().insert("type"@, JsonView::Text("approval_request"@)).insert("call_id"@, CallId::json(call_id)).insert("kind"@, ApprovalKind::json(kind)).insert("detail"@, ApprovalDetail::json(detail)),
            EventMsgView::PlanUpdated { items } => Map::empty().insert("type"@, JsonView::Text("plan_updated"@)).insert("items"@, <Vec<PlanItem> as Wire>::json(items)),
            EventMsgView::TokenCount { used, window } => Map::empty().insert("type"@, JsonView::Text("token_count"@)).insert("used"@, u64::json(used)).insert("window"@, u64::json(window)),
            EventMsgView::BackgroundEvent { message } => Map::empty().insert("type"@, JsonView::Text("background_event"@)).insert("message"@, String::json(message)),
            EventMsgView::PermissionModeChanged { mode } => Map::empty().insert("type"@, JsonView::Text("permission_mode_changed"@)).insert("mode"@, PermissionMode::json(mode)),
            EventMsgView::Error { message, retryable } => Map::empty().insert("type"@, JsonView::Text("error"@)).insert("message"@, String::json(message)).insert("retryable"@, bool::json(retryable)),
            EventMsgView::StreamError { message } => Map::empty().insert("type"@, JsonView::Text("stream_error"@)).insert("message"@, String::json(message)),
            EventMsgView::SessionQueryHistory { events, done } => Map::empty().insert("type"@, JsonView::Text("session_query_history"@)).insert("events"@, JsonView::List(events_json(events))).insert("done"@, bool::json(done)),
            EventMsgView::SessionQuerySessions { sessions } => Map::empty().insert("type"@, JsonView::Text("session_query_sessions"@)).insert("sessions"@, <Vec<SessionSummary> as Wire>::json(sessions)),
            EventMsgView::SessionQueryMcpTools { tools, health } => Map::empty().insert("type"@, JsonView::Text("session_query_mcp_tools"@)).insert("tools"@, <Vec<McpToolInfo> as Wire>::json(tools)).insert("health"@, <Vec<McpServerHealth> as Wire>::json(health)),
            EventMsgView::SessionQueryModels { models } => Map::empty().insert("type"@, JsonView::Text("session_query_models"@)).insert("models"@, <Vec<ModelInfo> as Wire>::json(models)),
        },
    )
}

/// What an event is written as.
pub open spec fn event_json(v: EventView) -> JsonView
    decreases v,
{
    JsonView::Object(
        with_some::<TurnId>(
            Map::empty().insert("id"@, String::json(v.id)).insert("seq"@, u64::json(v.seq)),
            "turn"@,
            v.turn,
        ).insert("msg"@, event_msg_json(v.msg)),
    )
}

/// What a list of events is written as.
pub open spec fn events_json(s: Seq<EventView>) -> Seq<JsonView>
    decreases s,
{
    if s.len() == 0 {
        Seq::empty()
    } else {
        events_json(s.drop_last()).push(event_json(s.last()))
    }
}

/// What an event is read from.
pub open spec fn event_read(j: JsonView) -> Option<EventView>
    decreases j,
{
    match j {
        JsonView::Object(m) => if m.contains_key("msg"@) {
            match (
                need::<String>(j, "id"@),
                need::<u64>(j, "seq"@),
                maybe::<TurnId>(j, "turn"@),
                event_msg_read(m["msg"@]),
            ) {
                (Some(id), Some(seq), Some(turn), Some(msg)) => Some(
                    EventView { id, seq, turn, msg },
                ),
                _ => None,
            }
        } else {
            None
        },
        _ => None,
    }
}

/// What a list of events is read from.
pub open spec fn events_read(s: Seq<JsonView>) -> Option<Seq<EventView>>
    decreases s,
{
    if s.len() == 0 {
        Some(Seq::empty())
    } else {
        match (events_read(s.drop_last()), event_read(s.last())) {
            (Some(a), Some(b)) => Some(a.push(b)),
            _ => None,
        }
    }
}

/// The list of events that a history holds.
pub open spec fn history_read(j: JsonView) -> Option<Seq<EventView>>
    decreases j, 0int,
{
    match j {
        JsonView::Object(m) => if m.contains_key("events"@) {
            match m["events"@] {
                JsonView::List(s) => events_read(s),
                _ => None,
            }
        } else {
            None
        },
        _ => None,
    }
}

/// What the content of an event is read from.
pub open spec fn event_msg_read(j: JsonView) -> Option<EventMsgView>
    decreases j, 1int,
{
    match need::<String>(j, "type"@) {
        None => None,
        Some(t) => if t == "session_configured"@ {
            match (
                need::<u32>(j, "protocol_version"@),
                need::<SessionId>(j, "session_id"@),
                need::<String>(j, "model"@),
                need::<PermissionMode>(j, "permission_mode"@),
                need::<String>(j, "cwd"@),
            ) {
                (Some(protocol_version), Some(session_id), Some(model), Some(permission_mode), Some(cwd)) => Some(
                    EventMsgView::SessionConfigured { protocol_version, session_id, model, permission_mode, cwd },
                ),
                _ => None,
            }
        } else if t == "turn_started"@ {
            match need::<TurnId>(j, "turn_id"@) {
                Some(turn_id) => Some(EventMsgView::TurnStarted { turn_id }),
                None => None,
            }
        } else if t == "turn_complete"@ {
            match (
                need::<TurnId>(j, "turn_id"@),
                need::<TokenUsage>(j, "usage"@),
                need::<StopReason>(j, "stop_reason"@),
            ) {
                (Some(turn_id), Some(usage), Some(stop_reason)) => Some(
                    EventMsgView::TurnComplete { turn_id, usage, stop_reason },
                ),
                _ => None,
            }
        } else if t == "agent_message_delta"@ {
            match need::<String>(j, "text"@) {
                Some(text) => Some(EventMsgView::AgentMessageDelta { text }),
                None => None,
            }
        } else if t == "agent_message"@ {
            match need::<String>(j, "text"@) {
                Some(text) => Some(EventMsgView::AgentMessage { text }),
                None => None,
            }
        } else if t == "reasoning_delta"@ {
            match need::<String>(j, "text"@) {
                Some(text) => Some(EventMsgView::ReasoningDelta { text }),
                None => None,
            }
        } else if t == "reasoning"@ {
            match need::<String>(j, "text"@) {
                Some(text) => Some(EventMsgView::Reasoning { text }),
                None => None,
            }
        } else if t == "exec_command_begin"@ {
            match (
                need::<CallId>(j, "call_id"@),
                need::<Vec<String>>(j, "command"@),
                need::<String>(j, "cwd"@),
            ) {
                (Some(call_id), Some(command), Some(cwd)) => Some(
                    EventMsgView::ExecCommandBegin { call_id, command, cwd },
                ),
                _ => None,
            }
        } else if t == "exec_command_output_delta"@ {
            match (
                need::<CallId>(j, "call_id"@),
                need::<ExecStream>(j, "stream"@),
                need::<String>(j, "chunk"@),
            ) {
                (Some(call_id), Some(stream), Some(chunk)) => Some(
                    EventMsgView::ExecCommandOutputDelta { call_id, stream, chunk },
                ),
                _ => None,
            }
        } else if t == "exec_command_end"@ {
            match (
                need::<CallId>(j, "call_id"@),
                need::<i32>(j, "exit_code"@),
                need::<u64>(j, "duration_ms"@),
                need::<bool>(j, "truncated"@),
            ) {
                (Some(call_id), Some(exit_code), Some(duration_ms), Some(truncated)) => Some(
                    EventMsgView::ExecCommandEnd { call_id, exit_code, duration_ms, truncated },
                ),
                _ => None,
            }
        } else if t == "patch_apply_begin"@ {
            match (
                need::<CallId>(j, "call_id"@),
                need::<Vec<String>>(j, "files"@),
            ) {
                (Some(call_id), Some(files)) => Some(
                    EventMsgView::PatchApplyBegin { call_id, files },
                ),
                _ => None,
            }
        } else if t == "patch_apply_end"@ {
            match (
                need::<CallId>(j, "call_id"@),
                need::<bool>(j, "success"@),
                need::<String>(j, "diff"@),
            ) {
                (Some(call_id), Some(success), Some(diff)) => Some(
                    EventMsgView::PatchApplyEnd { call_id, success, diff },
                ),
                _ => None,
            }
        } else if t == "tool_call_begin"@ {
            match (
                need::<CallId>(j, "call_id"@),
                need::<String>(j, "tool"@),
                need::<String>(j, "summary"@),
            ) {
                (Some(call_id), Some(tool), Some(summary)) => Some(
                    EventMsgView::ToolCallBegin { call_id, tool, summary },
                ),
                _ => None,
            }
        } else if t == "tool_call_end"@ {
            match (
                need::<CallId>(j, "call_id"@),
                need::<bool>(j, "ok"@),
                need::<String>(j, "summary"@),
            ) {
                (Some(call_id), Some(ok), Some(summary)) => Some(
                    EventMsgView::ToolCallEnd { call_id, ok, summary },
                ),
                _ => None,
            }
        } else if t == "approval_request"@ {
            match (
                need::<CallId>(j, "call_id"@),
                need::<ApprovalKind>(j, "kind"@),
                need::<ApprovalDetail>(j, "detail"@),
            ) {
                (Some(call_id), Some(kind), Some(detail)) => Some(
                    EventMsgView::ApprovalRequest { call_id, kind, detail },
                ),
                _ => None,
            }
        } else if t == "plan_updated"@ {
            match need::<Vec<PlanItem>>(j, "items"@) {
                Some(items) => Some(EventMsgView::PlanUpdated { items }),
                None => None,
            }
        } else if t == "token_count"@ {
            match (
                need::<u64>(j, "used"@),
                need::<u64>(j, "window"@),
            ) {
                (Some(used), Some(window)) => Some(
                    EventMsgView::TokenCount { used, window },
                ),
                _ => None,
            }
        } else if t == "background_event"@ {
            match need::<String>(j, "message"@) {
                Some(message) => Some(EventMsgView::BackgroundEvent { message }),
                None => None,
            }
        } else if t == "permission_mode_changed"@ {
            match need::<PermissionMode>(j, "mode"@) {
                Some(mode) => Some(EventMsgView::PermissionModeChanged { mode }),
                None => None,
            }
        } else if t == "error"@ {
            match (
                need::<String>(j, "message"@),
                need::<bool>(j, "retryable"@),
            ) {
                (Some(message), Some(retryable)) => Some(
                    EventMsgView::Error { message, retryable },
                ),
                _ => None,
            }
        } else if t == "stream_error"@ {
            match need::<String>(j, "message"@) {
                Some(message) => Some(EventMsgView::StreamError { message }),
                None => None,
            }
        } else if t == "session_query_history"@ {
            match (
                history_read(j),
                need::<bool>(j, "done"@),
            ) {
                (Some(events), Some(done)) => Some(
                    EventMsgView::SessionQueryHistory { events, done },
                ),
                _ => None,
            }
        } else if t == "session_query_sessions"@ {
            match need::<Vec<SessionSummary>>(j, "sessions"@) {
                Some(sessions) => Some(EventMsgView::SessionQuerySessions { sessions }),
                None => None,
            }
        } else if t == "session_query_mcp_tools"@ {
            match (
                need::<Vec<McpToolInfo>>(j, "tools"@),
                need::<Vec<McpServerHealth>>(j, "health"@),
            ) {
                (Some(tools), Some(health)) => Some(
                    EventMsgView::SessionQueryMcpTools { tools, health },
                ),
                _ => None,
            }
        } else if t == "session_query_models"@ {
            match need::<Vec<ModelInfo>>(j, "models"@) {
                Some(models) => Some(EventMsgView::SessionQueryModels { models }),
                None => None,
            }
        } else {
            None
        },
    }
}

fn events_to_json(v: &Vec<Event>) -> (r: Json)
    ensures
        r@ == JsonView::List(events_json(events_view(v@))),
    decreases v,
{
    let mut out: Vec<Json> = Vec::new();
    let mut i: usize = 0;
    while i < v.len()
        invariant
            i <= v@.len(),
            list_view(out@) == events_json(events_view(v@.take(i as int))),
        decreases v@.len() - i,
    {
        let ghost before = out@;
        out.push(event_to_json(&v[i]));
        proof {
            assert(out@.drop_last() =~= before);
            assert(v@.take(i + 1).drop_last() =~= v@.take(i as int));
            let a = events_view(v@.take(i + 1));
            assert(a.drop_last() =~= events_view(v@.take(i as int)));
        }
        i = i + 1;
    }
    assert(v@.take(v@.len() as int) =~= v@);
    Json::List(out)
}

fn event_to_json(e: &Event) -> (r: Json)
    ensures
        r@ == event_json(event_view(*e)),
    decreases e,
{
    let mut m = Members::new();
    m.put("id", e.id.to_json());
    m.put("seq", e.seq.to_json());
    m.put_some::<TurnId>("turn", &e.turn);
    m.put("msg", event_msg_to_json(&e.msg));
    m.done()
}

fn event_msg_to_json(e: &EventMsg) -> (r: Json)
    ensures
        r@ == event_msg_json(event_msg_view(*e)),
    decreases e,
{
    let mut m = Members::new();
    match e {
        EventMsg::SessionConfigured { protocol_version, session_id, model, permission_mode, cwd } => {
            m.put_text("type", "session_configured");
            m.put("protocol_version", protocol_version.to_json());
            m.put("session_id", session_id.to_json());
            m.put("model", model.to_json());
            m.put("permission_mode", permission_mode.to_json());
            m.put("cwd", cwd.to_json());
        },
        EventMsg::TurnStarted { turn_id } => {
            m.put_text("type", "turn_started");
            m.put("turn_id", turn_id.to_json());
        },
        EventMsg::TurnComplete { turn_id, usage, stop_reason } => {
            m.put_text("type", "turn_complete");
            m.put("turn_id", turn_id.to_json());
            m.put("usage", usage.to_json());
            m.put("stop_reason", stop_reason.to_json());
        },
        EventMsg::AgentMessageDelta { text } => {
            m.put_text("type", "agent_message_delta");
            m.put("text", text.to_json());
        },
        EventMsg::AgentMessage { text } => {
            m.put_text("type", "agent_message");
            m.put("text", text.to_json());
        },
        EventMsg::ReasoningDelta { text } => {
            m.put_text("type", "reasoning_delta");
            m.put("text", text.to_json());
        },
        EventMsg::Reasoning { text } => {
            m.put_text("type", "reasoning");
            m.put("text", text.to_json());
        },
        EventMsg::ExecCommandBegin { call_id, command, cwd } => {
            m.put_text("type", "exec_command_begin");
            m.put("call_id", call_id.to_json());
            m.put("command", command.to_json());
            m.put("cwd", cwd.to_json());
        },
        EventMsg::ExecCommandOutputDelta { call_id, stream, chunk } => {
            m.put_text("type", "exec_command_output_delta");
            m.put("call_id", call_id.to_json());
            m.put("stream", stream.to_json());
            m.put("chunk", chunk.to_json());
        },
        EventMsg::ExecCommandEnd { call_id, exit_code, duration_ms, truncated } => {
            m.put_text("type", "exec_command_end");
            m.put("call_id", call_id.to_json());
            m.put("exit_code", exit_code.to_json());
            m.put("duration_ms", duration_ms.to_json());
            m.put("truncated", truncated.to_json());
        },
        EventMsg::PatchApplyBegin { call_id, files } => {
            m.put_text("type", "patch_apply_begin");
            m.put("call_id", call_id.to_json());
            m.put("files", files.to_json());
        },
        EventMsg::PatchApplyEnd { call_id, success, diff } => {
            m.put_text("type", "patch_apply_end");
            m.put("call_id", call_id.to_json());
            m.put("success", success.to_json());
            m.put("diff", diff.to_json());
        },
        EventMsg::ToolCallBegin { call_id, tool, summary } => {
            m.put_text("type", "tool_call_begin");
            m.put("call_id", call_id.to_json());
            m.put("tool", tool.to_json());
            m.put("summary", summary.to_json());
        },
        EventMsg::ToolCallEnd { call_id, ok, summary } => {
            m.put_text("type", "tool_call_end");
            m.put("call_id", call_id.to_json());
            m.put("ok", ok.to_json());
            m.put("summary", summary.to_json());
        },
        EventMsg::ApprovalRequest { call_id, kind, detail } => {
            m.put_text("type", "approval_request");
            m.put("call_id", call_id.to_json());
            m.put("kind", kind.to_json());
            m.put("detail", detail.to_json());
        },
        EventMsg::PlanUpdated { items } => {
            m.put_text("type", "plan_updated");
            m.put("items", items.to_json());
        },
        EventMsg::TokenCount { used, window } => {
            m.put_text("type", "token_count");
            m.put("used", used.to_json());
            m.put("window", window.to_json());
        },
        EventMsg::BackgroundEvent { message } => {
            m.put_text("type", "background_event");
            m.put("message", message.to_json());
        },
        EventMsg::PermissionModeChanged { mode } => {
            m.put_text("type", "permission_mode_changed");
            m.put("mode", mode.to_json());
        },
        EventMsg::Error { message, retryable } => {
            m.put_text("type", "error");
            m.put("message", message.to_json());
            m.put("retryable", retryable.to_json());
        },
        EventMsg::StreamError { message } => {
            m.put_text("type", "stream_error");
            m.put("message", message.to_json());
        },
        EventMsg::SessionQueryHistory { events, done } => {
            m.put_text("type", "session_query_history");
            m.put("events", events_to_json(events));
            m.put("done", done.to_json());
        },
        EventMsg::SessionQuerySessions { sessions } => {
            m.put_text("type", "session_query_sessions");
            m.put("sessions", sessions.to_json());
        },
        EventMsg::SessionQueryMcpTools { tools, health } => {
            m.put_text("type", "session_query_mcp_tools");
            m.put("tools", tools.to_json());
            m.put("health", health.to_json());
        },
        EventMsg::SessionQueryModels { models } => {
            m.put_text("type", "session_query_models");
            m.put("models", models.to_json());
        },
    }
    m.done()
}

proof fn lemma_events_prefix(s: Seq<JsonView>, k: int)
    requires
        0 <= k <= s.len(),
        events_read(s.take(k)) is None,
    ensures
        events_read(s) is None,
    decreases s.len() - k,
{
    if k < s.len() {
        assert(s.take(k + 1).drop_last() =~= s.take(k));
        lemma_events_prefix(s, k + 1);
    } else {
        assert(s.take(k) =~= s);
    }
}

fn events_from_json(v: &Vec<Json>) -> (r: Option<Vec<Event>>)
    ensures
        match r {
            Some(t) => events_read(list_view(v@)) == Some(events_view(t@)),
            None => events_read(list_view(v@)) is None,
        },
    decreases list_view(v@), 0int,
{
    let mut out: Vec<Event> = Vec::new();
    let mut i: usize = 0;
    let ghost s = list_view(v@);
    proof {
        lemma_list_view(v@);
        assert(s.take(0) =~= Seq::<JsonView>::empty());
    }
    while i < v.len()
        invariant
            i <= v@.len(),
            s == list_view(v@),
            s.len() == v@.len(),
            forall|k: int| 0 <= k < v@.len() ==> #[trigger] s[k] == v@[k]@,
            events_read(s.take(i as int)) == Some(events_view(out@)),
        decreases v@.len() - i,
    {
        assert(s.take(i + 1).drop_last() =~= s.take(i as int));
        let ghost before = out@;
        assert(decreases_to!(s => s[i as int]));
        match event_from_json(&v[i]) {
            Some(t) => {
                out.push(t);
                assert(out@.drop_last() =~= before);
            },
            None => {
                proof {
                    lemma_events_prefix(s, i + 1);
                }
                return None;
            },
        }
        i = i + 1;
    }
    assert(s.take(s.len() as int) =~= s);
    Some(out)
}

fn event_from_json(j: &Json) -> (r: Option<Event>)
    ensures
        match r {
            Some(t) => event_read(j@) == Some(event_view(t)),
            None => event_read(j@) is None,
        },
    decreases j@, 0int,
{
    let msg = match j.get("msg") {
        Some(x) => {
            proof {
                lemma_member_decreases(*j, "msg"@);
            }
            match event_msg_from_json(x) {
                Some(msg) => msg,
                None => return None,
            }
        },
        None => return None,
    };
    match (
        take_needed::<String>(j, "id"),
        take_needed::<u64>(j, "seq"),
        take_maybe::<TurnId>(j, "turn"),
    ) {
        (Some(id), Some(seq), Some(turn)) => Some(Event { id, seq, turn, msg }),
        _ => None,
    }
}

fn history_from_json(j: &Json) -> (r: Option<Vec<Event>>)
    ensures
        match r {
            Some(t) => history_read(j@) == Some(events_view(t@)),
            None => history_read(j@) is None,
        },
    decreases j@, 0int,
{
    match j.get("events") {
        Some(x) => match x {
            Json::List(v) => {
                proof {
                    lemma_member_decreases(*j, "events"@);
                    assert(x@->List_0 == list_view(v@));
                    assert(decreases_to!(x@ => x@->List_0));
                    assert(decreases_to!(j@ => list_view(v@)));
                }
                events_from_json(v)
            },
            _ => None,
        },
        None => None,
    }
}

fn event_msg_from_json(j: &Json) -> (r: Option<EventMsg>)
    ensures
        match r {
            Some(t) => event_msg_read(j@) == Some(event_msg_view(t)),
            None => event_msg_read(j@) is None,
        },
    decreases j@, 1int,
{
    let t = match take_needed::<String>(j, "type") {
        Some(t) => t,
        None => return None,
    };
    if same(t.as_str(), "session_configured") {
        match (
            take_needed::<u32>(j, "protocol_version"),
            take_needed::<SessionId>(j, "session_id"),
            take_needed::<String>(j, "model"),
            take_needed::<PermissionMode>(j, "permission_mode"),
            take_needed::<String>(j, "cwd"),
        ) {
            (Some(protocol_version), Some(session_id), Some(model), Some(permission_mode), Some(cwd)) => Some(
                EventMsg::SessionConfigured { protocol_version, session_id, model, permission_mode, cwd },
            ),
            _ => None,
        }
    } else if same(t.as_str(), "turn_started") {
        match take_needed::<TurnId>(j, "turn_id") {
            Some(turn_id) => Some(EventMsg::TurnStarted { turn_id }),
            None => None,
        }
    } else if same(t.as_str(), "turn_complete") {
        match (
            take_needed::<TurnId>(j, "turn_id"),
            take_needed::<TokenUsage>(j, "usage"),
            take_needed::<StopReason>(j, "stop_reason"),
        ) {
            (Some(turn_id), Some(usage), Some(stop_reason)) => Some(
                EventMsg::TurnComplete { turn_id, usage, stop_reason },
            ),
            _ => None,
        }
    } else if same(t.as_str(), "agent_message_delta") {
        match take_needed::<String>(j, "text") {
            Some(text) => Some(EventMsg::AgentMessageDelta { text }),
            None => None,
        }
    } else if same(t.as_str(), "agent_message") {
        match take_needed::<String>(j, "text") {
            Some(text) => Some(EventMsg::AgentMessage { text }),
            None => None,
        }
    } else if same(t.as_str(), "reasoning_delta") {
        match take_needed::<String>(j, "text") {
            Some(text) => Some(EventMsg::ReasoningDelta { text }),
            None => None,
        }
    } else if same(t.as_str(), "reasoning") {
        match take_needed::<String>(j, "text") {
            Some(text) => Some(EventMsg::Reasoning { text }),
            None => None,
        }
    } else if same(t.as_str(), "exec_command_begin") {
        match (
            take_needed::<CallId>(j, "call_id"),
            take_needed::<Vec<String>>(j, "command"),
            take_needed::<String>(j, "cwd"),
        ) {
            (Some(call_id), Some(command), Some(cwd)) => Some(
                EventMsg::ExecCommandBegin { call_id, command, cwd },
            ),
            _ => None,
        }
    } else if same(t.as_str(), "exec_command_output_delta") {
        match (
            take_needed::<CallId>(j, "call_id"),
            take_needed::<ExecStream>(j, "stream"),
            take_needed::<String>(j, "chunk"),
        ) {
            (Some(call_id), Some(stream), Some(chunk)) => Some(
                EventMsg::ExecCommandOutputDelta { call_id, stream, chunk },
            ),
            _ => None,
        }
    } else if same(t.as_str(), "exec_command_end") {
        match (
            take_needed::<CallId>(j, "call_id"),
            take_needed::<i32>(j, "exit_code"),
            take_needed::<u64>(j, "duration_ms"),
            take_needed::<bool>(j, "truncated"),
        ) {
            (Some(call_id), Some(exit_code), Some(duration_ms), Some(truncated)) => Some(
                EventMsg::ExecCommandEnd { call_id, exit_code, duration_ms, truncated },
            ),
            _ => None,
        }
    } else if same(t.as_str(), "patch_apply_begin") {
        match (
            take_needed::<CallId>(j, "call_id"),
            take_needed::<Vec<String>>(j, "files"),
        ) {
            (Some(call_id), Some(files)) => Some(
                EventMsg::PatchApplyBegin { call_id, files },
            ),
            _ => None,
        }
    } else if same(t.as_str(), "patch_apply_end") {
        match (
            take_needed::<CallId>(j, "call_id"),
            take_needed::<bool>(j, "success"),
            take_needed::<String>(j, "diff"),
        ) {
            (Some(call_id), Some(success), Some(diff)) => Some(
                EventMsg::PatchApplyEnd { call_id, success, diff },
            ),
            _ => None,
        }
    } else if same(t.as_str(), "tool_call_begin") {
        match (
            take_needed::<CallId>(j, "call_id"),
            take_needed::<String>(j, "tool"),
            take_needed::<String>(j, "summary"),
        ) {
            (Some(call_id), Some(tool), Some(summary)) => Some(
                EventMsg::ToolCallBegin { call_id, tool, summary },
            ),
            _ => None,
        }
    } else if same(t.as_str(), "tool_call_end") {
        match (
            take_needed::<CallId>(j, "call_id"),
            take_needed::<bool>(j, "ok"),
            take_needed::<String>(j, "summary"),
        ) {
            (Some(call_id), Some(ok), Some(summary)) => Some(
                EventMsg::ToolCallEnd { call_id, ok, summary },
            ),
            _ => None,
        }
    } else if same(t.as_str(), "approval_request") {
        match (
            take_needed::<CallId>(j, "call_id"),
            take_needed::<ApprovalKind>(j, "kind"),
            take_needed::<ApprovalDetail>(j, "detail"),
        ) {
            (Some(call_id), Some(kind), Some(detail)) => Some(
                EventMsg::ApprovalRequest { call_id, kind, detail },
            ),
            _ => None,
        }
    } else if same(t.as_str(), "plan_updated") {
        match take_needed::<Vec<PlanItem>>(j, "items") {
            Some(items) => Some(EventMsg::PlanUpdated { items }),
            None => None,
        }
    } else if same(t.as_str(), "token_count") {
        match (
            take_needed::<u64>(j, "used"),
            take_needed::<u64>(j, "window"),
        ) {
            (Some(used), Some(window)) => Some(
                EventMsg::TokenCount { used, window },
            ),
            _ => None,
        }
    } else if same(t.as_str(), "background_event") {
        match take_needed::<String>(j, "message") {
            Some(message) => Some(EventMsg::BackgroundEvent { message }),
            None => None,
        }
    } else if same(t.as_str(), "permission_mode_changed") {
        match take_needed::<PermissionMode>(j, "mode") {
            Some(mode) => Some(EventMsg::PermissionModeChanged { mode }),
            None => None,
        }
    } else if same(t.as_str(), "error") {
        match (
            take_needed::<String>(j, "message"),
            take_needed::<bool>(j, "retryable"),
        ) {
            (Some(message), Some(retryable)) => Some(
                EventMsg::Error { message, retryable },
            ),
            _ => None,
        }
    } else if same(t.as_str(), "stream_error") {
        match take_needed::<String>(j, "message") {
            Some(message) => Some(EventMsg::StreamError { message }),
            None => None,
        }
    } else if same(t.as_str(), "session_query_history") {
        match (
            history_from_json(j),
            take_needed::<bool>(j, "done"),
        ) {
            (Some(events), Some(done)) => Some(
                EventMsg::SessionQueryHistory { events, done },
            ),
            _ => None,
        }
    } else if same(t.as_str(), "session_query_sessions") {
        match take_needed::<Vec<SessionSummary>>(j, "sessions") {
            Some(sessions) => Some(EventMsg::SessionQuerySessions { sessions }),
            None => None,
        }
    } else if same(t.as_str(), "session_query_mcp_tools") {
        match (
            take_needed::<Vec<McpToolInfo>>(j, "tools"),
            take_needed::<Vec<McpServerHealth>>(j, "health"),
        ) {
            (Some(tools), Some(health)) => Some(
                EventMsg::SessionQueryMcpTools { tools, health },
            ),
            _ => None,
        }
    } else if same(t.as_str(), "session_query_models") {
        match take_needed::<Vec<ModelInfo>>(j, "models") {
            Some(models) => Some(EventMsg::SessionQueryModels { models }),
            None => None,
        }
    } else {
        None
    }
}

/// A null summary of arguments is read back as none.
pub open spec fn event_msg_faithful(v: EventMsgView) -> bool
    decreases v,
{
    match v {
        EventMsgView::ApprovalRequest { call_id, kind, detail } => ApprovalDetail::faithful(detail),
        EventMsgView::SessionQueryHistory { events, done } => events_faithful(events),
        _ => true,
    }
}

/// Whether every event of a list is read back.
pub open spec fn events_faithful(s: Seq<EventView>) -> bool
    decreases s,
{
    s.len() == 0 || (events_faithful(s.drop_last()) && event_msg_faithful(s.last().msg))
}

proof fn events_round_trip(s: Seq<EventView>)
    requires
        events_faithful(s),
    ensures
        events_read(events_json(s)) == Some(s),
    decreases s,
{
    if s.len() > 0 {
        events_round_trip(s.drop_last());
        event_round_trip(s.last());
        assert(events_json(s).drop_last() =~= events_json(s.drop_last()));
        assert(s.drop_last().push(s.last()) =~= s);
    } else {
        assert(s =~= Seq::<EventView>::empty());
    }
}

proof fn event_round_trip(v: EventView)
    requires
        event_msg_faithful(v.msg),
    ensures
        event_read(event_json(v)) == Some(v),
    decreases v,
{
    reveal_strlit("id");
    reveal_strlit("seq");
    reveal_strlit("turn");
    reveal_strlit("msg");
    assert("id"@.len() == 2 && "seq"@.len() == 3 && "turn"@.len() == 4 && "msg"@.len() == 3);
    assert("seq"@[0] != "msg"@[0]);
    event_msg_round_trip(v.msg);
}

proof fn event_msg_round_trip(v: EventMsgView)
    requires
        event_msg_faithful(v),
    ensures
        event_msg_read(event_msg_json(v)) == Some(v),
    decreases v,
{
    reveal_strlit("session_configured");
    reveal_strlit("turn_started");
    reveal_strlit("turn_complete");
    reveal_strlit("agent_message_delta");
    reveal_strlit("agent_message");
    reveal_strlit("reasoning_delta");
    reveal_strlit("reasoning");
    reveal_strlit("exec_command_begin");
    reveal_strlit("exec_command_output_delta");
    reveal_strlit("exec_command_end");
    reveal_strlit("patch_apply_begin");
    reveal_strlit("patch_apply_end");
    reveal_strlit("tool_call_begin");
    reveal_strlit("tool_call_end");
    reveal_strlit("approval_request");
    reveal_strlit("plan_updated");
    reveal_strlit("token_count");
    reveal_strlit("background_event");
    reveal_strlit("permission_mode_changed");
    reveal_strlit("error");
    reveal_strlit("stream_error");
    reveal_strlit("session_query_history");
    reveal_strlit("session_query_sessions");
    reveal_strlit("session_query_mcp_tools");
    reveal_strlit("session_query_models");
    assert("session_configured"@.len() == 18 && "turn_started"@.len() == 12 && "turn_complete"@.len() == 13 && "agent_message_delta"@.len() == 19 && "agent_message"@.len() == 13 && "reasoning_delta"@.len() == 15 && "reasoning"@.len() == 9 && "exec_command_begin"@.len() == 18 && "exec_command_output_delta"@.len() == 25 && "exec_command_end"@.len() == 16 && "patch_apply_begin"@.len() == 17 && "patch_apply_end"@.len() == 15 && "tool_call_begin"@.len() == 15 && "tool_call_end"@.len() == 13 && "approval_request"@.len() == 16 && "plan_updated"@.len() == 12 && "token_count"@.len() == 11 && "background_event"@.len() == 16 && "permission_mode_changed"@.len() == 23 && "error"@.len() == 5 && "stream_error"@.len() == 12 && "session_query_history"@.len() == 21 && "session_query_sessions"@.len() == 22 && "session_query_mcp_tools"@.len() == 23 && "session_query_models"@.len() == 20);
    assert("turn_complete"@[0] != "agent_message"@[0]);
    assert("session_configured"@[0] != "exec_command_begin"@[0]);
    assert("reasoning_delta"@[0] != "patch_apply_end"@[0]);
    assert("reasoning_delta"@[0] != "tool_call_begin"@[0]);
    assert("patch_apply_end"@[0] != "tool_call_begin"@[0]);
    assert("turn_complete"@[1] != "tool_call_end"@[1]);
    assert("agent_message"@[0] != "tool_call_end"@[0]);
    assert("exec_command_end"@[0] != "approval_request"@[0]);
    assert("turn_started"@[0] != "plan_updated"@[0]);
    assert("exec_command_end"@[0] != "background_event"@[0]);
    assert("approval_request"@[0] != "background_event"@[0]);
    assert("turn_started"@[0] != "stream_error"@[0]);
    assert("plan_updated"@[0] != "stream_error"@[0]);
    assert("permission_mode_changed"@[0] != "session_query_mcp_tools"@[0]);
    match v {
        EventMsgView::SessionConfigured { protocol_version, session_id, model, permission_mode, cwd } => {
            reveal_strlit("type");
            reveal_strlit("protocol_version");
            reveal_strlit("session_id");
            reveal_strlit("model");
            reveal_strlit("permission_mode");
            reveal_strlit("cwd");
            assert("type"@.len() == 4 && "protocol_version"@.len() == 16 && "session_id"@.len() == 10 && "model"@.len() == 5 && "permission_mode"@.len() == 15 && "cwd"@.len() == 3);
            u32::round_trip(protocol_version);
            SessionId::round_trip(session_id);
            String::round_trip(model);
            PermissionMode::round_trip(permission_mode);
            String::round_trip(cwd);
        },
        EventMsgView::TurnStarted { turn_id } => {
            reveal_strlit("type");
            reveal_strlit("turn_id");
            assert("type"@.len() == 4 && "turn_id"@.len() == 7);
            TurnId::round_trip(turn_id);
        },
        EventMsgView::TurnComplete { turn_id, usage, stop_reason } => {
            reveal_strlit("type");
            reveal_strlit("turn_id");
            reveal_strlit("usage");
            reveal_strlit("stop_reason");
            assert("type"@.len() == 4 && "turn_id"@.len() == 7 && "usage"@.len() == 5 && "stop_reason"@.len() == 11);
            TurnId::round_trip(turn_id);
            TokenUsage::round_trip(usage);
            StopReason::round_trip(stop_reason);
        },
        EventMsgView::AgentMessageDelta { text } => {
            reveal_strlit("type");
            reveal_strlit("text");
            assert("type"@[1] != "text"@[1]);
            String::round_trip(text);
        },
        EventMsgView::AgentMessage { text } => {
            reveal_strlit("type");
            reveal_strlit("text");
            assert("type"@[1] != "text"@[1]);
            String::round_trip(text);
        },
        EventMsgView::ReasoningDelta { text } => {
            reveal_strlit("type");
            reveal_strlit("text");
            assert("type"@[1] != "text"@[1]);
            String::round_trip(text);
        },
        EventMsgView::Reasoning { text } => {
            reveal_strlit("type");
            reveal_strlit("text");
            assert("type"@[1] != "text"@[1]);
            String::round_trip(text);
        },
        EventMsgView::ExecCommandBegin { call_id, command, cwd } => {
            reveal_strlit("type");
            reveal_strlit("call_id");
            reveal_strlit("command");
            reveal_strlit("cwd");
            assert("type"@.len() == 4 && "call_id"@.len() == 7 && "command"@.len() == 7 && "cwd"@.len() == 3);
            assert("call_id"@[1] != "command"@[1]);
            CallId::round_trip(call_id);
            <Vec<String> as Wire>::round_trip(command);
            String::round_trip(cwd);
        },
        EventMsgView::ExecCommandOutputDelta { call_id, stream, chunk } => {
            reveal_strlit("type");
            reveal_strlit("call_id");
            reveal_strlit("stream");
            reveal_strlit("chunk");
            assert("type"@.len() == 4 && "call_id"@.len() == 7 && "stream"@.len() == 6 && "chunk"@.len() == 5);
            CallId::round_trip(call_id);
            ExecStream::round_trip(stream);
            String::round_trip(chunk);
        },
        EventMsgView::ExecCommandEnd { call_id, exit_code, duration_ms, truncated } => {
            reveal_strlit("type");
            reveal_strlit("call_id");
            reveal_strlit("exit_code");
            reveal_strlit("duration_ms");
            reveal_strlit("truncated");
            assert("type"@.len() == 4 && "call_id"@.len() == 7 && "exit_code"@.len() == 9 && "duration_ms"@.len() == 11 && "truncated"@.len() == 9);
            assert("exit_code"@[0] != "truncated"@[0]);
            CallId::round_trip(call_id);
            i32::round_trip(exit_code);
            u64::round_trip(duration_ms);
            bool::round_trip(truncated);
        },
        EventMsgView::PatchApplyBegin { call_id, files } => {
            reveal_strlit("type");
            reveal_strlit("call_id");
            reveal_strlit("files");
            assert("type"@.len() == 4 && "call_id"@.len() == 7 && "files"@.len() == 5);
            CallId::round_trip(call_id);
            <Vec<String> as Wire>::round_trip(files);
        },
        EventMsgView::PatchApplyEnd { call_id, success, diff } => {
            reveal_strlit("type");
            reveal_strlit("call_id");
            reveal_strlit("success");
            reveal_strlit("diff");
            assert("type"@.len() == 4 && "call_id"@.len() == 7 && "success"@.len() == 7 && "diff"@.len() == 4);
            assert("call_id"@[0] != "success"@[0]);
            assert("type"@[0] != "diff"@[0]);
            CallId::round_trip(call_id);
            bool::round_trip(success);
            String::round_trip(diff);
        },
        EventMsgView::ToolCallBegin { call_id, tool, summary } => {
            reveal_strlit("type");
            reveal_strlit("call_id");
            reveal_strlit("tool");
            reveal_strlit("summary");
            assert("type"@.len() == 4 && "call_id"@.len() == 7 && "tool"@.len() == 4 && "summary"@.len() == 7);
            assert("type"@[1] != "tool"@[1]);
            assert("call_id"@[0] != "summary"@[0]);
            CallId::round_trip(call_id);
            String::round_trip(tool);
            String::round_trip(summary);
        },
        EventMsgView::ToolCallEnd { call_id, ok, summary } => {
            reveal_strlit("type");
            reveal_strlit("call_id");
            reveal_strlit("ok");
            reveal_strlit("summary");
            assert("type"@.len() == 4 && "call_id"@.len() == 7 && "ok"@.len() == 2 && "summary"@.len() == 7);
            assert("call_id"@[0] != "summary"@[0]);
            CallId::round_trip(call_id);
            bool::round_trip(ok);
            String::round_trip(summary);
        },
        EventMsgView::ApprovalRequest { call_id, kind, detail } => {
            reveal_strlit("type");
            reveal_strlit("call_id");
            reveal_strlit("kind");
            reveal_strlit("detail");
            assert("type"@.len() == 4 && "call_id"@.len() == 7 && "kind"@.len() == 4 && "detail"@.len() == 6);
            assert("type"@[0] != "kind"@[0]);
            CallId::round_trip(call_id);
            ApprovalKind::round_trip(kind);
            ApprovalDetail::round_trip(detail);
        },
        EventMsgView::PlanUpdated { items } => {
            reveal_strlit("type");
            reveal_strlit("items");
            assert("type"@.len() == 4 && "items"@.len() == 5);
            <Vec<PlanItem> as Wire>::round_trip(items);
        },
        EventMsgView::TokenCount { used, window } => {
            reveal_strlit("type");
            reveal_strlit("used");
            reveal_strlit("window");
            assert("type"@.len() == 4 && "used"@.len() == 4 && "window"@.len() == 6);
            assert("type"@[0] != "used"@[0]);
            u64::round_trip(used);
            u64::round_trip(window);
        },
        EventMsgView::BackgroundEvent { message } => {
            reveal_strlit("type");
            reveal_strlit("message");
            assert("type"@.len() == 4 && "message"@.len() == 7);
            String::round_trip(message);
        },
        EventMsgView::PermissionModeChanged { mode } => {
            reveal_strlit("type");
            reveal_strlit("mode");
            assert("type"@[0] != "mode"@[0]);
            PermissionMode::round_trip(mode);
        },
        EventMsgView::Error { message, retryable } => {
            reveal_strlit("type");
            reveal_strlit("message");
            reveal_strlit("retryable");
            assert("type"@.len() == 4 && "message"@.len() == 7 && "retryable"@.len() == 9);
            String::round_trip(message);
            bool::round_trip(retryable);
        },
        EventMsgView::StreamError { message } => {
            reveal_strlit("type");
            reveal_strlit("message");
            assert("type"@.len() == 4 && "message"@.len() == 7);
            String::round_trip(message);
        },
        EventMsgView::SessionQueryHistory { events, done } => {
            reveal_strlit("type");
            reveal_strlit("events");
            reveal_strlit("done");
            assert("type"@.len() == 4 && "events"@.len() == 6 && "done"@.len() == 4);
            assert("type"@[0] != "done"@[0]);
            events_round_trip(events);
            bool::round_trip(done);
        },
        EventMsgView::SessionQuerySessions { sessions } => {
            reveal_strlit("type");
            reveal_strlit("sessions");
            assert("type"@.len() == 4 && "sessions"@.len() == 8);
            <Vec<SessionSummary> as Wire>::round_trip(sessions);
        },
        EventMsgView::SessionQueryMcpTools { tools, health } => {
            reveal_strlit("type");
            reveal_strlit("tools");
            reveal_strlit("health");
            assert("type"@.len() == 4 && "tools"@.len() == 5 && "health"@.len() == 6);
            <Vec<McpToolInfo> as Wire>::round_trip(tools);
            <Vec<McpServerHealth> as Wire>::round_trip(health);
        },
        EventMsgView::SessionQueryModels { models } => {
            reveal_strlit("type");
            reveal_strlit("models");
            assert("type"@.len() == 4 && "models"@.len() == 6);
            <Vec<ModelInfo> as Wire>::round_trip(models);
        },
    }
}

impl Wire for EventMsg {
    open spec fn json(v: EventMsgView) -> JsonView {
        event_msg_json(v)
    }

    open spec fn read(j: JsonView) -> Option<EventMsgView> {
        event_msg_read(j)
    }

    fn to_json(&self) -> (r: Json) {
        event_msg_to_json(self)
    }

    fn from_json(j: &Json) -> (r: Option<Self>) {
        event_msg_from_json(j)
    }

    open spec fn faithful(v: EventMsgView) -> bool {
        event_msg_faithful(v)
    }

    proof fn round_trip(v: EventMsgView) {
        event_msg_round_trip(v);
    }
}

impl Wire for Event {
    open spec fn json(v: EventView) -> JsonView {
        event_json(v)
    }

    open spec fn read(j: JsonView) -> Option<EventView> {
        event_read(j)
    }

    fn to_json(&self) -> (r: Json) {
        event_to_json(self)
    }

    fn from_json(j: &Json) -> (r: Option<Self>) {
        event_from_json(j)
    }

    open spec fn faithful(v: EventView) -> bool {
        event_msg_faithful(v.msg)
    }

    proof fn round_trip(v: EventView) {
        event_round_trip(v);
    }
}

impl Event {
    /// An event whose number and turn are yet to be filled in.
    pub fn new(id: &str, msg: EventMsg) -> (r: Self)
        ensures
            r.deep_view() == (EventView {
                id: id@,
                seq: 0,
                turn: None,
                msg: msg.deep_view(),
            }),
    {
        Event { id: id.to_owned(), seq: 0, turn: None, msg }
    }
}

} // verus!

//! Tools of tool servers: what servers are asked, what they answer, and what the
//! model is told of their tools.
use vstd::prelude::*;
use vstd::string::*;

use crate::config::McpServerConfig;
use crate::dup::Dup;
use crate::form::Items;
use crate::json::Json;
use crate::json::JsonView;
use crate::json::Members;
use crate::json::bool_in;
use crate::json::json_text;
use crate::json::lemma_list_view;
use crate::json::list_in;
use crate::json::list_view;
use crate::json::member;
use crate::json::print;
use crate::json::text_in;
use crate::model::ToolSpec;
use crate::model::ToolSpecView;
use crate::providers::calls::is_text;
use crate::providers::calls::or_text;
use crate::providers::calls::text_at;
use crate::providers::calls::text_or;
use crate::table::Table;
use crate::text::cat3;
use crate::text::cat;
use crate::text::contains;
use crate::text::join;
use crate::text::joined;
use crate::text::occurs;
use crate::text::views;
use crate::tools::ToolError;
use crate::tools::ToolErrorView;
use crate::tools::ToolOutput;
use crate::tools::ToolOutputView;
use crate::tools::ToolRegistry;
use crate::tools::law_registered_is_there;
use crate::tools::registered;

verus! {

// ---- what servers are asked ----

/// What a server is told first.
pub open spec fn initialize_params_object() -> JsonView {
    JsonView::Object(
        Map::empty().insert(
            "protocolVersion"@,
            JsonView::Text("2024-11-05"@),
        ).insert(
            "capabilities"@,
            JsonView::Object(Map::empty()),
        ).insert(
            "clientInfo"@,
            JsonView::Object(
                Map::empty().insert(
                    "name"@,
                    JsonView::Text("tao"@),
                ).insert(
                    "version"@,
                    JsonView::Text("0.1.0"@),
                ),
            ),
        ),
    )
}

/// What a server is told first.
pub fn initialize_params() -> (r: Json)
    ensures
        r@ == initialize_params_object(),
{
    {
        let mut m = Members::new();
        m.put("protocolVersion", Json::text("2024-11-05"));
        m.put("capabilities", {
            let mut m = Members::new();
            m.done()
        });
        m.put("clientInfo", {
            let mut m = Members::new();
            m.put("name", Json::text("tao"));
            m.put("version", Json::text("0.1.0"));
            m.done()
        });
        m.done()
    }
}

/// What a server is told of a call.
pub open spec fn call_params_object(name: Seq<char>, args: JsonView) -> JsonView {
    JsonView::Object(
        Map::empty().insert(
            "name"@,
            JsonView::Text(name),
        ).insert(
            "arguments"@,
            args,
        ),
    )
}

/// What a server is told of a call.
pub fn call_params(name: &str, args: &Json) -> (r: Json)
    ensures
        r@ == call_params_object(name@, args@),
{
    {
        let mut m = Members::new();
        m.put("name", Json::text(name));
        m.put("arguments", args.clone());
        m.done()
    }
}

/// An empty object.
pub fn empty_object() -> (r: Json)
    ensures
        r@ == JsonView::Object(Map::empty()),
{
    let m = Members::new();
    m.done()
}

// ---- what servers answer ----

/// The model of `McpToolInfo`.
pub struct McpToolInfoView {
    pub name: Seq<char>,
    pub description: Seq<char>,
    pub input_schema: JsonView,
}

/// A tool as its server describes it.
#[derive(Debug, PartialEq)]
pub struct McpToolInfo {
    pub name: String,
    pub description: String,
    pub input_schema: Json,
}

impl DeepView for McpToolInfo {
    type V = McpToolInfoView;

    open spec fn deep_view(&self) -> McpToolInfoView {
        McpToolInfoView {
            name: self.name@,
            description: self.description@,
            input_schema: self.input_schema@,
        }
    }
}

/// The tool that a server describes.
pub open spec fn tool_in(j: JsonView) -> McpToolInfoView {
    McpToolInfoView {
        name: or_text(text_in(member(j, "name"@)), ""@),
        description: or_text(text_in(member(j, "description"@)), ""@),
        input_schema: match member(j, "inputSchema"@) {
            Some(s) => s,
            None => JsonView::Object(Map::empty()),
        },
    }
}

/// The list under a member, or none.
pub open spec fn list_under(j: JsonView, k: Seq<char>) -> Seq<JsonView> {
    match list_in(member(j, k)) {
        Some(s) => s,
        None => Seq::empty(),
    }
}

/// The tools that a server lists.
pub open spec fn tools_listed(result: JsonView) -> Seq<McpToolInfoView> {
    list_under(result, "tools"@).map_values(|j: JsonView| tool_in(j))
}

fn read_tool(j: &Json) -> (r: McpToolInfo)
    ensures
        r.deep_view() == tool_in(j@),
{
    McpToolInfo {
        name: text_or(text_at(j, "name"), ""),
        description: text_or(text_at(j, "description"), ""),
        input_schema: match j.get("inputSchema") {
            Some(s) => s.clone(),
            None => empty_object(),
        },
    }
}

/// The tools that a server lists.
pub fn read_tools(result: &Json) -> (r: Vec<McpToolInfo>)
    ensures
        r.deep_view() == tools_listed(result@),
{
    let mut out: Vec<McpToolInfo> = Vec::new();
    let list = match result.get("tools") {
        Some(t) => t.as_list(),
        None => None,
    };
    match list {
        None => {
            assert(out.deep_view() =~= tools_listed(result@));
            out
        },
        Some(v) => {
            proof {
                lemma_list_view(v@);
            }
            let ghost all = list_view(v@);
            let mut i: usize = 0;
            while i < v.len()
                invariant
                    i <= v@.len(),
                    all == list_view(v@),
                    all.len() == v@.len(),
                    forall|k: int| 0 <= k < v@.len() ==> #[trigger] all[k] == v@[k]@,
                    out@.len() == i,
                    forall|k: int| 0 <= k < i ==> (#[trigger] out@[k]).deep_view() == tool_in(all[k]),
                decreases v@.len() - i,
            {
                out.push(read_tool(&v[i]));
                i = i + 1;
            }
            assert(out.deep_view() =~= tools_listed(result@));
            out
        },
    }
}

/// What a call of a server's tool came to.
#[derive(Debug, PartialEq)]
pub struct McpToolResult {
    pub content: String,
    pub is_error: bool,
}

/// The texts among what a server answers.
pub open spec fn answer_texts(s: Seq<JsonView>) -> Seq<Seq<char>>
    decreases s.len(),
{
    if s.len() == 0 {
        Seq::empty()
    } else {
        let before = answer_texts(s.drop_last());
        let j = s.last();
        if text_in(member(j, "type"@)) == Some("text"@) {
            match text_in(member(j, "text"@)) {
                Some(t) => before.push(t),
                None => before,
            }
        } else {
            before
        }
    }
}

/// What a call of a server's tool came to.
pub fn read_result(result: &Json) -> (r: McpToolResult)
    ensures
        r.content@ == joined(answer_texts(list_under(result@, "content"@)), "\n"@),
        r.is_error == (bool_in(member(result@, "isError"@)) == Some(true)),
{
    let is_error = match result.get("isError") {
        Some(b) => match b.as_bool() {
            Some(x) => x,
            None => false,
        },
        None => false,
    };
    let mut out: Vec<String> = Vec::new();
    assert(views(out@) =~= Seq::<Seq<char>>::empty());
    let list = match result.get("content") {
        Some(t) => t.as_list(),
        None => None,
    };
    match list {
        None => {},
        Some(v) => {
            proof {
                lemma_list_view(v@);
            }
            let ghost all = list_view(v@);
            let mut i: usize = 0;
            while i < v.len()
                invariant
                    i <= v@.len(),
                    all == list_view(v@),
                    all.len() == v@.len(),
                    forall|k: int| 0 <= k < v@.len() ==> #[trigger] all[k] == v@[k]@,
                    views(out@) == answer_texts(all.take(i as int)),
                decreases v@.len() - i,
            {
                assert(all.take(i + 1).drop_last() =~= all.take(i as int));
                assert(all.take(i + 1).last() == v@[i as int]@);
                let ghost before = views(out@);
                let kind = text_at(&v[i], "type");
                if is_text(&kind, "text") {
                    match text_at(&v[i], "text") {
                        Some(t) => {
                            out.push(t);
                            assert(views(out@) =~= before.push(t@));
                        },
                        None => {},
                    }
                }
                i = i + 1;
            }
            assert(all.take(all.len() as int) =~= all);
        },
    }
    McpToolResult { content: join(&out, "\n"), is_error }
}

/// What the model is told of a call.
pub fn call_output(r: &McpToolResult) -> (o: ToolOutput)
    ensures
        o.deep_view() == (ToolOutputView { content: r.content@, is_error: r.is_error }),
{
    ToolOutput { content: r.content.clone(), is_error: r.is_error }
}

// ---- tools of servers ----

/// A tool of a server.
#[derive(Debug, PartialEq)]
pub struct McpTool {
    pub server: String,
    pub name: String,
    pub description: String,
    pub schema: Json,
}

/// What the model is told of a server's tool.
pub open spec fn tool_of(server: Seq<char>, t: McpToolInfoView) -> ToolSpecView {
    ToolSpecView {
        name: "mcp__"@ + server + "__"@ + t.name,
        description: t.description,
        schema: t.input_schema,
    }
}

impl McpTool {
    /// A tool of a server.
    pub fn new(server: &str, info: &McpToolInfo) -> (r: Self)
        ensures
            r.server@ == server@,
            r.name@ == info.name@,
            r.description@ == info.description@,
            r.schema@ == info.input_schema@,
    {
        McpTool {
            server: server.to_owned(),
            name: info.name.clone(),
            description: info.description.clone(),
            schema: info.input_schema.clone(),
        }
    }

    /// The tool as the model is told of it.
    pub fn spec(&self) -> (r: ToolSpec)
        ensures
            r.deep_view() == tool_of(
                self.server@,
                McpToolInfoView {
                    name: self.name@,
                    description: self.description@,
                    input_schema: self.schema@,
                },
            ),
    {
        let head = cat3("mcp__", self.server.as_str(), "__");
        ToolSpec {
            name: cat(head.as_str(), self.name.as_str()),
            description: self.description.clone(),
            schema: self.schema.clone(),
        }
    }

    /// What is said where a call fails again after the server was started anew.
    pub fn failed_again(e: &str) -> (r: ToolError)
        ensures
            r.deep_view() == ToolErrorView::Failed("MCP 调用失败(重连后仍失败): "@ + e@),
    {
        ToolError::Failed(cat("MCP 调用失败(重连后仍失败): ", e))
    }
}

/// What is to be done about a call of a server's tool.
#[derive(Debug, PartialEq)]
pub enum CallStep {
    /// Tell the model what it came to.
    Give(ToolOutput),
    /// Start the server anew and try once more.
    Restart,
    /// Give up.
    GiveUp(ToolError),
}

/// What is to be done about a call that came to something, or failed for the first
/// or the second time.
pub fn after_call(outcome: Result<McpToolResult, String>, again: bool) -> (r: CallStep)
    ensures
        match outcome {
            Ok(x) => r matches CallStep::Give(o) && o.deep_view() == (ToolOutputView {
                content: x.content@,
                is_error: x.is_error,
            }),
            Err(e) => if again {
                r matches CallStep::GiveUp(x) && x.deep_view() == ToolErrorView::Failed(
                    "MCP 调用失败(重连后仍失败): "@ + e@,
                )
            } else {
                r is Restart
            },
        },
{
    match outcome {
        Ok(x) => CallStep::Give(call_output(&x)),
        Err(e) => if again {
            CallStep::GiveUp(McpTool::failed_again(e.as_str()))
        } else {
            CallStep::Restart
        },
    }
}

// ---- search ----

/// A text in lower case, as `str::to_lowercase` has it.
pub uninterp spec fn lower(s: Seq<char>) -> Seq<char>;

/// `str::to_lowercase`.
#[verifier::external_body]
fn to_lower(s: &str) -> (r: String)
    ensures
        r@ == lower(s@),
{
    s.to_lowercase()
}

/// The tool that finds tools of servers.
#[derive(Debug, PartialEq)]
pub struct ToolSearchTool {
    pub servers: Table<McpServerConfig>,
}

/// The schema of the arguments.
pub open spec fn search_schema() -> JsonView {
    JsonView::Object(
        Map::empty().insert(
            "type"@,
            JsonView::Text("object"@),
        ).insert(
            "properties"@,
            JsonView::Object(
                Map::empty().insert(
                    "query"@,
                    JsonView::Object(
                        Map::empty().insert(
                            "type"@,
                            JsonView::Text("string"@),
                        ).insert(
                            "description"@,
                            JsonView::Text("搜索关键词(模糊匹配工具名/描述)"@),
                        ),
                    ),
                ),
            ),
        ).insert(
            "required"@,
            JsonView::List(Seq::empty().push(JsonView::Text("query"@))),
        ),
    )
}

/// What the model is told of the tool.
pub open spec fn search_tool() -> ToolSpecView {
    ToolSpecView {
        name: "mcp__toolsearch"@,
        description:
            "搜索已配置(可能被折叠)的 MCP 工具。按 query 模糊匹配 工具名/描述,返回候选 spec(含 server 名 + input schema)。"@,
        schema: search_schema(),
    }
}

impl ToolSearchTool {
    /// The tool, for the servers that there are.
    pub fn new(servers: Table<McpServerConfig>) -> (r: Self)
        ensures
            r.servers == servers,
    {
        ToolSearchTool { servers }
    }

    /// The tool as the model is told of it.
    pub fn spec(&self) -> (r: ToolSpec)
        ensures
            r.deep_view() == search_tool(),
    {
        ToolSpec {
            name: "mcp__toolsearch".to_owned(),
            description:
                "搜索已配置(可能被折叠)的 MCP 工具。按 query 模糊匹配 工具名/描述,返回候选 spec(含 server 名 + input schema)。".to_owned(),
            schema: {
                let mut m = Members::new();
                m.put("type", Json::text("object"));
                m.put("properties", {
                    let mut m = Members::new();
                    m.put("query", {
                        let mut m = Members::new();
                        m.put("type", Json::text("string"));
                        m.put("description", Json::text("搜索关键词(模糊匹配工具名/描述)"));
                        m.done()
                    });
                    m.done()
                });
                m.put("required", {
                    let mut l = Items::new();
                    l.add(Json::text("query"));
                    l.done()
                });
                m.done()
            },
        }
    }

    /// The servers to be asked.
    pub fn server_names(&self) -> (r: Vec<String>)
        ensures
            views(r@).no_duplicates(),
            forall|k: Seq<char>| #[trigger]
                views(r@).contains(k) <==> self.servers.deep_view().contains_key(k),
    {
        self.servers.keys()
    }
}

/// What became of asking a server for its tools.
pub enum Listed {
    Tools(Vec<McpToolInfo>),
    NotListed(String),
    NotStarted(String),
}

/// Whether a tool fits what is searched for.
pub open spec fn fits_query(query: Seq<char>, t: McpToolInfoView) -> bool {
    lower(query).len() == 0 || occurs(lower(t.name), lower(query)) || occurs(
        lower(t.description),
        lower(query),
    )
}

/// What is told of a tool that was found.
pub open spec fn hit(server: Seq<char>, t: McpToolInfoView) -> Seq<char> {
    "mcp__"@ + server + "__"@ + t.name + " — "@ + t.description + "\n  schema: "@ + json_text(
        t.input_schema,
    )
}

/// What is told of the tools of a server that fit.
pub open spec fn hits_among(query: Seq<char>, server: Seq<char>, s: Seq<McpToolInfoView>) -> Seq<
    Seq<char>,
>
    decreases s.len(),
{
    if s.len() == 0 {
        Seq::empty()
    } else {
        let before = hits_among(query, server, s.drop_last());
        if fits_query(query, s.last()) {
            before.push(hit(server, s.last()))
        } else {
            before
        }
    }
}

/// What is told of a server.
pub open spec fn hits_of(query: Seq<char>, server: Seq<char>, l: Listed) -> Seq<Seq<char>> {
    match l {
        Listed::Tools(v) => hits_among(query, server, v.deep_view()),
        Listed::NotListed(e) => seq!["["@ + server + ": list_tools 失败: "@ + e@ + "]"@],
        Listed::NotStarted(e) => seq!["["@ + server + ": spawn 失败: "@ + e@ + "]"@],
    }
}

fn show_hit(server: &str, t: &McpToolInfo) -> (r: String)
    ensures
        r@ == hit(server@, t.deep_view()),
{
    let a = cat3("mcp__", server, "__");
    let b = cat3(a.as_str(), t.name.as_str(), " — ");
    let c = cat3(b.as_str(), t.description.as_str(), "\n  schema: ");
    let s = print(&t.input_schema);
    cat(c.as_str(), s.as_str())
}

/// What is told of a server.
pub fn search_server(query: &str, server: &str, l: &Listed) -> (r: Vec<String>)
    ensures
        views(r@) == hits_of(query@, server@, *l),
{
    let mut out: Vec<String> = Vec::new();
    match l {
        Listed::NotListed(e) => {
            let head = cat3("[", server, ": list_tools 失败: ");
            out.push(cat3(head.as_str(), e.as_str(), "]"));
            assert(views(out@) =~= hits_of(query@, server@, *l));
        },
        Listed::NotStarted(e) => {
            let head = cat3("[", server, ": spawn 失败: ");
            out.push(cat3(head.as_str(), e.as_str(), "]"));
            assert(views(out@) =~= hits_of(query@, server@, *l));
        },
        Listed::Tools(v) => {
            let q = to_lower(query);
            let ghost all = v.deep_view();
            let mut i: usize = 0;
            assert(views(out@) =~= hits_among(query@, server@, all.take(0)));
            while i < v.len()
                invariant
                    i <= v@.len(),
                    all == v.deep_view(),
                    q@ == lower(query@),
                    views(out@) == hits_among(query@, server@, all.take(i as int)),
                decreases v@.len() - i,
            {
                assert(all.take(i + 1).drop_last() =~= all.take(i as int));
                assert(all.take(i + 1).last() == v@[i as int].deep_view());
                let ghost before = views(out@);
                let n = to_lower(v[i].name.as_str());
                let d = to_lower(v[i].description.as_str());
                if q.as_str().unicode_len() == 0 || contains(n.as_str(), q.as_str()) || contains(
                    d.as_str(),
                    q.as_str(),
                ) {
                    let h = show_hit(server, &v[i]);
                    out.push(h);
                    assert(views(out@) =~= before.push(h@));
                }
                i = i + 1;
            }
            assert(all.take(all.len() as int) =~= all);
        },
    }
    out
}

/// What a search is for.
pub fn search_query(args: &Json) -> (r: String)
    ensures
        r@ == or_text(text_in(member(args@, "query"@)), ""@),
{
    text_or(text_at(args, "query"), "")
}

/// What the model is told of a search.
pub fn search_output(query: &str, hits: &Vec<String>) -> (r: ToolOutput)
    ensures
        r.deep_view() == (ToolOutputView {
            content: if hits@.len() == 0 {
                "未匹配到 MCP 工具(query="@ + query@ + ")"@
            } else {
                joined(views(hits@), "\n"@)
            },
            is_error: false,
        }),
{
    if hits.len() == 0 {
        let t = cat3("未匹配到 MCP 工具(query=", query, ")");
        ToolOutput::ok(t.as_str())
    } else {
        let t = join(hits, "\n");
        ToolOutput::ok(t.as_str())
    }
}

// ---- calls by name ----

/// The tool that calls tools of servers by name.
#[derive(Debug, PartialEq)]
pub struct McpCallTool {
    pub servers: Table<McpServerConfig>,
}

/// The schema of the arguments.
pub open spec fn call_schema() -> JsonView {
    JsonView::Object(
        Map::empty().insert(
            "type"@,
            JsonView::Text("object"@),
        ).insert(
            "properties"@,
            JsonView::Object(
                Map::empty().insert(
                    "server"@,
                    JsonView::Object(
                        Map::empty().insert(
                            "type"@,
                            JsonView::Text("string"@),
                        ).insert(
                            "description"@,
                            JsonView::Text("MCP server 名(见 mcp_servers 配置 / toolsearch 结果)"@),
                        ),
                    ),
                ).insert(
                    "tool"@,
                    JsonView::Object(
                        Map::empty().insert(
                            "type"@,
                            JsonView::Text("string"@),
                        ).insert(
                            "description"@,
                            JsonView::Text("该 server 上的工具名(toolsearch 返回的去掉 mcp__server__ 前缀后的部分)"@),
                        ),
                    ),
                ).insert(
                    "arguments"@,
                    JsonView::Object(
                        Map::empty().insert(
                            "type"@,
                            JsonView::Text("object"@),
                        ).insert(
                            "description"@,
                            JsonView::Text("工具参数(JSON 对象,schema 见 toolsearch 结果)"@),
                        ).insert(
                            "additionalProperties"@,
                            JsonView::Bool(true),
                        ),
                    ),
                ),
            ),
        ).insert(
            "required"@,
            JsonView::List(Seq::empty().push(JsonView::Text("server"@)).push(JsonView::Text("tool"@))),
        ),
    )
}

/// What the model is told of the tool.
pub open spec fn call_tool() -> ToolSpecView {
    ToolSpecView {
        name: "mcp__call"@,
        description:
            "动态调用 MCP 工具(先用 mcp__toolsearch 发现 server/tool 名,再以此工具按名调用)。每次 spawn 一次 MCP server,调用后即释放。"@,
        schema: call_schema(),
    }
}

impl McpCallTool {
    /// The tool, for the servers that there are.
    pub fn new(servers: Table<McpServerConfig>) -> (r: Self)
        ensures
            r.servers == servers,
    {
        McpCallTool { servers }
    }

    /// The tool as the model is told of it.
    pub fn spec(&self) -> (r: ToolSpec)
        ensures
            r.deep_view() == call_tool(),
    {
        ToolSpec {
            name: "mcp__call".to_owned(),
            description:
                "动态调用 MCP 工具(先用 mcp__toolsearch 发现 server/tool 名,再以此工具按名调用)。每次 spawn 一次 MCP server,调用后即释放。".to_owned(),
            schema: {
                let mut m = Members::new();
                m.put("type", Json::text("object"));
                m.put("properties", {
                    let mut m = Members::new();
                    m.put("server", {
                        let mut m = Members::new();
                        m.put("type", Json::text("string"));
                        m.put("description", Json::text("MCP server 名(见 mcp_servers 配置 / toolsearch 结果)"));
                        m.done()
                    });
                    m.put("tool", {
                        let mut m = Members::new();
                        m.put("type", Json::text("string"));
                        m.put("description", Json::text("该 server 上的工具名(toolsearch 返回的去掉 mcp__server__ 前缀后的部分)"));
                        m.done()
                    });
                    m.put("arguments", {
                        let mut m = Members::new();
                        m.put("type", Json::text("object"));
                        m.put("description", Json::text("工具参数(JSON 对象,schema 见 toolsearch 结果)"));
                        m.put("additionalProperties", Json::Bool(true));
                        m.done()
                    });
                    m.done()
                });
                m.put("required", {
                    let mut l = Items::new();
                    l.add(Json::text("server"));
                    l.add(Json::text("tool"));
                    l.done()
                });
                m.done()
            },
        }
    }

    /// Which server is to be started and what it is asked, or what is wrong.
    pub fn plan(&self, args: &Json) -> (r: Result<ServedCall, ToolOutput>)
        ensures
            ({
                let server = or_text(text_in(member(args@, "server"@)), ""@);
                let tool = or_text(text_in(member(args@, "tool"@)), ""@);
                let known = self.servers.deep_view();
                if server.len() == 0 || tool.len() == 0 {
                    r matches Err(o) && o.deep_view() == (ToolOutputView {
                        content: "缺少 server 或 tool 参数(需同时提供 server 与 tool)"@,
                        is_error: true,
                    })
                } else if !known.contains_key(server) {
                    r matches Err(o) && o.is_error && exists|names: Seq<Seq<char>>| #[trigger]
                        names.no_duplicates() && (forall|k: Seq<char>| #[trigger]
                            names.contains(k) <==> known.contains_key(k)) && o.content@
                            == "未知 MCP server: "@ + server + "(可用: "@ + joined(names, ", "@)
                            + ")"@
                } else {
                    r matches Ok(c) && c.server@ == server && c.tool@ == tool && c.config.deep_view()
                        == known[server] && c.arguments@ == (match member(args@, "arguments"@) {
                        Some(a) => a,
                        None => JsonView::Object(Map::empty()),
                    })
                }
            }),
    {
        let server = text_or(text_at(args, "server"), "");
        let tool = text_or(text_at(args, "tool"), "");
        if server.as_str().unicode_len() == 0 || tool.as_str().unicode_len() == 0 {
            return Err(
                ToolOutput::error("缺少 server 或 tool 参数(需同时提供 server 与 tool)"),
            );
        }
        let arguments = match args.get("arguments") {
            Some(a) => a.clone(),
            None => empty_object(),
        };
        match self.servers.get(server.as_str()) {
            Some(c) => {
                let config = c.dup();
                Ok(ServedCall { server, tool, arguments, config })
            },
            None => {
                let names = self.servers.keys();
                let list = join(&names, ", ");
                let head = cat3("未知 MCP server: ", server.as_str(), "(可用: ");
                let text = cat3(head.as_str(), list.as_str(), ")");
                assert(views(names@).no_duplicates());
                Err(ToolOutput::error(text.as_str()))
            },
        }
    }
}

/// A call of a server's tool by name.
pub struct ServedCall {
    pub server: String,
    pub tool: String,
    pub arguments: Json,
    pub config: McpServerConfig,
}

impl ServedCall {
    /// What the model is told where the server could not be started.
    pub fn not_started(&self, e: &str) -> (r: ToolOutput)
        ensures
            r.deep_view() == (ToolOutputView {
                content: "MCP server "@ + self.server@ + " 启动失败: "@ + e@,
                is_error: true,
            }),
    {
        let head = cat3("MCP server ", self.server.as_str(), " 启动失败: ");
        let t = cat(head.as_str(), e);
        ToolOutput::error(t.as_str())
    }

    /// What the model is told where the call failed.
    pub fn failed(&self, e: &str) -> (r: ToolOutput)
        ensures
            r.deep_view() == (ToolOutputView {
                content: "MCP "@ + self.server@ + "/"@ + self.tool@ + " 调用失败: "@ + e@,
                is_error: true,
            }),
    {
        let a = cat3("MCP ", self.server.as_str(), "/");
        let b = cat3(a.as_str(), self.tool.as_str(), " 调用失败: ");
        let t = cat(b.as_str(), e);
        ToolOutput::error(t.as_str())
    }
}

// ---- registration ----

/// How many tools of servers are registered so far, and whether no more are.
pub struct Loader {
    pub total: usize,
    pub full: bool,
}

/// The tools after those of a server were registered one by one, how many there are,
/// and whether there were too many. A budget of zero is none. Where there are too
/// many, the tool that finds tools takes the place of the rest.
pub open spec fn loaded(
    reg: Seq<ToolSpecView>,
    total: nat,
    server: Seq<char>,
    tools: Seq<McpToolInfoView>,
    budget: nat,
) -> (Seq<ToolSpecView>, nat, bool)
    decreases tools.len(),
{
    if tools.len() == 0 {
        (reg, total, false)
    } else if budget != 0 && total >= budget {
        (registered(reg, search_tool()), total, true)
    } else {
        loaded(
            registered(reg, tool_of(server, tools[0])),
            total + 1,
            server,
            tools.drop_first(),
            budget,
        )
    }
}

impl Loader {
    /// Nothing is registered yet.
    pub fn new() -> (r: Self)
        ensures
            r.total == 0,
            !r.full,
    {
        Loader { total: 0, full: false }
    }

    /// Register the tools of a server, as far as the budget goes.
    pub fn add_server(
        &mut self,
        registry: &mut ToolRegistry,
        servers: &Table<McpServerConfig>,
        server: &str,
        tools: &Vec<McpToolInfo>,
        budget: usize,
    )
        requires
            old(registry).inv(),
            old(self).total + tools@.len() <= usize::MAX,
        ensures
            final(registry).inv(),
            (final(registry).deep_view(), final(self).total as nat, final(self).full) == loaded(
                old(registry).deep_view(),
                old(self).total as nat,
                server@,
                tools.deep_view(),
                budget as nat,
            ),
    {
        let ghost all = tools.deep_view();
        let ghost whole = loaded(
            old(registry).deep_view(),
            old(self).total as nat,
            server@,
            all,
            budget as nat,
        );
        let mut i: usize = 0;
        assert(all.skip(0) =~= all);
        self.full = false;
        while i < tools.len()
            invariant
                i <= tools@.len(),
                all == tools.deep_view(),
                registry.inv(),
                self.total == old(self).total + i,
                old(self).total + tools@.len() <= usize::MAX,
                !self.full,
                whole == loaded(
                    old(registry).deep_view(),
                    old(self).total as nat,
                    server@,
                    all,
                    budget as nat,
                ),
                whole == loaded(
                    registry.deep_view(),
                    self.total as nat,
                    server@,
                    all.skip(i as int),
                    budget as nat,
                ),
            decreases tools@.len() - i,
        {
            assert(all.skip(i as int)[0] == tools@[i as int].deep_view());
            assert(all.skip(i as int).drop_first() =~= all.skip(i + 1));
            if budget != 0 && self.total >= budget {
                let t = ToolSearchTool::new(servers.dup());
                registry.register(t.spec());
                self.full = true;
                return ;
            }
            let t = McpTool::new(server, &tools[i]);
            registry.register(t.spec());
            self.total = self.total + 1;
            i = i + 1;
        }
        assert(all.skip(i as int) =~= Seq::<McpToolInfoView>::empty());
    }
}

/// Register the tools that find and call tools of servers, which no server is
/// started for.
pub fn load_lazily(registry: &mut ToolRegistry, servers: &Table<McpServerConfig>)
    requires
        old(registry).inv(),
    ensures
        final(registry).inv(),
        final(registry).deep_view() == registered(
            registered(old(registry).deep_view(), search_tool()),
            call_tool(),
        ),
{
    let s = ToolSearchTool::new(servers.dup());
    registry.register(s.spec());
    let c = McpCallTool::new(servers.dup());
    registry.register(c.spec());
}

// ---- laws ----

/// A budget holds: however many tools a server has, no more than the budget are
/// registered, and where there were more, the model can search for them.
pub proof fn law_budget_holds(
    reg: Seq<ToolSpecView>,
    total: nat,
    server: Seq<char>,
    tools: Seq<McpToolInfoView>,
    budget: nat,
)
    requires
        budget > 0,
        total <= budget,
    ensures
        ({
            let (after, n, full) = loaded(reg, total, server, tools, budget);
            &&& n <= budget
            &&& full <==> total + tools.len() > budget
            &&& full ==> n == budget && after.contains(search_tool())
        }),
    decreases tools.len(),
{
    if tools.len() > 0 {
        if total >= budget {
            law_registered_is_there(reg, search_tool());
        } else {
            law_budget_holds(
                registered(reg, tool_of(server, tools[0])),
                total + 1,
                server,
                tools.drop_first(),
                budget,
            );
        }
    }
}

/// Without a budget all tools are registered.
pub proof fn law_no_budget_takes_all(
    reg: Seq<ToolSpecView>,
    total: nat,
    server: Seq<char>,
    tools: Seq<McpToolInfoView>,
)
    ensures
        loaded(reg, total, server, tools, 0).1 == total + tools.len(),
        !loaded(reg, total, server, tools, 0).2,
    decreases tools.len(),
{
    if tools.len() > 0 {
        law_no_budget_takes_all(
            registered(reg, tool_of(server, tools[0])),
            total + 1,
            server,
            tools.drop_first(),
        );
    }
}

/// An empty search finds every tool.
pub proof fn law_empty_search_finds_all(query: Seq<char>, server: Seq<char>, s: Seq<McpToolInfoView>)
    requires
        lower(query).len() == 0,
    ensures
        hits_among(query, server, s) == s.map_values(|t: McpToolInfoView| hit(server, t)),
    decreases s.len(),
{
    if s.len() > 0 {
        law_empty_search_finds_all(query, server, s.drop_last());
    }
    assert(hits_among(query, server, s) =~= s.map_values(|t: McpToolInfoView| hit(server, t)));
}

} // verus!

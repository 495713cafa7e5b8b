//! The built-in tools as the model is told of them.
use vstd::prelude::*;

use crate::form::Items;
use crate::json::Json;
use crate::json::JsonView;
use crate::json::Members;
use crate::model::ToolSpec;
use crate::model::ToolSpecView;

verus! {

/// Runs a command.
pub struct BashTool;

/// The schema of the arguments.
pub open spec fn bash_schema() -> JsonView {
    JsonView::Object(
        Map::empty().insert(
            "type"@,
            JsonView::Text("object"@),
        ).insert(
            "properties"@,
            JsonView::Object(
                Map::empty().insert(
                    "command"@,
                    JsonView::Object(
                        Map::empty().insert(
                            "type"@,
                            JsonView::Text("array"@),
                        ).insert(
                            "items"@,
                            JsonView::Object(
                                Map::empty().insert(
                                    "type"@,
                                    JsonView::Text("string"@),
                                ),
                            ),
                        ).insert(
                            "description"@,
                            JsonView::Text("命令与参数(argv 数组),如 [\"cargo\",\"test\"]"@),
                        ).insert(
                            "minItems"@,
                            JsonView::Int(1),
                        ),
                    ),
                ).insert(
                    "timeout_ms"@,
                    JsonView::Object(
                        Map::empty().insert(
                            "type"@,
                            JsonView::Text("integer"@),
                        ).insert(
                            "description"@,
                            JsonView::Text("超时毫秒数,默认 120000,上限 600000"@),
                        ).insert(
                            "minimum"@,
                            JsonView::Int(0),
                        ),
                    ),
                ).insert(
                    "cwd"@,
                    JsonView::Object(
                        Map::empty().insert(
                            "type"@,
                            JsonView::Text("string"@),
                        ).insert(
                            "description"@,
                            JsonView::Text("工作目录(相对 ToolCtx.cwd 解析);省略则用 ToolCtx.cwd"@),
                        ),
                    ),
                ),
            ),
        ).insert(
            "required"@,
            JsonView::List(Seq::empty().push(JsonView::Text("command"@))),
        ),
    )
}

/// What the model is told of the tool.
pub open spec fn bash_description() -> Seq<char> {
    "执行 shell 命令。command 是 argv 数组(不经 shell 解析);需要管道/重定向/子shell 时用 [\"bash\",\"-lc\",\"...\"]。默认超时 120s,可通过 timeout_ms 覆盖(上限 600s)。"@
}

impl BashTool {
    /// The tool as the model is told of it.
    pub fn spec(&self) -> (r: ToolSpec)
        ensures
            r.deep_view() == (ToolSpecView {
                name: "Bash"@,
                description: bash_description(),
                schema: bash_schema(),
            }),
    {
        ToolSpec {
            name: "Bash".to_owned(),
            description: "执行 shell 命令。command 是 argv 数组(不经 shell 解析);需要管道/重定向/子shell 时用 [\"bash\",\"-lc\",\"...\"]。默认超时 120s,可通过 timeout_ms 覆盖(上限 600s)。".to_owned(),
            schema: {
                let mut m = Members::new();
                m.put("type", Json::text("object"));
                m.put("properties", {
                    let mut m = Members::new();
                    m.put("command", {
                        let mut m = Members::new();
                        m.put("type", Json::text("array"));
                        m.put("items", {
                            let mut m = Members::new();
                            m.put("type", Json::text("string"));
                            m.done()
                        });
                        m.put("description", Json::text("命令与参数(argv 数组),如 [\"cargo\",\"test\"]"));
                        m.put("minItems", Json::Unsigned(1));
                        m.done()
                    });
                    m.put("timeout_ms", {
                        let mut m = Members::new();
                        m.put("type", Json::text("integer"));
                        m.put("description", Json::text("超时毫秒数,默认 120000,上限 600000"));
                        m.put("minimum", Json::Unsigned(0));
                        m.done()
                    });
                    m.put("cwd", {
                        let mut m = Members::new();
                        m.put("type", Json::text("string"));
                        m.put("description", Json::text("工作目录(相对 ToolCtx.cwd 解析);省略则用 ToolCtx.cwd"));
                        m.done()
                    });
                    m.done()
                });
                m.put("required", {
                    let mut l = Items::new();
                    l.add(Json::text("command"));
                    l.done()
                });
                m.done()
            },
        }
    }
}

/// Reads a file.
pub struct ReadTool;

/// The schema of the arguments.
pub open spec fn read_schema() -> JsonView {
    JsonView::Object(
        Map::empty().insert(
            "type"@,
            JsonView::Text("object"@),
        ).insert(
            "properties"@,
            JsonView::Object(
                Map::empty().insert(
                    "path"@,
                    JsonView::Object(
                        Map::empty().insert(
                            "type"@,
                            JsonView::Text("string"@),
                        ).insert(
                            "description"@,
                            JsonView::Text("文件路径(相对 cwd 或绝对)"@),
                        ),
                    ),
                ).insert(
                    "offset"@,
                    JsonView::Object(
                        Map::empty().insert(
                            "type"@,
                            JsonView::Text("integer"@),
                        ).insert(
                            "description"@,
                            JsonView::Text("起始行号(1-based,默认 1)"@),
                        ).insert(
                            "minimum"@,
                            JsonView::Int(1),
                        ),
                    ),
                ).insert(
                    "limit"@,
                    JsonView::Object(
                        Map::empty().insert(
                            "type"@,
                            JsonView::Text("integer"@),
                        ).insert(
                            "description"@,
                            JsonView::Text("读取行数(默认 2000)"@),
                        ).insert(
                            "minimum"@,
                            JsonView::Int(1),
                        ),
                    ),
                ),
            ),
        ).insert(
            "required"@,
            JsonView::List(Seq::empty().push(JsonView::Text("path"@))),
        ),
    )
}

/// What the model is told of the tool.
pub open spec fn read_description() -> Seq<char> {
    "读取文件内容,带行号。支持 offset/limit 分页。二进制/图片文件返回元信息而非内容。"@
}

impl ReadTool {
    /// The tool as the model is told of it.
    pub fn spec(&self) -> (r: ToolSpec)
        ensures
            r.deep_view() == (ToolSpecView {
                name: "Read"@,
                description: read_description(),
                schema: read_schema(),
            }),
    {
        ToolSpec {
            name: "Read".to_owned(),
            description: "读取文件内容,带行号。支持 offset/limit 分页。二进制/图片文件返回元信息而非内容。".to_owned(),
            schema: {
                let mut m = Members::new();
                m.put("type", Json::text("object"));
                m.put("properties", {
                    let mut m = Members::new();
                    m.put("path", {
                        let mut m = Members::new();
                        m.put("type", Json::text("string"));
                        m.put("description", Json::text("文件路径(相对 cwd 或绝对)"));
                        m.done()
                    });
                    m.put("offset", {
                        let mut m = Members::new();
                        m.put("type", Json::text("integer"));
                        m.put("description", Json::text("起始行号(1-based,默认 1)"));
                        m.put("minimum", Json::Unsigned(1));
                        m.done()
                    });
                    m.put("limit", {
                        let mut m = Members::new();
                        m.put("type", Json::text("integer"));
                        m.put("description", Json::text("读取行数(默认 2000)"));
                        m.put("minimum", Json::Unsigned(1));
                        m.done()
                    });
                    m.done()
                });
                m.put("required", {
                    let mut l = Items::new();
                    l.add(Json::text("path"));
                    l.done()
                });
                m.done()
            },
        }
    }
}

/// Writes a file.
pub struct WriteTool;

/// The schema of the arguments.
pub open spec fn write_schema() -> JsonView {
    JsonView::Object(
        Map::empty().insert(
            "type"@,
            JsonView::Text("object"@),
        ).insert(
            "properties"@,
            JsonView::Object(
                Map::empty().insert(
                    "path"@,
                    JsonView::Object(
                        Map::empty().insert(
                            "type"@,
                            JsonView::Text("string"@),
                        ).insert(
                            "description"@,
                            JsonView::Text("文件路径"@),
                        ),
                    ),
                ).insert(
                    "content"@,
                    JsonView::Object(
                        Map::empty().insert(
                            "type"@,
                            JsonView::Text("string"@),
                        ).insert(
                            "description"@,
                            JsonView::Text("文件完整内容"@),
                        ),
                    ),
                ),
            ),
        ).insert(
            "required"@,
            JsonView::List(Seq::empty().push(JsonView::Text("path"@)).push(JsonView::Text("content"@))),
        ),
    )
}

/// What the model is told of the tool.
pub open spec fn write_description() -> Seq<char> {
    "创建或覆盖文件。新文件用此工具;已有文件的小改动用 Edit(M2)。写入前会创建父目录。"@
}

impl WriteTool {
    /// The tool as the model is told of it.
    pub fn spec(&self) -> (r: ToolSpec)
        ensures
            r.deep_view() == (ToolSpecView {
                name: "Write"@,
                description: write_description(),
                schema: write_schema(),
            }),
    {
        ToolSpec {
            name: "Write".to_owned(),
            description: "创建或覆盖文件。新文件用此工具;已有文件的小改动用 Edit(M2)。写入前会创建父目录。".to_owned(),
            schema: {
                let mut m = Members::new();
                m.put("type", Json::text("object"));
                m.put("properties", {
                    let mut m = Members::new();
                    m.put("path", {
                        let mut m = Members::new();
                        m.put("type", Json::text("string"));
                        m.put("description", Json::text("文件路径"));
                        m.done()
                    });
                    m.put("content", {
                        let mut m = Members::new();
                        m.put("type", Json::text("string"));
                        m.put("description", Json::text("文件完整内容"));
                        m.done()
                    });
                    m.done()
                });
                m.put("required", {
                    let mut l = Items::new();
                    l.add(Json::text("path"));
                    l.add(Json::text("content"));
                    l.done()
                });
                m.done()
            },
        }
    }
}

/// Replaces text in a file.
pub struct EditTool;

/// The schema of the arguments.
pub open spec fn edit_schema() -> JsonView {
    JsonView::Object(
        Map::empty().insert(
            "type"@,
            JsonView::Text("object"@),
        ).insert(
            "properties"@,
            JsonView::Object(
                Map::empty().insert(
                    "path"@,
                    JsonView::Object(
                        Map::empty().insert(
                            "type"@,
                            JsonView::Text("string"@),
                        ).insert(
                            "description"@,
                            JsonView::Text("文件路径(相对 cwd 或绝对)"@),
                        ),
                    ),
                ).insert(
                    "old_string"@,
                    JsonView::Object(
                        Map::empty().insert(
                            "type"@,
                            JsonView::Text("string"@),
                        ).insert(
                            "description"@,
                            JsonView::Text("要替换的文本(须唯一,除非 replace_all)"@),
                        ),
                    ),
                ).insert(
                    "new_string"@,
                    JsonView::Object(
                        Map::empty().insert(
                            "type"@,
                            JsonView::Text("string"@),
                        ).insert(
                            "description"@,
                            JsonView::Text("替换为的文本"@),
                        ),
                    ),
                ).insert(
                    "replace_all"@,
                    JsonView::Object(
                        Map::empty().insert(
                            "type"@,
                            JsonView::Text("boolean"@),
                        ).insert(
                            "description"@,
                            JsonView::Text("替换所有匹配(默认 false)"@),
                        ).insert(
                            "default"@,
                            JsonView::Bool(false),
                        ),
                    ),
                ),
            ),
        ).insert(
            "required"@,
            JsonView::List(Seq::empty().push(JsonView::Text("path"@)).push(JsonView::Text("old_string"@)).push(JsonView::Text("new_string"@))),
        ),
    )
}

/// What the model is told of the tool.
pub open spec fn edit_description() -> Seq<char> {
    "精确编辑:用 new_string 替换文件中的 old_string。old_string 须在文件中唯一(除非 replace_all=true),否则失败并提示用更多上下文。已有文件的小改动用此工具;新文件用 Write;多文件/大改动用 Patch。"@
}

impl EditTool {
    /// The tool as the model is told of it.
    pub fn spec(&self) -> (r: ToolSpec)
        ensures
            r.deep_view() == (ToolSpecView {
                name: "Edit"@,
                description: edit_description(),
                schema: edit_schema(),
            }),
    {
        ToolSpec {
            name: "Edit".to_owned(),
            description: "精确编辑:用 new_string 替换文件中的 old_string。old_string 须在文件中唯一(除非 replace_all=true),否则失败并提示用更多上下文。已有文件的小改动用此工具;新文件用 Write;多文件/大改动用 Patch。".to_owned(),
            schema: {
                let mut m = Members::new();
                m.put("type", Json::text("object"));
                m.put("properties", {
                    let mut m = Members::new();
                    m.put("path", {
                        let mut m = Members::new();
                        m.put("type", Json::text("string"));
                        m.put("description", Json::text("文件路径(相对 cwd 或绝对)"));
                        m.done()
                    });
                    m.put("old_string", {
                        let mut m = Members::new();
                        m.put("type", Json::text("string"));
                        m.put("description", Json::text("要替换的文本(须唯一,除非 replace_all)"));
                        m.done()
                    });
                    m.put("new_string", {
                        let mut m = Members::new();
                        m.put("type", Json::text("string"));
                        m.put("description", Json::text("替换为的文本"));
                        m.done()
                    });
                    m.put("replace_all", {
                        let mut m = Members::new();
                        m.put("type", Json::text("boolean"));
                        m.put("description", Json::text("替换所有匹配(默认 false)"));
                        m.put("default", Json::Bool(false));
                        m.done()
                    });
                    m.done()
                });
                m.put("required", {
                    let mut l = Items::new();
                    l.add(Json::text("path"));
                    l.add(Json::text("old_string"));
                    l.add(Json::text("new_string"));
                    l.done()
                });
                m.done()
            },
        }
    }
}

/// Applies a patch to several files.
pub struct PatchTool;

/// The schema of the arguments.
pub open spec fn patch_schema() -> JsonView {
    JsonView::Object(
        Map::empty().insert(
            "type"@,
            JsonView::Text("object"@),
        ).insert(
            "properties"@,
            JsonView::Object(
                Map::empty().insert(
                    "patch"@,
                    JsonView::Object(
                        Map::empty().insert(
                            "type"@,
                            JsonView::Text("string"@),
                        ).insert(
                            "description"@,
                            JsonView::Text("apply-patch DSL 文本"@),
                        ),
                    ),
                ),
            ),
        ).insert(
            "required"@,
            JsonView::List(Seq::empty().push(JsonView::Text("patch"@))),
        ),
    )
}

/// What the model is told of the tool.
pub open spec fn patch_description() -> Seq<char> {
    "应用 apply-patch DSL 补丁:多文件事务性增/改/删/移动。语法:`*** Begin Patch` / `*** Add File: <p>` / `*** Update File: <p>` / `*** Delete File: <p>` / `*** Move File: <from> to <to>` / `*** End Patch`;Update 块内 `@@ <锚>`、` <context>`、`-<remove>`、`+<add>`。全部 hunk 寻址成功才写盘(失败即拒不猜测)。多文件/大改动用此工具。"@
}

impl PatchTool {
    /// The tool as the model is told of it.
    pub fn spec(&self) -> (r: ToolSpec)
        ensures
            r.deep_view() == (ToolSpecView {
                name: "Patch"@,
                description: patch_description(),
                schema: patch_schema(),
            }),
    {
        ToolSpec {
            name: "Patch".to_owned(),
            description: "应用 apply-patch DSL 补丁:多文件事务性增/改/删/移动。语法:`*** Begin Patch` / `*** Add File: <p>` / `*** Update File: <p>` / `*** Delete File: <p>` / `*** Move File: <from> to <to>` / `*** End Patch`;Update 块内 `@@ <锚>`、` <context>`、`-<remove>`、`+<add>`。全部 hunk 寻址成功才写盘(失败即拒不猜测)。多文件/大改动用此工具。".to_owned(),
            schema: {
                let mut m = Members::new();
                m.put("type", Json::text("object"));
                m.put("properties", {
                    let mut m = Members::new();
                    m.put("patch", {
                        let mut m = Members::new();
                        m.put("type", Json::text("string"));
                        m.put("description", Json::text("apply-patch DSL 文本"));
                        m.done()
                    });
                    m.done()
                });
                m.put("required", {
                    let mut l = Items::new();
                    l.add(Json::text("patch"));
                    l.done()
                });
                m.done()
            },
        }
    }
}

/// Searches files by content.
pub struct GrepTool;

/// The schema of the arguments.
pub open spec fn grep_schema() -> JsonView {
    JsonView::Object(
        Map::empty().insert(
            "type"@,
            JsonView::Text("object"@),
        ).insert(
            "properties"@,
            JsonView::Object(
                Map::empty().insert(
                    "pattern"@,
                    JsonView::Object(
                        Map::empty().insert(
                            "type"@,
                            JsonView::Text("string"@),
                        ).insert(
                            "description"@,
                            JsonView::Text("正则表达式"@),
                        ),
                    ),
                ).insert(
                    "path"@,
                    JsonView::Object(
                        Map::empty().insert(
                            "type"@,
                            JsonView::Text("string"@),
                        ).insert(
                            "description"@,
                            JsonView::Text("搜索路径(相对 cwd,默认 cwd)"@),
                        ),
                    ),
                ).insert(
                    "glob"@,
                    JsonView::Object(
                        Map::empty().insert(
                            "type"@,
                            JsonView::Text("string"@),
                        ).insert(
                            "description"@,
                            JsonView::Text("文件名 glob 过滤,如 \"*.rs\""@),
                        ),
                    ),
                ).insert(
                    "output_mode"@,
                    JsonView::Object(
                        Map::empty().insert(
                            "type"@,
                            JsonView::Text("string"@),
                        ).insert(
                            "enum"@,
                            JsonView::List(Seq::empty().push(JsonView::Text("content"@)).push(JsonView::Text("files_with_matches"@))),
                        ).insert(
                            "description"@,
                            JsonView::Text("默认 content"@),
                        ),
                    ),
                ),
            ),
        ).insert(
            "required"@,
            JsonView::List(Seq::empty().push(JsonView::Text("pattern"@))),
        ),
    )
}

/// What the model is told of the tool.
pub open spec fn grep_description() -> Seq<char> {
    "按正则在文件中搜索内容。优先用 ripgrep(rg);rg 不可用时用内置遍历。知道确切内容用此工具;按文件名找文件用 Glob。默认输出 file:line:content;output_mode=files_with_matches 只列文件。"@
}

impl GrepTool {
    /// The tool as the model is told of it.
    pub fn spec(&self) -> (r: ToolSpec)
        ensures
            r.deep_view() == (ToolSpecView {
                name: "Grep"@,
                description: grep_description(),
                schema: grep_schema(),
            }),
    {
        ToolSpec {
            name: "Grep".to_owned(),
            description: "按正则在文件中搜索内容。优先用 ripgrep(rg);rg 不可用时用内置遍历。知道确切内容用此工具;按文件名找文件用 Glob。默认输出 file:line:content;output_mode=files_with_matches 只列文件。".to_owned(),
            schema: {
                let mut m = Members::new();
                m.put("type", Json::text("object"));
                m.put("properties", {
                    let mut m = Members::new();
                    m.put("pattern", {
                        let mut m = Members::new();
                        m.put("type", Json::text("string"));
                        m.put("description", Json::text("正则表达式"));
                        m.done()
                    });
                    m.put("path", {
                        let mut m = Members::new();
                        m.put("type", Json::text("string"));
                        m.put("description", Json::text("搜索路径(相对 cwd,默认 cwd)"));
                        m.done()
                    });
                    m.put("glob", {
                        let mut m = Members::new();
                        m.put("type", Json::text("string"));
                        m.put("description", Json::text("文件名 glob 过滤,如 \"*.rs\""));
                        m.done()
                    });
                    m.put("output_mode", {
                        let mut m = Members::new();
                        m.put("type", Json::text("string"));
                        m.put("enum", {
                            let mut l = Items::new();
                            l.add(Json::text("content"));
                            l.add(Json::text("files_with_matches"));
                            l.done()
                        });
                        m.put("description", Json::text("默认 content"));
                        m.done()
                    });
                    m.done()
                });
                m.put("required", {
                    let mut l = Items::new();
                    l.add(Json::text("pattern"));
                    l.done()
                });
                m.done()
            },
        }
    }
}

/// Searches files by name.
pub struct GlobTool;

/// The schema of the arguments.
pub open spec fn glob_schema() -> JsonView {
    JsonView::Object(
        Map::empty().insert(
            "type"@,
            JsonView::Text("object"@),
        ).insert(
            "properties"@,
            JsonView::Object(
                Map::empty().insert(
                    "pattern"@,
                    JsonView::Object(
                        Map::empty().insert(
                            "type"@,
                            JsonView::Text("string"@),
                        ).insert(
                            "description"@,
                            JsonView::Text("文件名 glob,如 \"src/**/*.rs\""@),
                        ),
                    ),
                ),
            ),
        ).insert(
            "required"@,
            JsonView::List(Seq::empty().push(JsonView::Text("pattern"@))),
        ),
    )
}

/// What the model is told of the tool.
pub open spec fn glob_description() -> Seq<char> {
    "按文件名模式查找文件(支持 `*` / `**` / `?`)。知道文件名/路径模式用此工具;按内容搜用 Grep。结果按修改时间倒序,最多 100 条。"@
}

impl GlobTool {
    /// The tool as the model is told of it.
    pub fn spec(&self) -> (r: ToolSpec)
        ensures
            r.deep_view() == (ToolSpecView {
                name: "Glob"@,
                description: glob_description(),
                schema: glob_schema(),
            }),
    {
        ToolSpec {
            name: "Glob".to_owned(),
            description: "按文件名模式查找文件(支持 `*` / `**` / `?`)。知道文件名/路径模式用此工具;按内容搜用 Grep。结果按修改时间倒序,最多 100 条。".to_owned(),
            schema: {
                let mut m = Members::new();
                m.put("type", Json::text("object"));
                m.put("properties", {
                    let mut m = Members::new();
                    m.put("pattern", {
                        let mut m = Members::new();
                        m.put("type", Json::text("string"));
                        m.put("description", Json::text("文件名 glob,如 \"src/**/*.rs\""));
                        m.done()
                    });
                    m.done()
                });
                m.put("required", {
                    let mut l = Items::new();
                    l.add(Json::text("pattern"));
                    l.done()
                });
                m.done()
            },
        }
    }
}

/// Hands a task to a sub-agent.
pub struct TaskTool;

/// The schema of the arguments.
pub open spec fn task_schema() -> JsonView {
    JsonView::Object(
        Map::empty().insert(
            "type"@,
            JsonView::Text("object"@),
        ).insert(
            "properties"@,
            JsonView::Object(
                Map::empty().insert(
                    "subagent"@,
                    JsonView::Object(
                        Map::empty().insert(
                            "type"@,
                            JsonView::Text("string"@),
                        ).insert(
                            "description"@,
                            JsonView::Text("子 agent 名(~/.tao/agents/<name>.md)"@),
                        ),
                    ),
                ).insert(
                    "prompt"@,
                    JsonView::Object(
                        Map::empty().insert(
                            "type"@,
                            JsonView::Text("string"@),
                        ).insert(
                            "description"@,
                            JsonView::Text("给子 agent 的任务描述"@),
                        ),
                    ),
                ),
            ),
        ).insert(
            "required"@,
            JsonView::List(Seq::empty().push(JsonView::Text("subagent"@)).push(JsonView::Text("prompt"@))),
        ),
    )
}

/// What the model is told of the tool.
pub open spec fn task_description() -> Seq<char> {
    "调用子 agent(subagent)处理隔离的子任务,返回报告。用于上下文隔离的探索/评审。子 agent 在 ~/.tao/agents/ 或 .tao/agents/ 定义。"@
}

impl TaskTool {
    /// The tool as the model is told of it.
    pub fn spec(&self) -> (r: ToolSpec)
        ensures
            r.deep_view() == (ToolSpecView {
                name: "Task"@,
                description: task_description(),
                schema: task_schema(),
            }),
    {
        ToolSpec {
            name: "Task".to_owned(),
            description: "调用子 agent(subagent)处理隔离的子任务,返回报告。用于上下文隔离的探索/评审。子 agent 在 ~/.tao/agents/ 或 .tao/agents/ 定义。".to_owned(),
            schema: {
                let mut m = Members::new();
                m.put("type", Json::text("object"));
                m.put("properties", {
                    let mut m = Members::new();
                    m.put("subagent", {
                        let mut m = Members::new();
                        m.put("type", Json::text("string"));
                        m.put("description", Json::text("子 agent 名(~/.tao/agents/<name>.md)"));
                        m.done()
                    });
                    m.put("prompt", {
                        let mut m = Members::new();
                        m.put("type", Json::text("string"));
                        m.put("description", Json::text("给子 agent 的任务描述"));
                        m.done()
                    });
                    m.done()
                });
                m.put("required", {
                    let mut l = Items::new();
                    l.add(Json::text("subagent"));
                    l.add(Json::text("prompt"));
                    l.done()
                });
                m.done()
            },
        }
    }
}

} // verus!

//! Applying a patch: what the model is told of it.
use vstd::prelude::*;
use vstd::string::*;

use crate::apply_patch::ApplyError;
use crate::apply_patch::ApplyErrorView;
use crate::apply_patch::Hunk;
use crate::apply_patch::HunkView;
use crate::apply_patch::ParseError;
use crate::apply_patch::ParseErrorView;
use crate::apply_patch::hunk_views;
use crate::apply_patch::parse;
use crate::apply_patch::patch_of;
use crate::json::Json;
use crate::json::member;
use crate::json::text_in;
use crate::providers::calls::text_at;
use crate::text::cat3;
use crate::text::cat;
use crate::text::decimal;
use crate::text::decimal_of;
use crate::text::quote;
use crate::text::quoted;
use crate::tools::ToolError;
use crate::tools::ToolErrorView;
use crate::tools::ToolOutput;
use crate::tools::ToolOutputView;

verus! {

/// Why a text is not a patch, in words.
pub open spec fn parse_words(e: ParseErrorView) -> Seq<char> {
    match e {
        ParseErrorView::ExpectedBegin => "期望 `*** Begin Patch` 作为首行"@,
        ParseErrorView::UnexpectedEof => "意外的文件结束"@,
        ParseErrorView::AnchorOutsideHunk => "`@@` 锚出现在 hunk 之外"@,
        ParseErrorView::LineOutsideHunk(s) => "`+`/`-`/context 行出现在 hunk 之外: "@ + quoted(s),
        ParseErrorView::BadMove(s) =>
        "`*** Move File` 格式错误(应为 `*** Move File: <from> to <to>`): "@ + quoted(s),
        ParseErrorView::UnknownLine(s) => "无法识别的行: "@ + quoted(s),
    }
}

/// Why a patch does not apply, in words.
pub open spec fn apply_words(e: ApplyErrorView) -> Seq<char> {
    match e {
        ApplyErrorView::Io(p, e) => "IO 错误("@ + p + "): "@ + e,
        ApplyErrorView::NotFound(p) => "文件不存在: "@ + p,
        ApplyErrorView::AlreadyExists(p) => "文件已存在(Add 要求新文件): "@ + p,
        ApplyErrorView::EmptyHunk(p) => "Update hunk 为空(无 context/remove)"@,
        ApplyErrorView::Ambiguous(p) =>
        "寻址上下文在文件中多次匹配(歧义),请增加更多上下文: "@ + p,
        ApplyErrorView::NotFoundInFile(p) => "寻址上下文在文件中未找到: "@ + p,
    }
}

impl ParseError {
    /// The error in words.
    pub fn message(&self) -> (r: String)
        ensures
            r@ == parse_words(self.deep_view()),
    {
        match self {
            ParseError::ExpectedBegin => "期望 `*** Begin Patch` 作为首行".to_owned(),
            ParseError::UnexpectedEof => "意外的文件结束".to_owned(),
            ParseError::AnchorOutsideHunk => "`@@` 锚出现在 hunk 之外".to_owned(),
            ParseError::LineOutsideHunk(s) => {
                let q = quote(s.as_str());
                cat("`+`/`-`/context 行出现在 hunk 之外: ", q.as_str())
            },
            ParseError::BadMove(s) => {
                let q = quote(s.as_str());
                cat("`*** Move File` 格式错误(应为 `*** Move File: <from> to <to>`): ", q.as_str())
            },
            ParseError::UnknownLine(s) => {
                let q = quote(s.as_str());
                cat("无法识别的行: ", q.as_str())
            },
        }
    }
}

impl ApplyError {
    /// The error in words.
    pub fn message(&self) -> (r: String)
        ensures
            r@ == apply_words(self.deep_view()),
    {
        match self {
            ApplyError::Io(p, e) => {
                let head = cat3("IO 错误(", p.as_str(), "): ");
                cat(head.as_str(), e.as_str())
            },
            ApplyError::NotFound(p) => cat("文件不存在: ", p.as_str()),
            ApplyError::AlreadyExists(p) => cat("文件已存在(Add 要求新文件): ", p.as_str()),
            ApplyError::EmptyHunk(_) => "Update hunk 为空(无 context/remove)".to_owned(),
            ApplyError::Ambiguous(p) => cat(
                "寻址上下文在文件中多次匹配(歧义),请增加更多上下文: ",
                p.as_str(),
            ),
            ApplyError::NotFoundInFile(p) => cat(
                "寻址上下文在文件中未找到: ",
                p.as_str(),
            ),
        }
    }
}

/// What a call of the tool comes to before anything is looked up: the hunks, or
/// what the model is told.
pub open spec fn hunks_of(patch: Seq<char>) -> Result<Seq<HunkView>, ToolOutputView> {
    match patch_of(patch) {
        Err(e) => Err(
            ToolOutputView { content: "patch 解析失败: "@ + parse_words(e), is_error: true },
        ),
        Ok(h) => if h.len() == 0 {
            Err(ToolOutputView { content: "patch 不含任何 hunk"@, is_error: true })
        } else {
            Ok(h)
        },
    }
}

/// Read the patch of a call: its hunks, or what the model is told.
pub fn read_patch(args: &Json) -> (r: Result<Result<Vec<Hunk>, ToolOutput>, ToolError>)
    ensures
        match text_in(member(args@, "patch"@)) {
            None => r matches Err(e) && e.deep_view() == ToolErrorView::InvalidArgs(
                "patch 必须是字符串"@,
            ),
            Some(p) => match hunks_of(p) {
                Ok(h) => r matches Ok(Ok(v)) && hunk_views(v@) == h,
                Err(o) => r matches Ok(Err(x)) && x.deep_view() == o,
            },
        },
{
    let patch = match text_at(args, "patch") {
        Some(p) => p,
        None => {
            return Err(ToolError::InvalidArgs("patch 必须是字符串".to_owned()));
        },
    };
    match parse(patch.as_str()) {
        Err(e) => {
            let text = e.message();
            Ok(
                Err(
                    ToolOutput { content: cat("patch 解析失败: ", text.as_str()), is_error: true },
                ),
            )
        },
        Ok(h) => {
            assert(hunk_views(h@).len() == h@.len());
            if h.len() == 0 {
                Ok(Err(ToolOutput::error("patch 不含任何 hunk")))
            } else {
                Ok(Ok(h))
            }
        },
    }
}

/// What the model is told of a patch that was applied.
pub fn applied(hunks: usize, diff: &str) -> (r: ToolOutput)
    ensures
        r.deep_view() == (ToolOutputView {
            content: "已应用 patch("@ + decimal_of(hunks as nat) + " 个 hunk)\n"@ + diff@,
            is_error: false,
        }),
{
    let n = decimal(hunks as u64);
    let head = cat3("已应用 patch(", n.as_str(), " 个 hunk)\n");
    ToolOutput { content: cat(head.as_str(), diff), is_error: false }
}

/// What the model is told of a patch that does not apply.
pub fn refused(e: &ApplyError) -> (r: ToolOutput)
    ensures
        r.deep_view() == (ToolOutputView {
            content: "patch 应用失败: "@ + apply_words(e.deep_view()),
            is_error: true,
        }),
{
    let text = e.message();
    ToolOutput { content: cat("patch 应用失败: ", text.as_str()), is_error: true }
}

} // verus!

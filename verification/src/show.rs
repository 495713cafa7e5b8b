//! Names of values as a reader sees them.
use vstd::prelude::*;

use crate::content::StopReason;
use crate::event::ApprovalKind;
use crate::op::ReviewDecision;
use crate::permission::PermissionMode;

verus! {

/// The name of a reason to stop.
pub open spec fn stop_words(s: StopReason) -> Seq<char> {
    match s {
        StopReason::EndTurn => "EndTurn"@,
        StopReason::MaxTokens => "MaxTokens"@,
        StopReason::ToolUse => "ToolUse"@,
        StopReason::Refused => "Refused"@,
        StopReason::Interrupted => "Interrupted"@,
        StopReason::Error => "Error"@,
        StopReason::MaxSteps => "MaxSteps"@,
    }
}

/// The name of a reason to stop.
pub fn show_stop(s: StopReason) -> (r: &'static str)
    ensures
        r@ == stop_words(s),
{
    match s {
        StopReason::EndTurn => "EndTurn",
        StopReason::MaxTokens => "MaxTokens",
        StopReason::ToolUse => "ToolUse",
        StopReason::Refused => "Refused",
        StopReason::Interrupted => "Interrupted",
        StopReason::Error => "Error",
        StopReason::MaxSteps => "MaxSteps",
    }
}

/// The name of what approval is asked for.
pub open spec fn kind_words(k: ApprovalKind) -> Seq<char> {
    match k {
        ApprovalKind::Exec => "Exec"@,
        ApprovalKind::Patch => "Patch"@,
        ApprovalKind::Tool => "Tool"@,
        ApprovalKind::McpTool => "McpTool"@,
    }
}

/// The name of what approval is asked for.
pub fn show_kind(k: ApprovalKind) -> (r: &'static str)
    ensures
        r@ == kind_words(k),
{
    match k {
        ApprovalKind::Exec => "Exec",
        ApprovalKind::Patch => "Patch",
        ApprovalKind::Tool => "Tool",
        ApprovalKind::McpTool => "McpTool",
    }
}

/// The name of a verdict.
pub open spec fn verdict_words(d: ReviewDecision) -> Seq<char> {
    match d {
        ReviewDecision::Approve => "Approve"@,
        ReviewDecision::ApproveForSession => "ApproveForSession"@,
        ReviewDecision::Deny => "Deny"@,
        ReviewDecision::Abort => "Abort"@,
    }
}

/// The name of a verdict.
pub fn show_verdict(d: ReviewDecision) -> (r: &'static str)
    ensures
        r@ == verdict_words(d),
{
    match d {
        ReviewDecision::Approve => "Approve",
        ReviewDecision::ApproveForSession => "ApproveForSession",
        ReviewDecision::Deny => "Deny",
        ReviewDecision::Abort => "Abort",
    }
}

/// The name of a mode.
pub open spec fn mode_words(m: PermissionMode) -> Seq<char> {
    match m {
        PermissionMode::Default => "Default"@,
        PermissionMode::Plan => "Plan"@,
        PermissionMode::AcceptEdits => "AcceptEdits"@,
        PermissionMode::Bypass => "Bypass"@,
    }
}

/// The name of a mode.
pub fn show_mode(m: PermissionMode) -> (r: &'static str)
    ensures
        r@ == mode_words(m),
{
    match m {
        PermissionMode::Default => "Default",
        PermissionMode::Plan => "Plan",
        PermissionMode::AcceptEdits => "AcceptEdits",
        PermissionMode::Bypass => "Bypass",
    }
}

} // verus!

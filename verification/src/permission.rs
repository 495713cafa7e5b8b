//! Permission modes, rules and decisions.
use vstd::prelude::*;

use crate::codec::Wire;
use crate::codec::need;
use crate::codec::take_needed;
use crate::dup::Dup;
use crate::json::Json;
use crate::json::JsonView;
use crate::json::Members;
use crate::json::text_in;
use crate::text::same;

verus! {

/// The permission mode.
#[derive(Debug, Clone, Copy, PartialEq, Eq, Structural)]
pub enum PermissionMode {
    /// Writing, running and the network need approval unless a rule allows them.
    Default,
    /// Read only: everything that changes something is denied.
    Plan,
    /// File edits are allowed, running and the network need approval.
    AcceptEdits,
    /// Everything is allowed.
    Bypass,
}

impl DeepView for PermissionMode {
    type V = PermissionMode;

    open spec fn deep_view(&self) -> PermissionMode {
        *self
    }
}

impl Dup for PermissionMode {
    fn dup(&self) -> (r: Self) {
        *self
    }
}

impl PermissionMode {
    /// The name on the wire.
    pub open spec fn name(self) -> Seq<char> {
        match self {
            PermissionMode::Default => "default"@,
            PermissionMode::Plan => "plan"@,
            PermissionMode::AcceptEdits => "accept-edits"@,
            PermissionMode::Bypass => "bypass"@,
        }
    }

    /// The value with a given name.
    pub open spec fn named(s: Seq<char>) -> Option<PermissionMode> {
        if s == "default"@ {
            Some(PermissionMode::Default)
        } else if s == "plan"@ {
            Some(PermissionMode::Plan)
        } else if s == "accept-edits"@ {
            Some(PermissionMode::AcceptEdits)
        } else if s == "bypass"@ {
            Some(PermissionMode::Bypass)
        } else {
            None
        }
    }

    /// The name on the wire.
    pub fn as_str(&self) -> (r: &'static str)
        ensures
            r@ == self.name(),
    {
        match self {
            PermissionMode::Default => "default",
            PermissionMode::Plan => "plan",
            PermissionMode::AcceptEdits => "accept-edits",
            PermissionMode::Bypass => "bypass",
        }
    }

    /// The value with a given name.
    pub fn from_name(s: &str) -> (r: Option<PermissionMode>)
        ensures
            r == PermissionMode::named(s@),
    {
        if same(s, "default") {
            Some(PermissionMode::Default)
        } else if same(s, "plan") {
            Some(PermissionMode::Plan)
        } else if same(s, "accept-edits") {
            Some(PermissionMode::AcceptEdits)
        } else if same(s, "bypass") {
            Some(PermissionMode::Bypass)
        } else {
            None
        }
    }
}

impl Wire for PermissionMode {
    open spec fn json(v: PermissionMode) -> JsonView {
        JsonView::Text(v.name())
    }

    open spec fn read(j: JsonView) -> Option<PermissionMode> {
        match text_in(Some(j)) {
            Some(s) => PermissionMode::named(s),
            None => None,
        }
    }

    fn to_json(&self) -> (r: Json) {
        Json::text(self.as_str())
    }

    fn from_json(j: &Json) -> (r: Option<Self>) {
        match j.as_str() {
            Some(s) => PermissionMode::from_name(s),
            None => None,
        }
    }

    open spec fn faithful(v: PermissionMode) -> bool {
        true
    }

    proof fn round_trip(v: PermissionMode) {
        reveal_strlit("default");
        reveal_strlit("plan");
        reveal_strlit("accept-edits");
        reveal_strlit("bypass");
        assert("default"@.len() == 7 && "plan"@.len() == 4 && "accept-edits"@.len() == 12 && "bypass"@.len() == 6);
    }
}

/// What a rule does.
#[derive(Debug, Clone, Copy, PartialEq, Eq, PartialOrd, Ord, Structural)]
pub enum RuleAction {
    Allow,
    Ask,
    Deny,
}

impl DeepView for RuleAction {
    type V = RuleAction;

    open spec fn deep_view(&self) -> RuleAction {
        *self
    }
}

impl Dup for RuleAction {
    fn dup(&self) -> (r: Self) {
        *self
    }
}

impl RuleAction {
    /// The name on the wire.
    pub open spec fn name(self) -> Seq<char> {
        match self {
            RuleAction::Allow => "allow"@,
            RuleAction::Ask => "ask"@,
            RuleAction::Deny => "deny"@,
        }
    }

    /// The value with a given name.
    pub open spec fn named(s: Seq<char>) -> Option<RuleAction> {
        if s == "allow"@ {
            Some(RuleAction::Allow)
        } else if s == "ask"@ {
            Some(RuleAction::Ask)
        } else if s == "deny"@ {
            Some(RuleAction::Deny)
        } else {
            None
        }
    }

    /// The name on the wire.
    pub fn as_str(&self) -> (r: &'static str)
        ensures
            r@ == self.name(),
    {
        match self {
            RuleAction::Allow => "allow",
            RuleAction::Ask => "ask",
            RuleAction::Deny => "deny",
        }
    }

    /// The value with a given name.
    pub fn from_name(s: &str) -> (r: Option<RuleAction>)
        ensures
            r == RuleAction::named(s@),
    {
        if same(s, "allow") {
            Some(RuleAction::Allow)
        } else if same(s, "ask") {
            Some(RuleAction::Ask)
        } else if same(s, "deny") {
            Some(RuleAction::Deny)
        } else {
            None
        }
    }
}

impl Wire for RuleAction {
    open spec fn json(v: RuleAction) -> JsonView {
        JsonView::Text(v.name())
    }

    open spec fn read(j: JsonView) -> Option<RuleAction> {
        match text_in(Some(j)) {
            Some(s) => RuleAction::named(s),
            None => None,
        }
    }

    fn to_json(&self) -> (r: Json) {
        Json::text(self.as_str())
    }

    fn from_json(j: &Json) -> (r: Option<Self>) {
        match j.as_str() {
            Some(s) => RuleAction::from_name(s),
            None => None,
        }
    }

    open spec fn faithful(v: RuleAction) -> bool {
        true
    }

    proof fn round_trip(v: RuleAction) {
        reveal_strlit("allow");
        reveal_strlit("ask");
        reveal_strlit("deny");
        assert("allow"@.len() == 5 && "ask"@.len() == 3 && "deny"@.len() == 4);
    }
}

/// The model of `PermissionRule`.
pub struct PermissionRuleView {
    pub tool: Seq<char>,
    pub pattern: Seq<char>,
    pub action: RuleAction,
}

/// A permission rule.
#[derive(Debug, PartialEq)]
pub struct PermissionRule {
    /// The tool, or several separated by `|`.
    pub tool: String,
    /// A command glob, a path glob or a host.
    pub pattern: String,
    pub action: RuleAction,
}

impl DeepView for PermissionRule {
    type V = PermissionRuleView;

    open spec fn deep_view(&self) -> PermissionRuleView {
        PermissionRuleView {
            tool: self.tool.deep_view(),
            pattern: self.pattern.deep_view(),
            action: self.action.deep_view(),
        }
    }
}

impl Dup for PermissionRule {
    fn dup(&self) -> (r: Self) {
        PermissionRule {
            tool: self.tool.dup(),
            pattern: self.pattern.dup(),
            action: self.action.dup(),
        }
    }
}

impl Clone for PermissionRule {
    fn clone(&self) -> (r: Self)
        ensures
            r.deep_view() == self.deep_view(),
    {
        self.dup()
    }
}

impl Wire for PermissionRule {
    open spec fn json(v: PermissionRuleView) -> JsonView {
        JsonView::Object(
            Map::empty().insert("tool"@, String::json(v.tool)).insert("pattern"@, String::json(v.pattern)).insert("action"@, RuleAction::json(v.action)),
        )
    }

    open spec fn read(j: JsonView) -> Option<PermissionRuleView> {
        match (
            need::<String>(j, "tool"@),
            need::<String>(j, "pattern"@),
            need::<RuleAction>(j, "action"@),
        ) {
            (Some(tool), Some(pattern), Some(action)) => Some(
                PermissionRuleView { tool, pattern, action },
            ),
            _ => None,
        }
    }

    fn to_json(&self) -> (r: Json) {
        let mut m = Members::new();
        m.put("tool", self.tool.to_json());
        m.put("pattern", self.pattern.to_json());
        m.put("action", self.action.to_json());
        m.done()
    }

    fn from_json(j: &Json) -> (r: Option<Self>) {
        match (
            take_needed::<String>(j, "tool"),
            take_needed::<String>(j, "pattern"),
            take_needed::<RuleAction>(j, "action"),
        ) {
            (Some(tool), Some(pattern), Some(action)) => Some(
                PermissionRule { tool, pattern, action },
            ),
            _ => None,
        }
    }

    open spec fn faithful(v: PermissionRuleView) -> bool {
        true
    }

    proof fn round_trip(v: PermissionRuleView) {
        reveal_strlit("tool");
        reveal_strlit("pattern");
        reveal_strlit("action");
        assert("tool"@.len() == 4 && "pattern"@.len() == 7 && "action"@.len() == 6);
        String::round_trip(v.tool);
        String::round_trip(v.pattern);
        RuleAction::round_trip(v.action);
    }
}

/// Where a rule is kept.
#[derive(Debug, Clone, Copy, PartialEq, Eq, Structural)]
pub enum RuleScope {
    /// This session only.
    Session,
    /// The project's configuration.
    Project,
    /// The user's configuration.
    User,
}

impl DeepView for RuleScope {
    type V = RuleScope;

    open spec fn deep_view(&self) -> RuleScope {
        *self
    }
}

impl Dup for RuleScope {
    fn dup(&self) -> (r: Self) {
        *self
    }
}

impl RuleScope {
    /// The name on the wire.
    pub open spec fn name(self) -> Seq<char> {
        match self {
            RuleScope::Session => "session"@,
            RuleScope::Project => "project"@,
            RuleScope::User => "user"@,
        }
    }

    /// The value with a given name.
    pub open spec fn named(s: Seq<char>) -> Option<RuleScope> {
        if s == "session"@ {
            Some(RuleScope::Session)
        } else if s == "project"@ {
            Some(RuleScope::Project)
        } else if s == "user"@ {
            Some(RuleScope::User)
        } else {
            None
        }
    }

    /// The name on the wire.
    pub fn as_str(&self) -> (r: &'static str)
        ensures
            r@ == self.name(),
    {
        match self {
            RuleScope::Session => "session",
            RuleScope::Project => "project",
            RuleScope::User => "user",
        }
    }

    /// The value with a given name.
    pub fn from_name(s: &str) -> (r: Option<RuleScope>)
        ensures
            r == RuleScope::named(s@),
    {
        if same(s, "session") {
            Some(RuleScope::Session)
        } else if same(s, "project") {
            Some(RuleScope::Project)
        } else if same(s, "user") {
            Some(RuleScope::User)
        } else {
            None
        }
    }
}

impl Wire for RuleScope {
    open spec fn json(v: RuleScope) -> JsonView {
        JsonView::Text(v.name())
    }

    open spec fn read(j: JsonView) -> Option<RuleScope> {
        match text_in(Some(j)) {
            Some(s) => RuleScope::named(s),
            None => None,
        }
    }

    fn to_json(&self) -> (r: Json) {
        Json::text(self.as_str())
    }

    fn from_json(j: &Json) -> (r: Option<Self>) {
        match j.as_str() {
            Some(s) => RuleScope::from_name(s),
            None => None,
        }
    }

    open spec fn faithful(v: RuleScope) -> bool {
        true
    }

    proof fn round_trip(v: RuleScope) {
        reveal_strlit("session");
        reveal_strlit("project");
        reveal_strlit("user");
        assert("session"@.len() == 7 && "project"@.len() == 7 && "user"@.len() == 4);
        assert("session"@[0] != "project"@[0]);
    }
}

/// The outcome of a permission check.
#[derive(Debug, Clone, Copy, PartialEq, Eq, Structural)]
pub enum Verdict {
    Allow,
    Ask,
    Deny,
}

impl DeepView for Verdict {
    type V = Verdict;

    open spec fn deep_view(&self) -> Verdict {
        *self
    }
}

impl Dup for Verdict {
    fn dup(&self) -> (r: Self) {
        *self
    }
}

impl Verdict {
    /// The name on the wire.
    pub open spec fn name(self) -> Seq<char> {
        match self {
            Verdict::Allow => "allow"@,
            Verdict::Ask => "ask"@,
            Verdict::Deny => "deny"@,
        }
    }

    /// The value with a given name.
    pub open spec fn named(s: Seq<char>) -> Option<Verdict> {
        if s == "allow"@ {
            Some(Verdict::Allow)
        } else if s == "ask"@ {
            Some(Verdict::Ask)
        } else if s == "deny"@ {
            Some(Verdict::Deny)
        } else {
            None
        }
    }

    /// The name on the wire.
    pub fn as_str(&self) -> (r: &'static str)
        ensures
            r@ == self.name(),
    {
        match self {
            Verdict::Allow => "allow",
            Verdict::Ask => "ask",
            Verdict::Deny => "deny",
        }
    }

    /// The value with a given name.
    pub fn from_name(s: &str) -> (r: Option<Verdict>)
        ensures
            r == Verdict::named(s@),
    {
        if same(s, "allow") {
            Some(Verdict::Allow)
        } else if same(s, "ask") {
            Some(Verdict::Ask)
        } else if same(s, "deny") {
            Some(Verdict::Deny)
        } else {
            None
        }
    }
}

impl Wire for Verdict {
    open spec fn json(v: Verdict) -> JsonView {
        JsonView::Text(v.name())
    }

    open spec fn read(j: JsonView) -> Option<Verdict> {
        match text_in(Some(j)) {
            Some(s) => Verdict::named(s),
            None => None,
        }
    }

    fn to_json(&self) -> (r: Json) {
        Json::text(self.as_str())
    }

    fn from_json(j: &Json) -> (r: Option<Self>) {
        match j.as_str() {
            Some(s) => Verdict::from_name(s),
            None => None,
        }
    }

    open spec fn faithful(v: Verdict) -> bool {
        true
    }

    proof fn round_trip(v: Verdict) {
        reveal_strlit("allow");
        reveal_strlit("ask");
        reveal_strlit("deny");
        assert("allow"@.len() == 5 && "ask"@.len() == 3 && "deny"@.len() == 4);
    }
}

/// The model of `VerdictSource`.
pub enum VerdictSourceView {
    SessionGrant,
    Rule { rule: PermissionRuleView },
    ModeDefault { mode: PermissionMode },
}

/// What a verdict rests on.
#[derive(Debug, PartialEq)]
pub enum VerdictSource {
    SessionGrant,
    Rule { rule: PermissionRule },
    ModeDefault { mode: PermissionMode },
}

impl DeepView for VerdictSource {
    type V = VerdictSourceView;

    open spec fn deep_view(&self) -> VerdictSourceView {
        match *self {
            VerdictSource::SessionGrant => VerdictSourceView::SessionGrant,
            VerdictSource::Rule { rule } => VerdictSourceView::Rule { rule: rule.deep_view() },
            VerdictSource::ModeDefault { mode } => VerdictSourceView::ModeDefault { mode },
        }
    }
}

impl Dup for VerdictSource {
    fn dup(&self) -> (r: Self) {
        match self {
            VerdictSource::SessionGrant => VerdictSource::SessionGrant,
            VerdictSource::Rule { rule } => VerdictSource::Rule { rule: rule.dup() },
            VerdictSource::ModeDefault { mode } => VerdictSource::ModeDefault { mode: *mode },
        }
    }
}

impl Wire for VerdictSource {
    open spec fn json(v: VerdictSourceView) -> JsonView {
        match v {
            VerdictSourceView::SessionGrant => JsonView::Text("session_grant"@),
            VerdictSourceView::Rule { rule } => JsonView::Object(
                Map::empty().insert(
                    "rule"@,
                    JsonView::Object(Map::empty().insert("rule"@, PermissionRule::json(rule))),
                ),
            ),
            VerdictSourceView::ModeDefault { mode } => JsonView::Object(
                Map::empty().insert(
                    "mode_default"@,
                    JsonView::Object(Map::empty().insert("mode"@, PermissionMode::json(mode))),
                ),
            ),
        }
    }

    open spec fn read(j: JsonView) -> Option<VerdictSourceView> {
        match j {
            JsonView::Text(s) => if s == "session_grant"@ {
                Some(VerdictSourceView::SessionGrant)
            } else {
                None
            },
            JsonView::Object(m) => if m.contains_key("rule"@) {
                if m.contains_key("mode_default"@) {
                    None
                } else {
                    match need::<PermissionRule>(m["rule"@], "rule"@) {
                        Some(rule) => Some(VerdictSourceView::Rule { rule }),
                        None => None,
                    }
                }
            } else if m.contains_key("mode_default"@) {
                match need::<PermissionMode>(m["mode_default"@], "mode"@) {
                    Some(mode) => Some(VerdictSourceView::ModeDefault { mode }),
                    None => None,
                }
            } else {
                None
            },
            _ => None,
        }
    }

    fn to_json(&self) -> (r: Json) {
        let mut m = Members::new();
        match self {
            VerdictSource::SessionGrant => {
                return Json::text("session_grant");
            },
            VerdictSource::Rule { rule } => {
                let mut inner = Members::new();
                inner.put("rule", rule.to_json());
                m.put("rule", inner.done());
            },
            VerdictSource::ModeDefault { mode } => {
                let mut inner = Members::new();
                inner.put("mode", mode.to_json());
                m.put("mode_default", inner.done());
            },
        }
        m.done()
    }

    fn from_json(j: &Json) -> (r: Option<Self>) {
        match j.as_str() {
            Some(s) => {
                return if same(s, "session_grant") {
                    Some(VerdictSource::SessionGrant)
                } else {
                    None
                };
            },
            None => {},
        }
        match (j.get("rule"), j.get("mode_default")) {
            (Some(x), None) => match take_needed::<PermissionRule>(x, "rule") {
                Some(rule) => Some(VerdictSource::Rule { rule }),
                None => None,
            },
            (None, Some(x)) => match take_needed::<PermissionMode>(x, "mode") {
                Some(mode) => Some(VerdictSource::ModeDefault { mode }),
                None => None,
            },
            _ => None,
        }
    }

    open spec fn faithful(v: VerdictSourceView) -> bool {
        true
    }

    proof fn round_trip(v: VerdictSourceView) {
        reveal_strlit("rule");
        reveal_strlit("mode_default");
        assert("rule"@.len() != "mode_default"@.len());
        match v {
            VerdictSourceView::Rule { rule } => PermissionRule::round_trip(rule),
            VerdictSourceView::ModeDefault { mode } => PermissionMode::round_trip(mode),
            _ => {},
        }
    }
}

/// The model of `Decision`.
pub struct DecisionView {
    pub verdict: Verdict,
    pub source: VerdictSourceView,
}

/// A verdict and what it rests on.
#[derive(Debug, PartialEq)]
pub struct Decision {
    pub verdict: Verdict,
    pub source: VerdictSource,
}

impl DeepView for Decision {
    type V = DecisionView;

    open spec fn deep_view(&self) -> DecisionView {
        DecisionView {
            verdict: self.verdict.deep_view(),
            source: self.source.deep_view(),
        }
    }
}

impl Dup for Decision {
    fn dup(&self) -> (r: Self) {
        Decision {
            verdict: self.verdict.dup(),
            source: self.source.dup(),
        }
    }
}

impl Clone for Decision {
    fn clone(&self) -> (r: Self)
        ensures
            r.deep_view() == self.deep_view(),
    {
        self.dup()
    }
}

impl Wire for Decision {
    open spec fn json(v: DecisionView) -> JsonView {
        JsonView::Object(
            Map::empty().insert("verdict"@, Verdict::json(v.verdict)).insert("source"@, VerdictSource::json(v.source)),
        )
    }

    open spec fn read(j: JsonView) -> Option<DecisionView> {
        match (
            need::<Verdict>(j, "verdict"@),
            need::<VerdictSource>(j, "source"@),
        ) {
            (Some(verdict), Some(source)) => Some(
                DecisionView { verdict, source },
            ),
            _ => None,
        }
    }

    fn to_json(&self) -> (r: Json) {
        let mut m = Members::new();
        m.put("verdict", self.verdict.to_json());
        m.put("source", self.source.to_json());
        m.done()
    }

    fn from_json(j: &Json) -> (r: Option<Self>) {
        match (
            take_needed::<Verdict>(j, "verdict"),
            take_needed::<VerdictSource>(j, "source"),
        ) {
            (Some(verdict), Some(source)) => Some(
                Decision { verdict, source },
            ),
            _ => None,
        }
    }

    open spec fn faithful(v: DecisionView) -> bool {
        true
    }

    proof fn round_trip(v: DecisionView) {
        reveal_strlit("verdict");
        reveal_strlit("source");
        assert("verdict"@.len() == 7 && "source"@.len() == 6);
        Verdict::round_trip(v.verdict);
        VerdictSource::round_trip(v.source);
    }
}

} // verus!

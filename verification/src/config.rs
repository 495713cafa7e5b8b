//! Settings: those that are built in, those of the user, of the project, of the
//! environment, of the command line and of a profile, each over those before it.
use vstd::prelude::*;
use vstd::string::*;

use crate::codec::Wire;
use crate::content::ReasoningEffort;
use crate::dup::Dup;
use crate::hooks::HookConfig;
use crate::hooks::HookConfigView;
use crate::hooks::HookEvent;
use crate::hooks::HookEventView;
use crate::json::Json;
use crate::json::JsonView;
use crate::json::text_in;
use crate::paths::join_path;
use crate::paths::joined_path;
use crate::permission::PermissionMode;
use crate::permission::PermissionRule;
use crate::permission::PermissionRuleView;
use crate::table::Table;
use crate::text::after_prefix;
use crate::text::cat3;
use crate::text::cat;
use crate::text::chars_of;
use crate::text::cut;
use crate::text::find;
use crate::text::lemma_find_from;
use crate::text::matches_at;
use crate::text::same;
use crate::text::split_once;
use crate::text::strip_prefix;

verus! {

/// How a provider is spoken to.
#[derive(Debug, Clone, Copy, PartialEq, Eq, Structural)]
pub enum WireApi {
    Anthropic,
    /// The newer interface of OpenAI.
    OpenaiResponses,
    /// The interface that many others offer too.
    OpenaiChat,
}

impl DeepView for WireApi {
    type V = WireApi;

    open spec fn deep_view(&self) -> WireApi {
        *self
    }
}

impl Dup for WireApi {
    fn dup(&self) -> (r: Self) {
        *self
    }
}

impl WireApi {
    /// The name on the wire.
    pub open spec fn name(self) -> Seq<char> {
        match self {
            WireApi::Anthropic => "anthropic"@,
            WireApi::OpenaiResponses => "openai-responses"@,
            WireApi::OpenaiChat => "openai-chat"@,
        }
    }

    /// The value with a given name.
    pub open spec fn named(s: Seq<char>) -> Option<WireApi> {
        if s == "anthropic"@ {
            Some(WireApi::Anthropic)
        } else if s == "openai-responses"@ {
            Some(WireApi::OpenaiResponses)
        } else if s == "openai-chat"@ {
            Some(WireApi::OpenaiChat)
        } else {
            None
        }
    }

    /// The name on the wire.
    pub fn as_str(&self) -> (r: &'static str)
        ensures
            r@ == self.name(),
    {
        match self {
            WireApi::Anthropic => "anthropic",
            WireApi::OpenaiResponses => "openai-responses",
            WireApi::OpenaiChat => "openai-chat",
        }
    }

    /// The value with a given name.
    pub fn from_name(s: &str) -> (r: Option<WireApi>)
        ensures
            r == WireApi::named(s@),
    {
        if same(s, "anthropic") {
            Some(WireApi::Anthropic)
        } else if same(s, "openai-responses") {
            Some(WireApi::OpenaiResponses)
        } else if same(s, "openai-chat") {
            Some(WireApi::OpenaiChat)
        } else {
            None
        }
    }
}

impl Wire for WireApi {
    open spec fn json(v: WireApi) -> JsonView {
        JsonView::Text(v.name())
    }

    open spec fn read(j: JsonView) -> Option<WireApi> {
        match text_in(Some(j)) {
            Some(s) => WireApi::named(s),
            None => None,
        }
    }

    fn to_json(&self) -> (r: Json) {
        Json::text(self.as_str())
    }

    fn from_json(j: &Json) -> (r: Option<Self>) {
        match j.as_str() {
            Some(s) => WireApi::from_name(s),
            None => None,
        }
    }

    open spec fn faithful(v: WireApi) -> bool {
        true
    }

    proof fn round_trip(v: WireApi) {
        reveal_strlit("anthropic");
        reveal_strlit("openai-responses");
        reveal_strlit("openai-chat");
        assert("anthropic"@.len() == 9 && "openai-responses"@.len() == 16 && "openai-chat"@.len() == 11);
    }
}

/// How a request to Anthropic says who sends it.
#[derive(Debug, Clone, Copy, PartialEq, Eq, Structural)]
pub enum AnthropicAuth {
    /// The key stands in `x-api-key`.
    ApiKey,
    /// The key stands in `Authorization`.
    Bearer,
}

impl DeepView for AnthropicAuth {
    type V = AnthropicAuth;

    open spec fn deep_view(&self) -> AnthropicAuth {
        *self
    }
}

impl Dup for AnthropicAuth {
    fn dup(&self) -> (r: Self) {
        *self
    }
}

impl AnthropicAuth {
    /// The name on the wire.
    pub open spec fn name(self) -> Seq<char> {
        match self {
            AnthropicAuth::ApiKey => "api-key"@,
            AnthropicAuth::Bearer => "bearer"@,
        }
    }

    /// The value with a given name.
    pub open spec fn named(s: Seq<char>) -> Option<AnthropicAuth> {
        if s == "api-key"@ {
            Some(AnthropicAuth::ApiKey)
        } else if s == "bearer"@ {
            Some(AnthropicAuth::Bearer)
        } else {
            None
        }
    }

    /// The name on the wire.
    pub fn as_str(&self) -> (r: &'static str)
        ensures
            r@ == self.name(),
    {
        match self {
            AnthropicAuth::ApiKey => "api-key",
            AnthropicAuth::Bearer => "bearer",
        }
    }

    /// The value with a given name.
    pub fn from_name(s: &str) -> (r: Option<AnthropicAuth>)
        ensures
            r == AnthropicAuth::named(s@),
    {
        if same(s, "api-key") {
            Some(AnthropicAuth::ApiKey)
        } else if same(s, "bearer") {
            Some(AnthropicAuth::Bearer)
        } else {
            None
        }
    }
}

impl Wire for AnthropicAuth {
    open spec fn json(v: AnthropicAuth) -> JsonView {
        JsonView::Text(v.name())
    }

    open spec fn read(j: JsonView) -> Option<AnthropicAuth> {
        match text_in(Some(j)) {
            Some(s) => AnthropicAuth::named(s),
            None => None,
        }
    }

    fn to_json(&self) -> (r: Json) {
        Json::text(self.as_str())
    }

    fn from_json(j: &Json) -> (r: Option<Self>) {
        match j.as_str() {
            Some(s) => AnthropicAuth::from_name(s),
            None => None,
        }
    }

    open spec fn faithful(v: AnthropicAuth) -> bool {
        true
    }

    proof fn round_trip(v: AnthropicAuth) {
        reveal_strlit("api-key");
        reveal_strlit("bearer");
        assert("api-key"@.len() == 7 && "bearer"@.len() == 6);
    }
}

impl Default for AnthropicAuth {
    fn default() -> (r: Self)
        ensures
            r == AnthropicAuth::ApiKey,
    {
        AnthropicAuth::ApiKey
    }
}

/// The model of `ModelProviderConfig`.
pub struct ModelProviderConfigView {
    pub name: Seq<char>,
    pub base_url: Seq<char>,
    pub wire_api: WireApi,
    pub env_key: Seq<char>,
    pub anthropic_auth: AnthropicAuth,
    pub headers: Map<Seq<char>, Seq<char>>,
}

/// A provider of models.
#[derive(Debug, PartialEq)]
pub struct ModelProviderConfig {
    pub name: String,
    pub base_url: String,
    pub wire_api: WireApi,
    /// The environment variable that holds the key.
    pub env_key: String,
    pub anthropic_auth: AnthropicAuth,
    pub headers: Table<String>,
}

impl DeepView for ModelProviderConfig {
    type V = ModelProviderConfigView;

    open spec fn deep_view(&self) -> ModelProviderConfigView {
        ModelProviderConfigView {
            name: self.name.deep_view(),
            base_url: self.base_url.deep_view(),
            wire_api: self.wire_api.deep_view(),
            env_key: self.env_key.deep_view(),
            anthropic_auth: self.anthropic_auth.deep_view(),
            headers: self.headers.deep_view(),
        }
    }
}

impl Dup for ModelProviderConfig {
    fn dup(&self) -> (r: Self) {
        ModelProviderConfig {
            name: self.name.dup(),
            base_url: self.base_url.dup(),
            wire_api: self.wire_api.dup(),
            env_key: self.env_key.dup(),
            anthropic_auth: self.anthropic_auth.dup(),
            headers: self.headers.dup(),
        }
    }
}

impl Clone for ModelProviderConfig {
    fn clone(&self) -> (r: Self)
        ensures
            r.deep_view() == self.deep_view(),
    {
        self.dup()
    }
}

/// The model of `SessionsConfig`.
pub struct SessionsConfigView {
    pub keep_days: u32,
    pub max_session_mb: u64,
}

/// How long sessions are kept, and how large they may be.
#[derive(Debug, PartialEq)]
pub struct SessionsConfig {
    pub keep_days: u32,
    pub max_session_mb: u64,
}

impl DeepView for SessionsConfig {
    type V = SessionsConfigView;

    open spec fn deep_view(&self) -> SessionsConfigView {
        SessionsConfigView {
            keep_days: self.keep_days.deep_view(),
            max_session_mb: self.max_session_mb.deep_view(),
        }
    }
}

impl Dup for SessionsConfig {
    fn dup(&self) -> (r: Self) {
        SessionsConfig {
            keep_days: self.keep_days.dup(),
            max_session_mb: self.max_session_mb.dup(),
        }
    }
}

impl Clone for SessionsConfig {
    fn clone(&self) -> (r: Self)
        ensures
            r.deep_view() == self.deep_view(),
    {
        self.dup()
    }
}

/// The model of `McpServerConfig`.
pub struct McpServerConfigView {
    pub command: Seq<char>,
    pub args: Seq<Seq<char>>,
    pub env: Map<Seq<char>, Seq<char>>,
    pub startup_timeout_ms: u64,
}

/// A server of tools.
#[derive(Debug, PartialEq)]
pub struct McpServerConfig {
    pub command: String,
    pub args: Vec<String>,
    pub env: Table<String>,
    pub startup_timeout_ms: u64,
}

impl DeepView for McpServerConfig {
    type V = McpServerConfigView;

    open spec fn deep_view(&self) -> McpServerConfigView {
        McpServerConfigView {
            command: self.command.deep_view(),
            args: self.args.deep_view(),
            env: self.env.deep_view(),
            startup_timeout_ms: self.startup_timeout_ms.deep_view(),
        }
    }
}

impl Dup for McpServerConfig {
    fn dup(&self) -> (r: Self) {
        McpServerConfig {
            command: self.command.dup(),
            args: self.args.dup(),
            env: self.env.dup(),
            startup_timeout_ms: self.startup_timeout_ms.dup(),
        }
    }
}

impl Clone for McpServerConfig {
    fn clone(&self) -> (r: Self)
        ensures
            r.deep_view() == self.deep_view(),
    {
        self.dup()
    }
}

/// The model of `PermissionsConfig`.
pub struct PermissionsConfigView {
    pub rules: Seq<PermissionRuleView>,
}

/// The rules of what is allowed.
#[derive(Debug, PartialEq)]
pub struct PermissionsConfig {
    pub rules: Vec<PermissionRule>,
}

impl DeepView for PermissionsConfig {
    type V = PermissionsConfigView;

    open spec fn deep_view(&self) -> PermissionsConfigView {
        PermissionsConfigView {
            rules: self.rules.deep_view(),
        }
    }
}

impl Dup for PermissionsConfig {
    fn dup(&self) -> (r: Self) {
        PermissionsConfig {
            rules: self.rules.dup(),
        }
    }
}

impl Clone for PermissionsConfig {
    fn clone(&self) -> (r: Self)
        ensures
            r.deep_view() == self.deep_view(),
    {
        self.dup()
    }
}

/// The model of `HooksConfig`.
pub struct HooksConfigView {
    pub pre_tool_use: Seq<HookConfigView>,
    pub post_tool_use: Seq<HookConfigView>,
    pub session_start: Seq<HookConfigView>,
    pub session_end: Seq<HookConfigView>,
    pub user_prompt_submit: Seq<HookConfigView>,
    pub notification: Seq<HookConfigView>,
    pub subagent_stop: Seq<HookConfigView>,
    pub stop: Seq<HookConfigView>,
}

/// The hooks of each point.
#[derive(Debug, PartialEq)]
pub struct HooksConfig {
    pub pre_tool_use: Vec<HookConfig>,
    pub post_tool_use: Vec<HookConfig>,
    pub session_start: Vec<HookConfig>,
    pub session_end: Vec<HookConfig>,
    pub user_prompt_submit: Vec<HookConfig>,
    pub notification: Vec<HookConfig>,
    pub subagent_stop: Vec<HookConfig>,
    pub stop: Vec<HookConfig>,
}

impl DeepView for HooksConfig {
    type V = HooksConfigView;

    open spec fn deep_view(&self) -> HooksConfigView {
        HooksConfigView {
            pre_tool_use: self.pre_tool_use.deep_view(),
            post_tool_use: self.post_tool_use.deep_view(),
            session_start: self.session_start.deep_view(),
            session_end: self.session_end.deep_view(),
            user_prompt_submit: self.user_prompt_submit.deep_view(),
            notification: self.notification.deep_view(),
            subagent_stop: self.subagent_stop.deep_view(),
            stop: self.stop.deep_view(),
        }
    }
}

impl Dup for HooksConfig {
    fn dup(&self) -> (r: Self) {
        HooksConfig {
            pre_tool_use: self.pre_tool_use.dup(),
            post_tool_use: self.post_tool_use.dup(),
            session_start: self.session_start.dup(),
            session_end: self.session_end.dup(),
            user_prompt_submit: self.user_prompt_submit.dup(),
            notification: self.notification.dup(),
            subagent_stop: self.subagent_stop.dup(),
            stop: self.stop.dup(),
        }
    }
}

impl Clone for HooksConfig {
    fn clone(&self) -> (r: Self)
        ensures
            r.deep_view() == self.deep_view(),
    {
        self.dup()
    }
}

/// The model of `PartialConfig`.
pub struct PartialConfigView {
    pub model: Option<Seq<char>>,
    pub model_provider: Option<Seq<char>>,
    pub permission_mode: Option<PermissionMode>,
    pub small_model: Option<Seq<char>>,
    pub reasoning_effort: Option<ReasoningEffort>,
    pub auto_compact_at: Option<Seq<char>>,
    pub max_turn_steps: Option<u32>,
    pub exec_timeout_ms: Option<u64>,
    pub editor: Option<Seq<char>>,
    pub request_max_retries: Option<u32>,
    pub stream_idle_timeout_ms: Option<u64>,
}

/// A choice of settings: those that are there replace others.
#[derive(Debug, PartialEq)]
pub struct PartialConfig {
    pub model: Option<String>,
    pub model_provider: Option<String>,
    pub permission_mode: Option<PermissionMode>,
    pub small_model: Option<String>,
    pub reasoning_effort: Option<ReasoningEffort>,
    pub auto_compact_at: Option<String>,
    pub max_turn_steps: Option<u32>,
    pub exec_timeout_ms: Option<u64>,
    pub editor: Option<String>,
    pub request_max_retries: Option<u32>,
    pub stream_idle_timeout_ms: Option<u64>,
}

impl DeepView for PartialConfig {
    type V = PartialConfigView;

    open spec fn deep_view(&self) -> PartialConfigView {
        PartialConfigView {
            model: self.model.deep_view(),
            model_provider: self.model_provider.deep_view(),
            permission_mode: self.permission_mode.deep_view(),
            small_model: self.small_model.deep_view(),
            reasoning_effort: self.reasoning_effort.deep_view(),
            auto_compact_at: self.auto_compact_at.deep_view(),
            max_turn_steps: self.max_turn_steps.deep_view(),
            exec_timeout_ms: self.exec_timeout_ms.deep_view(),
            editor: self.editor.deep_view(),
            request_max_retries: self.request_max_retries.deep_view(),
            stream_idle_timeout_ms: self.stream_idle_timeout_ms.deep_view(),
        }
    }
}

impl Dup for PartialConfig {
    fn dup(&self) -> (r: Self) {
        PartialConfig {
            model: self.model.dup(),
            model_provider: self.model_provider.dup(),
            permission_mode: self.permission_mode.dup(),
            small_model: self.small_model.dup(),
            reasoning_effort: self.reasoning_effort.dup(),
            auto_compact_at: self.auto_compact_at.dup(),
            max_turn_steps: self.max_turn_steps.dup(),
            exec_timeout_ms: self.exec_timeout_ms.dup(),
            editor: self.editor.dup(),
            request_max_retries: self.request_max_retries.dup(),
            stream_idle_timeout_ms: self.stream_idle_timeout_ms.dup(),
        }
    }
}

impl Clone for PartialConfig {
    fn clone(&self) -> (r: Self)
        ensures
            r.deep_view() == self.deep_view(),
    {
        self.dup()
    }
}

/// The model of `Config`.
pub struct ConfigView {
    pub model: Option<Seq<char>>,
    pub model_provider: Option<Seq<char>>,
    pub permission_mode: PermissionMode,
    pub small_model: Option<Seq<char>>,
    pub reasoning_effort: Option<ReasoningEffort>,
    pub auto_compact_at: Seq<char>,
    pub max_turn_steps: u32,
    pub exec_timeout_ms: u64,
    pub editor: Seq<char>,
    pub request_max_retries: u32,
    pub stream_idle_timeout_ms: u64,
    pub model_providers: Map<Seq<char>, ModelProviderConfigView>,
    pub profiles: Map<Seq<char>, PartialConfigView>,
    pub sessions: SessionsConfigView,
    pub permissions: PermissionsConfigView,
    pub hooks: HooksConfigView,
    pub mcp_servers: Map<Seq<char>, McpServerConfigView>,
    pub trusted_projects: Seq<Seq<char>>,
}

/// All settings.
#[derive(Debug, PartialEq)]
pub struct Config {
    pub model: Option<String>,
    pub model_provider: Option<String>,
    pub permission_mode: PermissionMode,
    pub small_model: Option<String>,
    pub reasoning_effort: Option<ReasoningEffort>,
    /// The part of the context window that may fill before it is made short, as a
    /// decimal fraction.
    pub auto_compact_at: String,
    pub max_turn_steps: u32,
    pub exec_timeout_ms: u64,
    pub editor: String,
    pub request_max_retries: u32,
    pub stream_idle_timeout_ms: u64,
    pub model_providers: Table<ModelProviderConfig>,
    pub profiles: Table<PartialConfig>,
    pub sessions: SessionsConfig,
    pub permissions: PermissionsConfig,
    pub hooks: HooksConfig,
    pub mcp_servers: Table<McpServerConfig>,
    /// The directories in which session hooks run without a word.
    pub trusted_projects: Vec<String>,
}

impl DeepView for Config {
    type V = ConfigView;

    open spec fn deep_view(&self) -> ConfigView {
        ConfigView {
            model: self.model.deep_view(),
            model_provider: self.model_provider.deep_view(),
            permission_mode: self.permission_mode.deep_view(),
            small_model: self.small_model.deep_view(),
            reasoning_effort: self.reasoning_effort.deep_view(),
            auto_compact_at: self.auto_compact_at.deep_view(),
            max_turn_steps: self.max_turn_steps.deep_view(),
            exec_timeout_ms: self.exec_timeout_ms.deep_view(),
            editor: self.editor.deep_view(),
            request_max_retries: self.request_max_retries.deep_view(),
            stream_idle_timeout_ms: self.stream_idle_timeout_ms.deep_view(),
            model_providers: self.model_providers.deep_view(),
            profiles: self.profiles.deep_view(),
            sessions: self.sessions.deep_view(),
            permissions: self.permissions.deep_view(),
            hooks: self.hooks.deep_view(),
            mcp_servers: self.mcp_servers.deep_view(),
            trusted_projects: self.trusted_projects.deep_view(),
        }
    }
}

impl Dup for Config {
    fn dup(&self) -> (r: Self) {
        Config {
            model: self.model.dup(),
            model_provider: self.model_provider.dup(),
            permission_mode: self.permission_mode.dup(),
            small_model: self.small_model.dup(),
            reasoning_effort: self.reasoning_effort.dup(),
            auto_compact_at: self.auto_compact_at.dup(),
            max_turn_steps: self.max_turn_steps.dup(),
            exec_timeout_ms: self.exec_timeout_ms.dup(),
            editor: self.editor.dup(),
            request_max_retries: self.request_max_retries.dup(),
            stream_idle_timeout_ms: self.stream_idle_timeout_ms.dup(),
            model_providers: self.model_providers.dup(),
            profiles: self.profiles.dup(),
            sessions: self.sessions.dup(),
            permissions: self.permissions.dup(),
            hooks: self.hooks.dup(),
            mcp_servers: self.mcp_servers.dup(),
            trusted_projects: self.trusted_projects.dup(),
        }
    }
}

impl Clone for Config {
    fn clone(&self) -> (r: Self)
        ensures
            r.deep_view() == self.deep_view(),
    {
        self.dup()
    }
}

/// The model of `PartialSessionsConfig`.
pub struct PartialSessionsConfigView {
    pub keep_days: Option<u32>,
    pub max_session_mb: Option<u64>,
}

/// A choice of settings of sessions.
#[derive(Debug, PartialEq)]
pub struct PartialSessionsConfig {
    pub keep_days: Option<u32>,
    pub max_session_mb: Option<u64>,
}

impl DeepView for PartialSessionsConfig {
    type V = PartialSessionsConfigView;

    open spec fn deep_view(&self) -> PartialSessionsConfigView {
        PartialSessionsConfigView {
            keep_days: self.keep_days.deep_view(),
            max_session_mb: self.max_session_mb.deep_view(),
        }
    }
}

impl Dup for PartialSessionsConfig {
    fn dup(&self) -> (r: Self) {
        PartialSessionsConfig {
            keep_days: self.keep_days.dup(),
            max_session_mb: self.max_session_mb.dup(),
        }
    }
}

impl Clone for PartialSessionsConfig {
    fn clone(&self) -> (r: Self)
        ensures
            r.deep_view() == self.deep_view(),
    {
        self.dup()
    }
}

/// The model of `FileConfig`.
pub struct FileConfigView {
    pub base: PartialConfigView,
    pub model_providers: Map<Seq<char>, ModelProviderConfigView>,
    pub profiles: Map<Seq<char>, PartialConfigView>,
    pub sessions: PartialSessionsConfigView,
    pub rules: Seq<PermissionRuleView>,
    pub hooks: HooksConfigView,
    pub mcp_servers: Map<Seq<char>, McpServerConfigView>,
    pub trusted_projects: Seq<Seq<char>>,
}

/// What a file of settings says.
#[derive(Debug, PartialEq)]
pub struct FileConfig {
    pub base: PartialConfig,
    pub model_providers: Table<ModelProviderConfig>,
    pub profiles: Table<PartialConfig>,
    pub sessions: PartialSessionsConfig,
    pub rules: Vec<PermissionRule>,
    pub hooks: HooksConfig,
    pub mcp_servers: Table<McpServerConfig>,
    pub trusted_projects: Vec<String>,
}

impl DeepView for FileConfig {
    type V = FileConfigView;

    open spec fn deep_view(&self) -> FileConfigView {
        FileConfigView {
            base: self.base.deep_view(),
            model_providers: self.model_providers.deep_view(),
            profiles: self.profiles.deep_view(),
            sessions: self.sessions.deep_view(),
            rules: self.rules.deep_view(),
            hooks: self.hooks.deep_view(),
            mcp_servers: self.mcp_servers.deep_view(),
            trusted_projects: self.trusted_projects.deep_view(),
        }
    }
}

impl Dup for FileConfig {
    fn dup(&self) -> (r: Self) {
        FileConfig {
            base: self.base.dup(),
            model_providers: self.model_providers.dup(),
            profiles: self.profiles.dup(),
            sessions: self.sessions.dup(),
            rules: self.rules.dup(),
            hooks: self.hooks.dup(),
            mcp_servers: self.mcp_servers.dup(),
            trusted_projects: self.trusted_projects.dup(),
        }
    }
}

impl Clone for FileConfig {
    fn clone(&self) -> (r: Self)
        ensures
            r.deep_view() == self.deep_view(),
    {
        self.dup()
    }
}

/// The model of `CliOverride`.
pub struct CliOverrideView {
    pub key: Seq<char>,
    pub value: Seq<char>,
}

/// A setting on the command line.
#[derive(Debug, PartialEq)]
pub struct CliOverride {
    pub key: String,
    pub value: String,
}

impl DeepView for CliOverride {
    type V = CliOverrideView;

    open spec fn deep_view(&self) -> CliOverrideView {
        CliOverrideView {
            key: self.key.deep_view(),
            value: self.value.deep_view(),
        }
    }
}

impl Dup for CliOverride {
    fn dup(&self) -> (r: Self) {
        CliOverride {
            key: self.key.dup(),
            value: self.value.dup(),
        }
    }
}

impl Clone for CliOverride {
    fn clone(&self) -> (r: Self)
        ensures
            r.deep_view() == self.deep_view(),
    {
        self.dup()
    }
}

/// The model of `LoadOpts`.
pub struct LoadOptsView {
    pub project_config: Option<Seq<char>>,
    pub user_config: Option<Seq<char>>,
    pub profile: Option<Seq<char>>,
    pub overrides: Seq<CliOverrideView>,
}

/// Where settings come from.
#[derive(Debug, PartialEq)]
pub struct LoadOpts {
    pub project_config: Option<String>,
    pub user_config: Option<String>,
    pub profile: Option<String>,
    pub overrides: Vec<CliOverride>,
}

impl DeepView for LoadOpts {
    type V = LoadOptsView;

    open spec fn deep_view(&self) -> LoadOptsView {
        LoadOptsView {
            project_config: self.project_config.deep_view(),
            user_config: self.user_config.deep_view(),
            profile: self.profile.deep_view(),
            overrides: self.overrides.deep_view(),
        }
    }
}

impl Dup for LoadOpts {
    fn dup(&self) -> (r: Self) {
        LoadOpts {
            project_config: self.project_config.dup(),
            user_config: self.user_config.dup(),
            profile: self.profile.dup(),
            overrides: self.overrides.dup(),
        }
    }
}

impl Clone for LoadOpts {
    fn clone(&self) -> (r: Self)
        ensures
            r.deep_view() == self.deep_view(),
    {
        self.dup()
    }
}

/// The model of `Environment`.
pub struct EnvironmentView {
    pub model: Option<Seq<char>>,
    pub permission_mode: Option<Seq<char>>,
    pub small_model: Option<Seq<char>>,
    pub profile: Option<Seq<char>>,
}

/// What the environment says of settings.
#[derive(Debug, PartialEq)]
pub struct Environment {
    pub model: Option<String>,
    pub permission_mode: Option<String>,
    pub small_model: Option<String>,
    pub profile: Option<String>,
}

impl DeepView for Environment {
    type V = EnvironmentView;

    open spec fn deep_view(&self) -> EnvironmentView {
        EnvironmentView {
            model: self.model.deep_view(),
            permission_mode: self.permission_mode.deep_view(),
            small_model: self.small_model.deep_view(),
            profile: self.profile.deep_view(),
        }
    }
}

impl Dup for Environment {
    fn dup(&self) -> (r: Self) {
        Environment {
            model: self.model.dup(),
            permission_mode: self.permission_mode.dup(),
            small_model: self.small_model.dup(),
            profile: self.profile.dup(),
        }
    }
}

impl Clone for Environment {
    fn clone(&self) -> (r: Self)
        ensures
            r.deep_view() == self.deep_view(),
    {
        self.dup()
    }
}

/// What stands there now: the new value where there is one.
pub open spec fn over<T>(new: Option<T>, old: T) -> T {
    match new {
        Some(v) => v,
        None => old,
    }
}

/// What stands there now: the new value where there is one.
pub open spec fn over_some<T>(new: Option<T>, old: Option<T>) -> Option<T> {
    match new {
        Some(v) => Some(v),
        None => old,
    }
}

fn choose_new<T: Dup>(new: &Option<T>, old: &T) -> (r: T)
    ensures
        r.deep_view() == over(new.deep_view(), old.deep_view()),
{
    match new {
        Some(v) => v.dup(),
        None => old.dup(),
    }
}

fn choose_some<T: Dup>(new: &Option<T>, old: &Option<T>) -> (r: Option<T>)
    ensures
        r.deep_view() == over_some(new.deep_view(), old.deep_view()),
{
    match new {
        Some(v) => Some(v.dup()),
        None => old.dup(),
    }
}

/// Settings with a choice of them replaced.
pub open spec fn chosen(c: ConfigView, p: PartialConfigView) -> ConfigView {
    ConfigView {
        model: over_some(p.model, c.model),
        model_provider: over_some(p.model_provider, c.model_provider),
        permission_mode: over(p.permission_mode, c.permission_mode),
        small_model: over_some(p.small_model, c.small_model),
        reasoning_effort: over_some(p.reasoning_effort, c.reasoning_effort),
        auto_compact_at: over(p.auto_compact_at, c.auto_compact_at),
        max_turn_steps: over(p.max_turn_steps, c.max_turn_steps),
        exec_timeout_ms: over(p.exec_timeout_ms, c.exec_timeout_ms),
        editor: over(p.editor, c.editor),
        request_max_retries: over(p.request_max_retries, c.request_max_retries),
        stream_idle_timeout_ms: over(p.stream_idle_timeout_ms, c.stream_idle_timeout_ms),
        ..c
    }
}

/// Hooks with others behind them.
pub open spec fn with_hooks(a: HooksConfigView, b: HooksConfigView) -> HooksConfigView {
    HooksConfigView {
        pre_tool_use: a.pre_tool_use + b.pre_tool_use,
        post_tool_use: a.post_tool_use + b.post_tool_use,
        session_start: a.session_start + b.session_start,
        session_end: a.session_end + b.session_end,
        user_prompt_submit: a.user_prompt_submit + b.user_prompt_submit,
        notification: a.notification + b.notification,
        subagent_stop: a.subagent_stop + b.subagent_stop,
        stop: a.stop + b.stop,
    }
}

/// Settings with what a file says.
pub open spec fn filed(c: ConfigView, f: FileConfigView) -> ConfigView {
    ConfigView {
        model_providers: c.model_providers.union_prefer_right(f.model_providers),
        profiles: c.profiles.union_prefer_right(f.profiles),
        sessions: SessionsConfigView {
            keep_days: over(f.sessions.keep_days, c.sessions.keep_days),
            max_session_mb: over(f.sessions.max_session_mb, c.sessions.max_session_mb),
        },
        permissions: PermissionsConfigView { rules: c.permissions.rules + f.rules },
        hooks: with_hooks(c.hooks, f.hooks),
        mcp_servers: c.mcp_servers.union_prefer_right(f.mcp_servers),
        trusted_projects: c.trusted_projects + f.trusted_projects,
        ..chosen(c, f.base)
    }
}

fn append_all<T: Dup>(v: &mut Vec<T>, w: &Vec<T>)
    ensures
        final(v).deep_view() == old(v).deep_view() + w.deep_view(),
{
    let ghost before = v.deep_view();
    let mut i: usize = 0;
    assert(v.deep_view() =~= before + w.deep_view().take(0));
    while i < w.len()
        invariant
            i <= w@.len(),
            v.deep_view() == before + w.deep_view().take(i as int),
        decreases w@.len() - i,
    {
        let x = w[i].dup();
        let ghost now = v.deep_view();
        v.push(x);
        assert(v.deep_view() =~= now.push(x.deep_view()));
        assert(v.deep_view() =~= before + w.deep_view().take(i + 1));
        i = i + 1;
    }
    assert(w.deep_view().take(w@.len() as int) =~= w.deep_view());
}

impl HooksConfig {
    /// No hooks.
    pub fn none() -> (r: Self)
        ensures
            r.deep_view() == no_hooks(),
    {
        let r = HooksConfig {
            pre_tool_use: Vec::new(),
            post_tool_use: Vec::new(),
            session_start: Vec::new(),
            session_end: Vec::new(),
            user_prompt_submit: Vec::new(),
            notification: Vec::new(),
            subagent_stop: Vec::new(),
            stop: Vec::new(),
        };
        assert(r.deep_view().pre_tool_use =~= no_hooks().pre_tool_use);
        assert(r.deep_view().post_tool_use =~= no_hooks().post_tool_use);
        assert(r.deep_view().session_start =~= no_hooks().session_start);
        assert(r.deep_view().session_end =~= no_hooks().session_end);
        assert(r.deep_view().user_prompt_submit =~= no_hooks().user_prompt_submit);
        assert(r.deep_view().notification =~= no_hooks().notification);
        assert(r.deep_view().subagent_stop =~= no_hooks().subagent_stop);
        assert(r.deep_view().stop =~= no_hooks().stop);
        r
    }

    /// Add other hooks behind those of each point.
    pub fn merge(&mut self, other: &HooksConfig)
        ensures
            final(self).deep_view() == with_hooks(old(self).deep_view(), other.deep_view()),
    {
        append_all(&mut self.pre_tool_use, &other.pre_tool_use);
        append_all(&mut self.post_tool_use, &other.post_tool_use);
        append_all(&mut self.session_start, &other.session_start);
        append_all(&mut self.session_end, &other.session_end);
        append_all(&mut self.user_prompt_submit, &other.user_prompt_submit);
        append_all(&mut self.notification, &other.notification);
        append_all(&mut self.subagent_stop, &other.subagent_stop);
        append_all(&mut self.stop, &other.stop);
    }

    /// The hooks of an event's point.
    pub fn at(&self, event: &HookEvent) -> (r: &Vec<HookConfig>)
        ensures
            r.deep_view() == hooks_at(self.deep_view(), event.deep_view()),
    {
        match event {
            HookEvent::SessionStart => &self.session_start,
            HookEvent::SessionEnd => &self.session_end,
            HookEvent::PreToolUse { .. } => &self.pre_tool_use,
            HookEvent::PostToolUse { .. } => &self.post_tool_use,
            HookEvent::UserPromptSubmit { .. } => &self.user_prompt_submit,
            HookEvent::Notification { .. } => &self.notification,
            HookEvent::SubagentStop { .. } => &self.subagent_stop,
            HookEvent::Stop => &self.stop,
        }
    }

    /// Whether there are no hooks.
    pub fn is_empty(&self) -> (r: bool)
        ensures
            r == (self.deep_view() == no_hooks()),
    {
        proof {
            let v = self.deep_view();
            let n = no_hooks();
            if self.pre_tool_use@.len() == 0 && self.post_tool_use@.len() == 0
                && self.session_start@.len() == 0 && self.session_end@.len() == 0
                && self.user_prompt_submit@.len() == 0 && self.notification@.len() == 0
                && self.subagent_stop@.len() == 0
                && self.stop@.len() == 0 {
                assert(v.pre_tool_use =~= n.pre_tool_use);
                assert(v.post_tool_use =~= n.post_tool_use);
                assert(v.session_start =~= n.session_start);
                assert(v.session_end =~= n.session_end);
                assert(v.user_prompt_submit =~= n.user_prompt_submit);
                assert(v.notification =~= n.notification);
                assert(v.subagent_stop =~= n.subagent_stop);
                assert(v.stop =~= n.stop);
            } else {
                assert(v.pre_tool_use.len() == self.pre_tool_use@.len());
                assert(v.post_tool_use.len() == self.post_tool_use@.len());
                assert(v.session_start.len() == self.session_start@.len());
                assert(v.session_end.len() == self.session_end@.len());
                assert(v.user_prompt_submit.len() == self.user_prompt_submit@.len());
                assert(v.notification.len() == self.notification@.len());
                assert(v.subagent_stop.len() == self.subagent_stop@.len());
                assert(v.stop.len() == self.stop@.len());
            }
        }
        self.pre_tool_use.len() == 0 && self.post_tool_use.len() == 0 && self.session_start.len()
            == 0 && self.session_end.len() == 0 && self.user_prompt_submit.len() == 0
            && self.notification.len() == 0 && self.subagent_stop.len() == 0 && self.stop.len() == 0
    }
}

/// The hooks of an event's point.
pub open spec fn hooks_at(h: HooksConfigView, e: HookEventView) -> Seq<HookConfigView> {
    match e {
        HookEventView::SessionStart => h.session_start,
        HookEventView::SessionEnd => h.session_end,
        HookEventView::PreToolUse { .. } => h.pre_tool_use,
        HookEventView::PostToolUse { .. } => h.post_tool_use,
        HookEventView::UserPromptSubmit { .. } => h.user_prompt_submit,
        HookEventView::Notification { .. } => h.notification,
        HookEventView::SubagentStop { .. } => h.subagent_stop,
        HookEventView::Stop => h.stop,
    }
}

/// No hooks.
pub open spec fn no_hooks() -> HooksConfigView {
    HooksConfigView {
        pre_tool_use: Seq::empty(),
        post_tool_use: Seq::empty(),
        session_start: Seq::empty(),
        session_end: Seq::empty(),
        user_prompt_submit: Seq::empty(),
        notification: Seq::empty(),
        subagent_stop: Seq::empty(),
        stop: Seq::empty(),
    }
}

impl Default for SessionsConfig {
    fn default() -> (r: Self)
        ensures
            r.keep_days == 30,
            r.max_session_mb == 50,
    {
        SessionsConfig { keep_days: 30, max_session_mb: 50 }
    }
}

impl Default for McpServerConfig {
    fn default() -> (r: Self)
        ensures
            r.deep_view() == (McpServerConfigView {
                command: Seq::empty(),
                args: Seq::empty(),
                env: Map::empty(),
                startup_timeout_ms: 10_000,
            }),
    {
        let args: Vec<String> = Vec::new();
        assert(args.deep_view() =~= Seq::<Seq<char>>::empty());
        let command = String::new();
        assert(command@ =~= Seq::<char>::empty());
        McpServerConfig { command, args, env: Table::new(), startup_timeout_ms: 10_000 }
    }
}

/// The provider that is spoken to as Anthropic.
pub open spec fn anthropic_provider() -> ModelProviderConfigView {
    ModelProviderConfigView {
        name: "Anthropic"@,
        base_url: "https://api.anthropic.com"@,
        wire_api: WireApi::Anthropic,
        env_key: "ANTHROPIC_API_KEY"@,
        anthropic_auth: AnthropicAuth::ApiKey,
        headers: Map::empty(),
    }
}

/// The provider that is spoken to as OpenAI.
pub open spec fn openai_provider() -> ModelProviderConfigView {
    ModelProviderConfigView {
        name: "OpenAI"@,
        base_url: "https://api.openai.com"@,
        wire_api: WireApi::OpenaiResponses,
        env_key: "OPENAI_API_KEY"@,
        anthropic_auth: AnthropicAuth::ApiKey,
        headers: Map::empty(),
    }
}

/// The settings that are built in.
pub open spec fn built_in() -> ConfigView {
    ConfigView {
        model: None,
        model_provider: None,
        permission_mode: PermissionMode::Default,
        small_model: None,
        reasoning_effort: None,
        auto_compact_at: "0.92"@,
        max_turn_steps: 100,
        exec_timeout_ms: 120_000,
        editor: "vim"@,
        request_max_retries: 4,
        stream_idle_timeout_ms: 60_000,
        model_providers: Map::empty().insert("anthropic"@, anthropic_provider()).insert(
            "openai"@,
            openai_provider(),
        ),
        profiles: Map::empty(),
        sessions: SessionsConfigView { keep_days: 30, max_session_mb: 50 },
        permissions: PermissionsConfigView { rules: Seq::empty() },
        hooks: no_hooks(),
        mcp_servers: Map::empty(),
        trusted_projects: Seq::empty(),
    }
}

impl Default for Config {
    fn default() -> (r: Self)
        ensures
            r.deep_view() == built_in(),
    {
        let mut providers: Table<ModelProviderConfig> = Table::new();
        providers.put(
            "anthropic",
            ModelProviderConfig {
                name: "Anthropic".to_owned(),
                base_url: "https://api.anthropic.com".to_owned(),
                wire_api: WireApi::Anthropic,
                env_key: "ANTHROPIC_API_KEY".to_owned(),
                anthropic_auth: AnthropicAuth::ApiKey,
                headers: Table::new(),
            },
        );
        providers.put(
            "openai",
            ModelProviderConfig {
                name: "OpenAI".to_owned(),
                base_url: "https://api.openai.com".to_owned(),
                wire_api: WireApi::OpenaiResponses,
                env_key: "OPENAI_API_KEY".to_owned(),
                anthropic_auth: AnthropicAuth::ApiKey,
                headers: Table::new(),
            },
        );
        let rules: Vec<PermissionRule> = Vec::new();
        assert(rules.deep_view() =~= Seq::<PermissionRuleView>::empty());
        let trusted_projects: Vec<String> = Vec::new();
        assert(trusted_projects.deep_view() =~= Seq::<Seq<char>>::empty());
        Config {
            model: None,
            model_provider: None,
            permission_mode: PermissionMode::Default,
            small_model: None,
            reasoning_effort: None,
            auto_compact_at: "0.92".to_owned(),
            max_turn_steps: 100,
            exec_timeout_ms: 120_000,
            editor: "vim".to_owned(),
            request_max_retries: 4,
            stream_idle_timeout_ms: 60_000,
            model_providers: providers,
            profiles: Table::new(),
            sessions: SessionsConfig::default(),
            permissions: PermissionsConfig { rules },
            hooks: HooksConfig::none(),
            mcp_servers: Table::new(),
            trusted_projects,
        }
    }
}

impl Default for PartialConfig {
    fn default() -> (r: Self)
        ensures
            forall|c: ConfigView| #[trigger] chosen(c, r.deep_view()) == c,
    {
        PartialConfig {
            model: None,
            model_provider: None,
            permission_mode: None,
            small_model: None,
            reasoning_effort: None,
            auto_compact_at: None,
            max_turn_steps: None,
            exec_timeout_ms: None,
            editor: None,
            request_max_retries: None,
            stream_idle_timeout_ms: None,
        }
    }
}

// ---- numbers ----

/// Why a text is no number.
#[derive(Debug, Clone, Copy, PartialEq, Eq, Structural)]
pub enum BadNumber {
    Empty,
    NotADigit,
    TooLarge,
}

impl BadNumber {
    /// The reason in words.
    pub open spec fn words(self) -> Seq<char> {
        match self {
            BadNumber::Empty => "cannot parse integer from empty string"@,
            BadNumber::NotADigit => "invalid digit found in string"@,
            BadNumber::TooLarge => "number too large to fit in target type"@,
        }
    }

    /// The reason in words.
    pub fn message(&self) -> (r: &'static str)
        ensures
            r@ == self.words(),
    {
        match self {
            BadNumber::Empty => "cannot parse integer from empty string",
            BadNumber::NotADigit => "invalid digit found in string",
            BadNumber::TooLarge => "number too large to fit in target type",
        }
    }
}

/// The number that digits stand for, where it is no larger than `max`.
pub open spec fn digits_value(s: Seq<char>, max: nat) -> Result<nat, BadNumber>
    decreases s.len(),
{
    if s.len() == 0 {
        Ok(0)
    } else {
        match digits_value(s.drop_last(), max) {
            Err(e) => Err(e),
            Ok(n) => if !('0' <= s.last() <= '9') {
                Err(BadNumber::NotADigit)
            } else if n * 10 + (s.last() as nat - '0' as nat) > max {
                Err(BadNumber::TooLarge)
            } else {
                Ok((n * 10 + (s.last() as nat - '0' as nat)) as nat)
            },
        }
    }
}

/// The number that a text stands for: digits, with a plus sign before them or not.
pub open spec fn number_value(s: Seq<char>, max: nat) -> Result<nat, BadNumber> {
    if s.len() == 0 {
        Err(BadNumber::Empty)
    } else if s == seq!['+'] {
        Err(BadNumber::NotADigit)
    } else if s[0] == '+' {
        digits_value(s.drop_first(), max)
    } else {
        digits_value(s, max)
    }
}

proof fn lemma_digits_err(s: Seq<char>, n: int, max: nat)
    requires
        0 <= n <= s.len(),
        digits_value(s.take(n), max) is Err,
    ensures
        digits_value(s, max) == digits_value(s.take(n), max),
    decreases s.len() - n,
{
    if n < s.len() {
        assert(s.take(n + 1).drop_last() =~= s.take(n));
        lemma_digits_err(s, n + 1, max);
    } else {
        assert(s.take(n) =~= s);
    }
}

/// The number that a text stands for.
pub fn parse_number(s: &str, max: u64) -> (r: Result<u64, BadNumber>)
    ensures
        match number_value(s@, max as nat) {
            Ok(n) => r == Ok::<u64, BadNumber>(n as u64) && n <= max,
            Err(e) => r == Err::<u64, BadNumber>(e),
        },
{
    let v = chars_of(s);
    if v.len() == 0 {
        return Err(BadNumber::Empty);
    }
    let mut from: usize = 0;
    if v[0] == '+' {
        if v.len() == 1 {
            assert(v@ =~= seq!['+']);
            return Err(BadNumber::NotADigit);
        }
        from = 1;
    }
    let ghost all = v@.skip(from as int);
    proof {
        if from == 0 {
            assert(all =~= v@);
        } else {
            assert(all =~= v@.drop_first());
        }
    }
    let mut n: u64 = 0;
    let mut i: usize = from;
    while i < v.len()
        invariant
            from <= i <= v@.len(),
            all == v@.skip(from as int),
            digits_value(all, max as nat) == number_value(v@, max as nat),
            v@ == s@,
            digits_value(all.take(i - from), max as nat) == Ok::<nat, BadNumber>(n as nat),
            n <= max,
        decreases v@.len() - i,
    {
        let c = v[i];
        assert(all.take(i + 1 - from).drop_last() =~= all.take(i - from));
        assert(all.take(i + 1 - from).last() == c);
        if !('0' <= c && c <= '9') {
            proof {
                lemma_digits_err(all, i + 1 - from, max as nat);
            }
            return Err(BadNumber::NotADigit);
        }
        let d: u64 = c as u64 - '0' as u64;
        if n > max / 10 || d > max - n * 10 {
            assert(n * 10 + d > max);
            proof {
                lemma_digits_err(all, i + 1 - from, max as nat);
            }
            return Err(BadNumber::TooLarge);
        }
        n = n * 10 + d;
        i = i + 1;
    }
    assert(all.take(all.len() as int) =~= all);
    Ok(n)
}

// ---- names of modes and of interfaces ----

/// What is said of a mode that there is none of.
pub open spec fn bad_mode(s: Seq<char>) -> Seq<char> {
    "permission_mode 无效: "@ + s + "(可选: default/plan/accept-edits/bypass)"@
}

/// The mode with a given name.
pub fn parse_permission_mode(s: &str) -> (r: Result<PermissionMode, String>)
    ensures
        match PermissionMode::named(s@) {
            Some(m) => r == Ok::<PermissionMode, String>(m),
            None => r matches Err(e) && e@ == bad_mode(s@),
        },
{
    match PermissionMode::from_name(s) {
        Some(m) => Ok(m),
        None => Err(cat3("permission_mode 无效: ", s, "(可选: default/plan/accept-edits/bypass)")),
    }
}

/// What is said of an interface that there is none of.
pub open spec fn bad_wire_api(s: Seq<char>) -> Seq<char> {
    "wire_api 无效: "@ + s + "(可选: anthropic/openai-responses/openai-chat)"@
}

/// The interface with a given name.
pub fn parse_wire_api(s: &str) -> (r: Result<WireApi, String>)
    ensures
        match WireApi::named(s@) {
            Some(m) => r == Ok::<WireApi, String>(m),
            None => r matches Err(e) && e@ == bad_wire_api(s@),
        },
{
    match WireApi::from_name(s) {
        Some(m) => Ok(m),
        None => Err(cat3("wire_api 无效: ", s, "(可选: anthropic/openai-responses/openai-chat)")),
    }
}

// ---- the command line ----

/// A provider that is not known yet.
pub open spec fn new_provider(id: Seq<char>) -> ModelProviderConfigView {
    ModelProviderConfigView {
        name: id,
        base_url: Seq::empty(),
        wire_api: WireApi::OpenaiChat,
        env_key: Seq::empty(),
        anthropic_auth: AnthropicAuth::ApiKey,
        headers: Map::empty(),
    }
}

/// The provider with a given identifier, known or not.
pub open spec fn provider_or_new(
    m: Map<Seq<char>, ModelProviderConfigView>,
    id: Seq<char>,
) -> ModelProviderConfigView {
    if m.contains_key(id) {
        m[id]
    } else {
        new_provider(id)
    }
}

/// A provider with a field of it replaced, or what is wrong.
pub open spec fn provider_with(
    p: ModelProviderConfigView,
    field: Seq<char>,
    value: Seq<char>,
) -> Result<ModelProviderConfigView, Seq<char>> {
    if field == "base_url"@ {
        Ok(ModelProviderConfigView { base_url: value, ..p })
    } else if field == "wire_api"@ {
        match WireApi::named(value) {
            Some(w) => Ok(ModelProviderConfigView { wire_api: w, ..p }),
            None => Err(bad_wire_api(value)),
        }
    } else if field == "env_key"@ {
        Ok(ModelProviderConfigView { env_key: value, ..p })
    } else if field == "name"@ {
        Ok(ModelProviderConfigView { name: value, ..p })
    } else {
        Err("不支持的 provider 字段: "@ + field)
    }
}

/// The provider and the field that a key speaks of.
pub open spec fn provider_key(key: Seq<char>) -> Option<(Seq<char>, Seq<char>)> {
    match after_prefix(key, "model_providers."@) {
        Some(rest) => cut(rest, "."@),
        None => None,
    }
}

/// Settings after a setting on the command line, or what is wrong with it. The
/// fraction under `auto_compact_at` is taken over as it is written.
pub open spec fn overridden(c: ConfigView, key: Seq<char>, value: Seq<char>) -> Result<
    ConfigView,
    Seq<char>,
> {
    if key == "model"@ {
        Ok(ConfigView { model: Some(value), ..c })
    } else if key == "model_provider"@ {
        Ok(ConfigView { model_provider: Some(value), ..c })
    } else if key == "permission_mode"@ {
        match PermissionMode::named(value) {
            Some(m) => Ok(ConfigView { permission_mode: m, ..c }),
            None => Err(bad_mode(value)),
        }
    } else if key == "small_model"@ {
        Ok(ConfigView { small_model: Some(value), ..c })
    } else if key == "editor"@ {
        Ok(ConfigView { editor: value, ..c })
    } else if key == "max_turn_steps"@ {
        match number_value(value, u32::MAX as nat) {
            Ok(n) => Ok(ConfigView { max_turn_steps: n as u32, ..c }),
            Err(e) => Err("max_turn_steps 无效: "@ + e.words()),
        }
    } else if key == "exec_timeout_ms"@ {
        match number_value(value, u64::MAX as nat) {
            Ok(n) => Ok(ConfigView { exec_timeout_ms: n as u64, ..c }),
            Err(e) => Err("exec_timeout_ms 无效: "@ + e.words()),
        }
    } else if key == "auto_compact_at"@ {
        Ok(ConfigView { auto_compact_at: value, ..c })
    } else {
        match provider_key(key) {
            Some((id, field)) => match provider_with(
                provider_or_new(c.model_providers, id),
                field,
                value,
            ) {
                Ok(p) => Ok(ConfigView { model_providers: c.model_providers.insert(id, p), ..c }),
                Err(e) => Err(e),
            },
            None => Err("不支持的配置键: "@ + key),
        }
    }
}

/// Settings after all settings on the command line, or what is wrong with the first
/// that is not right.
pub open spec fn all_overridden(c: ConfigView, s: Seq<CliOverrideView>) -> Result<
    ConfigView,
    Seq<char>,
>
    decreases s.len(),
{
    if s.len() == 0 {
        Ok(c)
    } else {
        match all_overridden(c, s.drop_last()) {
            Ok(d) => overridden(d, s.last().key, s.last().value),
            Err(e) => Err(e),
        }
    }
}

proof fn lemma_overridden_err(c: ConfigView, s: Seq<CliOverrideView>, n: int)
    requires
        0 <= n <= s.len(),
        all_overridden(c, s.take(n)) is Err,
    ensures
        all_overridden(c, s) == all_overridden(c, s.take(n)),
    decreases s.len() - n,
{
    if n < s.len() {
        assert(s.take(n + 1).drop_last() =~= s.take(n));
        lemma_overridden_err(c, s, n + 1);
    } else {
        assert(s.take(n) =~= s);
    }
}

// ---- layers ----

/// Whether the environment says anything.
pub open spec fn is_said(v: Option<Seq<char>>) -> bool {
    v matches Some(s) && s.len() > 0
}

/// Settings with what the environment says, or what is wrong with it.
pub open spec fn in_environment(c: ConfigView, e: EnvironmentView) -> Result<ConfigView, Seq<char>> {
    let c = if is_said(e.model) {
        ConfigView { model: e.model, ..c }
    } else {
        c
    };
    if is_said(e.permission_mode) && PermissionMode::named(e.permission_mode->0) is None {
        Err(bad_mode(e.permission_mode->0))
    } else {
        let c = if is_said(e.permission_mode) {
            ConfigView { permission_mode: PermissionMode::named(e.permission_mode->0)->0, ..c }
        } else {
            c
        };
        Ok(
            if is_said(e.small_model) {
                ConfigView { small_model: e.small_model, ..c }
            } else {
                c
            },
        )
    }
}

/// Settings with a profile, where there is one of that name.
pub open spec fn profiled(c: ConfigView, name: Option<Seq<char>>) -> ConfigView {
    match name {
        Some(n) => if c.profiles.contains_key(n) {
            chosen(c, c.profiles[n])
        } else {
            c
        },
        None => c,
    }
}

/// Settings with what a file says, where there is one.
pub open spec fn maybe_filed(c: ConfigView, f: Option<FileConfigView>) -> ConfigView {
    match f {
        Some(f) => filed(c, f),
        None => c,
    }
}

/// The settings that all sources come to, the later over the earlier, or what is
/// wrong with them.
pub open spec fn layered(
    user: Option<FileConfigView>,
    project: Option<FileConfigView>,
    env: EnvironmentView,
    profile: Option<Seq<char>>,
    overrides: Seq<CliOverrideView>,
) -> Result<ConfigView, Seq<char>> {
    let c = maybe_filed(maybe_filed(built_in(), user), project);
    match in_environment(c, env) {
        Err(e) => Err(e),
        Ok(c) => match all_overridden(c, overrides) {
            Err(e) => Err(e),
            Ok(c) => Ok(
                profiled(
                    c,
                    if profile is Some {
                        profile
                    } else {
                        env.profile
                    },
                ),
            ),
        },
    }
}

impl Config {
    /// The settings that all sources come to, each over those before it: what is
    /// built in, the user's file, the project's file, the environment, the command
    /// line and a profile.
    pub fn load(
        opts: &LoadOpts,
        user: &Option<FileConfig>,
        project: &Option<FileConfig>,
        env: &Environment,
    ) -> (r: Result<Config, String>)
        ensures
            match layered(
                user.deep_view(),
                project.deep_view(),
                env.deep_view(),
                opts.deep_view().profile,
                opts.deep_view().overrides,
            ) {
                Ok(c) => r matches Ok(x) && x.deep_view() == c,
                Err(e) => r matches Err(x) && x@ == e,
            },
    {
        let mut c = Config::default();
        match user {
            Some(f) => c.merge_file(f),
            None => {},
        }
        match project {
            Some(f) => c.merge_file(f),
            None => {},
        }
        match &env.model {
            Some(m) => if m.as_str().unicode_len() > 0 {
                c.model = Some(m.clone());
            },
            None => {},
        }
        match &env.permission_mode {
            Some(m) => if m.as_str().unicode_len() > 0 {
                match parse_permission_mode(m.as_str()) {
                    Ok(mode) => {
                        c.permission_mode = mode;
                    },
                    Err(e) => return Err(e),
                }
            },
            None => {},
        }
        match &env.small_model {
            Some(m) => if m.as_str().unicode_len() > 0 {
                c.small_model = Some(m.clone());
            },
            None => {},
        }
        let ghost start = c.deep_view();
        let ghost all = opts.deep_view().overrides;
        let mut i: usize = 0;
        while i < opts.overrides.len()
            invariant
                i <= opts.overrides@.len(),
                all == opts.overrides.deep_view(),
                all_overridden(start, all.take(i as int)) == Ok::<ConfigView, Seq<char>>(
                    c.deep_view(),
                ),
                in_environment(
                    maybe_filed(
                        maybe_filed(built_in(), user.deep_view()),
                        project.deep_view(),
                    ),
                    env.deep_view(),
                ) == Ok::<ConfigView, Seq<char>>(start),
                all == opts.deep_view().overrides,
            decreases opts.overrides@.len() - i,
        {
            assert(all.take(i + 1).drop_last() =~= all.take(i as int));
            assert(all.take(i + 1).last() == opts.overrides@[i as int].deep_view());
            match c.apply_override(&opts.overrides[i]) {
                Ok(_) => {},
                Err(e) => {
                    proof {
                        lemma_overridden_err(start, all, i + 1);
                    }
                    return Err(e);
                },
            }
            i = i + 1;
        }
        assert(all.take(all.len() as int) =~= all);
        let name = match &opts.profile {
            Some(_) => &opts.profile,
            None => &env.profile,
        };
        match name {
            Some(n) => {
                let p = match c.profiles.get(n.as_str()) {
                    Some(p) => Some(p.dup()),
                    None => None,
                };
                match p {
                    Some(p) => c.apply_partial(&p),
                    None => {},
                }
            },
            None => {},
        }
        Ok(c)
    }

    /// Take over what a file says: what it sets replaces, its rules, hooks and trusted
    /// directories come behind those that are there.
    pub fn merge_file(&mut self, f: &FileConfig)
        ensures
            final(self).deep_view() == filed(old(self).deep_view(), f.deep_view()),
    {
        self.apply_partial(&f.base);
        self.model_providers.put_all(&f.model_providers);
        self.profiles.put_all(&f.profiles);
        self.sessions.keep_days = choose_new(&f.sessions.keep_days, &self.sessions.keep_days);
        self.sessions.max_session_mb = choose_new(
            &f.sessions.max_session_mb,
            &self.sessions.max_session_mb,
        );
        append_all(&mut self.permissions.rules, &f.rules);
        self.hooks.merge(&f.hooks);
        self.mcp_servers.put_all(&f.mcp_servers);
        append_all(&mut self.trusted_projects, &f.trusted_projects);
    }

    /// Take over a choice of settings.
    pub fn apply_partial(&mut self, p: &PartialConfig)
        ensures
            final(self).deep_view() == chosen(old(self).deep_view(), p.deep_view()),
    {
        self.model = choose_some(&p.model, &self.model);
        self.model_provider = choose_some(&p.model_provider, &self.model_provider);
        self.permission_mode = choose_new(&p.permission_mode, &self.permission_mode);
        self.small_model = choose_some(&p.small_model, &self.small_model);
        self.reasoning_effort = choose_some(&p.reasoning_effort, &self.reasoning_effort);
        self.auto_compact_at = choose_new(&p.auto_compact_at, &self.auto_compact_at);
        self.max_turn_steps = choose_new(&p.max_turn_steps, &self.max_turn_steps);
        self.exec_timeout_ms = choose_new(&p.exec_timeout_ms, &self.exec_timeout_ms);
        self.editor = choose_new(&p.editor, &self.editor);
        self.request_max_retries = choose_new(&p.request_max_retries, &self.request_max_retries);
        self.stream_idle_timeout_ms = choose_new(&p.stream_idle_timeout_ms, &self.stream_idle_timeout_ms);
    }

    /// Take over a setting on the command line. Where it is not right nothing
    /// changes.
    pub fn apply_override(&mut self, ov: &CliOverride) -> (r: Result<(), String>)
        ensures
            match overridden(old(self).deep_view(), ov.key@, ov.value@) {
                Ok(c) => r is Ok && final(self).deep_view() == c,
                Err(e) => (r matches Err(x) && x@ == e) && final(self).deep_view() == old(
                    self,
                ).deep_view(),
            },
    {
        let key = ov.key.as_str();
        let value = ov.value.as_str();
        if same(key, "model") {
            self.model = Some(value.to_owned());
        } else if same(key, "model_provider") {
            self.model_provider = Some(value.to_owned());
        } else if same(key, "permission_mode") {
            match parse_permission_mode(value) {
                Ok(m) => {
                    self.permission_mode = m;
                },
                Err(e) => return Err(e),
            }
        } else if same(key, "small_model") {
            self.small_model = Some(value.to_owned());
        } else if same(key, "editor") {
            self.editor = value.to_owned();
        } else if same(key, "max_turn_steps") {
            match parse_number(value, u32::MAX as u64) {
                Ok(n) => {
                    self.max_turn_steps = n as u32;
                },
                Err(e) => return Err(cat("max_turn_steps 无效: ", e.message())),
            }
        } else if same(key, "exec_timeout_ms") {
            match parse_number(value, u64::MAX) {
                Ok(n) => {
                    self.exec_timeout_ms = n;
                },
                Err(e) => return Err(cat("exec_timeout_ms 无效: ", e.message())),
            }
        } else if same(key, "auto_compact_at") {
            self.auto_compact_at = value.to_owned();
        } else {
            let parts = match strip_prefix(key, "model_providers.") {
                Some(rest) => split_once(rest.as_str(), "."),
                None => None,
            };
            match parts {
                Some((id, field)) => {
                    let p = match self.model_providers.get(id.as_str()) {
                        Some(p) => p.dup(),
                        None => {
                            let r = ModelProviderConfig {
                                name: id.clone(),
                                base_url: String::new(),
                                wire_api: WireApi::OpenaiChat,
                                env_key: String::new(),
                                anthropic_auth: AnthropicAuth::ApiKey,
                                headers: Table::new(),
                            };
                            assert(r.base_url@ =~= Seq::<char>::empty());
                            assert(r.env_key@ =~= Seq::<char>::empty());
                            r
                        },
                    };
                    match p.with(field.as_str(), value) {
                        Ok(q) => {
                            self.model_providers.put(id.as_str(), q);
                        },
                        Err(e) => return Err(e),
                    }
                },
                None => return Err(cat("不支持的配置键: ", key)),
            }
        }
        Ok(())
    }

    /// The provider: the one that is named, or what stands before the slash in the
    /// model.
    pub fn current_provider_id(&self) -> (r: Option<String>)
        ensures
            r.deep_view() == provider_of(self.deep_view()),
    {
        match &self.model_provider {
            Some(p) => Some(p.clone()),
            None => match &self.model {
                Some(m) => match split_once(m.as_str(), "/") {
                    Some((a, _)) => Some(a),
                    None => None,
                },
                None => None,
            },
        }
    }

    /// The model, without the provider before the slash.
    pub fn current_model_id(&self) -> (r: Option<String>)
        ensures
            r.deep_view() == model_of(self.deep_view()),
    {
        match &self.model {
            Some(m) => match split_once(m.as_str(), "/") {
                Some((_, b)) => Some(b),
                None => Some(m.clone()),
            },
            None => None,
        }
    }
}

/// The provider: the one that is named, or what stands before the slash in the
/// model.
pub open spec fn provider_of(c: ConfigView) -> Option<Seq<char>> {
    if c.model_provider is Some {
        c.model_provider
    } else {
        match c.model {
            Some(m) => match cut(m, "/"@) {
                Some((a, _)) => Some(a),
                None => None,
            },
            None => None,
        }
    }
}

/// The model, without the provider before the slash.
pub open spec fn model_of(c: ConfigView) -> Option<Seq<char>> {
    match c.model {
        Some(m) => match cut(m, "/"@) {
            Some((_, b)) => Some(b),
            None => Some(m),
        },
        None => None,
    }
}

impl ModelProviderConfig {
    fn with(&self, field: &str, value: &str) -> (r: Result<ModelProviderConfig, String>)
        ensures
            match provider_with(self.deep_view(), field@, value@) {
                Ok(p) => r matches Ok(x) && x.deep_view() == p,
                Err(e) => r matches Err(x) && x@ == e,
            },
    {
        let mut p = self.dup();
        if same(field, "base_url") {
            p.base_url = value.to_owned();
        } else if same(field, "wire_api") {
            match parse_wire_api(value) {
                Ok(w) => {
                    p.wire_api = w;
                },
                Err(e) => return Err(e),
            }
        } else if same(field, "env_key") {
            p.env_key = value.to_owned();
        } else if same(field, "name") {
            p.name = value.to_owned();
        } else {
            return Err(cat("不支持的 provider 字段: ", field));
        }
        Ok(p)
    }
}

// ---- where files lie ----

/// The file of settings below a directory.
pub open spec fn config_below(dir: Seq<char>) -> Seq<char> {
    joined_path(joined_path(dir, ".tao"@), "config.toml"@)
}

/// The file of settings below a directory: the user's below the home directory,
/// the project's below the current one.
pub fn default_config(dir: &str) -> (r: String)
    ensures
        r@ == config_below(dir@),
{
    let d = join_path(dir, ".tao");
    join_path(d.as_str(), "config.toml")
}

// ---- laws ----

/// A later source wins: what the project's file sets is what counts, whatever the
/// user's file says.
pub proof fn law_later_files_win(c: ConfigView, user: FileConfigView, project: FileConfigView)
    ensures
        ({
            let r = filed(filed(c, user), project);
            &&& project.base.model is Some ==> r.model == project.base.model
            &&& project.base.permission_mode is Some ==> Some(r.permission_mode)
                == project.base.permission_mode
            &&& project.base.max_turn_steps is Some ==> Some(r.max_turn_steps)
                == project.base.max_turn_steps
            &&& project.base.model is None && user.base.model is Some ==> r.model
                == user.base.model
            &&& project.base.model is None && user.base.model is None ==> r.model == c.model
            &&& forall|k: Seq<char>|
                project.model_providers.contains_key(k) ==> #[trigger] r.model_providers[k]
                    == project.model_providers[k]
        }),
{
}

/// Rules, hooks and trusted directories add up: none of those that were there goes,
/// whatever a file says.
pub proof fn law_rules_add_up(c: ConfigView, f: FileConfigView)
    ensures
        c.permissions.rules.is_prefix_of(filed(c, f).permissions.rules),
        c.trusted_projects.is_prefix_of(filed(c, f).trusted_projects),
        c.hooks.pre_tool_use.is_prefix_of(filed(c, f).hooks.pre_tool_use),
        c.hooks.post_tool_use.is_prefix_of(filed(c, f).hooks.post_tool_use),
        c.hooks.session_start.is_prefix_of(filed(c, f).hooks.session_start),
        c.hooks.session_end.is_prefix_of(filed(c, f).hooks.session_end),
        c.hooks.user_prompt_submit.is_prefix_of(filed(c, f).hooks.user_prompt_submit),
        c.hooks.notification.is_prefix_of(filed(c, f).hooks.notification),
        c.hooks.subagent_stop.is_prefix_of(filed(c, f).hooks.subagent_stop),
        c.hooks.stop.is_prefix_of(filed(c, f).hooks.stop),
        forall|k: Seq<char>|
            c.model_providers.contains_key(k) ==> #[trigger] filed(
                c,
                f,
            ).model_providers.contains_key(k),
{
}

/// The command line wins over files and the environment: where its last setting
/// names the model, that is the model, unless a profile names one.
pub proof fn law_command_line_wins(
    user: Option<FileConfigView>,
    project: Option<FileConfigView>,
    env: EnvironmentView,
    overrides: Seq<CliOverrideView>,
)
    requires
        overrides.len() > 0,
        overrides.last().key == "model"@,
        env.profile is None,
        layered(user, project, env, None, overrides) is Ok,
    ensures
        layered(user, project, env, None, overrides)->Ok_0.model == Some(overrides.last().value),
{
}

/// A profile has the last word: what it sets is what counts, whatever all other
/// sources say.
pub proof fn law_profiles_win(c: ConfigView, name: Seq<char>)
    requires
        c.profiles.contains_key(name),
    ensures
        ({
            let p = c.profiles[name];
            let r = profiled(c, Some(name));
            &&& p.model is Some ==> r.model == p.model
            &&& p.permission_mode is Some ==> Some(r.permission_mode) == p.permission_mode
            &&& p.model is None ==> r.model == c.model
            &&& p.permission_mode is None ==> r.permission_mode == c.permission_mode
            &&& r.permissions == c.permissions
            &&& r.hooks == c.hooks
        }),
{
}

/// A model that names its provider is split into the two, unless a provider is
/// named on its own.
pub proof fn law_model_names_provider(c: ConfigView, provider: Seq<char>, id: Seq<char>)
    requires
        c.model == Some(provider + "/"@ + id),
        !provider.contains('/'),
    ensures
        model_of(c) == Some(id),
        c.model_provider is None ==> provider_of(c) == Some(provider),
{
    reveal_strlit("/");
    let m = provider + "/"@ + id;
    let n = provider.len() as int;
    assert("/"@ =~= seq!['/']);
    assert(matches_at(m, "/"@, n)) by {
        assert(m.subrange(n, n + 1) =~= "/"@);
    }
    lemma_find_from(m, "/"@, 0);
    let i = find(m, "/"@)->0;
    if i < n {
        assert(matches_at(m, "/"@, i));
        assert(m[i] == '/') by {
            assert(m.subrange(i, i + 1)[0] == "/"@[0]);
        }
        assert(provider[i] == '/');
    }
    assert(m.take(n) =~= provider);
    assert(m.skip(n + 1) =~= id);
}

} // verus!

//! Settings: their sources, and what they come to.

use tao::config::{
    default_config, parse_number, parse_permission_mode, parse_wire_api, AnthropicAuth, BadNumber,
    CliOverride, Config, Environment, FileConfig, HooksConfig, LoadOpts, McpServerConfig,
    ModelProviderConfig, PartialConfig, PartialSessionsConfig, SessionsConfig, WireApi,
};
use tao::exec::{build_load_opts, parse_overrides};
use tao::hooks::HookConfig;
use tao::model::ModelError;
use tao::permission::{PermissionMode, PermissionRule, RuleAction};
use tao::providers::registry::{check_credential, find_provider, list_provider_ids, resolve};
use tao::table::Table;

fn opts() -> LoadOpts {
    LoadOpts { project_config: None, user_config: None, profile: None, overrides: vec![] }
}

fn env() -> Environment {
    Environment { model: None, permission_mode: None, small_model: None, profile: None }
}

fn none() -> PartialConfig {
    PartialConfig::default()
}

fn file(base: PartialConfig) -> FileConfig {
    FileConfig {
        base,
        model_providers: Table::new(),
        profiles: Table::new(),
        sessions: PartialSessionsConfig { keep_days: None, max_session_mb: None },
        rules: vec![],
        hooks: HooksConfig::none(),
        mcp_servers: Table::new(),
        trusted_projects: Vec::new(),
    }
}

fn model(m: &str) -> PartialConfig {
    PartialConfig { model: Some(m.into()), ..none() }
}

fn provider(name: &str, base_url: &str, env_key: &str) -> ModelProviderConfig {
    ModelProviderConfig {
        name: name.into(),
        base_url: base_url.into(),
        wire_api: WireApi::OpenaiChat,
        env_key: env_key.into(),
        anthropic_auth: AnthropicAuth::ApiKey,
        headers: Table::new(),
    }
}

fn set(key: &str, value: &str) -> CliOverride {
    CliOverride { key: key.into(), value: value.into() }
}

fn with_model(m: &str) -> Config {
    Config { model: Some(m.into()), ..Config::default() }
}

#[test]
fn defaults_have_builtin_providers() {
    let c = Config::default();
    assert!(c.model_providers.get("anthropic").is_some());
    assert!(c.model_providers.get("openai").is_some());
    assert_eq!(c.model_providers.get("openai").unwrap().wire_api, WireApi::OpenaiResponses);
}

#[test]
fn model_prefix_resolves_provider() {
    let c = with_model("anthropic/sonnet-4-6");
    assert_eq!(c.current_provider_id().as_deref(), Some("anthropic"));
    assert_eq!(c.current_model_id().as_deref(), Some("sonnet-4-6"));
}

#[test]
fn explicit_provider_overrides_prefix() {
    let c = Config { model_provider: Some("openai".into()), ..with_model("anthropic/sonnet-4-6") };
    assert_eq!(c.current_provider_id().as_deref(), Some("openai"));
}

#[test]
fn partial_override_applies() {
    let mut c = with_model("anthropic/x");
    let p = PartialConfig {
        model: Some("openai/gpt-4o".into()),
        permission_mode: Some(PermissionMode::Plan),
        ..none()
    };
    c.apply_partial(&p);
    assert_eq!(c.model.as_deref(), Some("openai/gpt-4o"));
    assert_eq!(c.permission_mode, PermissionMode::Plan);
}

#[test]
fn cli_override_model() {
    let mut c = Config::default();
    c.apply_override(&set("model", "openai/gpt-4o")).unwrap();
    assert_eq!(c.model.as_deref(), Some("openai/gpt-4o"));
}

#[test]
fn cli_override_provider_field() {
    let mut c = Config::default();
    c.apply_override(&set("model_providers.deepseek.base_url", "https://api.deepseek.com"))
        .unwrap();
    let p = c.model_providers.get("deepseek").unwrap();
    assert_eq!(p.base_url, "https://api.deepseek.com");
    assert_eq!(p.wire_api, WireApi::OpenaiChat);
}

#[test]
fn config_cli_override_provider_field() {
    let o = LoadOpts {
        overrides: vec![set("model_providers.myproxy.base_url", "https://proxy.internal/v1")],
        ..opts()
    };
    let config = Config::load(&o, &None, &None, &env()).unwrap();
    assert_eq!(
        config.model_providers.get("myproxy").unwrap().base_url,
        "https://proxy.internal/v1"
    );
}

#[test]
fn permissions_rules_from_toml_and_merge() {
    let rule = |tool: &str, pattern: &str, action: RuleAction| PermissionRule {
        tool: tool.into(),
        pattern: pattern.into(),
        action,
    };
    let user = FileConfig {
        rules: vec![rule("Bash", "cargo *", RuleAction::Allow)],
        ..file(none())
    };
    let project = FileConfig {
        rules: vec![rule("Edit|Patch", "src/generated/**", RuleAction::Deny)],
        ..file(none())
    };
    let mut c = Config::default();
    c.merge_file(&user);
    c.merge_file(&project);
    assert_eq!(c.permissions.rules.len(), 2);
    assert_eq!(c.permissions.rules[0].pattern, "cargo *");
    assert_eq!(c.permissions.rules[1].tool, "Edit|Patch");
}

#[test]
fn defaults_load_without_files() {
    let config = Config::load(&opts(), &None, &None, &env()).unwrap();
    assert!(config.model_providers.get("anthropic").is_some());
    assert!(config.model_providers.get("openai").is_some());
    assert_eq!(config.max_turn_steps, 100);
    assert_eq!(config.exec_timeout_ms, 120_000);
    assert_eq!(config.auto_compact_at, "0.92");
}

#[test]
fn user_config_overrides_defaults() {
    let mut f = file(PartialConfig {
        permission_mode: Some(PermissionMode::Plan),
        ..model("anthropic/sonnet-4-6")
    });
    f.model_providers.put(
        "deepseek",
        provider("DeepSeek", "https://api.deepseek.com", "DEEPSEEK_API_KEY"),
    );
    let config = Config::load(&opts(), &Some(f), &None, &env()).unwrap();
    assert_eq!(config.model.as_deref(), Some("anthropic/sonnet-4-6"));
    assert_eq!(config.permission_mode, PermissionMode::Plan);
    assert!(config.model_providers.get("anthropic").is_some());
    assert_eq!(config.model_providers.get("deepseek").unwrap().wire_api, WireApi::OpenaiChat);
}

#[test]
fn project_config_overrides_user() {
    let config = Config::load(
        &opts(),
        &Some(file(model("anthropic/a"))),
        &Some(file(model("openai/b"))),
        &env(),
    )
    .unwrap();
    assert_eq!(config.model.as_deref(), Some("openai/b"));
}

#[test]
fn profile_overrides_base() {
    let mut f = file(PartialConfig {
        permission_mode: Some(PermissionMode::Default),
        ..model("anthropic/sonnet-4-6")
    });
    f.profiles.put(
        "work",
        PartialConfig {
            permission_mode: Some(PermissionMode::AcceptEdits),
            ..model("openai/gpt-5.1")
        },
    );
    let o = LoadOpts { profile: Some("work".into()), ..opts() };
    let config = Config::load(&o, &Some(f), &None, &env()).unwrap();
    assert_eq!(config.model.as_deref(), Some("openai/gpt-5.1"));
    assert_eq!(config.permission_mode, PermissionMode::AcceptEdits);
}

#[test]
fn cli_override_beats_file() {
    let o = LoadOpts { overrides: vec![set("model", "openai/from-cli")], ..opts() };
    let config =
        Config::load(&o, &Some(file(model("anthropic/from-file"))), &None, &env()).unwrap();
    assert_eq!(config.model.as_deref(), Some("openai/from-cli"));
}

#[test]
fn environment_stands_between_files_and_profiles() {
    let mut f = file(model("a/file"));
    f.profiles.put("p", PartialConfig { small_model: Some("s".into()), ..none() });
    let e = Environment {
        model: Some("b/env".into()),
        permission_mode: Some("bypass".into()),
        small_model: Some("".into()),
        profile: Some("p".into()),
    };
    let config = Config::load(&opts(), &Some(f), &None, &e).unwrap();
    assert_eq!(config.model.as_deref(), Some("b/env"));
    assert_eq!(config.permission_mode, PermissionMode::Bypass);
    assert_eq!(config.small_model.as_deref(), Some("s"));
    let bad = Environment { permission_mode: Some("x".into()), ..env() };
    assert_eq!(
        Config::load(&opts(), &None, &None, &bad).unwrap_err(),
        "permission_mode 无效: x(可选: default/plan/accept-edits/bypass)"
    );
}

#[test]
fn profiles_have_the_last_word() {
    let mut f = file(none());
    f.profiles.put("work", model("openai/gpt-5.1"));
    let o = LoadOpts {
        profile: Some("work".into()),
        overrides: vec![set("model", "openai/from-cli"), set("editor", "ed")],
        ..opts()
    };
    let config = Config::load(&o, &Some(f), &None, &env()).unwrap();
    assert_eq!(config.model.as_deref(), Some("openai/gpt-5.1"));
    assert_eq!(config.editor, "ed");
    let o = LoadOpts { profile: Some("nowhere".into()), ..o };
    let config = Config::load(&o, &None, &None, &env()).unwrap();
    assert_eq!(config.model.as_deref(), Some("openai/from-cli"));
}

#[test]
fn bad_settings_change_nothing() {
    let mut c = Config::default();
    for (key, value, message) in [
        ("nope", "1", "不支持的配置键: nope"),
        ("model_providers.x.nope", "1", "不支持的 provider 字段: nope"),
        ("max_turn_steps", "x", "max_turn_steps 无效: invalid digit found in string"),
        ("exec_timeout_ms", "", "exec_timeout_ms 无效: cannot parse integer from empty string"),
        (
            "max_turn_steps",
            "4294967296",
            "max_turn_steps 无效: number too large to fit in target type",
        ),
        (
            "model_providers.x.wire_api",
            "telnet",
            "wire_api 无效: telnet(可选: anthropic/openai-responses/openai-chat)",
        ),
    ] {
        assert_eq!(c.apply_override(&set(key, value)).unwrap_err(), message);
    }
    assert!(c.model_providers.get("x").is_none());
    c.apply_override(&set("max_turn_steps", "+7")).unwrap();
    assert_eq!(c.max_turn_steps, 7);
}

#[test]
fn numbers_are_read_as_std_reads_them() {
    assert_eq!(parse_number("0", 10), Ok(0));
    assert_eq!(parse_number("+10", 10), Ok(10));
    assert_eq!(parse_number("11", 10), Err(BadNumber::TooLarge));
    assert_eq!(parse_number("+", 10), Err(BadNumber::NotADigit));
    assert_eq!(parse_number("-1", 10), Err(BadNumber::NotADigit));
    assert_eq!(parse_number("", 10), Err(BadNumber::Empty));
    assert_eq!(parse_number("18446744073709551615", u64::MAX), Ok(u64::MAX));
    for s in ["", "+", "7", "+7", "4294967295", "4294967296", "99999999999x", "1x", "０"] {
        let std = s.parse::<u32>().map(u64::from).map_err(|e| e.to_string());
        let own = parse_number(s, u32::MAX as u64).map_err(|e| e.message().to_string());
        assert_eq!(own, std, "{s}");
    }
}

#[test]
fn hooks_add_up() {
    let hook = |c: &str| HookConfig { matcher: "*".into(), command: c.into(), timeout_ms: 5000 };
    let mut a = HooksConfig::none();
    assert!(a.is_empty());
    a.pre_tool_use.push(hook("one"));
    let mut b = HooksConfig::none();
    b.pre_tool_use.push(hook("two"));
    b.stop.push(hook("three"));
    a.merge(&b);
    assert!(!a.is_empty());
    let commands: Vec<&str> = a.pre_tool_use.iter().map(|h| h.command.as_str()).collect();
    assert_eq!(commands, ["one", "two"]);
    assert_eq!(a.stop.len(), 1);
}

#[test]
fn other_defaults() {
    let s = SessionsConfig::default();
    assert_eq!((s.keep_days, s.max_session_mb), (30, 50));
    let m = McpServerConfig::default();
    assert_eq!(m.startup_timeout_ms, 10_000);
    assert_eq!(AnthropicAuth::default(), AnthropicAuth::ApiKey);
    assert_eq!(default_config("/home/x"), "/home/x/.tao/config.toml");
    assert_eq!(parse_permission_mode("plan"), Ok(PermissionMode::Plan));
    assert_eq!(parse_wire_api("openai-chat"), Ok(WireApi::OpenaiChat));
}

#[test]
fn resolve_anthropic_provider() {
    let c = with_model("anthropic/sonnet-4-6");
    let plan = resolve(&c, Some("sk-test-key")).unwrap();
    assert_eq!(plan.model_id, "sonnet-4-6");
    assert_eq!(plan.wire_api, WireApi::Anthropic);
    assert_eq!(plan.base_url, "https://api.anthropic.com");
    assert_eq!(find_provider(&c).unwrap().1.env_key, "ANTHROPIC_API_KEY");
}

#[test]
fn resolve_custom_chat_provider() {
    let mut c = with_model("deepseek/deepseek-chat");
    c.model_providers.put(
        "deepseek",
        provider("DeepSeek", "https://api.deepseek.com", "DEEPSEEK_API_KEY"),
    );
    assert_eq!(resolve(&c, Some("sk-deepseek")).unwrap().model_id, "deepseek-chat");
    let mut ids = list_provider_ids(&c);
    ids.sort();
    assert_eq!(ids, ["anthropic", "deepseek", "openai"]);
}

#[test]
fn resolve_missing_api_key_errors() {
    let mut c = with_model("custom/model-x");
    c.model_providers.put(
        "custom",
        provider("Custom", "https://example.com", "NONEXISTENT_KEY_FOR_TEST"),
    );
    assert!(matches!(resolve(&c, None), Err(ModelError::Auth(_))));
    assert!(matches!(resolve(&c, Some("")), Err(ModelError::Auth(_))));
    let p = c.model_providers.get("custom").unwrap();
    assert_eq!(
        check_credential(p, None).unwrap_err(),
        "环境变量 NONEXISTENT_KEY_FOR_TEST 未设置"
    );
    assert_eq!(
        check_credential(p, Some("")).unwrap_err(),
        "环境变量 NONEXISTENT_KEY_FOR_TEST 为空"
    );
    assert!(check_credential(p, Some("k")).is_ok());
}

#[test]
fn resolve_unknown_provider_errors() {
    let o = LoadOpts { overrides: vec![set("model", "unknown-provider/some-model")], ..opts() };
    let config = Config::load(&o, &None, &None, &env()).unwrap();
    assert!(matches!(resolve(&config, Some("k")), Err(ModelError::Build(_))));
    assert!(matches!(resolve(&Config::default(), Some("k")), Err(ModelError::Build(_))));
}

#[test]
fn command_line_settings() {
    let raw = vec!["model=a/b".to_string(), "editor=vi=m".to_string()];
    let v = parse_overrides(&raw).unwrap();
    assert_eq!(v, vec![set("model", "a/b"), set("editor", "vi=m")]);
    assert_eq!(
        parse_overrides(&vec!["nope".to_string()]).unwrap_err(),
        "配置覆盖格式错误: nope(应为 key=value)"
    );
    let o = build_load_opts(&raw, &Some("p".into()), true).unwrap();
    assert_eq!(o.profile.as_deref(), Some("p"));
    assert_eq!(o.overrides[2], set("permission_mode", "bypass"));
    let c = Config::load(&o, &None, &None, &env()).unwrap();
    assert_eq!(c.permission_mode, PermissionMode::Bypass);
}

#[test]
fn trusted_projects_come_from_the_settings() {
    let mut c = Config::default();
    assert!(c.trusted_projects.is_empty());
    c.merge_file(&FileConfig { trusted_projects: vec!["/a".into()], ..file(none()) });
    c.merge_file(&FileConfig { trusted_projects: vec!["/b".into()], ..file(none()) });
    let t = tao::session::TurnConfig::from_settings(&c);
    assert_eq!((t.max_steps, t.trusted_projects), (100, vec!["/a".to_string(), "/b".to_string()]));
}

//! What settings come to.
use vstd::prelude::*;

use crate::config::AnthropicAuth;
use crate::config::BadNumber;
use crate::config::CliOverrideView;
use crate::config::ConfigView;
use crate::config::EnvironmentView;
use crate::config::FileConfigView;
use crate::config::HooksConfigView;
use crate::config::ModelProviderConfigView;
use crate::config::PartialConfigView;
use crate::config::WireApi;
use crate::config::built_in;
use crate::config::chosen;
use crate::config::digits_value;
use crate::config::filed;
use crate::config::hooks_at;
use crate::config::in_environment;
use crate::config::layered;
use crate::config::maybe_filed;
use crate::config::model_of;
use crate::config::number_value;
use crate::config::overridden;
use crate::config::provider_key;
use crate::config::provider_of;
use crate::hooks::HookEventView;
use crate::laws::texts::lemma_first_at;
use crate::laws::texts::lemma_first_missing;
use crate::permission::PermissionMode;
use crate::permission::PermissionRuleView;
use crate::text::decimal_of;

verus! {

/// A partial configuration decides every setting that it has, and leaves every other as it
/// was.
pub proof fn law_settings_are_taken_over(c: ConfigView, p: PartialConfigView)
    ensures
        ({
            let r = chosen(c, p);
            &&& r.model == match p.model {
                Some(v) => Some(v),
                None => c.model,
            }
            &&& r.model_provider == match p.model_provider {
                Some(v) => Some(v),
                None => c.model_provider,
            }
            &&& r.small_model == match p.small_model {
                Some(v) => Some(v),
                None => c.small_model,
            }
            &&& r.reasoning_effort == match p.reasoning_effort {
                Some(v) => Some(v),
                None => c.reasoning_effort,
            }
            &&& r.permission_mode == match p.permission_mode {
                Some(v) => v,
                None => c.permission_mode,
            }
            &&& r.auto_compact_at == match p.auto_compact_at {
                Some(v) => v,
                None => c.auto_compact_at,
            }
            &&& r.max_turn_steps == match p.max_turn_steps {
                Some(v) => v,
                None => c.max_turn_steps,
            }
            &&& r.exec_timeout_ms == match p.exec_timeout_ms {
                Some(v) => v,
                None => c.exec_timeout_ms,
            }
            &&& r.editor == match p.editor {
                Some(v) => v,
                None => c.editor,
            }
            &&& r.request_max_retries == match p.request_max_retries {
                Some(v) => v,
                None => c.request_max_retries,
            }
            &&& r.stream_idle_timeout_ms == match p.stream_idle_timeout_ms {
                Some(v) => v,
                None => c.stream_idle_timeout_ms,
            }
            &&& r.model_providers == c.model_providers && r.profiles == c.profiles && r.sessions == c.sessions && r.permissions == c.permissions
            &&& r.hooks == c.hooks && r.mcp_servers == c.mcp_servers && r.trusted_projects == c.trusted_projects
        }),
{
}

/// A file decides the settings that it has. Its rules, hooks and trusted projects stand
/// behind those that were there; its providers, profiles and servers replace those of the
/// same name and no other.
pub proof fn law_files_add_up(c: ConfigView, f: FileConfigView, k: Seq<char>)
    ensures
        ({
            let r = filed(c, f);
            let s = chosen(c, f.base);
            &&& r.model == s.model && r.model_provider == s.model_provider && r.small_model == s.small_model && r.reasoning_effort == s.reasoning_effort && r.permission_mode == s.permission_mode && r.auto_compact_at == s.auto_compact_at && r.max_turn_steps == s.max_turn_steps && r.exec_timeout_ms == s.exec_timeout_ms && r.editor == s.editor && r.request_max_retries == s.request_max_retries && r.stream_idle_timeout_ms == s.stream_idle_timeout_ms
            &&& r.sessions.keep_days == match f.sessions.keep_days {
                Some(n) => n,
                None => c.sessions.keep_days,
            }
            &&& r.sessions.max_session_mb == match f.sessions.max_session_mb {
                Some(n) => n,
                None => c.sessions.max_session_mb,
            }
            &&& r.permissions.rules == c.permissions.rules + f.rules
            &&& r.trusted_projects == c.trusted_projects + f.trusted_projects
            &&& r.hooks.pre_tool_use == c.hooks.pre_tool_use + f.hooks.pre_tool_use
            &&& r.hooks.post_tool_use == c.hooks.post_tool_use + f.hooks.post_tool_use
            &&& r.hooks.session_start == c.hooks.session_start + f.hooks.session_start
            &&& r.hooks.session_end == c.hooks.session_end + f.hooks.session_end
            &&& r.hooks.user_prompt_submit == c.hooks.user_prompt_submit + f.hooks.user_prompt_submit
            &&& r.hooks.notification == c.hooks.notification + f.hooks.notification
            &&& r.hooks.subagent_stop == c.hooks.subagent_stop + f.hooks.subagent_stop
            &&& r.hooks.stop == c.hooks.stop + f.hooks.stop
            &&& f.model_providers.contains_key(k) ==> r.model_providers.contains_key(k) && r.model_providers[k] == f.model_providers[k]
            &&& !f.model_providers.contains_key(k) ==> (r.model_providers.contains_key(k) <==> c.model_providers.contains_key(k)) && (
            c.model_providers.contains_key(k) ==> r.model_providers[k] == c.model_providers[k])
            &&& f.profiles.contains_key(k) ==> r.profiles.contains_key(k) && r.profiles[k] == f.profiles[k]
            &&& !f.profiles.contains_key(k) ==> (r.profiles.contains_key(k) <==> c.profiles.contains_key(k)) && (
            c.profiles.contains_key(k) ==> r.profiles[k] == c.profiles[k])
            &&& f.mcp_servers.contains_key(k) ==> r.mcp_servers.contains_key(k) && r.mcp_servers[k] == f.mcp_servers[k]
            &&& !f.mcp_servers.contains_key(k) ==> (r.mcp_servers.contains_key(k) <==> c.mcp_servers.contains_key(k)) && (
            c.mcp_servers.contains_key(k) ==> r.mcp_servers[k] == c.mcp_servers[k])
        }),
{
}

/// An override decides the one setting that its key names.
pub proof fn law_overrides_go_by_key(c: ConfigView, v: Seq<char>)
    ensures
        overridden(c, "model"@, v) == Ok::<_, Seq<char>>(ConfigView { model: Some(v), ..c }),
        overridden(c, "model_provider"@, v) == Ok::<_, Seq<char>>(
            ConfigView { model_provider: Some(v), ..c },
        ),
        overridden(c, "small_model"@, v) == Ok::<_, Seq<char>>(
            ConfigView { small_model: Some(v), ..c },
        ),
        overridden(c, "editor"@, v) == Ok::<_, Seq<char>>(ConfigView { editor: v, ..c }),
        overridden(c, "auto_compact_at"@, v) == Ok::<_, Seq<char>>(
            ConfigView { auto_compact_at: v, ..c },
        ),
        overridden(c, "permission_mode"@, "default"@) == Ok::<_, Seq<char>>(
            ConfigView { permission_mode: PermissionMode::Default, ..c },
        ),
        overridden(c, "permission_mode"@, "plan"@) == Ok::<_, Seq<char>>(
            ConfigView { permission_mode: PermissionMode::Plan, ..c },
        ),
        overridden(c, "permission_mode"@, "accept-edits"@) == Ok::<_, Seq<char>>(
            ConfigView { permission_mode: PermissionMode::AcceptEdits, ..c },
        ),
        overridden(c, "permission_mode"@, "bypass"@) == Ok::<_, Seq<char>>(
            ConfigView { permission_mode: PermissionMode::Bypass, ..c },
        ),
        v != "default"@ && v != "plan"@ && v != "accept-edits"@ && v != "bypass"@ ==> overridden(
            c,
            "permission_mode"@,
            v,
        ) is Err,
{
    lemma_keys();
    reveal_strlit("default");
    reveal_strlit("plan");
    reveal_strlit("accept-edits");
    reveal_strlit("bypass");
    assert("default"@.len() == 7 && "plan"@.len() == 4 && "accept-edits"@.len() == 12 && "bypass"@.len() == 6);
}

/// Numbers among the overrides are read in decimal, up to the largest that the setting can
/// hold.
pub proof fn law_numbers_are_read(c: ConfigView, n: nat)
    ensures
        n <= u32::MAX ==> overridden(c, "max_turn_steps"@, decimal_of(n)) == Ok::<_, Seq<char>>(
            ConfigView { max_turn_steps: n as u32, ..c },
        ),
        n <= u64::MAX ==> overridden(c, "exec_timeout_ms"@, decimal_of(n)) == Ok::<_, Seq<char>>(
            ConfigView { exec_timeout_ms: n as u64, ..c },
        ),
        n > u32::MAX ==> overridden(c, "max_turn_steps"@, decimal_of(n)) is Err,
        n > u64::MAX ==> overridden(c, "exec_timeout_ms"@, decimal_of(n)) is Err,
        overridden(c, "max_turn_steps"@, Seq::empty()) is Err,
{
    lemma_keys();
    lemma_number(n, u32::MAX as nat);
    lemma_number(n, u64::MAX as nat);
}

/// A field of a provider is set under the provider's name, which is made where there is
/// none; every other field and every other provider stays.
pub proof fn law_providers_are_overridden(c: ConfigView, id: Seq<char>, v: Seq<char>)
    requires
        !id.contains('.'),
    ensures
        ({
            let p = if c.model_providers.contains_key(id) {
                c.model_providers[id]
            } else {
                ModelProviderConfigView {
                    name: id,
                    base_url: Seq::empty(),
                    wire_api: WireApi::OpenaiChat,
                    env_key: Seq::empty(),
                    anthropic_auth: AnthropicAuth::ApiKey,
                    headers: Map::empty(),
                }
            };
            let set = |field: Seq<char>, value: Seq<char>|
                overridden(c, "model_providers."@ + id + "."@ + field, value);
            let with = |q: ModelProviderConfigView|
                Ok::<ConfigView, Seq<char>>(
                    ConfigView { model_providers: c.model_providers.insert(id, q), ..c },
                );
            &&& set("base_url"@, v) == with(ModelProviderConfigView { base_url: v, ..p })
            &&& set("env_key"@, v) == with(ModelProviderConfigView { env_key: v, ..p })
            &&& set("name"@, v) == with(ModelProviderConfigView { name: v, ..p })
            &&& set("wire_api"@, "anthropic"@) == with(
                ModelProviderConfigView { wire_api: WireApi::Anthropic, ..p },
            )
            &&& set("wire_api"@, "openai-responses"@) == with(
                ModelProviderConfigView { wire_api: WireApi::OpenaiResponses, ..p },
            )
            &&& set("wire_api"@, "openai-chat"@) == with(
                ModelProviderConfigView { wire_api: WireApi::OpenaiChat, ..p },
            )
        }),
{
    reveal_strlit("base_url");
    reveal_strlit("env_key");
    reveal_strlit("name");
    reveal_strlit("wire_api");
    reveal_strlit("anthropic");
    reveal_strlit("openai-responses");
    reveal_strlit("openai-chat");
    assert("base_url"@.len() == 8 && "env_key"@.len() == 7 && "name"@.len() == 4 && "wire_api"@.len() == 8 && "anthropic"@.len() == 9 && "openai-responses"@.len() == 16 && "openai-chat"@.len() == 11);
    assert("base_url"@[0] != "wire_api"@[0]);
    lemma_provider_key(id, "base_url"@);
    lemma_provider_key(id, "env_key"@);
    lemma_provider_key(id, "name"@);
    lemma_provider_key(id, "wire_api"@);
}

/// The environment decides over the files, as far as it says anything; what it says of the
/// mode must be a mode.
pub proof fn law_environment_decides_over_files(
    user: Option<FileConfigView>,
    project: Option<FileConfigView>,
    env: EnvironmentView,
    m: Seq<char>,
)
    requires
        m.len() > 0,
        env.profile is None,
    ensures
        ({
            let r = layered(user, project, env, None, Seq::empty());
            let bare = layered(
                user,
                project,
                EnvironmentView { model: None, permission_mode: None, small_model: None, profile: None },
                None,
                Seq::empty(),
            );
            &&& env.permission_mode == Some(m) && PermissionMode::named(m) is None ==> r is Err
            &&& env.permission_mode == Some(m) && PermissionMode::named(m) is Some ==> r is Ok
                && Some(r->Ok_0.permission_mode) == PermissionMode::named(m)
            &&& bare is Ok
            &&& env.permission_mode is None || env.permission_mode->0.len() == 0 ==> r is Ok
                && r->Ok_0.permission_mode == bare->Ok_0.permission_mode
            &&& r is Ok && env.model == Some(m) ==> r->Ok_0.model == Some(m)
            &&& r is Ok && (env.model is None || env.model->0.len() == 0) ==> r->Ok_0.model
                == bare->Ok_0.model
            &&& r is Ok && env.small_model == Some(m) ==> r->Ok_0.small_model == Some(m)
            &&& r is Ok && (env.small_model is None || env.small_model->0.len() == 0)
                ==> r->Ok_0.small_model == bare->Ok_0.small_model
            &&& r is Ok ==> r->Ok_0.permissions == bare->Ok_0.permissions && r->Ok_0.model_providers
                == bare->Ok_0.model_providers && r->Ok_0.hooks == bare->Ok_0.hooks
        }),
{
}

/// The project's file decides over the user's, and that over what is built in.
pub proof fn law_project_decides_over_user(
    user: FileConfigView,
    project: FileConfigView,
    k: Seq<char>,
)
    ensures
        ({
            let env = EnvironmentView {
                model: None,
                permission_mode: None,
                small_model: None,
                profile: None,
            };
            let r = layered(Some(user), Some(project), env, None, Seq::empty());
            let only = layered(Some(user), None, env, None, Seq::empty());
            let none = layered(None, None, env, None, Seq::empty());
            &&& r is Ok && only is Ok && none is Ok
            &&& r->Ok_0 == filed(only->Ok_0, project)
            &&& only->Ok_0 == filed(none->Ok_0, user)
            &&& project.base.model is Some ==> r->Ok_0.model == project.base.model
            &&& project.base.model is None && user.base.model is Some ==> r->Ok_0.model
                == user.base.model
            &&& r->Ok_0.permissions.rules == user.rules + project.rules
            &&& project.model_providers.contains_key(k) ==> r->Ok_0.model_providers[k]
                == project.model_providers[k]
        }),
{
    assert(Seq::<PermissionRuleView>::empty() + user.rules =~= user.rules);
}

/// Overrides come one after another, over files and environment; the profile is laid over
/// all, the one that is asked for before the one that the environment names.
pub proof fn law_overrides_and_profiles_come_last(
    user: Option<FileConfigView>,
    project: Option<FileConfigView>,
    env: EnvironmentView,
    overrides: Seq<CliOverrideView>,
    one: CliOverrideView,
    name: Seq<char>,
)
    ensures
        ({
            let plain = EnvironmentView { profile: None, ..env };
            let before = layered(user, project, plain, None, overrides);
            let after = layered(user, project, plain, None, overrides.push(one));
            let over = layered(user, project, env, Some(name), overrides);
            let named = layered(
                user,
                project,
                EnvironmentView { profile: Some(name), ..env },
                None,
                overrides,
            );
            &&& before matches Ok(c) ==> after == overridden(c, one.key, one.value)
            &&& before is Err ==> after == before
            &&& before matches Ok(c) ==> over == Ok::<_, Seq<char>>(
                if c.profiles.contains_key(name) {
                    chosen(c, c.profiles[name])
                } else {
                    c
                },
            )
            &&& over == named
        }),
{
    let plain = EnvironmentView { profile: None, ..env };
    assert(overrides.push(one).drop_last() =~= overrides);
    let c = maybe_filed(maybe_filed(built_in(), user), project);
    assert(in_environment(c, env) == in_environment(c, plain));
}

/// The model stands behind the first slash of its full name, and the provider before it
/// unless it is named apart.
pub proof fn law_models_are_named(c: ConfigView, m: Seq<char>)
    requires
        c.model == Some(m),
    ensures
        !m.contains('/') ==> model_of(c) == Some(m),
        !m.contains('/') && c.model_provider is None ==> provider_of(c) is None,
        c.model_provider is Some ==> provider_of(c) == c.model_provider,
{
    reveal_strlit("/");
    if !m.contains('/') {
        lemma_first_missing(m, "/"@);
    }
}

/// Each event has the hooks of its own kind.
pub proof fn law_hooks_go_by_event(h: HooksConfigView, e: HookEventView)
    ensures
        e is SessionStart ==> hooks_at(h, e) == h.session_start,
        e is SessionEnd ==> hooks_at(h, e) == h.session_end,
        e is PreToolUse ==> hooks_at(h, e) == h.pre_tool_use,
        e is PostToolUse ==> hooks_at(h, e) == h.post_tool_use,
        e is UserPromptSubmit ==> hooks_at(h, e) == h.user_prompt_submit,
        e is Notification ==> hooks_at(h, e) == h.notification,
        e is SubagentStop ==> hooks_at(h, e) == h.subagent_stop,
        e is Stop ==> hooks_at(h, e) == h.stop,
{
}

/// What holds where nothing is configured: every call is asked about by default, a turn has
/// a hundred steps, a command two minutes, a request four retries, and sessions are kept
/// for thirty days.
pub proof fn law_built_in_settings()
    ensures
        ({
            let c = built_in();
            &&& c.permission_mode == PermissionMode::Default
            &&& c.model is None && c.model_provider is None && c.small_model is None
            &&& c.max_turn_steps == 100 && c.exec_timeout_ms == 120000
            &&& c.request_max_retries == 4 && c.stream_idle_timeout_ms == 60000
            &&& c.auto_compact_at == "0.92"@ && c.editor == "vim"@
            &&& c.sessions.keep_days == 30 && c.sessions.max_session_mb == 50
            &&& c.permissions.rules.len() == 0 && c.trusted_projects.len() == 0
            &&& c.model_providers.contains_key("anthropic"@) && c.model_providers["anthropic"@].wire_api
                == WireApi::Anthropic && c.model_providers["anthropic"@].env_key
                == "ANTHROPIC_API_KEY"@ && c.model_providers["anthropic"@].base_url
                == "https://api.anthropic.com"@
            &&& c.model_providers.contains_key("openai"@) && c.model_providers["openai"@].wire_api
                == WireApi::OpenaiResponses && c.model_providers["openai"@].env_key
                == "OPENAI_API_KEY"@ && c.model_providers["openai"@].base_url
                == "https://api.openai.com"@
        }),
{
    reveal_strlit("anthropic");
    reveal_strlit("openai");
    assert("anthropic"@.len() == 9 && "openai"@.len() == 6);
}

// ---- lemmas ----

proof fn lemma_keys()
    ensures
        "model"@.len() == 5 && "model_provider"@.len() == 14 && "permission_mode"@.len() == 15
            && "small_model"@.len() == 11 && "editor"@.len() == 6 && "max_turn_steps"@.len() == 14
            && "exec_timeout_ms"@.len() == 15 && "auto_compact_at"@.len() == 15,
        "model_provider"@ != "max_turn_steps"@,
        "permission_mode"@ != "exec_timeout_ms"@ && "permission_mode"@ != "auto_compact_at"@
            && "exec_timeout_ms"@ != "auto_compact_at"@,
{
    reveal_strlit("model");
    reveal_strlit("model_provider");
    reveal_strlit("permission_mode");
    reveal_strlit("small_model");
    reveal_strlit("editor");
    reveal_strlit("max_turn_steps");
    reveal_strlit("exec_timeout_ms");
    reveal_strlit("auto_compact_at");
    assert("model"@.len() == 5 && "model_provider"@.len() == 14 && "permission_mode"@.len() == 15 && "small_model"@.len() == 11 && "editor"@.len() == 6 && "max_turn_steps"@.len() == 14 && "exec_timeout_ms"@.len() == 15 && "auto_compact_at"@.len() == 15);
    assert("model_provider"@[1] != "max_turn_steps"@[1]);
    assert("permission_mode"@[0] != "exec_timeout_ms"@[0]);
    assert("permission_mode"@[0] != "auto_compact_at"@[0]);
    assert("exec_timeout_ms"@[0] != "auto_compact_at"@[0]);
}

proof fn lemma_provider_key(id: Seq<char>, field: Seq<char>)
    requires
        !id.contains('.'),
    ensures
        ({
            let key = "model_providers."@ + id + "."@ + field;
            &&& provider_key(key) == Some((id, field))
            &&& key != "model"@ && key != "model_provider"@ && key != "permission_mode"@ && key
                != "small_model"@ && key != "editor"@ && key != "max_turn_steps"@ && key
                != "exec_timeout_ms"@ && key != "auto_compact_at"@
        }),
{
    lemma_keys();
    reveal_strlit("model_providers.");
    reveal_strlit(".");
    assert("model_providers."@.len() == 16 && "."@.len() == 1);
    let p = "model_providers."@;
    let rest = id + "."@ + field;
    let key = p + id + "."@ + field;
    assert(key =~= p + rest);
    assert(key.take(16) =~= p);
    assert(p.is_prefix_of(key));
    assert(key.skip(16) =~= rest);
    lemma_first_at(id, "."@, field);
    assert(rest.take(id.len() as int) =~= id);
    assert(rest.skip(id.len() as int + 1) =~= field);
}

proof fn lemma_number(n: nat, max: nat)
    ensures
        n <= max ==> number_value(decimal_of(n), max) == Ok::<_, BadNumber>(n),
        n > max ==> number_value(decimal_of(n), max) is Err,
{
    lemma_digits(n, max);
    let d = decimal_of(n);
    assert(d[0] != '+');
    assert(d != seq!['+']) by {
        if d == seq!['+'] {
            assert(d[0] == '+');
        }
    }
}

proof fn lemma_digits(n: nat, max: nat)
    ensures
        decimal_of(n).len() > 0,
        '0' <= decimal_of(n)[0] <= '9',
        n <= max ==> digits_value(decimal_of(n), max) == Ok::<_, BadNumber>(n),
        n > max ==> digits_value(decimal_of(n), max) is Err,
    decreases n,
{
    let d = decimal_of(n);
    if n < 10 {
        assert(d.drop_last() =~= Seq::<char>::empty());
        assert(digits_value(d.drop_last(), max) == Ok::<nat, BadNumber>(0));
    } else {
        lemma_digits(n / 10, max);
        assert(d.drop_last() =~= decimal_of(n / 10));
        assert(n == (n / 10) * 10 + n % 10);
        assert(d[0] == decimal_of(n / 10)[0]);
    }
}

} // verus!

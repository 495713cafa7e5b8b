//! Which provider is spoken to, and with which key.
use vstd::prelude::*;
use vstd::string::*;

use crate::compact::DEFAULT_CONTEXT_WINDOW;
use crate::config::AnthropicAuth;
use crate::config::Config;
use crate::config::ConfigView;
use crate::config::ModelProviderConfig;
use crate::config::ModelProviderConfigView;
use crate::config::WireApi;
use crate::config::model_of;
use crate::config::provider_of;
use crate::dup::Dup;
use crate::json::Json;
use crate::json::JsonView;
use crate::model::ModelError;
use crate::model::ModelErrorView;
use crate::model::ModelRequest;
use crate::model::ModelRequestView;
use crate::providers::common::endpoint;
use crate::providers::common::endpoint_of;
use crate::replay::pairs_view;
use crate::text::cat3;
use crate::text::cat;
use crate::text::occurs;
use crate::text::views;
use crate::text::without_tail;

verus! {

/// The provider that settings name, or what is wrong with them. The example in the message
/// has a placeholder where a model's id goes.
pub open spec fn provider_in(c: ConfigView) -> Result<(Seq<char>, ModelProviderConfigView), ModelErrorView> {
    match provider_of(c) {
        None => Err(
            ModelErrorView::Build(
                "未指定 model 或 model_provider(例:anthropic/<model-id>)"@,
            ),
        ),
        Some(id) => if c.model_providers.contains_key(id) {
            Ok((id, c.model_providers[id]))
        } else {
            Err(
                ModelErrorView::Build(
                    "未知 provider: "@ + id + "(在 model_providers 里定义它)"@,
                ),
            )
        },
    }
}

/// The provider that settings name; its key is to be read from the environment.
pub fn find_provider(config: &Config) -> (r: Result<(String, ModelProviderConfig), ModelError>)
    ensures
        match provider_in(config.deep_view()) {
            Ok((id, p)) => r matches Ok(x) && x.0@ == id && x.1.deep_view() == p,
            Err(e) => r matches Err(x) && x.deep_view() == e,
        },
{
    match config.current_provider_id() {
        None => Err(
            ModelError::Build(
                "未指定 model 或 model_provider(例:anthropic/<model-id>)".to_owned(),
            ),
        ),
        Some(id) => match config.model_providers.get(id.as_str()) {
            Some(p) => {
                let p = p.dup();
                Ok((id, p))
            },
            None => Err(
                ModelError::Build(
                    cat3("未知 provider: ", id.as_str(), "(在 model_providers 里定义它)"),
                ),
            ),
        },
    }
}

/// The model of `ClientPlan`.
pub struct ClientPlanView {
    pub wire_api: WireApi,
    pub base_url: Seq<char>,
    pub auth: AnthropicAuth,
    pub api_key: Seq<char>,
    pub model_id: Seq<char>,
}

/// How the model is reached.
#[derive(Debug, PartialEq)]
pub struct ClientPlan {
    pub wire_api: WireApi,
    pub base_url: String,
    /// How the key is sent, where the provider is spoken to as Anthropic.
    pub auth: AnthropicAuth,
    pub api_key: String,
    pub model_id: String,
}

impl DeepView for ClientPlan {
    type V = ClientPlanView;

    open spec fn deep_view(&self) -> ClientPlanView {
        ClientPlanView {
            wire_api: self.wire_api,
            base_url: self.base_url@,
            auth: self.auth,
            api_key: self.api_key@,
            model_id: self.model_id@,
        }
    }
}

/// How the model is reached with the key that the environment holds, or what is
/// missing.
pub open spec fn resolved_client(c: ConfigView, key: Option<Seq<char>>) -> Result<
    ClientPlanView,
    ModelErrorView,
> {
    match provider_in(c) {
        Err(e) => Err(e),
        Ok((id, p)) => match key {
            None => Err(
                ModelErrorView::Auth(
                    "环境变量 "@ + p.env_key + " 未设置(provider: "@ + id + ")"@,
                ),
            ),
            Some(k) => if k.len() == 0 {
                Err(
                    ModelErrorView::Auth(
                        "环境变量 "@ + p.env_key + " 为空(provider: "@ + id + ")"@,
                    ),
                )
            } else {
                match model_of(c) {
                    None => Err(
                        ModelErrorView::Build("未指定 model(例:anthropic/<model-id>)"@),
                    ),
                    Some(m) => Ok(
                        ClientPlanView {
                            wire_api: p.wire_api,
                            base_url: p.base_url,
                            auth: p.anthropic_auth,
                            api_key: k,
                            model_id: m,
                        },
                    ),
                }
            },
        },
    }
}

/// How the model is reached, given what the environment holds under the provider's
/// variable.
pub fn resolve(config: &Config, key: Option<&str>) -> (r: Result<ClientPlan, ModelError>)
    ensures
        match resolved_client(
            config.deep_view(),
            match key {
                Some(k) => Some(k@),
                None => None,
            },
        ) {
            Ok(p) => r matches Ok(x) && x.deep_view() == p,
            Err(e) => r matches Err(x) && x.deep_view() == e,
        },
{
    let (id, p) = match find_provider(config) {
        Ok(x) => x,
        Err(e) => return Err(e),
    };
    match key {
        None => {
            let head = cat3("环境变量 ", p.env_key.as_str(), " 未设置(provider: ");
            Err(ModelError::Auth(cat3(head.as_str(), id.as_str(), ")")))
        },
        Some(k) => {
            if k.unicode_len() == 0 {
                let head = cat3("环境变量 ", p.env_key.as_str(), " 为空(provider: ");
                return Err(ModelError::Auth(cat3(head.as_str(), id.as_str(), ")")));
            }
            match config.current_model_id() {
                None => Err(
                    ModelError::Build("未指定 model(例:anthropic/<model-id>)".to_owned()),
                ),
                Some(m) => Ok(
                    ClientPlan {
                        wire_api: p.wire_api,
                        base_url: p.base_url,
                        auth: p.anthropic_auth,
                        api_key: k.to_owned(),
                        model_id: m,
                    },
                ),
            }
        },
    }
}

/// The identifiers of all providers.
pub fn list_provider_ids(config: &Config) -> (r: Vec<String>)
    ensures
        views(r@).no_duplicates(),
        forall|k: Seq<char>| #[trigger]
            views(r@).contains(k) <==> config.deep_view().model_providers.contains_key(k),
{
    config.model_providers.keys()
}

/// Whether a provider's key is there, given what the environment holds under its
/// variable.
pub fn check_credential(provider: &ModelProviderConfig, value: Option<&str>) -> (r: Result<(), String>)
    ensures
        match value {
            None => r matches Err(e) && e@ == "环境变量 "@ + provider.env_key@ + " 未设置"@,
            Some(v) => if v@.len() == 0 {
                r matches Err(e) && e@ == "环境变量 "@ + provider.env_key@ + " 为空"@
            } else {
                r is Ok
            },
        },
{
    match value {
        None => Err(cat3("环境变量 ", provider.env_key.as_str(), " 未设置")),
        Some(v) => if v.unicode_len() == 0 {
            Err(cat3("环境变量 ", provider.env_key.as_str(), " 为空"))
        } else {
            Ok(())
        },
    }
}

// ---- requests ----

/// The model of `HttpCall`.
pub struct HttpCallView {
    pub url: Seq<char>,
    pub headers: Seq<(Seq<char>, Seq<char>)>,
    pub body: JsonView,
}

/// What is sent to a provider.
#[derive(Debug, PartialEq)]
pub struct HttpCall {
    pub url: String,
    pub headers: Vec<(String, String)>,
    pub body: Json,
}

impl DeepView for HttpCall {
    type V = HttpCallView;

    open spec fn deep_view(&self) -> HttpCallView {
        HttpCallView { url: self.url@, headers: pairs_view(self.headers@), body: self.body@ }
    }
}

/// What is sent to a provider for a request.
pub open spec fn http_call(p: ClientPlanView, req: ModelRequestView) -> HttpCallView {
    match p.wire_api {
        WireApi::Anthropic => HttpCallView {
            url: endpoint_of(p.base_url, "/v1/messages"@),
            headers: seq![
                ("anthropic-version"@, "2023-06-01"@),
                match p.auth {
                    AnthropicAuth::ApiKey => ("x-api-key"@, p.api_key),
                    AnthropicAuth::Bearer => ("authorization"@, "Bearer "@ + p.api_key),
                },
            ],
            body: crate::providers::anthropic::request_form(req),
        },
        WireApi::OpenaiResponses => HttpCallView {
            url: endpoint_of(p.base_url, "/v1/responses"@),
            headers: seq![("authorization"@, "Bearer "@ + p.api_key)],
            body: crate::providers::openai_responses::request_form(req),
        },
        WireApi::OpenaiChat => HttpCallView {
            url: endpoint_of(p.base_url, "/v1/chat/completions"@),
            headers: seq![("authorization"@, "Bearer "@ + p.api_key)],
            body: crate::providers::openai_chat::request_form(req),
        },
    }
}

impl ClientPlan {
    fn bearer(&self) -> (r: (String, String))
        ensures
            r.0@ == "authorization"@,
            r.1@ == "Bearer "@ + self.deep_view().api_key,
    {
        ("authorization".to_owned(), cat("Bearer ", self.api_key.as_str()))
    }

    /// What is sent to the provider for a request.
    pub fn call(&self, req: &ModelRequest) -> (r: Result<HttpCall, ModelError>)
        ensures
            r matches Ok(c) && c.deep_view() == http_call(self.deep_view(), req.deep_view()),
    {
        let mut headers: Vec<(String, String)> = Vec::new();
        let (path, body) = match self.wire_api {
            WireApi::Anthropic => {
                headers.push(("anthropic-version".to_owned(), "2023-06-01".to_owned()));
                match self.auth {
                    AnthropicAuth::ApiKey => {
                        headers.push(("x-api-key".to_owned(), self.api_key.clone()));
                    },
                    AnthropicAuth::Bearer => {
                        headers.push(self.bearer());
                    },
                }
                ("/v1/messages", crate::providers::anthropic::encode_request(req))
            },
            WireApi::OpenaiResponses => {
                headers.push(self.bearer());
                ("/v1/responses", crate::providers::openai_responses::encode_request(req))
            },
            WireApi::OpenaiChat => {
                headers.push(self.bearer());
                ("/v1/chat/completions", crate::providers::openai_chat::encode_request(req))
            },
        };
        assert(pairs_view(headers@) =~= http_call(self.deep_view(), req.deep_view()).headers);
        match body {
            Ok(body) => Ok(HttpCall { url: endpoint(self.base_url.as_str(), path), headers, body }),
            Err(e) => Err(e),
        }
    }
}

/// How much a model takes in.
pub open spec fn window_of(api: WireApi, model: Seq<char>) -> u64 {
    match api {
        WireApi::Anthropic => if occurs(model, "glm"@) {
            128_000
        } else {
            200_000
        },
        _ => DEFAULT_CONTEXT_WINDOW,
    }
}

/// How much a model takes in.
pub fn context_window(api: WireApi, model: &str) -> (r: u64)
    ensures
        r == window_of(api, model@),
{
    match api {
        WireApi::Anthropic => crate::providers::anthropic::context_window(model),
        _ => DEFAULT_CONTEXT_WINDOW,
    }
}

// ---- laws ----

/// A key goes to its provider and nowhere else: whatever is sent, it goes below the
/// provider's address, and the body does not depend on the key.
pub proof fn law_keys_stay_with_their_provider(
    p: ClientPlanView,
    other: Seq<char>,
    req: ModelRequestView,
)
    ensures
        ({
            let q = ClientPlanView { api_key: other, ..p };
            &&& without_tail(p.base_url, '/').is_prefix_of(http_call(p, req).url)
            &&& http_call(q, req).url == http_call(p, req).url
            &&& http_call(q, req).body == http_call(p, req).body
        }),
{
}

} // verus!

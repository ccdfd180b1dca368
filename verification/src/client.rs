use crate::adapter::{is_default_auth, spec_default_endpoint, spec_from_lower_str,
    spec_from_model, AdapterKind};
use crate::auth_data::AuthData;
use crate::endpoint::Endpoint;
use crate::error::Error;
use crate::mapper::{spec_split_id, ModelMapper};
use crate::model::{ModelIden, ModelSpec, ServiceTarget};
use vstd::prelude::*;

verus! {

/// Configuration of the HTTP client that the surrounding program builds.
#[derive(Debug, Clone, Copy, PartialEq, Eq, Structural)]
pub struct WebConfig {
    pub timeout_ms: Option<u64>,
    pub connect_timeout_ms: Option<u64>,
}

impl Default for WebConfig {
    fn default() -> (r: WebConfig)
        ensures
            r.timeout_ms is None,
            r.connect_timeout_ms is None,
    {
        WebConfig { timeout_ms: None, connect_timeout_ms: None }
    }
}

/// Default options applied to chat requests.
#[derive(Debug, Clone, Copy, PartialEq, Eq, Structural)]
pub struct ChatOptions {
    pub max_tokens: Option<u32>,
    pub capture_content: bool,
    pub capture_usage: bool,
    pub normalize_reasoning_content: bool,
}

impl Default for ChatOptions {
    fn default() -> (r: ChatOptions)
        ensures
            r == (ChatOptions {
                max_tokens: None,
                capture_content: false,
                capture_usage: false,
                normalize_reasoning_content: false,
            }),
    {
        ChatOptions {
            max_tokens: None,
            capture_content: false,
            capture_usage: false,
            normalize_reasoning_content: false,
        }
    }
}

impl ChatOptions {
    pub fn with_max_tokens(self, max_tokens: u32) -> (r: ChatOptions)
        ensures
            r == (ChatOptions { max_tokens: Some(max_tokens), ..self }),
    {
        ChatOptions { max_tokens: Some(max_tokens), ..self }
    }

    pub fn with_capture_content(self, capture_content: bool) -> (r: ChatOptions)
        ensures
            r == (ChatOptions { capture_content, ..self }),
    {
        ChatOptions { capture_content, ..self }
    }

    pub fn with_capture_usage(self, capture_usage: bool) -> (r: ChatOptions)
        ensures
            r == (ChatOptions { capture_usage, ..self }),
    {
        ChatOptions { capture_usage, ..self }
    }

    pub fn with_normalize_reasoning_content(self, normalize: bool) -> (r: ChatOptions)
        ensures
            r == (ChatOptions { normalize_reasoning_content: normalize, ..self }),
    {
        ChatOptions { normalize_reasoning_content: normalize, ..self }
    }
}

/// Default options applied to embedding requests.
#[derive(Debug, Clone, Copy, PartialEq, Eq, Structural)]
pub struct EmbedOptions {
    pub dimensions: Option<u32>,
    pub capture_usage: bool,
}

impl Default for EmbedOptions {
    fn default() -> (r: EmbedOptions)
        ensures
            r == (EmbedOptions { dimensions: None, capture_usage: false }),
    {
        EmbedOptions { dimensions: None, capture_usage: false }
    }
}

/// What resolving a name through a known provider prefix yields: the
/// prefix's provider with the short name, the registry defaults, and the
/// used prefix handed back for response backfill.
pub open spec fn resolves_by_prefix(
    r: Result<(ServiceTarget, Option<String>), Error>,
    p: Seq<char>,
    rest: Seq<char>,
) -> bool {
    match spec_from_lower_str(p) {
        Some(kind) => r matches Ok((rt, pre)) && pre matches Some(ps) && ps@ == p
            && rt.model.adapter_kind == kind && rt.model.model_name@ == rest && rt.endpoint@
            == spec_default_endpoint(kind) && is_default_auth(rt.auth, kind),
        None => false,
    }
}

/// What resolving a bare name by heuristic inference yields: the inferred
/// provider with the full name and the registry defaults, or an
/// unresolvable-model error naming the model.
pub open spec fn resolves_by_inference(
    r: Result<(ServiceTarget, Option<String>), Error>,
    name: String,
) -> bool {
    match spec_from_model(name@) {
        Some(kind) => r matches Ok((rt, pre)) && pre is None && rt.model.adapter_kind == kind
            && rt.model.model_name@ == name@ && rt.endpoint@ == spec_default_endpoint(kind)
            && is_default_auth(rt.auth, kind),
        None => r matches Err(Error::ModelNotResolved { model_name }) && model_name@ == name@,
    }
}

/// Configuration for building and customizing a `Client`.
#[derive(Debug, Clone, Copy, PartialEq, Eq, Structural)]
pub struct ClientConfig {
    pub web_config: Option<WebConfig>,
    pub chat_options: Option<ChatOptions>,
    pub embed_options: Option<EmbedOptions>,
}

impl Default for ClientConfig {
    fn default() -> (r: ClientConfig)
        ensures
            r == (ClientConfig { web_config: None, chat_options: None, embed_options: None }),
    {
        ClientConfig { web_config: None, chat_options: None, embed_options: None }
    }
}

impl ClientConfig {
    /// Sets default chat options for chat requests.
    pub fn with_chat_options(self, options: ChatOptions) -> (r: ClientConfig)
        ensures
            r == (ClientConfig { chat_options: Some(options), ..self }),
    {
        ClientConfig { chat_options: Some(options), ..self }
    }

    /// Sets default embed options for embed requests.
    pub fn with_embed_options(self, options: EmbedOptions) -> (r: ClientConfig)
        ensures
            r == (ClientConfig { embed_options: Some(options), ..self }),
    {
        ClientConfig { embed_options: Some(options), ..self }
    }

    /// Sets the HTTP client configuration.
    pub fn with_web_config(self, web_config: WebConfig) -> (r: ClientConfig)
        ensures
            r == (ClientConfig { web_config: Some(web_config), ..self }),
    {
        ClientConfig { web_config: Some(web_config), ..self }
    }

    /// Returns the web configuration, if set.
    pub fn web_config(&self) -> (r: Option<&WebConfig>)
        ensures
            match r {
                Some(w) => self.web_config == Some(*w),
                None => self.web_config is None,
            },
    {
        self.web_config.as_ref()
    }

    /// Returns the default chat options, if set.
    pub fn chat_options(&self) -> (r: Option<&ChatOptions>)
        ensures
            match r {
                Some(o) => self.chat_options == Some(*o),
                None => self.chat_options is None,
            },
    {
        self.chat_options.as_ref()
    }

    /// Returns the default embed options, if set.
    pub fn embed_options(&self) -> (r: Option<&EmbedOptions>)
        ensures
            match r {
                Some(o) => self.embed_options == Some(*o),
                None => self.embed_options is None,
            },
    {
        self.embed_options.as_ref()
    }

    /// Resolves a service target for the given model identity from the
    /// registry's default endpoint and default auth for its provider.
    pub fn resolve_service_target(&self, model: ModelIden) -> (r: Result<ServiceTarget, Error>)
        ensures
            r matches Ok(t) && t.model == model && t.endpoint@ == spec_default_endpoint(
                model.adapter_kind,
            ) && is_default_auth(t.auth, model.adapter_kind),
    {
        let auth = model.adapter_kind.default_auth();
        let endpoint = model.adapter_kind.default_endpoint();
        Ok(ServiceTarget { endpoint, auth, model })
    }

    /// Resolves a model specification to a service target.
    ///
    /// A full target passes through untouched. An identity takes the
    /// registry defaults of its provider. A name is first split against the
    /// prefix table; a known provider prefix routes there with the short
    /// name and is returned for response backfill; otherwise the provider
    /// is inferred from the bare name, and a name that neither splits nor
    /// infers fails as unresolvable.
    pub fn resolve_model_spec(&self, model_spec: ModelSpec) -> (r: Result<
        (ServiceTarget, Option<String>),
        Error,
    >)
        ensures
            match model_spec {
                ModelSpec::Target(t) => r matches Ok((rt, pre)) && rt == t && pre is None,
                ModelSpec::Iden(m) => r matches Ok((rt, pre)) && pre is None && rt.model == m
                    && rt.endpoint@ == spec_default_endpoint(m.adapter_kind) && is_default_auth(
                    rt.auth,
                    m.adapter_kind,
                ),
                ModelSpec::Name(name) => match spec_split_id(name@) {
                    Some(pr) => if spec_from_lower_str(pr.0) is Some {
                        resolves_by_prefix(r, pr.0, pr.1)
                    } else {
                        resolves_by_inference(r, name)
                    },
                    None => resolves_by_inference(r, name),
                },
            },
    {
        match model_spec {
            ModelSpec::Target(t) => Ok((t, None)),
            ModelSpec::Iden(m) => {
                let target = self.resolve_service_target(m)?;
                Ok((target, None))
            },
            ModelSpec::Name(name) => {
                let mapper = ModelMapper::new();
                let mut routed: Option<(AdapterKind, String, String)> = None;
                match mapper.split_id(name.as_str()) {
                    Some((provider, short)) => {
                        match AdapterKind::from_lower_str(provider.as_str()) {
                            Some(kind) => {
                                routed = Some((kind, short, provider));
                            },
                            None => {},
                        }
                    },
                    None => {},
                }
                match routed {
                    Some((kind, short, provider)) => {
                        let model = ModelIden::new(kind, short);
                        let target = self.resolve_service_target(model)?;
                        Ok((target, Some(provider)))
                    },
                    None => match AdapterKind::from_model(name.as_str()) {
                        Some(kind) => {
                            let model = ModelIden::new(kind, name);
                            let target = self.resolve_service_target(model)?;
                            Ok((target, None))
                        },
                        None => Err(Error::ModelNotResolved { model_name: name }),
                    },
                }
            },
        }
    }
}

/// Client for preparing AI requests to supported providers. The network
/// side lives with the surrounding program; the client carries the
/// configuration and the resolution logic.
#[derive(Debug, Clone, Copy, PartialEq, Eq, Structural)]
pub struct Client {
    pub config: ClientConfig,
}

impl Default for Client {
    /// Creates a client with default configuration, as building one without
    /// a config would.
    fn default() -> (r: Client)
        ensures
            r.config == (ClientConfig {
                web_config: None,
                chat_options: None,
                embed_options: None,
            }),
    {
        Client::builder().build()
    }
}

impl Client {
    /// Returns a builder for configuring and constructing a client.
    pub fn builder() -> (b: ClientBuilder)
        ensures
            b.config is None,
    {
        ClientBuilder { config: None }
    }

    /// Returns this client's configuration.
    pub fn config(&self) -> (r: &ClientConfig)
        ensures
            *r == self.config,
    {
        &self.config
    }

    /// Returns the default endpoint URL for the given adapter.
    pub fn default_endpoint(adapter_kind: AdapterKind) -> (ep: Endpoint)
        ensures
            ep@ == spec_default_endpoint(adapter_kind),
    {
        adapter_kind.default_endpoint()
    }

    /// Returns the default auth data (env-based) for the given adapter.
    pub fn default_auth(adapter_kind: AdapterKind) -> (auth: AuthData)
        ensures
            is_default_auth(auth, adapter_kind),
    {
        adapter_kind.default_auth()
    }
}

/// Builder for `Client`.
#[derive(Debug, Clone, Copy, PartialEq, Eq, Structural)]
pub struct ClientBuilder {
    pub config: Option<ClientConfig>,
}

impl Default for ClientBuilder {
    fn default() -> (r: ClientBuilder)
        ensures
            r.config is None,
    {
        ClientBuilder { config: None }
    }
}

impl ClientBuilder {
    /// Sets a full client configuration.
    pub fn with_config(self, config: ClientConfig) -> (r: ClientBuilder)
        ensures
            r.config == Some(config),
    {
        ClientBuilder { config: Some(config) }
    }

    /// Sets the web configuration, creating the client configuration if
    /// absent.
    pub fn with_web_config(self, web_config: WebConfig) -> (r: ClientBuilder)
        ensures
            r.config matches Some(c) && c.web_config == Some(web_config) && match self.config {
                Some(oldc) => c.chat_options == oldc.chat_options && c.embed_options
                    == oldc.embed_options,
                None => c.chat_options is None && c.embed_options is None,
            },
    {
        let base = match self.config {
            Some(c) => c,
            None => ClientConfig::default(),
        };
        ClientBuilder { config: Some(ClientConfig { web_config: Some(web_config), ..base }) }
    }

    /// Sets the default chat options, creating the client configuration if
    /// absent.
    pub fn with_chat_options(self, options: ChatOptions) -> (r: ClientBuilder)
        ensures
            r.config matches Some(c) && c.chat_options == Some(options) && match self.config {
                Some(oldc) => c.web_config == oldc.web_config && c.embed_options
                    == oldc.embed_options,
                None => c.web_config is None && c.embed_options is None,
            },
    {
        let base = match self.config {
            Some(c) => c,
            None => ClientConfig::default(),
        };
        ClientBuilder { config: Some(ClientConfig { chat_options: Some(options), ..base }) }
    }

    /// Builds a client from the accumulated configuration.
    pub fn build(self) -> (r: Client)
        ensures
            r.config == match self.config {
                Some(c) => c,
                None => ClientConfig { web_config: None, chat_options: None, embed_options: None },
            },
    {
        let config = match self.config {
            Some(c) => c,
            None => ClientConfig::default(),
        };
        Client { config }
    }
}

} // verus!

use zeroai::adapter::AdapterKind;
use zeroai::auth_data::{AuthData, AuthDataError, EnvVars};
use zeroai::client::{ChatOptions, Client, ClientBuilder, ClientConfig};
use zeroai::endpoint::Endpoint;
use zeroai::mapper::ModelMapper;
use zeroai::model::{ModelIden, ModelSpec, ServiceTarget};
use zeroai::Error;

#[test]
fn split_known_prefix() {
    let mapper = ModelMapper::new();
    let r = mapper.split_id("openai/gpt-4o-mini");
    let (p, m) = r.expect("known prefix splits");
    assert_eq!(p, "openai");
    assert_eq!(m, "gpt-4o-mini");
}

#[test]
fn split_longer_variant_wins() {
    let mapper = ModelMapper::new();
    let (p, m) = mapper.split_id("zai-coding/glm-4.6").expect("splits");
    assert_eq!(p, "zai-coding");
    assert_eq!(m, "glm-4.6");
    let (p2, m2) = mapper.split_id("zai/glm-4.6").expect("splits");
    assert_eq!(p2, "zai");
    assert_eq!(m2, "glm-4.6");
}

#[test]
fn split_no_separator_is_none() {
    let mapper = ModelMapper::new();
    assert!(mapper.split_id("gpt-4o-mini").is_none());
    assert!(mapper.split_id("").is_none());
}

#[test]
fn split_unknown_prefix_falls_to_separator() {
    let mapper = ModelMapper::new();
    let (p, m) = mapper.split_id("somewhere/some-model").expect("separator splits");
    assert_eq!(p, "somewhere");
    assert_eq!(m, "some-model");
    assert!(AdapterKind::from_lower_str(&p).is_none());
}

#[test]
fn split_keeps_rest_with_separator() {
    let mapper = ModelMapper::new();
    let (p, m) = mapper.split_id("openai/org/model").expect("splits");
    assert_eq!(p, "openai");
    assert_eq!(m, "org/model");
}

#[test]
fn from_lower_str_known_and_unknown() {
    assert!(matches!(
        AdapterKind::from_lower_str("anthropic"),
        Some(AdapterKind::Anthropic)
    ));
    assert!(matches!(
        AdapterKind::from_lower_str("zai-coding"),
        Some(AdapterKind::ZaiCoding)
    ));
    assert!(AdapterKind::from_lower_str("nope").is_none());
}

#[test]
fn from_model_inference() {
    assert!(matches!(
        AdapterKind::from_model("gpt-4o"),
        Some(AdapterKind::OpenAI)
    ));
    assert!(matches!(
        AdapterKind::from_model("grok-3-mini"),
        Some(AdapterKind::Xai)
    ));
    assert!(matches!(
        AdapterKind::from_model("glm-4.6"),
        Some(AdapterKind::Zai)
    ));
    assert!(AdapterKind::from_model("mystery-model").is_none());
}

#[test]
fn resolve_target_passes_through() {
    let target = ServiceTarget {
        endpoint: Endpoint::from_static("http://localhost:11434/v1/"),
        auth: AuthData::Key("".to_string()),
        model: ModelIden::from_static(AdapterKind::Ollama, "gemma3:1b"),
    };
    let config = ClientConfig::default();
    let (rt, prefix) = config
        .resolve_model_spec(ModelSpec::Target(target))
        .expect("target resolves");
    assert!(prefix.is_none());
    assert_eq!(rt.endpoint.base_url(), "http://localhost:11434/v1/");
    assert_eq!(rt.model.model_name, "gemma3:1b");
    assert!(matches!(rt.model.adapter_kind, AdapterKind::Ollama));
    assert!(matches!(rt.auth, AuthData::Key(k) if k.is_empty()));
}

#[test]
fn resolve_iden_uses_registry_defaults() {
    let config = ClientConfig::default();
    let iden = ModelIden::from_static(AdapterKind::DeepSeek, "deepseek-chat");
    let (rt, prefix) = config
        .resolve_model_spec(ModelSpec::Iden(iden))
        .expect("iden resolves");
    assert!(prefix.is_none());
    assert_eq!(rt.endpoint.base_url(), "https://api.deepseek.com/v1/");
    assert!(matches!(rt.auth, AuthData::FromEnv(n) if n == "DEEPSEEK_API_KEY"));
}

#[test]
fn resolve_name_with_prefix_reports_it() {
    let config = ClientConfig::default();
    let (rt, prefix) = config
        .resolve_model_spec(ModelSpec::from_static_name("groq/llama-3.1-8b"))
        .expect("prefixed name resolves");
    assert_eq!(prefix.as_deref(), Some("groq"));
    assert!(matches!(rt.model.adapter_kind, AdapterKind::Groq));
    assert_eq!(rt.model.model_name, "llama-3.1-8b");
    assert_eq!(rt.endpoint.base_url(), "https://api.groq.com/openai/v1/");
}

#[test]
fn resolve_bare_name_by_inference() {
    let config = ClientConfig::default();
    let (rt, prefix) = config
        .resolve_model_spec(ModelSpec::from_static_name("gpt-4o-mini"))
        .expect("bare name infers");
    assert!(prefix.is_none());
    assert!(matches!(rt.model.adapter_kind, AdapterKind::OpenAI));
    assert_eq!(rt.model.model_name, "gpt-4o-mini");
}

#[test]
fn resolve_unresolvable_name_fails() {
    let config = ClientConfig::default();
    match config.resolve_model_spec(ModelSpec::from_static_name("mystery-model")) {
        Err(Error::ModelNotResolved { model_name }) => assert_eq!(model_name, "mystery-model"),
        Err(_) => panic!("unresolvable name fails with the model-not-resolved error"),
        Ok(_) => panic!("unresolvable name must not resolve"),
    }
}

#[test]
fn client_default_endpoint_and_auth() {
    let ep = Client::default_endpoint(AdapterKind::OpenAI);
    assert_eq!(ep.base_url(), "https://api.openai.com/v1/");
    assert!(matches!(
        Client::default_auth(AdapterKind::OpenAI),
        AuthData::FromEnv(n) if n == "OPENAI_API_KEY"
    ));
    assert!(matches!(
        Client::default_auth(AdapterKind::Ollama),
        AuthData::NoAuth
    ));
}

#[test]
fn builder_accumulates_config() {
    let client = Client::builder()
        .with_chat_options(ChatOptions::default().with_max_tokens(64))
        .build();
    let opts = client.config.chat_options.expect("chat options set");
    assert_eq!(opts.max_tokens, Some(64));
    let fresh = ClientBuilder::default().build();
    assert!(fresh.config.chat_options.is_none());
}

#[test]
fn env_resolution_missing_names_variable() {
    let env = EnvVars::new();
    let auth = AuthData::from_env("X".to_string());
    let err = auth.single_key_value(&env).expect_err("missing env fails");
    assert!(matches!(err, AuthDataError::ApiKeyEnvNotFound { env_name } if env_name == "X"));
}

#[test]
fn env_resolution_reads_snapshot() {
    let mut env = EnvVars::new();
    env.push("X".to_string(), "abc".to_string());
    let auth = AuthData::from_env("X".to_string());
    assert_eq!(auth.single_key_value(&env).expect("set env resolves"), "abc");
}

#[test]
fn request_override_resolves_to_empty_secret() {
    let auth = AuthData::RequestOverride {
        url: "https://example.test/custom".to_string(),
        headers: zeroai::Headers::new(),
    };
    let env = EnvVars::new();
    let secret = auth.single_key_value(&env).expect("override never errors");
    assert_eq!(secret, "");
}

#[test]
fn non_single_forms_fail() {
    let env = EnvVars::new();
    let multi = AuthData::from_multi(vec![("a".to_string(), "b".to_string())]);
    assert!(matches!(
        multi.single_key_value(&env),
        Err(AuthDataError::AuthDataNotSingleValue)
    ));
    assert!(matches!(
        AuthData::NoAuth.single_key_value(&env),
        Err(AuthDataError::AuthDataNotSingleValue)
    ));
}

#[test]
fn literal_key_resolves_to_itself() {
    let env = EnvVars::new();
    let auth = AuthData::from_single("sk-test".to_string());
    assert_eq!(auth.single_key_value(&env).expect("literal resolves"), "sk-test");
}

#[test]
fn provider_kind_names_unknown_providers() {
    assert!(matches!(
        AdapterKind::provider_kind("together"),
        Ok(AdapterKind::Together)
    ));
    match AdapterKind::provider_kind("somewhere") {
        Err(Error::UnknownProvider { provider }) => assert_eq!(provider, "somewhere"),
        _ => panic!("unknown provider must fail naming it"),
    }
}

#[test]
fn auth_data_renders_without_secrets() {
    let a = AuthData::from_single("sk-very-secret".to_string());
    let b = AuthData::from_single("sk-other-secret".to_string());
    assert_eq!(a.redacted_description(), b.redacted_description());
    assert_eq!(a.redacted_description(), "AuthData::Single(REDACTED)");
    assert!(!a.redacted_description().contains("sk-very-secret"));
    let e = AuthData::from_env("OPENAI_API_KEY".to_string());
    assert_eq!(e.redacted_description(), "AuthData::FromEnv(REDACTED)");
    let o = AuthData::RequestOverride {
        url: "https://example.test/custom".to_string(),
        headers: zeroai::Headers::new(),
    };
    assert_eq!(
        o.redacted_description(),
        "AuthData::RequestOverride { url: REDACTED, headers: REDACTED }"
    );
    assert_eq!(AuthData::NoAuth.redacted_description(), "None");
    let m = AuthData::from_multi(vec![("a".to_string(), "b".to_string())]);
    assert_eq!(m.redacted_description(), "AuthData::Multi(REDACTED)");
}

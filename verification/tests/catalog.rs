use zeroai::auth_info::{all_provider_auth_info, provider_groups, AuthMethod};

#[test]
fn catalog_lists_every_provider_entry() {
    let all = all_provider_auth_info();
    assert_eq!(all.len(), 15);
    assert_eq!(all[0].provider_id, "openai");
    assert_eq!(all[0].label, "OpenAI API Key");
    match &all[0].auth_methods[0] {
        AuthMethod::ApiKey { env_var, .. } => {
            assert_eq!(env_var.as_deref(), Some("OPENAI_API_KEY"));
        },
        _ => panic!("openai authenticates by API key"),
    }
    assert_eq!(all[2].provider_id, "anthropic");
    assert!(matches!(all[2].auth_methods[0], AuthMethod::SetupToken { .. }));
}

#[test]
fn groups_keep_first_appearance_order() {
    let groups = provider_groups();
    let labels: Vec<&str> = groups.iter().map(|(g, _)| g.as_str()).collect();
    assert_eq!(
        labels,
        vec![
            "OpenAI",
            "Anthropic",
            "Google",
            "DeepSeek",
            "xAI",
            "Groq",
            "Together",
            "SiliconFlow",
            "ZhipuAI",
            "Fireworks",
            "Nebius",
            "OpenRouter",
        ]
    );
    let google = &groups[2].1;
    assert_eq!(google.len(), 3);
    assert_eq!(google[0].provider_id, "google");
    assert_eq!(google[1].provider_id, "gemini-cli");
    assert_eq!(google[2].provider_id, "antigravity");
    let anthropic = &groups[1].1;
    assert_eq!(anthropic.len(), 2);
}

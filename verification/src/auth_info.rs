use crate::text::str_eq;
use vstd::prelude::*;
use vstd::string::StringExecFns;

verus! {

/// How a user can authenticate against one provider: metadata for
/// configuration and onboarding flows, not a live credential.
#[derive(Debug, Clone)]
pub enum AuthMethod {
    ApiKey { env_var: Option<String>, hint: Option<String> },
    OAuth { hint: Option<String> },
    SetupToken { hint: Option<String> },
}

/// The abstraction of an auth method descriptor.
pub enum AuthMethodV {
    ApiKey { env_var: Option<Seq<char>>, hint: Option<Seq<char>> },
    OAuth { hint: Option<Seq<char>> },
    SetupToken { hint: Option<Seq<char>> },
}

/// The view of an optional string.
pub open spec fn opt_view(o: Option<String>) -> Option<Seq<char>> {
    match o {
        Some(s) => Some(s@),
        None => None,
    }
}

/// The views of a sequence of auth methods.
pub open spec fn methods_view(s: Seq<AuthMethod>) -> Seq<AuthMethodV> {
    s.map_values(|m: AuthMethod| m@)
}

/// The views of a sequence of catalog entries.
pub open spec fn infos_view(s: Seq<ProviderAuthInfo>) -> Seq<ProviderAuthInfoV> {
    s.map_values(|p: ProviderAuthInfo| p@)
}

/// The views of a sequence of accumulated groups.
pub open spec fn groups_view(s: Seq<(String, Vec<ProviderAuthInfo>)>) -> Seq<
    (Seq<char>, Seq<ProviderAuthInfoV>),
> {
    s.map_values(|g: (String, Vec<ProviderAuthInfo>)| group_view(g))
}

impl View for AuthMethod {
    type V = AuthMethodV;

    open spec fn view(&self) -> AuthMethodV {
        match self {
            AuthMethod::ApiKey { env_var, hint } => AuthMethodV::ApiKey {
                env_var: opt_view(*env_var),
                hint: opt_view(*hint),
            },
            AuthMethod::OAuth { hint } => AuthMethodV::OAuth { hint: opt_view(*hint) },
            AuthMethod::SetupToken { hint } => AuthMethodV::SetupToken { hint: opt_view(*hint) },
        }
    }
}

/// One provider's onboarding entry: its id, a human label, the group it is
/// shown under, a hint, and the auth methods it accepts.
#[derive(Debug, Clone)]
pub struct ProviderAuthInfo {
    pub provider_id: String,
    pub label: String,
    pub group: String,
    pub hint: String,
    pub auth_methods: Vec<AuthMethod>,
}

/// The abstraction of a provider's onboarding entry.
pub struct ProviderAuthInfoV {
    pub provider_id: Seq<char>,
    pub label: Seq<char>,
    pub group: Seq<char>,
    pub hint: Seq<char>,
    pub auth_methods: Seq<AuthMethodV>,
}

impl View for ProviderAuthInfo {
    type V = ProviderAuthInfoV;

    open spec fn view(&self) -> ProviderAuthInfoV {
        ProviderAuthInfoV {
            provider_id: self.provider_id@,
            label: self.label@,
            group: self.group@,
            hint: self.hint@,
            auth_methods: methods_view(self.auth_methods@),
        }
    }
}

/// One catalog entry whose only auth method is an API key read from the
/// named environment variable.
pub open spec fn api_key_entry(
    provider_id: Seq<char>,
    label: Seq<char>,
    group: Seq<char>,
    hint: Seq<char>,
    env_var: Seq<char>,
) -> ProviderAuthInfoV {
    ProviderAuthInfoV {
        provider_id,
        label,
        group,
        hint,
        auth_methods: seq![AuthMethodV::ApiKey { env_var: Some(env_var), hint: None }],
    }
}

/// One catalog entry whose only auth method is OAuth with a hint.
pub open spec fn oauth_entry(
    provider_id: Seq<char>,
    label: Seq<char>,
    group: Seq<char>,
    hint: Seq<char>,
    method_hint: Seq<char>,
) -> ProviderAuthInfoV {
    ProviderAuthInfoV {
        provider_id,
        label,
        group,
        hint,
        auth_methods: seq![AuthMethodV::OAuth { hint: Some(method_hint) }],
    }
}

/// One catalog entry whose only auth method is a setup token with a hint.
pub open spec fn setup_token_entry(
    provider_id: Seq<char>,
    label: Seq<char>,
    group: Seq<char>,
    hint: Seq<char>,
    method_hint: Seq<char>,
) -> ProviderAuthInfoV {
    ProviderAuthInfoV {
        provider_id,
        label,
        group,
        hint,
        auth_methods: seq![AuthMethodV::SetupToken { hint: Some(method_hint) }],
    }
}

/// The full onboarding catalog, in display order.
pub open spec fn spec_provider_catalog() -> Seq<ProviderAuthInfoV> {
    seq![
        api_key_entry("openai"@, "OpenAI API Key"@, "OpenAI"@, "GPT-4o, o1, o3, o4-mini"@,
            "OPENAI_API_KEY"@),
        api_key_entry("anthropic"@, "Anthropic API Key"@, "Anthropic"@,
            "Standard API (via key)"@, "ANTHROPIC_API_KEY"@),
        setup_token_entry("anthropic"@, "Anthropic Setup Token"@, "Anthropic"@,
            "From a setup-token login"@, "Generated by the setup-token flow"@),
        api_key_entry("google"@, "Gemini API Key"@, "Google"@, "AI Studio (API key)"@,
            "GEMINI_API_KEY"@),
        oauth_entry("gemini-cli"@, "Gemini CLI OAuth"@, "Google"@, "Cloud Code Assist (OAuth)"@,
            "Google OAuth for Cloud Code Assist"@),
        oauth_entry("antigravity"@, "Antigravity OAuth"@, "Google"@, "Google Cloud Enterprise"@,
            "Google OAuth for Antigravity"@),
        api_key_entry("deepseek"@, "DeepSeek API Key"@, "DeepSeek"@, "DeepSeek V3, R1"@,
            "DEEPSEEK_API_KEY"@),
        api_key_entry("xai"@, "xAI (Grok) API Key"@, "xAI"@, "Grok 3, Grok 3 Mini"@,
            "XAI_API_KEY"@),
        api_key_entry("groq"@, "Groq API Key"@, "Groq"@, "Llama, Mixtral, Gemma (ultra-fast)"@,
            "GROQ_API_KEY"@),
        api_key_entry("together"@, "Together AI API Key"@, "Together"@,
            "Llama, DeepSeek, Qwen open models"@, "TOGETHER_API_KEY"@),
        api_key_entry("siliconflow"@, "SiliconFlow API Key"@, "SiliconFlow"@,
            "DeepSeek, Qwen models (CN)"@, "SILICONFLOW_API_KEY"@),
        api_key_entry("zhipuai"@, "ZhipuAI API Key"@, "ZhipuAI"@, "GLM-4 models"@,
            "ZHIPUAI_API_KEY"@),
        api_key_entry("fireworks"@, "Fireworks API Key"@, "Fireworks"@, "Llama, DeepSeek, Qwen"@,
            "FIREWORKS_API_KEY"@),
        api_key_entry("nebius"@, "Nebius API Key"@, "Nebius"@, "Llama, DeepSeek, Qwen"@,
            "NEBIUS_API_KEY"@),
        api_key_entry("openrouter"@, "OpenRouter API Key"@, "OpenRouter"@,
            "Multi-provider gateway"@, "OPENROUTER_API_KEY"@),
    ]
}

/// Builds one catalog entry with a single API-key method.
fn mk_api_key_info(
    provider_id: &'static str,
    label: &'static str,
    group: &'static str,
    hint: &'static str,
    env_var: &'static str,
) -> (r: ProviderAuthInfo)
    ensures
        r@ == api_key_entry(provider_id@, label@, group@, hint@, env_var@),
{
    let mut auth_methods: Vec<AuthMethod> = Vec::new();
    auth_methods.push(
        AuthMethod::ApiKey { env_var: Some(String::from_str(env_var)), hint: None },
    );
    let r = ProviderAuthInfo {
        provider_id: String::from_str(provider_id),
        label: String::from_str(label),
        group: String::from_str(group),
        hint: String::from_str(hint),
        auth_methods,
    };
    proof {
        assert(methods_view(r.auth_methods@) =~= seq![
            AuthMethodV::ApiKey { env_var: Some(env_var@), hint: None },
        ]);
    }
    r
}

/// Builds one catalog entry with a single OAuth method.
fn mk_oauth_info(
    provider_id: &'static str,
    label: &'static str,
    group: &'static str,
    hint: &'static str,
    method_hint: &'static str,
) -> (r: ProviderAuthInfo)
    ensures
        r@ == oauth_entry(provider_id@, label@, group@, hint@, method_hint@),
{
    let mut auth_methods: Vec<AuthMethod> = Vec::new();
    auth_methods.push(AuthMethod::OAuth { hint: Some(String::from_str(method_hint)) });
    let r = ProviderAuthInfo {
        provider_id: String::from_str(provider_id),
        label: String::from_str(label),
        group: String::from_str(group),
        hint: String::from_str(hint),
        auth_methods,
    };
    proof {
        assert(methods_view(r.auth_methods@) =~= seq![
            AuthMethodV::OAuth { hint: Some(method_hint@) },
        ]);
    }
    r
}

/// Builds one catalog entry with a single setup-token method.
fn mk_setup_token_info(
    provider_id: &'static str,
    label: &'static str,
    group: &'static str,
    hint: &'static str,
    method_hint: &'static str,
) -> (r: ProviderAuthInfo)
    ensures
        r@ == setup_token_entry(provider_id@, label@, group@, hint@, method_hint@),
{
    let mut auth_methods: Vec<AuthMethod> = Vec::new();
    auth_methods.push(AuthMethod::SetupToken { hint: Some(String::from_str(method_hint)) });
    let r = ProviderAuthInfo {
        provider_id: String::from_str(provider_id),
        label: String::from_str(label),
        group: String::from_str(group),
        hint: String::from_str(hint),
        auth_methods,
    };
    proof {
        assert(methods_view(r.auth_methods@) =~= seq![
            AuthMethodV::SetupToken { hint: Some(method_hint@) },
        ]);
    }
    r
}

/// The onboarding catalog of every supported provider, in display order.
pub fn all_provider_auth_info() -> (r: Vec<ProviderAuthInfo>)
    ensures
        infos_view(r@) == spec_provider_catalog(),
{
    let mut r: Vec<ProviderAuthInfo> = Vec::new();
    r.push(
        mk_api_key_info(
            "openai",
            "OpenAI API Key",
            "OpenAI",
            "GPT-4o, o1, o3, o4-mini",
            "OPENAI_API_KEY",
        ),
    );
    r.push(
        mk_api_key_info(
            "anthropic",
            "Anthropic API Key",
            "Anthropic",
            "Standard API (via key)",
            "ANTHROPIC_API_KEY",
        ),
    );
    r.push(
        mk_setup_token_info(
            "anthropic",
            "Anthropic Setup Token",
            "Anthropic",
            "From a setup-token login",
            "Generated by the setup-token flow",
        ),
    );
    r.push(
        mk_api_key_info("google", "Gemini API Key", "Google", "AI Studio (API key)",
            "GEMINI_API_KEY"),
    );
    r.push(
        mk_oauth_info(
            "gemini-cli",
            "Gemini CLI OAuth",
            "Google",
            "Cloud Code Assist (OAuth)",
            "Google OAuth for Cloud Code Assist",
        ),
    );
    r.push(
        mk_oauth_info(
            "antigravity",
            "Antigravity OAuth",
            "Google",
            "Google Cloud Enterprise",
            "Google OAuth for Antigravity",
        ),
    );
    r.push(
        mk_api_key_info("deepseek", "DeepSeek API Key", "DeepSeek", "DeepSeek V3, R1",
            "DEEPSEEK_API_KEY"),
    );
    r.push(
        mk_api_key_info("xai", "xAI (Grok) API Key", "xAI", "Grok 3, Grok 3 Mini", "XAI_API_KEY"),
    );
    r.push(
        mk_api_key_info(
            "groq",
            "Groq API Key",
            "Groq",
            "Llama, Mixtral, Gemma (ultra-fast)",
            "GROQ_API_KEY",
        ),
    );
    r.push(
        mk_api_key_info(
            "together",
            "Together AI API Key",
            "Together",
            "Llama, DeepSeek, Qwen open models",
            "TOGETHER_API_KEY",
        ),
    );
    r.push(
        mk_api_key_info(
            "siliconflow",
            "SiliconFlow API Key",
            "SiliconFlow",
            "DeepSeek, Qwen models (CN)",
            "SILICONFLOW_API_KEY",
        ),
    );
    r.push(
        mk_api_key_info("zhipuai", "ZhipuAI API Key", "ZhipuAI", "GLM-4 models",
            "ZHIPUAI_API_KEY"),
    );
    r.push(
        mk_api_key_info(
            "fireworks",
            "Fireworks API Key",
            "Fireworks",
            "Llama, DeepSeek, Qwen",
            "FIREWORKS_API_KEY",
        ),
    );
    r.push(
        mk_api_key_info("nebius", "Nebius API Key", "Nebius", "Llama, DeepSeek, Qwen",
            "NEBIUS_API_KEY"),
    );
    r.push(
        mk_api_key_info(
            "openrouter",
            "OpenRouter API Key",
            "OpenRouter",
            "Multi-provider gateway",
            "OPENROUTER_API_KEY",
        ),
    );
    proof {
        assert(infos_view(r@) =~= spec_provider_catalog());
    }
    r
}

/// The key under which one entry is grouped.
pub open spec fn group_key(p: ProviderAuthInfoV) -> Seq<char> {
    p.group
}

/// The index of a group in the accumulated list, front to back.
pub open spec fn group_find(
    groups: Seq<(Seq<char>, Seq<ProviderAuthInfoV>)>,
    key: Seq<char>,
) -> Option<int>
    decreases groups.len(),
{
    if groups.len() == 0 {
        None
    } else if groups[0].0 == key {
        Some(0int)
    } else {
        match group_find(groups.drop_first(), key) {
            Some(k) => Some(k + 1),
            None => None,
        }
    }
}

/// Groups catalog entries by their group label, keeping the order in which
/// each group first appears and the order of entries within a group.
pub open spec fn group_fold(infos: Seq<ProviderAuthInfoV>) -> Seq<
    (Seq<char>, Seq<ProviderAuthInfoV>),
>
    decreases infos,
{
    if infos.len() == 0 {
        Seq::empty()
    } else {
        let prev = group_fold(infos.drop_last());
        let e = infos.last();
        match group_find(prev, e.group) {
            Some(k) => prev.update(k, (prev[k].0, prev[k].1.push(e))),
            None => prev.push((e.group, seq![e])),
        }
    }
}

/// The view of one accumulated group.
pub open spec fn group_view(g: (String, Vec<ProviderAuthInfo>)) -> (
    Seq<char>,
    Seq<ProviderAuthInfoV>,
) {
    (g.0@, infos_view(g.1@))
}

/// The onboarding catalog grouped by display group, keeping first-appearance
/// order of groups and catalog order within each group.
pub fn provider_groups() -> (r: Vec<(String, Vec<ProviderAuthInfo>)>)
    ensures
        groups_view(r@) == group_fold(
            spec_provider_catalog(),
        ),
{
    let all = all_provider_auth_info();
    let mut groups: Vec<(String, Vec<ProviderAuthInfo>)> = Vec::new();
    let n = all.len();
    let ghost cat = spec_provider_catalog();
    proof {
        assert(infos_view(all@) =~= cat);
        assert(cat.take(0) =~= Seq::<ProviderAuthInfoV>::empty());
        assert(groups_view(groups@)
            =~= group_fold(cat.take(0)));
    }
    for i in 0..n
        invariant
            n == all@.len(),
            infos_view(all@) == cat,
            cat == spec_provider_catalog(),
            groups_view(groups@) == group_fold(
                cat.take(i as int),
            ),
    {
        let info = all[i].clone_info();
        proof {
            assert(infos_view(all@)[i as int] == all@[i as int]@);
            assert(cat.take(i + 1).drop_last() =~= cat.take(i as int));
            assert(cat.take(i + 1).last() == cat[i as int]);
        }
        proof {
            assert(info@ == cat[i as int]);
        }
        let ghost gsnap = groups@;
        let idx = find_group(&groups, info.group.as_str());
        match idx {
            Some(k) => {
                let (key, mut items) = groups.remove(k);
                items.push(info);
                groups.insert(k, (key, items));
                proof {
                    let prev = group_fold(cat.take(i as int));
                    assert(groups@ =~= gsnap.update(k as int, groups@[k as int]));
                    assert(group_view(groups@[k as int]).0 == prev[k as int].0);
                    assert(group_view(groups@[k as int]).1 =~= prev[k as int].1.push(cat[i as int]));
                    assert(group_view(groups@[k as int]) == (
                        prev[k as int].0,
                        prev[k as int].1.push(cat[i as int]),
                    ));
                    assert(groups_view(groups@) =~= prev.update(
                        k as int,
                        (prev[k as int].0, prev[k as int].1.push(cat[i as int])),
                    ));
                    assert(groups_view(groups@) =~= group_fold(cat.take(i + 1)));
                }
            },
            None => {
                let key = info.group.clone();
                let mut items: Vec<ProviderAuthInfo> = Vec::new();
                items.push(info);
                groups.push((key, items));
                proof {
                    let prev = group_fold(cat.take(i as int));
                    assert(groups@ =~= gsnap.push(groups@.last()));
                    assert(group_view(groups@.last()).0 == cat[i as int].group);
                    assert(group_view(groups@.last()).1 =~= seq![cat[i as int]]);
                    assert(group_view(groups@.last()) == (cat[i as int].group, seq![cat[i as int]]));
                    assert(groups_view(groups@) =~= prev.push((cat[i as int].group, seq![
                        cat[i as int],
                    ])));
                    assert(groups_view(groups@) =~= group_fold(cat.take(i + 1)));
                }
            },
        }
    }
    proof {
        assert(cat.take(n as int) =~= cat);
    }
    groups
}

/// Finds the accumulated group carrying the given label.
fn find_group(groups: &Vec<(String, Vec<ProviderAuthInfo>)>, key: &str) -> (r: Option<usize>)
    ensures
        match r {
            Some(k) => k < groups@.len() && group_find(
                groups_view(groups@),
                key@,
            ) == Some(k as int),
            None => group_find(
                groups_view(groups@),
                key@,
            ) is None,
        },
{
    let ghost mapped = groups_view(groups@);
    let n = groups.len();
    for k in 0..n
        invariant
            n == groups@.len(),
            mapped == groups_view(groups@),
            forall|m: int| 0 <= m < k ==> #[trigger] mapped[m].0 != key@,
    {
        if str_eq(groups[k].0.as_str(), key) {
            proof {
                assert(mapped[k as int].0 == key@);
                lemma_group_find_at(mapped, key@, k as int);
            }
            return Some(k);
        }
    }
    proof {
        lemma_group_find_none(mapped, key@);
    }
    None
}

proof fn lemma_group_find_at(
    groups: Seq<(Seq<char>, Seq<ProviderAuthInfoV>)>,
    key: Seq<char>,
    k: int,
)
    requires
        0 <= k < groups.len(),
        groups[k].0 == key,
        forall|m: int| 0 <= m < k ==> #[trigger] groups[m].0 != key,
    ensures
        group_find(groups, key) == Some(k),
    decreases k,
{
    if k > 0 {
        let rest = groups.drop_first();
        assert(forall|m: int| 0 <= m < rest.len() ==> rest[m] == groups[m + 1]);
        lemma_group_find_at(rest, key, k - 1);
    }
}

proof fn lemma_group_find_none(groups: Seq<(Seq<char>, Seq<ProviderAuthInfoV>)>, key: Seq<char>)
    requires
        forall|m: int| 0 <= m < groups.len() ==> #[trigger] groups[m].0 != key,
    ensures
        group_find(groups, key) is None,
    decreases groups.len(),
{
    if groups.len() > 0 {
        let rest = groups.drop_first();
        assert(forall|m: int| 0 <= m < rest.len() ==> rest[m] == groups[m + 1]);
        lemma_group_find_none(rest, key);
    }
}

impl ProviderAuthInfo {
    /// Copies one entry field by field.
    pub fn clone_info(&self) -> (r: ProviderAuthInfo)
        ensures
            r@ == self@,
    {
        let mut auth_methods: Vec<AuthMethod> = Vec::new();
        let n = self.auth_methods.len();
        for i in 0..n
            invariant
                n == self.auth_methods@.len(),
                auth_methods@.len() == i,
                methods_view(auth_methods@) == methods_view(self.auth_methods@).take(i as int),
        {
            let m = match &self.auth_methods[i] {
                AuthMethod::ApiKey { env_var, hint } => AuthMethod::ApiKey {
                    env_var: clone_opt(env_var),
                    hint: clone_opt(hint),
                },
                AuthMethod::OAuth { hint } => AuthMethod::OAuth { hint: clone_opt(hint) },
                AuthMethod::SetupToken { hint } => AuthMethod::SetupToken {
                    hint: clone_opt(hint),
                },
            };
            auth_methods.push(m);
            proof {
                assert(m@ == self.auth_methods@[i as int]@);
                assert(methods_view(auth_methods@) =~= methods_view(self.auth_methods@).take(
                    i + 1,
                ));
            }
        }
        proof {
            assert(methods_view(self.auth_methods@).take(n as int)
                =~= methods_view(self.auth_methods@));
        }
        ProviderAuthInfo {
            provider_id: self.provider_id.clone(),
            label: self.label.clone(),
            group: self.group.clone(),
            hint: self.hint.clone(),
            auth_methods,
        }
    }
}

/// Copies an optional string.
fn clone_opt(o: &Option<String>) -> (r: Option<String>)
    ensures
        r == *o,
{
    match o {
        Some(s) => Some(s.clone()),
        None => None,
    }
}

} // verus!

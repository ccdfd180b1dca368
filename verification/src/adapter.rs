use crate::auth_data::AuthData;
use crate::endpoint::Endpoint;
use crate::text::{str_eq, str_starts_with};
use vstd::prelude::*;
use vstd::string::StringExecFns;

verus! {

/// One supported provider backend. A provider with two routing variants
/// sharing the same backend (such as the credit-based and the
/// subscription-based routes of the same service) appears as two kinds with
/// different default endpoints.
#[derive(Debug, Clone, Copy, PartialEq, Eq, Structural)]
pub enum AdapterKind {
    OpenAI,
    Anthropic,
    Gemini,
    GeminiCli,
    Antigravity,
    DeepSeek,
    Xai,
    Groq,
    Together,
    SiliconFlow,
    ZhipuAi,
    Fireworks,
    Nebius,
    OpenRouter,
    Zai,
    ZaiCoding,
    Ollama,
}

/// The adapter kind registered under a lowercase provider id.
pub open spec fn spec_from_lower_str(s: Seq<char>) -> Option<AdapterKind> {
    if s == "openai"@ {
        Some(AdapterKind::OpenAI)
    } else if s == "anthropic"@ {
        Some(AdapterKind::Anthropic)
    } else if s == "google"@ || s == "gemini"@ {
        Some(AdapterKind::Gemini)
    } else if s == "gemini-cli"@ {
        Some(AdapterKind::GeminiCli)
    } else if s == "antigravity"@ {
        Some(AdapterKind::Antigravity)
    } else if s == "deepseek"@ {
        Some(AdapterKind::DeepSeek)
    } else if s == "xai"@ {
        Some(AdapterKind::Xai)
    } else if s == "groq"@ {
        Some(AdapterKind::Groq)
    } else if s == "together"@ {
        Some(AdapterKind::Together)
    } else if s == "siliconflow"@ {
        Some(AdapterKind::SiliconFlow)
    } else if s == "zhipuai"@ {
        Some(AdapterKind::ZhipuAi)
    } else if s == "fireworks"@ {
        Some(AdapterKind::Fireworks)
    } else if s == "nebius"@ {
        Some(AdapterKind::Nebius)
    } else if s == "openrouter"@ {
        Some(AdapterKind::OpenRouter)
    } else if s == "zai"@ {
        Some(AdapterKind::Zai)
    } else if s == "zai-coding"@ {
        Some(AdapterKind::ZaiCoding)
    } else if s == "ollama"@ {
        Some(AdapterKind::Ollama)
    } else {
        None
    }
}

/// The adapter kind inferred from a bare model name by its naming
/// convention.
pub open spec fn spec_from_model(s: Seq<char>) -> Option<AdapterKind> {
    if spec_starts_with(s, "gpt-"@) || spec_starts_with(s, "o1"@) || spec_starts_with(s, "o3"@)
        || spec_starts_with(s, "o4"@) {
        Some(AdapterKind::OpenAI)
    } else if spec_starts_with(s, "gemini"@) {
        Some(AdapterKind::Gemini)
    } else if spec_starts_with(s, "grok"@) {
        Some(AdapterKind::Xai)
    } else if spec_starts_with(s, "deepseek"@) {
        Some(AdapterKind::DeepSeek)
    } else if spec_starts_with(s, "glm"@) {
        Some(AdapterKind::Zai)
    } else if spec_starts_with(s, "llama"@) || spec_starts_with(s, "gemma"@) || spec_starts_with(
        s,
        "mistral"@,
    ) || spec_starts_with(s, "mixtral"@) || spec_starts_with(s, "qwen"@) {
        Some(AdapterKind::Ollama)
    } else {
        None
    }
}

/// Whether a sequence begins with the given prefix.
pub open spec fn spec_starts_with(s: Seq<char>, p: Seq<char>) -> bool {
    p.len() <= s.len() && s.take(p.len() as int) == p
}

/// The default base URL registered for a provider.
pub open spec fn spec_default_endpoint(kind: AdapterKind) -> Seq<char> {
    match kind {
        AdapterKind::OpenAI => "https://api.openai.com/v1/"@,
        AdapterKind::Anthropic => "https://api.anthropic.com/"@,
        AdapterKind::Gemini => "https://generativelanguage.googleapis.com/v1beta/"@,
        AdapterKind::GeminiCli => "https://cloudcode-pa.googleapis.com/v1internal/"@,
        AdapterKind::Antigravity => "https://cloudcode-pa.googleapis.com/v1internal/"@,
        AdapterKind::DeepSeek => "https://api.deepseek.com/v1/"@,
        AdapterKind::Xai => "https://api.x.ai/v1/"@,
        AdapterKind::Groq => "https://api.groq.com/openai/v1/"@,
        AdapterKind::Together => "https://api.together.xyz/v1/"@,
        AdapterKind::SiliconFlow => "https://api.siliconflow.cn/v1/"@,
        AdapterKind::ZhipuAi => "https://open.bigmodel.cn/api/paas/v4/"@,
        AdapterKind::Fireworks => "https://api.fireworks.ai/inference/v1/"@,
        AdapterKind::Nebius => "https://api.studio.nebius.ai/v1/"@,
        AdapterKind::OpenRouter => "https://openrouter.ai/api/v1/"@,
        AdapterKind::Zai => "https://api.z.ai/api/paas/v4/"@,
        AdapterKind::ZaiCoding => "https://api.z.ai/api/coding/paas/v4/"@,
        AdapterKind::Ollama => "http://localhost:11434/v1/"@,
    }
}

/// Whether auth data is the default for a provider: a reference to the
/// provider's canonical environment variable, or no auth for the local
/// provider.
pub open spec fn is_default_auth(auth: AuthData, kind: AdapterKind) -> bool {
    match kind {
        AdapterKind::Ollama => auth == AuthData::NoAuth,
        _ => auth matches AuthData::FromEnv(n) && n@ == spec_default_env_name(kind),
    }
}

/// The canonical environment variable name holding a provider's API key.
pub open spec fn spec_default_env_name(kind: AdapterKind) -> Seq<char> {
    match kind {
        AdapterKind::OpenAI => "OPENAI_API_KEY"@,
        AdapterKind::Anthropic => "ANTHROPIC_API_KEY"@,
        AdapterKind::Gemini => "GEMINI_API_KEY"@,
        AdapterKind::GeminiCli => "GEMINI_CLI_API_KEY"@,
        AdapterKind::Antigravity => "ANTIGRAVITY_API_KEY"@,
        AdapterKind::DeepSeek => "DEEPSEEK_API_KEY"@,
        AdapterKind::Xai => "XAI_API_KEY"@,
        AdapterKind::Groq => "GROQ_API_KEY"@,
        AdapterKind::Together => "TOGETHER_API_KEY"@,
        AdapterKind::SiliconFlow => "SILICONFLOW_API_KEY"@,
        AdapterKind::ZhipuAi => "ZHIPUAI_API_KEY"@,
        AdapterKind::Fireworks => "FIREWORKS_API_KEY"@,
        AdapterKind::Nebius => "NEBIUS_API_KEY"@,
        AdapterKind::OpenRouter => "OPENROUTER_API_KEY"@,
        AdapterKind::Zai => "ZAI_API_KEY"@,
        AdapterKind::ZaiCoding => "ZAI_API_KEY"@,
        AdapterKind::Ollama => ""@,
    }
}

impl AdapterKind {
    /// The adapter kind registered under a lowercase provider id, failing
    /// with an unknown-provider error naming the id when no adapter claims
    /// it.
    pub fn provider_kind(s: &str) -> (r: Result<AdapterKind, crate::error::Error>)
        ensures
            match spec_from_lower_str(s@) {
                Some(kind) => r == Ok::<AdapterKind, crate::error::Error>(kind),
                None => r matches Err(crate::error::Error::UnknownProvider { provider })
                    && provider@ == s@,
            },
    {
        match AdapterKind::from_lower_str(s) {
            Some(kind) => Ok(kind),
            None => Err(crate::error::Error::UnknownProvider { provider: s.to_owned() }),
        }
    }

    /// The adapter kind registered under a lowercase provider id, if any.
    pub fn from_lower_str(s: &str) -> (r: Option<AdapterKind>)
        ensures
            r == spec_from_lower_str(s@),
    {
        if str_eq(s, "openai") {
            Some(AdapterKind::OpenAI)
        } else if str_eq(s, "anthropic") {
            Some(AdapterKind::Anthropic)
        } else if str_eq(s, "google") || str_eq(s, "gemini") {
            Some(AdapterKind::Gemini)
        } else if str_eq(s, "gemini-cli") {
            Some(AdapterKind::GeminiCli)
        } else if str_eq(s, "antigravity") {
            Some(AdapterKind::Antigravity)
        } else if str_eq(s, "deepseek") {
            Some(AdapterKind::DeepSeek)
        } else if str_eq(s, "xai") {
            Some(AdapterKind::Xai)
        } else if str_eq(s, "groq") {
            Some(AdapterKind::Groq)
        } else if str_eq(s, "together") {
            Some(AdapterKind::Together)
        } else if str_eq(s, "siliconflow") {
            Some(AdapterKind::SiliconFlow)
        } else if str_eq(s, "zhipuai") {
            Some(AdapterKind::ZhipuAi)
        } else if str_eq(s, "fireworks") {
            Some(AdapterKind::Fireworks)
        } else if str_eq(s, "nebius") {
            Some(AdapterKind::Nebius)
        } else if str_eq(s, "openrouter") {
            Some(AdapterKind::OpenRouter)
        } else if str_eq(s, "zai") {
            Some(AdapterKind::Zai)
        } else if str_eq(s, "zai-coding") {
            Some(AdapterKind::ZaiCoding)
        } else if str_eq(s, "ollama") {
            Some(AdapterKind::Ollama)
        } else {
            None
        }
    }

    /// Infers the adapter kind from a bare model name by its naming
    /// convention; fails when no convention matches.
    pub fn from_model(name: &str) -> (r: Option<AdapterKind>)
        ensures
            r == spec_from_model(name@),
    {
        if str_starts_with(name, "gpt-") || str_starts_with(name, "o1") || str_starts_with(
            name,
            "o3",
        ) || str_starts_with(name, "o4") {
            Some(AdapterKind::OpenAI)
        } else if str_starts_with(name, "gemini") {
            Some(AdapterKind::Gemini)
        } else if str_starts_with(name, "grok") {
            Some(AdapterKind::Xai)
        } else if str_starts_with(name, "deepseek") {
            Some(AdapterKind::DeepSeek)
        } else if str_starts_with(name, "glm") {
            Some(AdapterKind::Zai)
        } else if str_starts_with(name, "llama") || str_starts_with(name, "gemma")
            || str_starts_with(name, "mistral") || str_starts_with(name, "mixtral")
            || str_starts_with(name, "qwen") {
            Some(AdapterKind::Ollama)
        } else {
            None
        }
    }

    /// The default base URL for this provider.
    pub fn default_endpoint(self) -> (ep: Endpoint)
        ensures
            ep@ == spec_default_endpoint(self),
    {
        match self {
            AdapterKind::OpenAI => Endpoint::from_static("https://api.openai.com/v1/"),
            AdapterKind::Anthropic => Endpoint::from_static("https://api.anthropic.com/"),
            AdapterKind::Gemini => Endpoint::from_static(
                "https://generativelanguage.googleapis.com/v1beta/",
            ),
            AdapterKind::GeminiCli => Endpoint::from_static(
                "https://cloudcode-pa.googleapis.com/v1internal/",
            ),
            AdapterKind::Antigravity => Endpoint::from_static(
                "https://cloudcode-pa.googleapis.com/v1internal/",
            ),
            AdapterKind::DeepSeek => Endpoint::from_static("https://api.deepseek.com/v1/"),
            AdapterKind::Xai => Endpoint::from_static("https://api.x.ai/v1/"),
            AdapterKind::Groq => Endpoint::from_static("https://api.groq.com/openai/v1/"),
            AdapterKind::Together => Endpoint::from_static("https://api.together.xyz/v1/"),
            AdapterKind::SiliconFlow => Endpoint::from_static("https://api.siliconflow.cn/v1/"),
            AdapterKind::ZhipuAi => Endpoint::from_static("https://open.bigmodel.cn/api/paas/v4/"),
            AdapterKind::Fireworks => Endpoint::from_static(
                "https://api.fireworks.ai/inference/v1/",
            ),
            AdapterKind::Nebius => Endpoint::from_static("https://api.studio.nebius.ai/v1/"),
            AdapterKind::OpenRouter => Endpoint::from_static("https://openrouter.ai/api/v1/"),
            AdapterKind::Zai => Endpoint::from_static("https://api.z.ai/api/paas/v4/"),
            AdapterKind::ZaiCoding => Endpoint::from_static("https://api.z.ai/api/coding/paas/v4/"),
            AdapterKind::Ollama => Endpoint::from_static("http://localhost:11434/v1/"),
        }
    }

    /// The default auth data for this provider: its canonical environment
    /// variable, or no auth for the local provider.
    pub fn default_auth(self) -> (auth: AuthData)
        ensures
            is_default_auth(auth, self),
    {
        match self {
            AdapterKind::OpenAI => AuthData::FromEnv(String::from_str("OPENAI_API_KEY")),
            AdapterKind::Anthropic => AuthData::FromEnv(String::from_str("ANTHROPIC_API_KEY")),
            AdapterKind::Gemini => AuthData::FromEnv(String::from_str("GEMINI_API_KEY")),
            AdapterKind::GeminiCli => AuthData::FromEnv(String::from_str("GEMINI_CLI_API_KEY")),
            AdapterKind::Antigravity => AuthData::FromEnv(String::from_str("ANTIGRAVITY_API_KEY")),
            AdapterKind::DeepSeek => AuthData::FromEnv(String::from_str("DEEPSEEK_API_KEY")),
            AdapterKind::Xai => AuthData::FromEnv(String::from_str("XAI_API_KEY")),
            AdapterKind::Groq => AuthData::FromEnv(String::from_str("GROQ_API_KEY")),
            AdapterKind::Together => AuthData::FromEnv(String::from_str("TOGETHER_API_KEY")),
            AdapterKind::SiliconFlow => AuthData::FromEnv(String::from_str("SILICONFLOW_API_KEY")),
            AdapterKind::ZhipuAi => AuthData::FromEnv(String::from_str("ZHIPUAI_API_KEY")),
            AdapterKind::Fireworks => AuthData::FromEnv(String::from_str("FIREWORKS_API_KEY")),
            AdapterKind::Nebius => AuthData::FromEnv(String::from_str("NEBIUS_API_KEY")),
            AdapterKind::OpenRouter => AuthData::FromEnv(String::from_str("OPENROUTER_API_KEY")),
            AdapterKind::Zai => AuthData::FromEnv(String::from_str("ZAI_API_KEY")),
            AdapterKind::ZaiCoding => AuthData::FromEnv(String::from_str("ZAI_API_KEY")),
            AdapterKind::Ollama => AuthData::NoAuth,
        }
    }
}

} // verus!

use crate::text::str_eq;
use vstd::string::StringExecFns;
use vstd::prelude::*;

verus! {

/// A set of HTTP header name/value pairs. It can carry resolved auth
/// values, so it has no debug rendering.
#[derive(Clone)]
pub struct Headers {
    pub items: Vec<(String, String)>,
}

impl Headers {
    pub fn new() -> (h: Headers)
        ensures
            h.items@.len() == 0,
    {
        Headers { items: Vec::new() }
    }

    pub fn push(&mut self, name: String, value: String)
        ensures
            final(self).items@ == old(self).items@.push((name, value)),
    {
        self.items.push((name, value));
    }
}

/// The first value stored under a name, front to back.
pub open spec fn pairs_lookup(entries: Seq<(String, String)>, name: Seq<char>) -> Option<
    Seq<char>,
>
    decreases entries.len(),
{
    if entries.len() == 0 {
        None
    } else if entries[0].0@ == name {
        Some(entries[0].1@)
    } else {
        pairs_lookup(entries.drop_first(), name)
    }
}

/// A snapshot of the process environment, handed in by the caller at
/// auth-resolution time so that a changed variable takes effect on the
/// next call. It carries secrets, so it has no debug rendering.
#[derive(Clone)]
pub struct EnvVars {
    pub entries: Vec<(String, String)>,
}

impl EnvVars {
    pub fn new() -> (e: EnvVars)
        ensures
            e.entries@.len() == 0,
    {
        EnvVars { entries: Vec::new() }
    }

    pub fn push(&mut self, name: String, value: String)
        ensures
            final(self).entries@ == old(self).entries@.push((name, value)),
    {
        self.entries.push((name, value));
    }

    /// The value of the named variable in this snapshot, if present.
    pub fn lookup(&self, name: &str) -> (r: Option<String>)
        ensures
            match r {
                Some(v) => pairs_lookup(self.entries@, name@) == Some(v@),
                None => pairs_lookup(self.entries@, name@) is None,
            },
    {
        let n = self.entries.len();
        let mut i: usize = 0;
        proof {
            assert(self.entries@.skip(0) =~= self.entries@);
        }
        while i < n
            invariant
                i <= n,
                n == self.entries@.len(),
                pairs_lookup(self.entries@.skip(i as int), name@) == pairs_lookup(
                    self.entries@,
                    name@,
                ),
            decreases n - i,
        {
            proof {
                assert(self.entries@.skip(i as int)[0] == self.entries@[i as int]);
            }
            if str_eq(self.entries[i].0.as_str(), name) {
                return Some(self.entries[i].1.clone());
            }
            proof {
                assert(self.entries@.skip(i as int).drop_first() =~= self.entries@.skip(i + 1));
            }
            i += 1;
        }
        None
    }
}

/// Error type for auth-data resolution.
#[derive(Debug)]
pub enum AuthDataError {
    /// The named environment variable was absent from the snapshot.
    ApiKeyEnvNotFound { env_name: String },
    /// The auth data has no single-secret form.
    AuthDataNotSingleValue,
}

/// `AuthData` specifies either how to obtain the key or the key itself. It
/// has no debug rendering, so no log path can print a secret; use
/// [`AuthData::redacted_description`] instead.
#[derive(Clone)]
pub enum AuthData {
    /// The environment variable name to read the key value from, at
    /// resolution time.
    FromEnv(String),
    /// The key value itself.
    Key(String),
    /// Override headers and request URL for unorthodox authentication
    /// schemes; it bypasses standard secret injection entirely.
    RequestOverride { url: String, headers: Headers },
    /// Multiple named key/values (adapter-specific).
    MultiKeys(Vec<(String, String)>),
    /// No authentication at all.
    NoAuth,
}

impl AuthData {
    pub fn from_env(env_name: String) -> (r: AuthData)
        ensures
            r == AuthData::FromEnv(env_name),
    {
        AuthData::FromEnv(env_name)
    }

    pub fn from_single(value: String) -> (r: AuthData)
        ensures
            r == AuthData::Key(value),
    {
        AuthData::Key(value)
    }

    pub fn from_multi(data: Vec<(String, String)>) -> (r: AuthData)
        ensures
            r == AuthData::MultiKeys(data),
    {
        AuthData::MultiKeys(data)
    }

    /// A fixed rendering per variant for logs and diagnostics: two values of
    /// the same variant render identically, and no key, variable name, URL
    /// or header ever appears in the output.
    pub fn redacted_description(&self) -> (r: String)
        ensures
            match self {
                AuthData::FromEnv(_) => r@ == "AuthData::FromEnv(REDACTED)"@,
                AuthData::Key(_) => r@ == "AuthData::Single(REDACTED)"@,
                AuthData::RequestOverride { .. } => r@
                    == "AuthData::RequestOverride { url: REDACTED, headers: REDACTED }"@,
                AuthData::MultiKeys(_) => r@ == "AuthData::Multi(REDACTED)"@,
                AuthData::NoAuth => r@ == "None"@,
            },
    {
        match self {
            AuthData::FromEnv(_) => String::from_str("AuthData::FromEnv(REDACTED)"),
            AuthData::Key(_) => String::from_str("AuthData::Single(REDACTED)"),
            AuthData::RequestOverride { .. } => String::from_str(
                "AuthData::RequestOverride { url: REDACTED, headers: REDACTED }",
            ),
            AuthData::MultiKeys(_) => String::from_str("AuthData::Multi(REDACTED)"),
            AuthData::NoAuth => String::from_str("None"),
        }
    }

    /// Resolves the single-secret form of this auth data against the given
    /// environment snapshot.
    ///
    /// A request override resolves to the empty string (its own URL and
    /// headers carry the auth); an environment reference resolves to the
    /// variable's value or fails naming the variable; a literal key resolves
    /// to itself; the multi-key and no-auth forms have no single-secret form.
    pub fn single_key_value(&self, env: &EnvVars) -> (r: Result<String, AuthDataError>)
        ensures
            match self {
                AuthData::RequestOverride { .. } => r matches Ok(v) && v@ == Seq::<
                    char,
                >::empty(),
                AuthData::FromEnv(name) => match pairs_lookup(env.entries@, name@) {
                    Some(v) => r matches Ok(rv) && rv@ == v,
                    None => r matches Err(AuthDataError::ApiKeyEnvNotFound { env_name })
                        && env_name@ == name@,
                },
                AuthData::Key(value) => r matches Ok(rv) && rv@ == value@,
                AuthData::MultiKeys(_) => r matches Err(AuthDataError::AuthDataNotSingleValue),
                AuthData::NoAuth => r matches Err(AuthDataError::AuthDataNotSingleValue),
            },
    {
        match self {
            AuthData::RequestOverride { .. } => Ok(String::new()),
            AuthData::FromEnv(env_name) => match env.lookup(env_name.as_str()) {
                Some(value) => Ok(value),
                None => Err(
                    AuthDataError::ApiKeyEnvNotFound { env_name: env_name.clone() },
                ),
            },
            AuthData::Key(value) => Ok(value.clone()),
            AuthData::MultiKeys(_) => Err(AuthDataError::AuthDataNotSingleValue),
            AuthData::NoAuth => Err(AuthDataError::AuthDataNotSingleValue),
        }
    }
}

} // verus!

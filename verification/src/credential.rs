use crate::json::{json_text, json_to_string, json_view_members, lemma_json_view_members, Json,
    JsonV};
use vstd::prelude::*;
use vstd::string::StringExecFns;

verus! {

/// A stored API-key credential.
#[derive(Debug, Clone)]
pub struct ApiKeyCredential {
    pub key: String,
}

/// A stored OAuth credential: a refresh token, the current access token and
/// its expiry in epoch milliseconds, one named optional provider field, and
/// an open bag for other provider-specific data.
#[derive(Debug, Clone)]
pub struct OAuthCredential {
    pub refresh: String,
    pub access: String,
    pub expires: i64,
    pub project_id: Option<String>,
    pub extra: Vec<(String, String)>,
}

/// A stored setup-token credential.
#[derive(Debug, Clone)]
pub struct SetupTokenCredential {
    pub token: String,
}

/// A stored credential of one of the supported kinds.
#[derive(Debug, Clone)]
pub enum Credential {
    ApiKey(ApiKeyCredential),
    OAuth(OAuthCredential),
    SetupToken(SetupTokenCredential),
}

/// The composite secret for an OAuth credential that carries a project id:
/// a JSON object holding the project id and the access token, because some
/// provider endpoints require that shape instead of a bare token.
pub open spec fn composite_secret_text(access: Seq<char>, project_id: Seq<char>) -> Seq<char> {
    json_text(
        JsonV::Obj(
            seq![
                ("projectId"@, JsonV::Str(project_id)),
                ("token"@, JsonV::Str(access)),
            ],
        ),
    )
}

/// The secret a credential materializes into.
pub open spec fn spec_api_key(c: Credential) -> Seq<char> {
    match c {
        Credential::ApiKey(k) => k.key@,
        Credential::OAuth(o) => match o.project_id {
            Some(pid) => composite_secret_text(o.access@, pid@),
            None => o.access@,
        },
        Credential::SetupToken(t) => t.token@,
    }
}

/// Whether a credential counts as expired at the given clock reading:
/// an OAuth credential whose expiry has been reached (equality counts as
/// expired); credentials of any other kind never expire.
pub open spec fn spec_is_expired(c: Credential, now_ms: i64) -> bool {
    match c {
        Credential::OAuth(o) => now_ms >= o.expires,
        _ => false,
    }
}

impl Credential {
    /// Materializes the credential into the secret placed on the wire.
    ///
    /// An OAuth credential with a project id serializes into a composite
    /// JSON secret instead of the bare access token.
    pub fn api_key(&self) -> (r: Option<String>)
        ensures
            r matches Some(s) && s@ == spec_api_key(*self),
    {
        match self {
            Credential::ApiKey(k) => Some(k.key.clone()),
            Credential::OAuth(o) => match &o.project_id {
                Some(pid) => {
                    let mut members: Vec<(String, Json)> = Vec::new();
                    members.push((String::from_str("projectId"), Json::Str(pid.clone())));
                    members.push((String::from_str("token"), Json::Str(o.access.clone())));
                    let composite = Json::Obj(members);
                    let out = json_to_string(&composite);
                    proof {
                        let ms = composite->Obj_0@;
                        lemma_json_view_members(ms);
                        assert(json_view_members(ms) =~= seq![
                            ("projectId"@, JsonV::Str(pid@)),
                            ("token"@, JsonV::Str(o.access@)),
                        ]);
                    }
                    Some(out)
                },
                None => Some(o.access.clone()),
            },
            Credential::SetupToken(t) => Some(t.token.clone()),
        }
    }

    /// Whether this credential is expired at the injected clock reading,
    /// in epoch milliseconds.
    pub fn is_expired(&self, now_ms: i64) -> (r: bool)
        ensures
            r == spec_is_expired(*self, now_ms),
    {
        match self {
            Credential::OAuth(o) => now_ms >= o.expires,
            _ => false,
        }
    }

    /// Whether this credential is expired right now.
    ///
    /// The clock value comes from outside, so nothing is promised of an
    /// OAuth credential; a credential of any other kind never expires.
    pub fn is_expired_now(&self) -> (r: bool)
        ensures
            !(self is OAuth) ==> r == false,
    {
        let now = now_epoch_ms();
        self.is_expired(now)
    }
}

/// Relies on chrono::Utc::now: the current wall-clock time in epoch
/// milliseconds. Nothing is promised of the value.
#[verifier::external_body]
fn now_epoch_ms() -> i64 {
    chrono::Utc::now().timestamp_millis()
}

} // verus!

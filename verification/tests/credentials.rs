use zeroai::credential::{ApiKeyCredential, Credential, OAuthCredential, SetupTokenCredential};
use zeroai::refresh::{apply_refresh, refresh_due};
use zeroai::store::CredentialStore;

fn oauth(refresh: &str, access: &str, expires: i64, project_id: Option<&str>) -> Credential {
    Credential::OAuth(OAuthCredential {
        refresh: refresh.to_string(),
        access: access.to_string(),
        expires,
        project_id: project_id.map(|s| s.to_string()),
        extra: Vec::new(),
    })
}

#[test]
fn oauth_expiry_boundary() {
    let now_ms: i64 = 1_700_000_000_000;
    let c = oauth("r", "a", now_ms, None);
    assert!(c.is_expired(now_ms));
    let c2 = oauth("r", "a", now_ms + 1, None);
    assert!(!c2.is_expired(now_ms));
}

#[test]
fn non_oauth_never_expires() {
    let k = Credential::ApiKey(ApiKeyCredential { key: "k".to_string() });
    assert!(!k.is_expired(i64::MAX));
    assert!(!k.is_expired_now());
    let t = Credential::SetupToken(SetupTokenCredential { token: "t".to_string() });
    assert!(!t.is_expired(i64::MAX));
}

#[test]
fn api_key_materializes_bare_forms() {
    let k = Credential::ApiKey(ApiKeyCredential { key: "sk-1".to_string() });
    assert_eq!(k.api_key().unwrap(), "sk-1");
    let t = Credential::SetupToken(SetupTokenCredential { token: "st-1".to_string() });
    assert_eq!(t.api_key().unwrap(), "st-1");
    let o = oauth("r", "acc-1", 0, None);
    assert_eq!(o.api_key().unwrap(), "acc-1");
}

#[test]
fn api_key_materializes_composite_secret() {
    let o = oauth("r", "acc-1", 0, Some("proj-9"));
    assert_eq!(
        o.api_key().unwrap(),
        "{\"projectId\":\"proj-9\",\"token\":\"acc-1\"}"
    );
}

#[test]
fn api_key_composite_escapes_secret_text() {
    let o = oauth("r", "a\"b", 0, Some("p\\q"));
    assert_eq!(
        o.api_key().unwrap(),
        "{\"projectId\":\"p\\\\q\",\"token\":\"a\\\"b\"}"
    );
}

#[test]
fn store_set_then_get() {
    let mut store = CredentialStore::new();
    store.set("openai".to_string(), oauth("r1", "a1", 10, None));
    store.set("groq".to_string(), oauth("r2", "a2", 20, None));
    match store.get("openai").expect("stored") {
        Credential::OAuth(o) => assert_eq!(o.access, "a1"),
        _ => panic!("wrong kind"),
    }
    assert!(store.get("missing").is_none());
}

#[test]
fn store_replaces_whole_value() {
    let mut store = CredentialStore::new();
    store.set("openai".to_string(), oauth("r1", "a1", 10, None));
    store.set(
        "openai".to_string(),
        Credential::ApiKey(ApiKeyCredential { key: "k2".to_string() }),
    );
    match store.get("openai").expect("stored") {
        Credential::ApiKey(k) => assert_eq!(k.key, "k2"),
        _ => panic!("old credential leaked through"),
    }
}

#[test]
fn refresh_plan_picks_only_near_expiry_oauth() {
    let now_ms: i64 = 0;
    let minute: i64 = 60_000;
    let mut store = CredentialStore::new();
    store.set("soon".to_string(), oauth("r1", "a1", 10 * minute, None));
    store.set("later".to_string(), oauth("r2", "a2", 40 * minute, None));
    store.set(
        "keyed".to_string(),
        Credential::ApiKey(ApiKeyCredential { key: "k".to_string() }),
    );
    let due = refresh_due(&store, now_ms, 20 * minute);
    assert_eq!(due, vec!["soon".to_string()]);
}

#[test]
fn refresh_applies_atomically_and_keeps_refresh_token() {
    let mut store = CredentialStore::new();
    store.set("soon".to_string(), oauth("keep-me", "old", 10, Some("p")));
    store.set("other".to_string(), oauth("r2", "a2", 99, None));
    let applied = apply_refresh(&mut store, "soon", "new-access".to_string(), 500);
    assert!(applied);
    match store.get("soon").expect("still stored") {
        Credential::OAuth(o) => {
            assert_eq!(o.refresh, "keep-me");
            assert_eq!(o.access, "new-access");
            assert_eq!(o.expires, 500);
            assert_eq!(o.project_id.as_deref(), Some("p"));
        },
        _ => panic!("wrong kind"),
    }
    match store.get("other").expect("untouched") {
        Credential::OAuth(o) => assert_eq!(o.access, "a2"),
        _ => panic!("wrong kind"),
    }
}

#[test]
fn refresh_skips_providers_without_oauth() {
    let mut store = CredentialStore::new();
    store.set(
        "keyed".to_string(),
        Credential::ApiKey(ApiKeyCredential { key: "k".to_string() }),
    );
    assert!(!apply_refresh(&mut store, "keyed", "x".to_string(), 1));
    assert!(!apply_refresh(&mut store, "absent", "x".to_string(), 1));
    match store.get("keyed").expect("unchanged") {
        Credential::ApiKey(k) => assert_eq!(k.key, "k"),
        _ => panic!("wrong kind"),
    }
}

use crate::credential::{Credential, OAuthCredential};
use crate::store::{lemma_store_find_props, store_find, CredentialStore};
use vstd::prelude::*;

verus! {

/// Whether a credential is due for a proactive refresh at the given clock
/// reading: an OAuth credential that expires within the threshold (even if
/// not yet expired). Credentials of other kinds are never refreshed.
pub open spec fn cred_due(c: Credential, now_ms: int, threshold_ms: int) -> bool {
    match c {
        Credential::OAuth(o) => o.expires - now_ms < threshold_ms,
        _ => false,
    }
}

/// The provider ids whose stored credential is due for a refresh, in store
/// order.
pub open spec fn due_list(
    entries: Seq<(String, Credential)>,
    now_ms: int,
    threshold_ms: int,
) -> Seq<Seq<char>>
    decreases entries,
{
    if entries.len() == 0 {
        Seq::empty()
    } else if cred_due(entries.last().1, now_ms, threshold_ms) {
        due_list(entries.drop_last(), now_ms, threshold_ms).push(entries.last().0@)
    } else {
        due_list(entries.drop_last(), now_ms, threshold_ms)
    }
}

/// One tick's plan: the providers whose OAuth credential expires within the
/// threshold and should have its token-refresh exchange performed now.
pub fn refresh_due(store: &CredentialStore, now_ms: i64, threshold_ms: i64) -> (r: Vec<String>)
    ensures
        r@.map_values(|s: String| s@) == due_list(
            store.entries@,
            now_ms as int,
            threshold_ms as int,
        ),
{
    let mut out: Vec<String> = Vec::new();
    let n = store.entries.len();
    proof {
        assert(store.entries@.take(0) =~= Seq::<(String, Credential)>::empty());
        assert(out@.map_values(|s: String| s@) =~= due_list(
            store.entries@.take(0),
            now_ms as int,
            threshold_ms as int,
        ));
    }
    for i in 0..n
        invariant
            n == store.entries@.len(),
            out@.map_values(|s: String| s@) == due_list(
                store.entries@.take(i as int),
                now_ms as int,
                threshold_ms as int,
            ),
    {
        let due = match &store.entries[i].1 {
            Credential::OAuth(o) => (o.expires as i128) - (now_ms as i128) < (
            threshold_ms as i128),
            _ => false,
        };
        if due {
            out.push(store.entries[i].0.clone());
        }
        proof {
            assert(store.entries@.take(i + 1).drop_last() =~= store.entries@.take(i as int));
            assert(store.entries@.take(i + 1).last() == store.entries@[i as int]);
            assert(due == cred_due(
                store.entries@[i as int].1,
                now_ms as int,
                threshold_ms as int,
            ));
            if due {
                assert(due_list(store.entries@.take(i + 1), now_ms as int, threshold_ms as int)
                    == due_list(
                    store.entries@.take(i as int),
                    now_ms as int,
                    threshold_ms as int,
                ).push(store.entries@[i as int].0@));
            } else {
                assert(due_list(store.entries@.take(i + 1), now_ms as int, threshold_ms as int)
                    == due_list(store.entries@.take(i as int), now_ms as int, threshold_ms as int));
            }
            assert(out@.map_values(|s: String| s@) =~= due_list(
                store.entries@.take(i + 1),
                now_ms as int,
                threshold_ms as int,
            ));
        }
    }
    proof {
        assert(store.entries@.take(n as int) =~= store.entries@);
    }
    out
}

/// Membership in one tick's plan: a provider is due exactly when the store
/// holds an OAuth credential for it that expires within the threshold.
pub proof fn lemma_refresh_due_membership(
    entries: Seq<(String, Credential)>,
    now_ms: int,
    threshold_ms: int,
    p: Seq<char>,
)
    ensures
        due_list(entries, now_ms, threshold_ms).contains(p) <==> exists|i: int|
            0 <= i < entries.len() && entries[i].0@ == p && cred_due(
                entries[i].1,
                now_ms,
                threshold_ms,
            ),
    decreases entries,
{
    if entries.len() > 0 {
        lemma_refresh_due_membership(entries.drop_last(), now_ms, threshold_ms, p);
        let prev = due_list(entries.drop_last(), now_ms, threshold_ms);
        let cur = due_list(entries, now_ms, threshold_ms);
        assert(forall|i: int|
            0 <= i < entries.len() - 1 ==> entries.drop_last()[i] == entries[i]);
        if cred_due(entries.last().1, now_ms, threshold_ms) {
            assert(cur == prev.push(entries.last().0@));
            if cur.contains(p) {
                let k = choose|k: int| 0 <= k < cur.len() && cur[k] == p;
                if k < prev.len() {
                    assert(prev[k] == p);
                } else {
                    assert(entries[entries.len() - 1].0@ == p);
                }
            }
            if exists|i: int|
                0 <= i < entries.len() && entries[i].0@ == p && cred_due(
                    entries[i].1,
                    now_ms,
                    threshold_ms,
                ) {
                let i = choose|i: int|
                    0 <= i < entries.len() && entries[i].0@ == p && cred_due(
                        entries[i].1,
                        now_ms,
                        threshold_ms,
                    );
                if i < entries.len() - 1 {
                    assert(prev.contains(p));
                    let k = choose|k: int| 0 <= k < prev.len() && prev[k] == p;
                    assert(cur[k] == p);
                } else {
                    assert(cur.last() == p);
                }
            }
        } else {
            assert(cur == prev);
            if cur.contains(p) {
                let k = choose|k: int| 0 <= k < cur.len() && cur[k] == p;
                assert(prev[k] == p);
            }
        }
    }
}

/// Applies the outcome of one provider's token-refresh exchange: replaces
/// the stored OAuth credential's access token and expiry in one atomic value
/// swap, keeping the refresh token and the provider-specific fields.
///
/// Returns false, leaving the store unchanged, when the provider holds no
/// OAuth credential; a failed exchange for one provider thus never touches
/// the others' entries.
pub fn apply_refresh(
    store: &mut CredentialStore,
    provider: &str,
    new_access: String,
    new_expires: i64,
) -> (r: bool)
    ensures
        match store_find(old(store).entries@, provider@) {
            Some(j) => if old(store).entries@[j].1 is OAuth {
                r && final(store).entries@ == old(store).entries@.update(
                    j,
                    (
                        old(store).entries@[j].0,
                        Credential::OAuth(
                            OAuthCredential {
                                refresh: old(store).entries@[j].1->OAuth_0.refresh,
                                access: new_access,
                                expires: new_expires,
                                project_id: old(store).entries@[j].1->OAuth_0.project_id,
                                extra: old(store).entries@[j].1->OAuth_0.extra,
                            },
                        ),
                    ),
                )
            } else {
                !r && final(store).entries@ == old(store).entries@
            },
            None => !r && final(store).entries@ == old(store).entries@,
        },
        old(store).wf() ==> final(store).wf(),
{
    let idx = store.find(provider);
    proof {
        lemma_store_find_props(store.entries@, provider@);
    }
    match idx {
        Some(i) => {
            let (key, cred) = store.entries.remove(i);
            match cred {
                Credential::OAuth(o) => {
                    let renewed = Credential::OAuth(
                        OAuthCredential {
                            refresh: o.refresh,
                            access: new_access,
                            expires: new_expires,
                            project_id: o.project_id,
                            extra: o.extra,
                        },
                    );
                    store.entries.insert(i, (key, renewed));
                    proof {
                        assert(final(store).entries@ =~= old(store).entries@.update(
                            i as int,
                            (
                                old(store).entries@[i as int].0,
                                Credential::OAuth(
                                    OAuthCredential {
                                        refresh: old(
                                            store,
                                        ).entries@[i as int].1->OAuth_0.refresh,
                                        access: new_access,
                                        expires: new_expires,
                                        project_id: old(
                                            store,
                                        ).entries@[i as int].1->OAuth_0.project_id,
                                        extra: old(store).entries@[i as int].1->OAuth_0.extra,
                                    },
                                ),
                            ),
                        ));
                        if old(store).wf() {
                            assert(crate::store::store_wf(final(store).entries@));
                        }
                    }
                    true
                },
                other => {
                    store.entries.insert(i, (key, other));
                    proof {
                        assert(final(store).entries@ =~= old(store).entries@);
                    }
                    false
                },
            }
        },
        None => false,
    }
}

} // verus!

use crate::credential::{spec_api_key, spec_is_expired, Credential};
use crate::text::str_eq;
use vstd::prelude::*;

verus! {

/// The index of the entry stored under a provider id, front to back.
pub open spec fn store_find(entries: Seq<(String, Credential)>, p: Seq<char>) -> Option<int>
    decreases entries.len(),
{
    if entries.len() == 0 {
        None
    } else if entries[0].0@ == p {
        Some(0int)
    } else {
        match store_find(entries.drop_first(), p) {
            Some(k) => Some(k + 1),
            None => None,
        }
    }
}

/// The credential stored under a provider id.
pub open spec fn store_get(entries: Seq<(String, Credential)>, p: Seq<char>) -> Option<
    Credential,
> {
    match store_find(entries, p) {
        Some(j) => Some(entries[j].1),
        None => None,
    }
}

/// Key uniqueness: each provider id holds at most one entry.
pub open spec fn store_wf(entries: Seq<(String, Credential)>) -> bool {
    forall|i: int, j: int|
        0 <= i < j < entries.len() ==> entries[i].0@ != entries[j].0@
}

pub proof fn lemma_store_find_props(entries: Seq<(String, Credential)>, p: Seq<char>)
    ensures
        match store_find(entries, p) {
            Some(j) => 0 <= j < entries.len() && entries[j].0@ == p && (forall|m: int|
                0 <= m < j ==> entries[m].0@ != p),
            None => forall|m: int| 0 <= m < entries.len() ==> entries[m].0@ != p,
        },
    decreases entries.len(),
{
    if entries.len() > 0 && entries[0].0@ != p {
        let rest = entries.drop_first();
        lemma_store_find_props(rest, p);
        assert(forall|m: int| 0 <= m < rest.len() ==> rest[m] == entries[m + 1]);
        match store_find(rest, p) {
            Some(k) => {
                assert(entries[k + 1].0@ == p);
                assert forall|m: int| 0 <= m < k + 1 implies entries[m].0@ != p by {
                    if m > 0 {
                        assert(rest[m - 1].0@ != p);
                    }
                }
            },
            None => {
                assert forall|m: int| 0 <= m < entries.len() implies entries[m].0@ != p by {
                    if m > 0 {
                        assert(rest[m - 1].0@ != p);
                    }
                }
            },
        }
    }
}

pub proof fn lemma_store_find_at(entries: Seq<(String, Credential)>, p: Seq<char>, i: int)
    requires
        0 <= i < entries.len(),
        entries[i].0@ == p,
        forall|m: int| 0 <= m < i ==> entries[m].0@ != p,
    ensures
        store_find(entries, p) == Some(i),
    decreases i,
{
    if i > 0 {
        lemma_store_find_at(entries.drop_first(), p, i - 1);
    }
}

/// Per-provider credentials. Writes replace a whole credential value in one
/// step (never one field at a time), so a concurrent reader holding the map
/// behind a reader-writer lock can only ever observe the old credential or
/// the new one whole.
#[derive(Debug, Clone)]
pub struct CredentialStore {
    pub entries: Vec<(String, Credential)>,
}

impl CredentialStore {
    /// Key uniqueness holds of every store this library builds.
    pub open spec fn wf(&self) -> bool {
        store_wf(self.entries@)
    }

    pub fn new() -> (s: CredentialStore)
        ensures
            s.entries@.len() == 0,
            s.wf(),
    {
        CredentialStore { entries: Vec::new() }
    }

    /// Finds the position of a provider's entry.
    pub(crate) fn find(&self, provider: &str) -> (r: Option<usize>)
        ensures
            match r {
                Some(i) => store_find(self.entries@, provider@) == Some(i as int),
                None => store_find(self.entries@, provider@) is None,
            },
    {
        let n = self.entries.len();
        for i in 0..n
            invariant
                n == self.entries@.len(),
                forall|m: int| 0 <= m < i ==> self.entries@[m].0@ != provider@,
        {
            if str_eq(self.entries[i].0.as_str(), provider) {
                proof {
                    lemma_store_find_at(self.entries@, provider@, i as int);
                }
                return Some(i);
            }
        }
        proof {
            lemma_store_find_props(self.entries@, provider@);
        }
        None
    }

    /// Reads a provider's credential, if stored.
    pub fn get(&self, provider: &str) -> (r: Option<&Credential>)
        ensures
            match r {
                Some(c) => store_get(self.entries@, provider@) == Some(*c),
                None => store_get(self.entries@, provider@) is None,
            },
    {
        match self.find(provider) {
            Some(i) => {
                proof {
                    lemma_store_find_props(self.entries@, provider@);
                }
                Some(&self.entries[i].1)
            },
            None => None,
        }
    }

    /// Resolves a provider's usable secret at the given clock reading: the
    /// stored credential materialized, unless none is stored or the stored
    /// one is expired.
    pub fn resolve_api_key(&self, provider: &str, now_ms: i64) -> (r: Option<String>)
        ensures
            match store_get(self.entries@, provider@) {
                Some(c) => if spec_is_expired(c, now_ms) {
                    r is None
                } else {
                    r matches Some(s) && s@ == spec_api_key(c)
                },
                None => r is None,
            },
    {
        match self.get(provider) {
            Some(c) => {
                if c.is_expired(now_ms) {
                    None
                } else {
                    c.api_key()
                }
            },
            None => None,
        }
    }

    /// Stores a provider's credential, replacing the whole previous value
    /// in one step if one was present.
    pub fn set(&mut self, provider: String, cred: Credential)
        ensures
            match store_find(old(self).entries@, provider@) {
                Some(j) => final(self).entries@ == old(self).entries@.update(
                    j,
                    (provider, cred),
                ),
                None => final(self).entries@ == old(self).entries@.push((provider, cred)),
            },
            old(self).wf() ==> final(self).wf(),
    {
        proof {
            lemma_store_find_props(self.entries@, provider@);
        }
        match self.find(provider.as_str()) {
            Some(i) => {
                self.entries.remove(i);
                self.entries.insert(i, (provider, cred));
                proof {
                    assert(final(self).entries@ =~= old(self).entries@.update(
                        i as int,
                        (provider, cred),
                    ));
                    if old(self).wf() {
                        assert(store_wf(final(self).entries@));
                    }
                }
            },
            None => {
                self.entries.push((provider, cred));
                proof {
                    if old(self).wf() {
                        assert(store_wf(final(self).entries@));
                    }
                }
            },
        }
    }
}

/// The swap is atomic at the value level: after a write, every read of the
/// written provider yields exactly the new credential whole, and a read of
/// any other provider yields what it held before — never a mix of old and
/// new fields.
pub proof fn lemma_store_swap_atomic(
    before: Seq<(String, Credential)>,
    after: Seq<(String, Credential)>,
    provider: String,
    cred: Credential,
    q: Seq<char>,
)
    requires
        store_wf(before),
        after == match store_find(before, provider@) {
            Some(j) => before.update(j, (provider, cred)),
            None => before.push((provider, cred)),
        },
    ensures
        store_get(after, provider@) == Some(cred),
        q != provider@ ==> store_get(after, q) == store_get(before, q),
{
    lemma_store_find_props(before, provider@);
    match store_find(before, provider@) {
        Some(j) => {
            lemma_store_find_at(after, provider@, j);
            lemma_store_find_props(before, q);
            lemma_store_find_props(after, q);
            if q != provider@ {
                match store_find(before, q) {
                    Some(k) => {
                        lemma_store_find_at(after, q, k);
                    },
                    None => {
                        assert(forall|m: int| 0 <= m < after.len() ==> after[m].0@ != q);
                    },
                }
            }
        },
        None => {
            lemma_store_find_at(after, provider@, before.len() as int);
            lemma_store_find_props(before, q);
            lemma_store_find_props(after, q);
            if q != provider@ {
                match store_find(before, q) {
                    Some(k) => {
                        lemma_store_find_at(after, q, k);
                    },
                    None => {
                        assert(forall|m: int| 0 <= m < after.len() ==> after[m].0@ != q);
                    },
                }
            }
        },
    }
}

} // verus!

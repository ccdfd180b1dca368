use crate::text::find_char;
use vstd::prelude::*;
use vstd::string::StrSliceExecFns;
use vstd::string::StringExecFns;

verus! {

/// The static table of known provider prefixes, longest first, so that
/// overlapping prefixes (two routing variants of one backend) disambiguate
/// to the longer one.
pub open spec fn spec_prefix_table() -> Seq<Seq<char>> {
    seq![
        "antigravity"@,
        "siliconflow"@,
        "gemini-cli"@,
        "openrouter"@,
        "zai-coding"@,
        "anthropic"@,
        "fireworks"@,
        "deepseek"@,
        "together"@,
        "zhipuai"@,
        "google"@,
        "nebius"@,
        "ollama"@,
        "openai"@,
        "gemini"@,
        "groq"@,
        "xai"@,
        "zai"@,
    ]
}

/// A well-formed table entry: nonempty, and free of the separator.
pub open spec fn prefix_entry_ok(p: Seq<char>) -> bool {
    0 < p.len() && (forall|j: int| 0 <= j < p.len() ==> p[j] != '/')
}

/// Whether a full id starts with the given prefix followed by the
/// separator.
pub open spec fn prefix_matches(s: Seq<char>, p: Seq<char>) -> bool {
    p.len() < s.len() && s.take(p.len() as int) == p && s[p.len() as int] == '/'
}

/// The first table entry that matches, front to back.
pub open spec fn match_in_table(s: Seq<char>, t: Seq<Seq<char>>) -> Option<Seq<char>>
    decreases t.len(),
{
    if t.len() == 0 {
        None
    } else if prefix_matches(s, t[0]) {
        Some(t[0])
    } else {
        match_in_table(s, t.drop_first())
    }
}

/// Whether position `j` holds the first separator of the string.
pub open spec fn is_first_slash(s: Seq<char>, j: int) -> bool {
    0 <= j < s.len() && s[j] == '/' && (forall|m: int| 0 <= m < j ==> s[m] != '/')
}

/// What splitting a full model id yields: the first matching known prefix
/// and the rest; otherwise, a split at the first separator; otherwise
/// nothing, and the caller falls back to name-based inference.
pub open spec fn spec_split_id(s: Seq<char>) -> Option<(Seq<char>, Seq<char>)> {
    match match_in_table(s, spec_prefix_table()) {
        Some(p) => Some((p, s.skip(p.len() as int + 1))),
        None => if exists|j: int| is_first_slash(s, j) {
            let j = choose|j: int| is_first_slash(s, j);
            Some((s.take(j), s.skip(j + 1)))
        } else {
            None
        },
    }
}

/// Every table entry is nonempty and free of the separator.
pub proof fn lemma_prefix_table_wf()
    ensures
        forall|k: int|
            0 <= k < spec_prefix_table().len() ==> prefix_entry_ok(#[trigger] spec_prefix_table()[k]),
{
    reveal_strlit("antigravity");
    reveal_strlit("siliconflow");
    reveal_strlit("gemini-cli");
    reveal_strlit("openrouter");
    reveal_strlit("zai-coding");
    reveal_strlit("anthropic");
    reveal_strlit("fireworks");
    reveal_strlit("deepseek");
    reveal_strlit("together");
    reveal_strlit("zhipuai");
    reveal_strlit("google");
    reveal_strlit("nebius");
    reveal_strlit("ollama");
    reveal_strlit("openai");
    reveal_strlit("gemini");
    reveal_strlit("groq");
    reveal_strlit("xai");
    reveal_strlit("zai");
    assert forall|k: int|
        0 <= k < spec_prefix_table().len() implies prefix_entry_ok(
        #[trigger] spec_prefix_table()[k],
    ) by {
        assert(prefix_entry_ok("antigravity"@));
        assert(prefix_entry_ok("siliconflow"@));
        assert(prefix_entry_ok("gemini-cli"@));
        assert(prefix_entry_ok("openrouter"@));
        assert(prefix_entry_ok("zai-coding"@));
        assert(prefix_entry_ok("anthropic"@));
        assert(prefix_entry_ok("fireworks"@));
        assert(prefix_entry_ok("deepseek"@));
        assert(prefix_entry_ok("together"@));
        assert(prefix_entry_ok("zhipuai"@));
        assert(prefix_entry_ok("google"@));
        assert(prefix_entry_ok("nebius"@));
        assert(prefix_entry_ok("ollama"@));
        assert(prefix_entry_ok("openai"@));
        assert(prefix_entry_ok("gemini"@));
        assert(prefix_entry_ok("groq"@));
        assert(prefix_entry_ok("xai"@));
        assert(prefix_entry_ok("zai"@));
    }
}

/// In a table whose matching entries all equal `p`, the first match is `p`.
proof fn lemma_match_unique(s: Seq<char>, t: Seq<Seq<char>>, p: Seq<char>)
    requires
        t.contains(p),
        prefix_matches(s, p),
        forall|k: int| 0 <= k < t.len() && prefix_matches(s, #[trigger] t[k]) ==> t[k] == p,
    ensures
        match_in_table(s, t) == Some(p),
    decreases t.len(),
{
    if prefix_matches(s, t[0]) {
        assert(t[0] == p);
    } else {
        let rest = t.drop_first();
        let k = choose|k: int| 0 <= k < t.len() && t[k] == p;
        assert(k > 0);
        assert(rest[k - 1] == p);
        assert(rest.contains(p));
        assert(forall|m: int| 0 <= m < rest.len() ==> rest[m] == t[m + 1]);
        lemma_match_unique(s, rest, p);
    }
}

/// If no table entry matches, the table yields nothing.
proof fn lemma_match_none(s: Seq<char>, t: Seq<Seq<char>>)
    requires
        forall|k: int| 0 <= k < t.len() ==> !prefix_matches(s, #[trigger] t[k]),
    ensures
        match_in_table(s, t) is None,
    decreases t.len(),
{
    if t.len() > 0 {
        assert(forall|m: int| 0 <= m < t.drop_first().len() ==> t.drop_first()[m] == t[m + 1]);
        lemma_match_none(s, t.drop_first());
    }
}

/// Splitting a known prefix joined to any short name by the separator
/// yields exactly that prefix and that short name.
pub proof fn lemma_split_known_prefix(p: Seq<char>, m: Seq<char>)
    requires
        spec_prefix_table().contains(p),
    ensures
        spec_split_id(p + seq!['/'] + m) == Some((p, m)),
{
    lemma_prefix_table_wf();
    let s = p + seq!['/'] + m;
    assert(s.len() == p.len() + 1 + m.len());
    assert(s.take(p.len() as int) =~= p);
    assert(s[p.len() as int] == '/');
    assert(prefix_matches(s, p));
    assert forall|k: int|
        0 <= k < spec_prefix_table().len() && prefix_matches(s, #[trigger] spec_prefix_table()[k])
        implies spec_prefix_table()[k] == p by {
        let q = spec_prefix_table()[k];
        assert(prefix_entry_ok(q));
        if q.len() < p.len() {
            assert(s[q.len() as int] == p[q.len() as int]);
            assert(s[q.len() as int] == '/');
            assert(false);
        } else if q.len() > p.len() {
            assert(q == s.take(q.len() as int));
            assert(q[p.len() as int] == s[p.len() as int]);
            assert(q[p.len() as int] == '/');
            assert(false);
        } else {
            assert(q =~= s.take(p.len() as int));
        }
    }
    lemma_match_unique(s, spec_prefix_table(), p);
    assert(s.skip(p.len() as int + 1) =~= m);
}

/// A string with no matching prefix and no separator does not split.
pub proof fn lemma_split_no_separator(s: Seq<char>)
    requires
        forall|j: int| 0 <= j < s.len() ==> s[j] != '/',
    ensures
        spec_split_id(s) is None,
{
    assert forall|k: int|
        0 <= k < spec_prefix_table().len() implies !prefix_matches(
        s,
        #[trigger] spec_prefix_table()[k],
    ) by {
        let q = spec_prefix_table()[k];
        if prefix_matches(s, q) {
            assert(s[q.len() as int] == '/');
        }
    }
    lemma_match_none(s, spec_prefix_table());
    assert(!(exists|j: int| is_first_slash(s, j)));
}

/// Parses a `"provider/model"`-style string against the static prefix
/// table.
#[derive(Debug, Clone)]
pub struct ModelMapper {
    pub table: Vec<String>,
}

impl ModelMapper {
    /// The runtime table mirrors the static one.
    pub open spec fn wf(&self) -> bool {
        self.table@.map_values(|s: String| s@) == spec_prefix_table()
    }

    pub fn new() -> (m: ModelMapper)
        ensures
            m.wf(),
    {
        let mut table: Vec<String> = Vec::new();
        table.push(String::from_str("antigravity"));
        table.push(String::from_str("siliconflow"));
        table.push(String::from_str("gemini-cli"));
        table.push(String::from_str("openrouter"));
        table.push(String::from_str("zai-coding"));
        table.push(String::from_str("anthropic"));
        table.push(String::from_str("fireworks"));
        table.push(String::from_str("deepseek"));
        table.push(String::from_str("together"));
        table.push(String::from_str("zhipuai"));
        table.push(String::from_str("google"));
        table.push(String::from_str("nebius"));
        table.push(String::from_str("ollama"));
        table.push(String::from_str("openai"));
        table.push(String::from_str("gemini"));
        table.push(String::from_str("groq"));
        table.push(String::from_str("xai"));
        table.push(String::from_str("zai"));
        let m = ModelMapper { table };
        proof {
            assert(m.table@.map_values(|s: String| s@) =~= spec_prefix_table());
        }
        m
    }

    /// Splits a full model id into (provider prefix, short model name): the
    /// first matching known prefix wins; otherwise the first separator
    /// splits the string; a string with neither yields nothing and the
    /// caller falls back to name-based inference.
    pub fn split_id(&self, full_id: &str) -> (r: Option<(String, String)>)
        requires
            self.wf(),
        ensures
            match r {
                Some((p, rest)) => spec_split_id(full_id@) == Some((p@, rest@)),
                None => spec_split_id(full_id@) is None,
            },
    {
        let slen = full_id.unicode_len();
        let n = self.table.len();
        proof {
            assert(self.table@.map_values(|s: String| s@).len() == n);
        }
        for k in 0..n
            invariant
                self.wf(),
                n == self.table@.len(),
                slen == full_id@.len(),
                forall|m: int|
                    0 <= m < k ==> !prefix_matches(full_id@, #[trigger] spec_prefix_table()[m]),
        {
            proof {
                assert(spec_prefix_table()[k as int] == self.table@[k as int]@);
            }
            let p = &self.table[k];
            let plen = p.as_str().unicode_len();
            if plen < slen {
                if full_id.get_char(plen) == '/' {
                    let matched = crate::text::str_starts_with(full_id, p.as_str());
                    if matched {
                        proof {
                            assert(full_id@.take(plen as int) =~= p@);
                            assert(prefix_matches(full_id@, spec_prefix_table()[k as int]));
                            lemma_match_at(full_id@, spec_prefix_table(), k as int);
                        }
                        let provider = p.clone();
                        let rest = full_id.substring_char(plen + 1, slen).to_owned();
                        proof {
                            assert(rest@ =~= full_id@.skip(plen + 1));
                        }
                        return Some((provider, rest));
                    }
                }
            }
            proof {
                assert(!prefix_matches(full_id@, spec_prefix_table()[k as int]));
            }
        }
        proof {
            lemma_match_none(full_id@, spec_prefix_table());
        }
        match find_char(full_id, '/') {
            Some(j) => {
                let provider = full_id.substring_char(0, j).to_owned();
                let rest = full_id.substring_char(j + 1, slen).to_owned();
                proof {
                    assert(is_first_slash(full_id@, j as int));
                    let jj = choose|x: int| is_first_slash(full_id@, x);
                    if jj < j as int {
                        assert(full_id@[jj] != '/');
                    }
                    if jj > j as int {
                        assert(full_id@[j as int] != '/');
                    }
                    assert(jj == j as int);
                    assert(provider@ =~= full_id@.take(j as int));
                    assert(rest@ =~= full_id@.skip(j + 1));
                }
                Some((provider, rest))
            },
            None => {
                proof {
                    assert(!(exists|x: int| is_first_slash(full_id@, x)));
                }
                None
            },
        }
    }
}

/// If the first `k` entries fail and entry `k` matches, the table yields
/// entry `k`.
proof fn lemma_match_at(s: Seq<char>, t: Seq<Seq<char>>, k: int)
    requires
        0 <= k < t.len(),
        prefix_matches(s, t[k]),
        forall|m: int| 0 <= m < k ==> !prefix_matches(s, #[trigger] t[m]),
    ensures
        match_in_table(s, t) == Some(t[k]),
    decreases k,
{
    if k > 0 {
        let rest = t.drop_first();
        assert(forall|m: int| 0 <= m < rest.len() ==> rest[m] == t[m + 1]);
        lemma_match_at(s, rest, k - 1);
    }
}

} // verus!

//! The per-request diagnostic snapshot: an immutable record of one
//! request's protocol, method, URI and headers, the displayed body text,
//! and the process environment. Headers keep their arrival order, with
//! duplicates preserved; environment variables are collapsed to unique
//! keys, the last writer winning.

use crate::body::sentinel_text;
use vstd::prelude::*;

verus! {

/// The value of the last pair in `pairs` whose key reads `key`, if any:
/// the winning writer of that environment variable.
pub open spec fn last_value_of(pairs: Seq<(String, String)>, key: Seq<char>) -> Option<Seq<char>>
    decreases pairs.len(),
{
    if pairs.len() == 0 {
        None
    } else if pairs.last().0@ == key {
        Some(pairs.last().1@)
    } else {
        last_value_of(pairs.drop_last(), key)
    }
}

/// Some pair carries this key.
pub open spec fn contains_key(pairs: Seq<(String, String)>, key: Seq<char>) -> bool {
    exists|j: int| 0 <= j < pairs.len() && pairs[j].0@ == key
}

/// No two pairs share a key.
pub open spec fn keys_unique(pairs: Seq<(String, String)>) -> bool {
    forall|i: int, j: int| 0 <= i < j < pairs.len() ==> pairs[i].0@ != pairs[j].0@
}

/// The environment collapsed to unique keys: walking the pairs from the
/// last to the first, a pair is kept exactly when no later pair already
/// claimed its key — the last writer wins.
pub open spec fn spec_dedup(pairs: Seq<(String, String)>) -> Seq<(String, String)>
    decreases pairs.len(),
{
    if pairs.len() == 0 {
        Seq::<(String, String)>::empty()
    } else {
        let rest = spec_dedup(pairs.drop_first());
        if contains_key(rest, pairs[0].0@) {
            rest
        } else {
            rest.push(pairs[0])
        }
    }
}

proof fn lemma_last_value_prepend(p: (String, String), s: Seq<(String, String)>, key: Seq<char>)
    ensures
        last_value_of(seq![p] + s, key) == (if last_value_of(s, key) is Some {
            last_value_of(s, key)
        } else if p.0@ == key {
            Some(p.1@)
        } else {
            None
        }),
    decreases s.len(),
{
    if s.len() == 0 {
        assert(seq![p] + s =~= seq![p]);
        assert((seq![p]).drop_last() =~= Seq::<(String, String)>::empty());
    } else {
        assert((seq![p] + s).last() == s.last());
        assert((seq![p] + s).drop_last() =~= seq![p] + s.drop_last());
        lemma_last_value_prepend(p, s.drop_last(), key);
    }
}

/// Law: an environment key has a winning value exactly when some pair
/// carries that key.
pub proof fn lemma_last_value_some_iff(s: Seq<(String, String)>, key: Seq<char>)
    ensures
        last_value_of(s, key) is Some <==> contains_key(s, key),
    decreases s.len(),
{
    if s.len() > 0 {
        lemma_last_value_some_iff(s.drop_last(), key);
        if s.last().0@ == key {
            assert(s[s.len() - 1].0@ == key);
        } else {
            assert forall|k: int| 0 <= k < s.len() && s[k].0@ == key implies contains_key(
                s.drop_last(),
                key,
            ) by {
                assert(k < s.len() - 1);
                assert(s.drop_last()[k].0@ == key);
            }
        }
    }
}

/// Law: the collapsed environment never repeats a key.
pub proof fn lemma_dedup_keys_unique(pairs: Seq<(String, String)>)
    ensures
        keys_unique(spec_dedup(pairs)),
    decreases pairs.len(),
{
    if pairs.len() > 0 {
        lemma_dedup_keys_unique(pairs.drop_first());
        let rest = spec_dedup(pairs.drop_first());
        if !contains_key(rest, pairs[0].0@) {
            assert forall|i: int, j: int|
                0 <= i < j < rest.push(pairs[0]).len() implies rest.push(pairs[0])[i].0@
                != rest.push(pairs[0])[j].0@ by {
                if j == rest.len() {
                    assert(rest[i].0@ != pairs[0].0@);
                }
            }
        }
    }
}

/// Law: seen as a mapping from key to winning value, the collapsed
/// environment agrees with the input pairs on every key.
pub proof fn lemma_dedup_last_value(pairs: Seq<(String, String)>, key: Seq<char>)
    ensures
        last_value_of(spec_dedup(pairs), key) == last_value_of(pairs, key),
    decreases pairs.len(),
{
    if pairs.len() > 0 {
        lemma_dedup_last_value(pairs.drop_first(), key);
        lemma_last_value_prepend(pairs[0], pairs.drop_first(), key);
        assert(seq![pairs[0]] + pairs.drop_first() =~= pairs);
        let rest = spec_dedup(pairs.drop_first());
        lemma_last_value_some_iff(rest, key);
        if contains_key(rest, pairs[0].0@) {
            if key == pairs[0].0@ {
                lemma_last_value_some_iff(rest, pairs[0].0@);
            }
        } else {
            let pushed = rest.push(pairs[0]);
            assert(pushed.last() == pairs[0]);
            assert(pushed.drop_last() =~= rest);
        }
    }
}

/// The index in `pairs` of the first pair whose key equals `key`, if any.
fn find_key(pairs: &Vec<(String, String)>, key: &String) -> (o: Option<usize>)
    ensures
        match o {
            Some(j) => j < pairs@.len() && pairs@[j as int].0@ == key@,
            None => forall|j: int| 0 <= j < pairs@.len() ==> pairs@[j].0@ != key@,
        },
{
    let mut j: usize = 0;
    while j < pairs.len()
        invariant
            j <= pairs@.len(),
            forall|k: int| 0 <= k < j ==> pairs@[k].0@ != key@,
        decreases pairs@.len() - j,
    {
        if pairs[j].0 == *key {
            return Some(j);
        }
        j = j + 1;
    }
    None
}

/// Collapse environment pairs to unique keys, the last writer winning; the
/// result's own order carries no meaning.
pub fn dedup_env(pairs: &Vec<(String, String)>) -> (r: Vec<(String, String)>)
    ensures
        r@ == spec_dedup(pairs@),
        keys_unique(r@),
        forall|key: Seq<char>| #[trigger] last_value_of(r@, key) == last_value_of(pairs@, key),
{
    let mut r: Vec<(String, String)> = Vec::new();
    let mut i: usize = pairs.len();
    proof {
        assert(pairs@.skip(pairs@.len() as int) =~= Seq::<(String, String)>::empty());
    }
    while i > 0
        invariant
            i <= pairs@.len(),
            r@ == spec_dedup(pairs@.skip(i as int)),
        decreases i,
    {
        i = i - 1;
        let p = &pairs[i];
        let ghost r0 = r@;
        proof {
            assert(pairs@.skip(i as int).drop_first() =~= pairs@.skip(i as int + 1));
            assert(pairs@.skip(i as int)[0] == pairs@[i as int]);
        }
        match find_key(&r, &p.0) {
            Some(j) => {
                proof {
                    assert(r0[j as int].0@ == pairs@[i as int].0@);
                    assert(contains_key(r0, pairs@[i as int].0@));
                }
            },
            None => {
                let item = (p.0.clone(), p.1.clone());
                proof {
                    assert(!contains_key(r0, pairs@[i as int].0@));
                    assert(item == pairs@[i as int]);
                }
                r.push(item);
                proof {
                    assert(r@ =~= r0.push(pairs@[i as int]));
                }
            },
        }
    }
    proof {
        assert(pairs@.skip(0) =~= pairs@);
        lemma_dedup_keys_unique(pairs@);
        assert forall|key: Seq<char>| #[trigger] last_value_of(r@, key) == last_value_of(
            pairs@,
            key,
        ) by {
            lemma_dedup_last_value(pairs@, key);
        }
    }
    r
}

/// What the snapshot displays as the request body: the decoded text when
/// one was handed in, the fixed placeholder when the body was absent.
pub open spec fn displayed_body(body: Option<String>) -> Seq<char> {
    match body {
        Some(t) => t@,
        None => sentinel_text(),
    }
}

/// A read-only projection of one request plus the process environment,
/// built fresh per request and never mutated afterwards.
pub struct DiagnosticSnapshot {
    /// Protocol version, e.g. `HTTP/1.1`.
    pub protocol: String,
    /// Request method, e.g. `GET`.
    pub method: String,
    /// Request URI as the transport delivered it.
    pub uri: String,
    /// Header pairs in arrival order, duplicates preserved.
    pub headers: Vec<(String, String)>,
    /// Displayed body text: decoded text, or the fixed placeholder.
    pub body: String,
    /// Environment variables, keys unique.
    pub env: Vec<(String, String)>,
}

impl DiagnosticSnapshot {
    /// The snapshot's environment keys never collide.
    pub open spec fn wf(self) -> bool {
        keys_unique(self.env@)
    }
}

/// Assemble the snapshot for one request: headers exactly as they arrived,
/// the body text (or the placeholder when no body was handed in), and the
/// environment collapsed to unique keys with the last writer winning.
pub fn assemble(
    protocol: String,
    method: String,
    uri: String,
    headers: Vec<(String, String)>,
    body: Option<String>,
    env: &Vec<(String, String)>,
) -> (s: DiagnosticSnapshot)
    ensures
        s.wf(),
        s.protocol@ == protocol@,
        s.method@ == method@,
        s.uri@ == uri@,
        s.headers@ == headers@,
        s.body@ == displayed_body(body),
        s.env@ == spec_dedup(env@),
        forall|key: Seq<char>|
            #[trigger] last_value_of(s.env@, key) == last_value_of(env@, key),
{
    let body_text = match body {
        Some(t) => t,
        None => "body not displayed — invalid text encoding".to_owned(),
    };
    DiagnosticSnapshot {
        protocol,
        method,
        uri,
        headers,
        body: body_text,
        env: dedup_env(env),
    }
}

} // verus!

//! Language resolution: pick the language with the greatest byte count out
//! of a repository's language table and normalize its name into a
//! directory-safe token; fall back to `other` whenever the table could not
//! be fetched, decoded, or is empty.

use vstd::prelude::*;
use vstd::string::*;

verus! {

/// How one character of a language name is normalized: an ASCII uppercase
/// letter becomes its lowercase counterpart, a space becomes an underscore,
/// every other character stays as it is.
pub open spec fn norm_char(c: char) -> char {
    if c == ' ' {
        '_'
    } else if 'A' <= c && c <= 'Z' {
        ((c as u32) + 32) as char
    } else {
        c
    }
}

/// A language name normalized character by character.
pub open spec fn normalize_spec(s: Seq<char>) -> Seq<char> {
    s.map_values(|c: char| norm_char(c))
}

fn normalize_char(c: char) -> (r: char)
    ensures
        r == norm_char(c),
{
    if c == ' ' {
        '_'
    } else if 'A' <= c && c <= 'Z' {
        let b = c as u8;
        (b + 32) as char
    } else {
        c
    }
}

/// Relies on String::push: appends exactly the given character.
#[verifier::external_body]
fn push_char(s: &mut String, c: char)
    ensures
        final(s)@ == old(s)@.push(c),
{
    s.push(c);
}

/// Turn a language name into the directory-safe token used for the
/// per-language directory: lowercased, spaces replaced by underscores.
pub fn normalize_language(s: &str) -> (r: String)
    ensures
        r@ == normalize_spec(s@),
{
    let n = s.unicode_len();
    let mut out = String::new();
    let mut i: usize = 0;
    while i < n
        invariant
            i <= n,
            n == s@.len(),
            out@ == normalize_spec(s@.take(i as int)),
        decreases n - i,
    {
        let c = s.get_char(i);
        let nc = normalize_char(c);
        push_char(&mut out, nc);
        proof {
            assert(s@.take(i + 1 as int) =~= s@.take(i as int).push(s@[i as int]));
            assert(normalize_spec(s@.take(i + 1 as int)) =~= normalize_spec(
                s@.take(i as int),
            ).push(norm_char(s@[i as int])));
        }
        i += 1;
    }
    proof {
        assert(s@.take(n as int) =~= s@);
    }
    out
}

/// The token used whenever no language could be resolved.
pub open spec fn fallback_token() -> Seq<char> {
    "other"@
}

pub fn fallback_language() -> (r: String)
    ensures
        r@ == fallback_token(),
{
    String::from_str("other")
}

/// The index of the entry with the greatest byte count; on ties the
/// earliest such entry wins.
pub open spec fn max_lang_idx(s: Seq<(String, u32)>) -> int
    decreases s.len(),
{
    if s.len() <= 1 {
        0
    } else {
        let rest = max_lang_idx(s.drop_last());
        if s.last().1 > s[rest].1 {
            s.len() - 1
        } else {
            rest
        }
    }
}

/// The chosen index is in range, carries a count no other entry exceeds,
/// and every earlier entry's count is strictly smaller.
pub proof fn lemma_max_lang_idx_props(s: Seq<(String, u32)>)
    requires
        s.len() > 0,
    ensures
        0 <= max_lang_idx(s) < s.len(),
        forall|j: int| 0 <= j < s.len() ==> (#[trigger] s[j]).1 <= s[max_lang_idx(s)].1,
        forall|j: int| 0 <= j < max_lang_idx(s) ==> (#[trigger] s[j]).1 < s[max_lang_idx(s)].1,
    decreases s.len(),
{
    if s.len() > 1 {
        lemma_max_lang_idx_props(s.drop_last());
        assert forall|j: int| 0 <= j < s.len() - 1 implies s.drop_last()[j] == s[j] by {}
    }
}

/// The entry picked out of a non-empty byte-count table: the key of the
/// first entry with the maximal count.
pub fn max_language(langs: &Vec<(String, u32)>) -> (r: Option<String>)
    ensures
        r is None <==> langs@.len() == 0,
        r matches Some(l) ==> l@ == langs@[max_lang_idx(langs@)].0@,
{
    if langs.len() == 0 {
        return None;
    }
    let mut best: usize = 0;
    let mut i: usize = 1;
    while i < langs.len()
        invariant
            1 <= i <= langs@.len(),
            0 <= best < i,
            best == max_lang_idx(langs@.take(i as int)),
        decreases langs@.len() - i,
    {
        proof {
            assert(langs@.take(i + 1 as int).drop_last() =~= langs@.take(i as int));
            assert(langs@.take(i + 1 as int).last() == langs@[i as int]);
        }
        if langs[i].1 > langs[best].1 {
            best = i;
        }
        i += 1;
    }
    proof {
        assert(langs@.take(langs@.len() as int) =~= langs@);
    }
    Some(langs[best].0.clone())
}

/// What the resolver yields for a fetched byte-count table: the fallback
/// token when the table is empty, otherwise the winning key normalized.
pub open spec fn resolve_spec(s: Seq<(String, u32)>) -> Seq<char> {
    if s.len() == 0 {
        fallback_token()
    } else {
        normalize_spec(s[max_lang_idx(s)].0@)
    }
}

/// Resolve a repository's language from its fetched byte-count table, or
/// from `None` when the request failed, the response was unsuccessful, or
/// the body failed to decode. This never fails outward: every failure and
/// the empty table yield the fallback token.
pub fn resolve_language(langs: Option<Vec<(String, u32)>>) -> (r: String)
    ensures
        langs is None ==> r@ == fallback_token(),
        langs matches Some(v) ==> r@ == resolve_spec(v@),
        langs matches Some(v) && v@.len() == 0 ==> r@ == fallback_token(),
{
    match langs {
        None => fallback_language(),
        Some(v) => match max_language(&v) {
            None => fallback_language(),
            Some(l) => normalize_language(l.as_str()),
        },
    }
}

/// For a byte-count table with a unique maximum, the resolved language is
/// exactly that entry's key, lowercased with spaces replaced.
pub proof fn lemma_resolve_unique_max(s: Seq<(String, u32)>, i: int)
    requires
        0 <= i < s.len(),
        forall|j: int| 0 <= j < s.len() && j != i ==> s[j].1 < s[i].1,
    ensures
        resolve_spec(s) == normalize_spec(s[i].0@),
{
    lemma_max_lang_idx_props(s);
    let m = max_lang_idx(s);
    if m != i {
        assert(s[m].1 < s[i].1);
        assert(s[i].1 <= s[m].1);
        assert(false);
    }
}

} // verus!

//! Request dispatch: strip the leading path separators to obtain the
//! code, and decide between a redirect and the static-asset fallback.
//! Codes are opaque tokens — exact, case-sensitive match only.

use crate::cache::{cache_map, RouterCache};
use vstd::prelude::*;
use vstd::string::StrSliceExecFns;

verus! {

/// How many leading `'/'` characters the raw path carries.
pub open spec fn leading_separators(s: Seq<char>) -> int
    decreases s.len(),
{
    if s.len() > 0 && s[0] == '/' {
        1 + leading_separators(s.drop_first())
    } else {
        0
    }
}

/// The code a raw request path denotes: the path with every leading
/// `'/'` stripped.
pub open spec fn trimmed_code(s: Seq<char>) -> Seq<char> {
    s.skip(leading_separators(s))
}

proof fn lemma_leading_separators(s: Seq<char>, i: int)
    requires
        0 <= i <= s.len(),
        forall|j: int| 0 <= j < i ==> s[j] == '/',
        i == s.len() || s[i] != '/',
    ensures
        leading_separators(s) == i,
    decreases s.len(),
{
    if i == 0 {
    } else {
        assert(s[0] == '/');
        assert(forall|j: int| 0 <= j < i - 1 ==> s.drop_first()[j] == s[j + 1]);
        lemma_leading_separators(s.drop_first(), i - 1);
    }
}

/// What a request for a raw path gets: a redirect to the URL its code
/// maps to, or — for a code the snapshot does not hold — the relative
/// static asset to fall back to (the default document where the code is
/// empty).
#[derive(Debug, PartialEq, Eq)]
pub enum Dispatch {
    /// Redirect to this target URL.
    Redirect(String),
    /// Fall through to this relative static asset.
    StaticAsset(String),
}

/// Decide a request: strip leading separators, look the code up in the
/// current snapshot, and fall back to a static asset where it is absent.
pub fn resolve_request(table: &RouterCache, raw_path: &str) -> (r: Dispatch)
    ensures
        ({
            let code = trimmed_code(raw_path@);
            match r {
                Dispatch::Redirect(url) => cache_map(*table).contains_key(code) && url@
                    == cache_map(*table)[code],
                Dispatch::StaticAsset(f) => !cache_map(*table).contains_key(code) && f@ == (
                if code.len() == 0 {
                    "index.html"@
                } else {
                    code
                }),
            }
        }),
{
    let n = raw_path.unicode_len();
    let mut i: usize = 0;
    while i < n && raw_path.get_char(i) == '/'
        invariant
            i <= n,
            n == raw_path@.len(),
            forall|j: int| 0 <= j < i ==> raw_path@[j] == '/',
        decreases n - i,
    {
        i = i + 1;
    }
    proof {
        lemma_leading_separators(raw_path@, i as int);
        assert(trimmed_code(raw_path@) =~= raw_path@.subrange(i as int, n as int));
    }
    let code_str = raw_path.substring_char(i, n);
    match table.lookup(code_str) {
        Some(url) => Dispatch::Redirect(url),
        None => {
            if code_str.unicode_len() == 0 {
                Dispatch::StaticAsset("index.html".to_owned())
            } else {
                Dispatch::StaticAsset(code_str.to_owned())
            }
        },
    }
}

/// Whether `code` is unused: the current snapshot holds no entry for it.
pub fn available(table: &RouterCache, code: &str) -> (r: bool)
    ensures
        r == !cache_map(*table).contains_key(code@),
{
    match table.lookup(code) {
        Some(_) => false,
        None => true,
    }
}

} // verus!

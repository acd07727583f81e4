//! Cache keys: a URL with its trailing slashes taken off.

use vstd::prelude::*;
use vstd::string::StrSliceExecFns;
use vstd::string::StringExecFns;

verus! {

/// The cache key of `url`: the URL without the slashes it ends in. Nothing else
/// is changed: case, query string and fragment stay as they are.
pub open spec fn normalized(url: Seq<char>) -> Seq<char>
    decreases url.len(),
{
    if url.len() > 0 && url.last() == '/' {
        normalized(url.drop_last())
    } else {
        url
    }
}

/// Whether `key` is a cache key, that is, does not end in a slash.
pub open spec fn is_normal(key: Seq<char>) -> bool {
    key.len() == 0 || key.last() != '/'
}

/// A run of `n` slashes.
pub open spec fn slashes(n: nat) -> Seq<char> {
    Seq::new(n, |i: int| '/')
}

/// The key of a URL is a prefix of it, does not end in a slash, and what it
/// leaves out is slashes only. This pins the key down: it is the longest
/// prefix of the URL that does not end in a slash.
pub proof fn lemma_normalized_is_trimmed_prefix(url: Seq<char>)
    ensures
        normalized(url).len() <= url.len(),
        normalized(url) == url.take(normalized(url).len() as int),
        is_normal(normalized(url)),
        forall|i: int| normalized(url).len() <= i < url.len() ==> url[i] == '/',
    decreases url.len(),
{
    if url.len() > 0 && url.last() == '/' {
        let shorter = url.drop_last();
        lemma_normalized_is_trimmed_prefix(shorter);
        let n = normalized(shorter).len() as int;
        assert(shorter.take(n) =~= url.take(n));
        assert forall|i: int| n <= i < url.len() implies url[i] == '/' by {
            if i < shorter.len() {
                assert(shorter[i] == url[i]);
            }
        }
    } else {
        assert(url.take(url.len() as int) =~= url);
    }
}

/// A URL that does not end in a slash is its own key.
pub proof fn lemma_normal_is_fixed(url: Seq<char>)
    requires
        is_normal(url),
    ensures
        normalized(url) == url,
{
}

/// Normalizing twice is the same as normalizing once.
pub proof fn lemma_normalized_idempotent(url: Seq<char>)
    ensures
        normalized(normalized(url)) == normalized(url),
{
    lemma_normalized_is_trimmed_prefix(url);
    lemma_normal_is_fixed(normalized(url));
}

/// Slashes added at the end of a URL do not change its key.
pub proof fn lemma_normalized_ignores_trailing_slashes(url: Seq<char>, n: nat)
    ensures
        normalized(url + slashes(n)) == normalized(url),
    decreases n,
{
    if n == 0 {
        assert(url + slashes(0) =~= url);
    } else {
        let longer = url + slashes(n);
        assert(longer.drop_last() =~= url + slashes((n - 1) as nat));
        lemma_normalized_ignores_trailing_slashes(url, (n - 1) as nat);
    }
}

/// Two URLs that differ only in the slashes they end in have the same key.
pub proof fn lemma_same_key_up_to_trailing_slashes(
    stem: Seq<char>,
    n: nat,
    m: nat,
)
    ensures
        normalized(stem + slashes(n)) == normalized(stem + slashes(m)),
{
    lemma_normalized_ignores_trailing_slashes(stem, n);
    lemma_normalized_ignores_trailing_slashes(stem, m);
}

/// Two URLs have the same key exactly when one is the other followed by
/// slashes.
pub proof fn lemma_same_key_iff_differ_by_slashes(a: Seq<char>, b: Seq<char>)
    requires
        a.len() <= b.len(),
    ensures
        normalized(a) == normalized(b) <==> b == a + slashes((b.len() - a.len()) as nat),
{
    let k = (b.len() - a.len()) as nat;
    if b == a + slashes(k) {
        lemma_normalized_ignores_trailing_slashes(a, k);
    }
    if normalized(a) == normalized(b) {
        lemma_normalized_is_trimmed_prefix(a);
        lemma_normalized_is_trimmed_prefix(b);
        assert(b =~= a + slashes(k)) by {
            let key = normalized(a);
            assert forall|i: int| 0 <= i < b.len() implies b[i] == (a + slashes(k))[i] by {
                if i < key.len() {
                    assert(b[i] == b.take(key.len() as int)[i]);
                    assert(a[i] == a.take(key.len() as int)[i]);
                }
            }
        }
    }
}

/// Takes the trailing slashes off `url`.
pub fn normalize_url(url: &str) -> (key: String)
    ensures
        key@ == normalized(url@),
{
    let mut n: usize = url.unicode_len();
    proof {
        assert(url@.take(n as int) =~= url@);
    }
    while n > 0 && url.get_char(n - 1) == '/'
        invariant
            n <= url@.len(),
            normalized(url@) == normalized(url@.take(n as int)),
        decreases n,
    {
        proof {
            assert(url@.take(n as int).drop_last() =~= url@.take(n - 1));
        }
        n = n - 1;
    }
    proof {
        assert(url@.subrange(0, n as int) =~= url@.take(n as int));
    }
    String::from_str(url.substring_char(0, n))
}

} // verus!

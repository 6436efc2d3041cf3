//! Deriving the relative file path from a request's URL path.
//!
//! The handler is mounted under a prefix such as `/static/*`. The trailing
//! wildcard markers are dropped from the prefix, the remaining prefix is
//! stripped from the front of the URL path, and any leading separators of
//! what is left are trimmed, so the sandbox primitive always receives a
//! relative path, never an absolute one.

use vstd::prelude::*;
use vstd::seq_lib::*;

verus! {

/// The prefix with every trailing `*` wildcard marker removed.
pub open spec fn trim_wildcard(prefix: Seq<char>) -> Seq<char>
    decreases prefix.len(),
{
    if prefix.len() > 0 && prefix.last() == '*' {
        trim_wildcard(prefix.drop_last())
    } else {
        prefix
    }
}

/// The path with every leading `/` removed.
pub open spec fn trim_leading_slashes(s: Seq<char>) -> Seq<char>
    decreases s.len(),
{
    if s.len() > 0 && s[0] == '/' {
        trim_leading_slashes(s.skip(1))
    } else {
        s
    }
}

/// The relative path a URL path asks for under a prefix: `None` when the
/// URL path does not start with the (wildcard-trimmed) prefix — the router
/// should never have dispatched it here — and otherwise the remainder with
/// its leading separators trimmed.
pub open spec fn requested_path_spec(prefix: Seq<char>, url_path: Seq<char>) -> Option<Seq<char>> {
    let mount = trim_wildcard(prefix);
    if mount.is_prefix_of(url_path) {
        Some(trim_leading_slashes(url_path.skip(mount.len() as int)))
    } else {
        None
    }
}

/// Trimming wildcards keeps the prefix up to the first trailing `*`: if
/// everything from position `t` on is `*` and position `t - 1` is not,
/// the trimmed prefix is exactly the first `t` characters.
pub(crate) proof fn lemma_trim_wildcard_take(s: Seq<char>, t: int)
    requires
        0 <= t <= s.len(),
        forall|k: int| t <= k < s.len() ==> s[k] == '*',
        t == 0 || s[t - 1] != '*',
    ensures
        trim_wildcard(s) == s.take(t),
    decreases s.len(),
{
    if t < s.len() {
        assert(s.last() == '*');
        lemma_trim_wildcard_take(s.drop_last(), t);
        assert(s.drop_last().take(t) =~= s.take(t));
    } else {
        assert(s.take(t) =~= s);
    }
}

/// Trimming leading slashes skips the longest run of `/` at the front: if
/// the first `j` characters are `/` and position `j` is not, the trimmed
/// path is everything from position `j` on.
pub(crate) proof fn lemma_trim_slashes_skip(s: Seq<char>, j: int)
    requires
        0 <= j <= s.len(),
        forall|k: int| 0 <= k < j ==> s[k] == '/',
        j == s.len() || s[j] != '/',
    ensures
        trim_leading_slashes(s) == s.skip(j),
    decreases j,
{
    if j > 0 {
        assert(s[0] == '/');
        lemma_trim_slashes_skip(s.skip(1), j - 1);
        assert(s.skip(1).skip(j - 1) =~= s.skip(j));
    } else {
        assert(s.skip(0) =~= s);
    }
}

/// After trimming, nothing starts with a separator: the sandbox primitive
/// is never handed an absolute path.
pub proof fn lemma_trimmed_is_relative(s: Seq<char>)
    ensures
        trim_leading_slashes(s).len() > 0 ==> trim_leading_slashes(s)[0] != '/',
    decreases s.len(),
{
    if s.len() > 0 && s[0] == '/' {
        lemma_trimmed_is_relative(s.skip(1));
    }
}

/// A derived relative path never begins with `/`.
pub proof fn lemma_requested_path_relative(prefix: Seq<char>, url_path: Seq<char>)
    ensures
        requested_path_spec(prefix, url_path) matches Some(p) ==> (p.len() == 0 || p[0]
            != '/'),
{
    let mount = trim_wildcard(prefix);
    if mount.is_prefix_of(url_path) {
        lemma_trimmed_is_relative(url_path.skip(mount.len() as int));
    }
}

/// Prepending a run of separators changes nothing once leading separators
/// are trimmed.
proof fn lemma_trim_slashes_prepend(k: nat, s: Seq<char>)
    ensures
        trim_leading_slashes(Seq::new(k, |i: int| '/') + s) == trim_leading_slashes(s),
    decreases k,
{
    let slashes = Seq::new(k, |i: int| '/');
    if k == 0 {
        assert(slashes + s =~= s);
    } else {
        assert((slashes + s)[0] == '/');
        assert((slashes + s).skip(1) =~= Seq::new((k - 1) as nat, |i: int| '/') + s);
        lemma_trim_slashes_prepend((k - 1) as nat, s);
    }
}

/// Leading-slash normalization: under a given prefix, a relative path with
/// any number of redundant leading separators resolves to the same relative
/// path as the one without them.
pub proof fn lemma_leading_slash_normalization(prefix: Seq<char>, rel: Seq<char>, k: nat)
    ensures
        ({
            let mount = trim_wildcard(prefix);
            requested_path_spec(prefix, mount + Seq::new(k, |i: int| '/') + rel)
                == requested_path_spec(prefix, mount + rel)
        }),
{
    let mount = trim_wildcard(prefix);
    let slashes = Seq::new(k, |i: int| '/');
    let with = mount + slashes + rel;
    let without = mount + rel;
    assert(mount =~= with.subrange(0, mount.len() as int));
    assert(mount.is_prefix_of(with));
    assert(mount =~= without.subrange(0, mount.len() as int));
    assert(mount.is_prefix_of(without));
    assert(with.skip(mount.len() as int) =~= slashes + rel);
    assert(without.skip(mount.len() as int) =~= rel);
    lemma_trim_slashes_prepend(k, rel);
}

} // verus!

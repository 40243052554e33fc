//! Pure path and string helpers: prefix tests, prefix stripping, path joins,
//! parent directories, and the chain of ancestor directories that a delete may
//! prune. Everything here is exact: each function's contract pins the result
//! character by character.

use vstd::prelude::*;
use vstd::string::{StrSliceExecFns, StringExecFns};

verus! {

/// The path separator as a one-character sequence.
pub open spec fn slash() -> Seq<char> {
    seq!['/']
}

/// The separator as a string slice.
pub fn slash_str() -> (r: &'static str)
    ensures
        r@ == slash(),
{
    proof {
        reveal_strlit("/");
        assert("/"@ =~= slash());
    }
    "/"
}

/// `base`, the separator, then `rest` — the layer's only way of composing paths.
pub fn join_path(base: &str, rest: &str) -> (r: String)
    ensures
        r@ == base@ + slash() + rest@,
{
    let mut r = base.to_owned();
    r.append(slash_str());
    r.append(rest);
    r
}

/// Whether `s` begins with `prefix`.
pub fn str_starts_with(s: &str, prefix: &str) -> (b: bool)
    ensures
        b == prefix@.is_prefix_of(s@),
{
    let n: usize = prefix.unicode_len();
    let m: usize = s.unicode_len();
    if n > m {
        return false;
    }
    let mut i: usize = 0;
    while i < n
        invariant
            i <= n,
            n == prefix@.len(),
            n <= m,
            m == s@.len(),
            forall|j: int| 0 <= j < i ==> s@[j] == prefix@[j],
        decreases n - i,
    {
        if s.get_char(i) != prefix.get_char(i) {
            proof {
                assert(s@.subrange(0, n as int)[i as int] != prefix@[i as int]);
            }
            return false;
        }
        i = i + 1;
    }
    proof {
        assert(prefix@ =~= s@.subrange(0, n as int));
    }
    true
}

/// Strips `prefix` from the front of `s` when it is there; otherwise returns
/// `s` unchanged. This anchored, exact-length strip is what recovers a logical
/// path from a backend key.
pub fn strip_leading(s: &str, prefix: &str) -> (r: String)
    ensures
        prefix@.is_prefix_of(s@) ==> r@ == s@.skip(prefix@.len() as int),
        !prefix@.is_prefix_of(s@) ==> r@ == s@,
{
    if str_starts_with(s, prefix) {
        let n: usize = prefix.unicode_len();
        let m: usize = s.unicode_len();
        let sub = s.substring_char(n, m);
        proof {
            assert(s@.subrange(n as int, m as int) =~= s@.skip(n as int));
        }
        sub.to_owned()
    } else {
        s.to_owned()
    }
}

/// Index of the last separator in `p`, or `-1` when `p` holds none.
pub open spec fn last_slash(p: Seq<char>) -> int
    decreases p.len(),
{
    if p.len() == 0 {
        -1
    } else if p[p.len() - 1] == '/' {
        p.len() - 1
    } else {
        last_slash(p.drop_last())
    }
}

/// Index of the last separator, as an `Option`.
pub fn find_last_slash(p: &str) -> (r: Option<usize>)
    ensures
        match r {
            Some(i) => last_slash(p@) == i as int && i < p@.len(),
            None => last_slash(p@) == -1,
        },
{
    let n: usize = p.unicode_len();
    let mut i: usize = n;
    proof {
        assert(p@.take(n as int) =~= p@);
    }
    while i > 0
        invariant
            i <= n,
            n == p@.len(),
            last_slash(p@) == last_slash(p@.take(i as int)),
        decreases i,
    {
        proof {
            assert(p@.take(i as int).drop_last() =~= p@.take(i as int - 1));
            assert(p@.take(i as int)[i as int - 1] == p@[i as int - 1]);
        }
        if p.get_char(i - 1) == '/' {
            return Some(i - 1);
        }
        i = i - 1;
    }
    proof {
        assert(p@.take(0) =~= Seq::<char>::empty());
    }
    None
}

/// The directory that holds `dir + "/" + p`: `dir + "/" + dirname(p)` when `p`
/// has a separator, otherwise `dir` itself.
pub open spec fn parent_of_join(dir: Seq<char>, p: Seq<char>) -> Seq<char> {
    if last_slash(p) >= 0 {
        dir + slash() + p.take(last_slash(p))
    } else {
        dir
    }
}

/// Computes the parent directory of the joined path `dir + "/" + p`.
pub fn parent_join(dir: &str, p: &str) -> (r: String)
    ensures
        r@ == parent_of_join(dir@, p@),
{
    match find_last_slash(p) {
        Some(i) => {
            let head = p.substring_char(0, i);
            proof {
                assert(p@.subrange(0, i as int) =~= p@.take(i as int));
            }
            join_path(dir, head)
        },
        None => dir.to_owned(),
    }
}

/// The directories that a delete may prune once `dir + "/" + p` is gone:
/// `dir + "/" + q` for every proper directory prefix `q` of `p`, deepest
/// first. The mirror root `dir` itself is never among them.
pub open spec fn ancestor_dirs(dir: Seq<char>, p: Seq<char>) -> Seq<Seq<char>>
    decreases p.len(),
{
    if p.len() == 0 {
        Seq::empty()
    } else if p[p.len() - 1] == '/' {
        seq![dir + slash() + p.drop_last()] + ancestor_dirs(dir, p.drop_last())
    } else {
        ancestor_dirs(dir, p.drop_last())
    }
}

/// Every pruning target lies strictly below the mirror root: it extends
/// `dir + "/"`.
pub proof fn lemma_ancestors_below_root(dir: Seq<char>, p: Seq<char>)
    ensures
        forall|k: int|
            0 <= k < ancestor_dirs(dir, p).len() ==> (dir + slash()).is_prefix_of(
                #[trigger] ancestor_dirs(dir, p)[k],
            ),
    decreases p.len(),
{
    if p.len() > 0 {
        lemma_ancestors_below_root(dir, p.drop_last());
        let a = ancestor_dirs(dir, p);
        let rest = ancestor_dirs(dir, p.drop_last());
        if p[p.len() - 1] == '/' {
            assert((dir + slash()).is_prefix_of(dir + slash() + p.drop_last())) by {
                assert((dir + slash() + p.drop_last()).subrange(0, (dir + slash()).len() as int)
                    =~= dir + slash());
            }
            assert forall|k: int| 0 <= k < a.len() implies (dir + slash()).is_prefix_of(
                #[trigger] a[k],
            ) by {
                if k > 0 {
                    assert(a[k] == rest[k - 1]);
                }
            }
        } else {
            assert forall|k: int| 0 <= k < a.len() implies (dir + slash()).is_prefix_of(
                #[trigger] a[k],
            ) by {
                assert(a[k] == rest[k]);
            }
        }
    }
}

/// Lists the pruning targets for `dir + "/" + p`, deepest first.
pub fn ancestor_dirs_of(dir: &str, p: &str) -> (r: Vec<String>)
    ensures
        r@.map_values(|s: String| s@) == ancestor_dirs(dir@, p@),
{
    let n: usize = p.unicode_len();
    let mut out: Vec<String> = Vec::new();
    let mut i: usize = n;
    proof {
        assert(p@.take(n as int) =~= p@);
    }
    while i > 0
        invariant
            i <= n,
            n == p@.len(),
            out@.map_values(|s: String| s@) + ancestor_dirs(dir@, p@.take(i as int))
                == ancestor_dirs(dir@, p@),
        decreases i,
    {
        proof {
            assert(p@.take(i as int).drop_last() =~= p@.take(i as int - 1));
            assert(p@.take(i as int)[i as int - 1] == p@[i as int - 1]);
        }
        if p.get_char(i - 1) == '/' {
            let head = p.substring_char(0, i - 1);
            proof {
                assert(p@.subrange(0, i as int - 1) =~= p@.take(i as int - 1));
            }
            let t = join_path(dir, head);
            let ghost prev = out@.map_values(|s: String| s@);
            out.push(t);
            proof {
                assert(out@.map_values(|s: String| s@) =~= prev + seq![
                    dir@ + slash() + p@.take(i as int - 1),
                ]);
                assert(prev + (seq![dir@ + slash() + p@.take(i as int - 1)] + ancestor_dirs(
                    dir@,
                    p@.take(i as int - 1),
                )) =~= (prev + seq![dir@ + slash() + p@.take(i as int - 1)]) + ancestor_dirs(
                    dir@,
                    p@.take(i as int - 1),
                ));
            }
        }
        i = i - 1;
    }
    proof {
        assert(p@.take(0) =~= Seq::<char>::empty());
        assert(out@.map_values(|s: String| s@) + Seq::<Seq<char>>::empty() =~= out@.map_values(
            |s: String| s@,
        ));
    }
    out
}

} // verus!

//! The pure fallback resolution rule: when the host registers no resolver, a
//! specifier is resolved against the originating file by replacing that
//! file's name with the specifier.

use vstd::prelude::*;

verus! {

/// Length of the directory prefix of `p`: everything up to and including the
/// last `/`, or `0` when `p` holds no `/`.
pub open spec fn dir_prefix_len(p: Seq<char>) -> int
    decreases p.len(),
{
    if p.len() == 0 {
        0
    } else if p[p.len() - 1] == '/' {
        p.len() as int
    } else {
        dir_prefix_len(p.drop_last())
    }
}

/// The fallback rule: the originating file's directory followed by the
/// specifier.
pub open spec fn joined_path(originating_file: Seq<char>, specifier: Seq<char>) -> Seq<char> {
    originating_file.subrange(0, dir_prefix_len(originating_file)) + specifier
}

proof fn lemma_dir_prefix_len_bounds(p: Seq<char>)
    ensures
        0 <= dir_prefix_len(p) <= p.len(),
    decreases p.len(),
{
    if p.len() == 0 {
    } else if p[p.len() - 1] == '/' {
    } else {
        lemma_dir_prefix_len_bounds(p.drop_last());
    }
}

/// Dropping a non-separator final character does not change where the
/// directory prefix ends.
proof fn lemma_dir_prefix_len_step(p: Seq<char>, i: int)
    requires
        0 < i <= p.len(),
        p[i - 1] != '/',
    ensures
        dir_prefix_len(p.subrange(0, i)) == dir_prefix_len(p.subrange(0, i - 1)),
{
    let q = p.subrange(0, i);
    assert(q.drop_last() =~= p.subrange(0, i - 1));
}

/// A prefix that ends in `/` is its own directory prefix.
proof fn lemma_dir_prefix_len_at_sep(p: Seq<char>, i: int)
    requires
        0 < i <= p.len(),
        p[i - 1] == '/',
    ensures
        dir_prefix_len(p.subrange(0, i)) == i,
{
    let q = p.subrange(0, i);
    assert(q[q.len() - 1] == '/');
}

/// Resolves `specifier` against `originating_file` by the pure concatenation
/// rule: the originating file's directory (through its last `/`) followed by
/// the specifier. Total: it holds of every pair of inputs.
pub fn fallback_resolve(specifier: &str, originating_file: &str) -> (r: String)
    ensures
        r@ == joined_path(originating_file@, specifier@),
{
    let n = originating_file.unicode_len();
    let mut i = n;
    proof {
        assert(originating_file@.subrange(0, n as int) =~= originating_file@);
    }
    while i > 0 && originating_file.get_char(i - 1) != '/'
        invariant
            i <= n,
            n == originating_file@.len(),
            dir_prefix_len(originating_file@) == dir_prefix_len(
                originating_file@.subrange(0, i as int),
            ),
        decreases i,
    {
        proof {
            lemma_dir_prefix_len_step(originating_file@, i as int);
        }
        i = i - 1;
    }
    proof {
        if i == 0 {
            assert(originating_file@.subrange(0, 0) =~= Seq::<char>::empty());
        } else {
            lemma_dir_prefix_len_at_sep(originating_file@, i as int);
        }
        lemma_dir_prefix_len_bounds(originating_file@);
    }
    let prefix = originating_file.substring_char(0, i);
    let joined = String::from_str(prefix).concat(specifier);
    joined
}

} // verus!

//! Dotted namespace names: parent/leaf splitting and emission paths.

use vstd::prelude::*;

verus! {

/// Index of the last `'.'` in `name`, or -1 when there is none.
pub open spec fn last_dot(name: Seq<char>) -> int
    decreases name.len(),
{
    if name.len() == 0 {
        -1
    } else if name.last() == '.' {
        name.len() - 1
    } else {
        last_dot(name.drop_last())
    }
}

/// The namespace of all segments but the last; meaningful when a dot exists.
pub open spec fn parent_name(name: Seq<char>) -> Seq<char> {
    name.take(last_dot(name))
}

/// The last dot-delimited segment; meaningful when a dot exists.
pub open spec fn leaf_name(name: Seq<char>) -> Seq<char> {
    name.skip(last_dot(name) + 1)
}

pub proof fn lemma_last_dot_bounds(name: Seq<char>)
    ensures
        -1 <= last_dot(name) < name.len(),
    decreases name.len(),
{
    if name.len() > 0 && name.last() != '.' {
        lemma_last_dot_bounds(name.drop_last());
    }
}

/// Finds the index of the last `'.'` in `s`, if any.
pub fn find_last_dot(s: &str) -> (r: Option<usize>)
    ensures
        match r {
            Some(i) => i < s@.len() && last_dot(s@) == i as int,
            None => last_dot(s@) == -1,
        },
{
    let mut i = s.unicode_len();
    assert(s@.take(i as int) =~= s@);
    while i > 0
        invariant
            i <= s@.len(),
            last_dot(s@) == last_dot(s@.take(i as int)),
        decreases i,
    {
        let c = s.get_char(i - 1);
        let ghost t = s@.take(i as int);
        assert(t.last() == s@[i - 1]);
        if c == '.' {
            assert(last_dot(t) == i - 1);
            return Some(i - 1);
        }
        assert(t.drop_last() =~= s@.take(i - 1));
        i -= 1;
    }
    assert(s@.take(0) =~= Seq::<char>::empty());
    None
}

/// Splits a dotted name into its parent namespace and final segment,
/// or returns `None` for a single-segment name.
pub fn split_parent(s: &String) -> (r: Option<(String, String)>)
    ensures
        match r {
            Some(pl) => last_dot(s@) >= 0 && pl.0@ == parent_name(s@) && pl.1@ == leaf_name(s@),
            None => last_dot(s@) == -1,
        },
{
    match find_last_dot(s.as_str()) {
        None => None,
        Some(i) => {
            let n = s.as_str().unicode_len();
            let p = s.as_str().substring_char(0, i).to_owned();
            let l = s.as_str().substring_char(i + 1, n).to_owned();
            assert(p@ == s@.subrange(0, last_dot(s@)));
            assert(l@ == s@.subrange(last_dot(s@) + 1, s@.len() as int));
            Some((p, l))
        },
    }
}

/// The dotted name with every `'.'` replaced by `'/'`.
pub open spec fn slash_path(name: Seq<char>) -> Seq<char> {
    name.map_values(|c: char| if c == '.' { '/' } else { c })
}

/// Builds the `'/'`-separated path of a dotted name.
pub fn to_slash_path(s: &str) -> (r: String)
    ensures
        r@ == slash_path(s@),
{
    let n = s.unicode_len();
    let mut r = String::new();
    assert(r@ =~= slash_path(s@.take(0)));
    let mut i: usize = 0;
    while i < n
        invariant
            i <= n,
            n == s@.len(),
            r@ == slash_path(s@.take(i as int)),
        decreases n - i,
    {
        let ghost prev = r@;
        let c = s.get_char(i);
        if c == '.' {
            r.append("/");
            proof {
                reveal_strlit("/");
                assert(r@ =~= prev.push('/'));
            }
        } else {
            let piece = s.substring_char(i, i + 1);
            assert(piece@ =~= seq![s@[i as int]]);
            r.append(piece);
            assert(r@ =~= prev.push(s@[i as int]));
        }
        proof {
            assert(s@.take(i + 1) =~= s@.take(i as int).push(s@[i as int]));
            assert(slash_path(s@.take(i + 1)) =~= slash_path(s@.take(i as int)).push(
                if s@[i as int] == '.' {
                    '/'
                } else {
                    s@[i as int]
                },
            ));
        }
        i += 1;
    }
    assert(s@.take(n as int) =~= s@);
    r
}

/// The destination of one module below `root`: a module without submodules
/// becomes a leaf stub file, one with submodules becomes a package directory
/// holding an index stub.
pub open spec fn dest_path(root: Seq<char>, name: Seq<char>, has_submodules: bool) -> Seq<char> {
    if has_submodules {
        root + "/"@ + slash_path(name) + "/__init__.pyi"@
    } else {
        root + "/"@ + slash_path(name) + ".pyi"@
    }
}

/// Builds the destination path of a module named `name` below `root`.
pub fn build_dest_path(root: &String, name: &String, has_submodules: bool) -> (r: String)
    ensures
        r@ == dest_path(root@, name@, has_submodules),
{
    let mut r = root.clone();
    r.append("/");
    let p = to_slash_path(name.as_str());
    r.append(p.as_str());
    if has_submodules {
        r.append("/__init__.pyi");
    } else {
        r.append(".pyi");
    }
    r
}

} // verus!

//! Destination-path derivation: strip the source root from an entry's path
//! and join the remainder onto the destination root. Paths are treated as
//! character strings with `/` as the separator; trailing separators on either
//! root are immaterial.

use vstd::prelude::*;

verus! {

/// `s` without its trailing separators.
pub open spec fn trim_seps(s: Seq<char>) -> Seq<char>
    decreases s.len(),
{
    if s.len() > 0 && s[s.len() - 1] == '/' {
        trim_seps(s.drop_last())
    } else {
        s
    }
}

/// `s` without its leading separators.
pub open spec fn drop_seps(s: Seq<char>) -> Seq<char>
    decreases s.len(),
{
    if s.len() > 0 && s[0] == '/' {
        drop_seps(s.drop_first())
    } else {
        s
    }
}

/// The path of `path` relative to the root `root`, or `None` where `path`
/// does not lie under `root`. Trailing separators on `root` are ignored, as
/// are the separators between the root and the remainder.
pub open spec fn rel_of(root: Seq<char>, path: Seq<char>) -> Option<Seq<char>> {
    let r = trim_seps(root);
    if r.len() <= path.len() && path.subrange(0, r.len() as int) == r && (path.len() == r.len()
        || path[r.len() as int] == '/') {
        Some(drop_seps(path.skip(r.len() as int)))
    } else {
        None
    }
}

/// `rel` joined onto the root `dst_root`; trailing separators on `dst_root`
/// are ignored.
pub open spec fn join_at(dst_root: Seq<char>, rel: Seq<char>) -> Seq<char> {
    let d = trim_seps(dst_root);
    if rel.len() == 0 {
        d
    } else {
        d + seq!['/'] + rel
    }
}

/// The destination counterpart of the entry `path` found under `src_root`:
/// the entry's path relative to `src_root`, joined onto `dst_root`.
pub open spec fn spec_derive_dst(
    src_root: Seq<char>,
    dst_root: Seq<char>,
    path: Seq<char>,
) -> Option<Seq<char>> {
    match rel_of(src_root, path) {
        Some(rel) => Some(join_at(dst_root, rel)),
        None => None,
    }
}

/// How a traversal rooted at `root` forms the path of each entry it yields:
/// the root itself, or the root joined with a relative path.
pub open spec fn starts_at_root(root: Seq<char>, path: Seq<char>) -> bool {
    path == root || (path.len() > root.len() && path.subrange(0, root.len() as int) == root && ((
    root.len() > 0 && root[root.len() - 1] == '/') || path[root.len() as int] == '/'))
}

/// `trim_seps` keeps a prefix of its input and removes exactly the trailing
/// separators.
pub proof fn lemma_trim_seps(s: Seq<char>)
    ensures
        trim_seps(s).len() <= s.len(),
        trim_seps(s) == s.subrange(0, trim_seps(s).len() as int),
        forall|i: int| trim_seps(s).len() <= i < s.len() ==> s[i] == '/',
    decreases s.len(),
{
    if s.len() > 0 && s[s.len() - 1] == '/' {
        lemma_trim_seps(s.drop_last());
        assert(s.drop_last() == s.subrange(0, s.len() - 1));
        assert(trim_seps(s) == s.drop_last().subrange(0, trim_seps(s).len() as int));
        assert(trim_seps(s) == s.subrange(0, trim_seps(s).len() as int));
        assert forall|i: int| trim_seps(s).len() <= i < s.len() implies s[i] == '/' by {
            if i < s.len() - 1 {
                assert(s.drop_last()[i] == '/');
            }
        }
    } else {
        assert(trim_seps(s) == s);
        assert(s == s.subrange(0, s.len() as int));
    }
}

/// Every path that a traversal forms from its root lies under that root.
pub proof fn lemma_starts_at_root_rel(root: Seq<char>, path: Seq<char>)
    requires
        starts_at_root(root, path),
    ensures
        rel_of(root, path) is Some,
{
    lemma_trim_seps(root);
    let r = trim_seps(root);
    if path == root {
        assert(path.subrange(0, r.len() as int) == r);
        if path.len() != r.len() {
            assert(path[r.len() as int] == '/');
        }
    } else {
        assert(r.len() <= root.len() < path.len());
        assert(path.subrange(0, root.len() as int) == root);
        assert forall|i: int| 0 <= i < r.len() implies path[i] == r[i] by {
            assert(path.subrange(0, root.len() as int)[i] == path[i]);
            assert(root.subrange(0, r.len() as int)[i] == root[i]);
        }
        assert(path.subrange(0, r.len() as int) =~= r);
        if r.len() < root.len() {
            // the root's own trailing separator stands between root and rest
            assert(path[r.len() as int] == root[r.len() as int]);
            assert(root[r.len() as int] == '/');
        } else {
            // root has no trailing separator, so the traversal put one in
            assert(r == root.subrange(0, r.len() as int));
            assert(r =~= root);
            if root.len() > 0 && root[root.len() - 1] == '/' {
                assert(trim_seps(root) == trim_seps(root.drop_last()));
                lemma_trim_seps(root.drop_last());
                assert(trim_seps(root).len() <= root.len() - 1);
                assert(false);
            }
            assert(path[root.len() as int] == '/');
        }
    }
}

/// Trailing separators on either root do not change the derived destination
/// path.
pub proof fn lemma_derive_dst_trailing_seps(src_root: Seq<char>, dst_root: Seq<char>, path: Seq<
    char,
>)
    ensures
        spec_derive_dst(src_root.push('/'), dst_root, path) == spec_derive_dst(
            src_root,
            dst_root,
            path,
        ),
        spec_derive_dst(src_root, dst_root.push('/'), path) == spec_derive_dst(
            src_root,
            dst_root,
            path,
        ),
{
    assert(src_root.push('/').drop_last() =~= src_root);
    assert(dst_root.push('/').drop_last() =~= dst_root);
    assert(trim_seps(src_root.push('/')) == trim_seps(src_root));
    assert(trim_seps(dst_root.push('/')) == trim_seps(dst_root));
}

/// A relative path `rel` placed under `src_root` is mapped to the same `rel`
/// placed under `dst_root`.
pub proof fn lemma_derive_dst_maps(src_root: Seq<char>, dst_root: Seq<char>, rel: Seq<char>)
    requires
        rel.len() > 0,
        rel[0] != '/',
        trim_seps(src_root) == src_root,
    ensures
        spec_derive_dst(src_root, dst_root, src_root + seq!['/'] + rel) == Some(
            join_at(dst_root, rel),
        ),
{
    let path = src_root + seq!['/'] + rel;
    assert(path.subrange(0, src_root.len() as int) =~= src_root);
    assert(path[src_root.len() as int] == '/');
    assert(path.skip(src_root.len() as int) =~= seq!['/'] + rel);
    assert((seq!['/'] + rel).drop_first() =~= rel);
    assert(drop_seps(seq!['/'] + rel) == drop_seps(rel));
    assert(drop_seps(rel) == rel);
}

/// The character count of `s` with its trailing separators removed.
fn trimmed_len(s: &str) -> (n: usize)
    ensures
        n <= s@.len(),
        trim_seps(s@) == s@.subrange(0, n as int),
{
    let mut i: usize = s.unicode_len();
    proof {
        assert(s@.subrange(0, i as int) =~= s@);
    }
    loop
        invariant
            i <= s@.len(),
            trim_seps(s@) == trim_seps(s@.subrange(0, i as int)),
        ensures
            i == 0 || (i <= s@.len() && s@[i - 1] != '/'),
            trim_seps(s@) == trim_seps(s@.subrange(0, i as int)),
        decreases i,
    {
        if i == 0 {
            break ;
        }
        let c = s.get_char(i - 1);
        if c != '/' {
            break ;
        }
        proof {
            let sub = s@.subrange(0, i as int);
            assert(sub[i - 1] == '/');
            assert(sub.drop_last() =~= s@.subrange(0, i - 1));
        }
        i = i - 1;
    }
    proof {
        if i == 0 {
            assert(s@.subrange(0, 0) =~= Seq::<char>::empty());
        } else {
            let sub = s@.subrange(0, i as int);
            assert(sub[i - 1] == s@[i - 1]);
            assert(trim_seps(sub) == sub);
        }
    }
    i
}

/// Whether `p` is a character-for-character prefix of `s`.
fn char_prefix(p: &str, s: &str) -> (b: bool)
    ensures
        b == (p@.len() <= s@.len() && s@.subrange(0, p@.len() as int) == p@),
{
    let plen = p.unicode_len();
    let slen = s.unicode_len();
    if plen > slen {
        return false;
    }
    let mut j: usize = 0;
    loop
        invariant
            j <= plen,
            plen == p@.len() <= s@.len(),
            forall|k: int| 0 <= k < j ==> s@[k] == p@[k],
        ensures
            j == plen ==> forall|k: int| 0 <= k < plen ==> s@[k] == p@[k],
            j < plen ==> s@[j as int] != p@[j as int],
        decreases plen - j,
    {
        if j == plen {
            break ;
        }
        if s.get_char(j) != p.get_char(j) {
            break ;
        }
        j = j + 1;
    }
    if j == plen {
        proof {
            assert(s@.subrange(0, plen as int) =~= p@);
        }
        true
    } else {
        proof {
            assert(s@.subrange(0, plen as int)[j as int] == s@[j as int]);
        }
        false
    }
}

/// Derives the destination counterpart of the entry `path` under `src_root`:
/// strips `src_root` and the separators after it, and joins the remainder
/// onto `dst_root`. `None` where `path` does not lie under `src_root`.
pub fn derive_dst_path(src_root: &str, dst_root: &str, path: &str) -> (r: Option<String>)
    ensures
        r is Some <==> spec_derive_dst(src_root@, dst_root@, path@) is Some,
        r matches Some(d) ==> spec_derive_dst(src_root@, dst_root@, path@) == Some(d@),
{
    let rlen = trimmed_len(src_root);
    let trimmed = src_root.substring_char(0, rlen);
    if !char_prefix(trimmed, path) {
        return None;
    }
    let plen = path.unicode_len();
    if rlen < plen {
        let c = path.get_char(rlen);
        if c != '/' {
            return None;
        }
    }
    let mut j: usize = rlen;
    proof {
        assert(path@.subrange(rlen as int, plen as int) =~= path@.skip(rlen as int));
    }
    loop
        invariant
            rlen <= j <= plen,
            plen == path@.len(),
            drop_seps(path@.skip(rlen as int)) == drop_seps(
                path@.subrange(j as int, plen as int),
            ),
        ensures
            rlen <= j <= plen == path@.len(),
            drop_seps(path@.skip(rlen as int)) == drop_seps(
                path@.subrange(j as int, plen as int),
            ),
            j == plen || path@[j as int] != '/',
        decreases plen - j,
    {
        if j == plen {
            break ;
        }
        if path.get_char(j) != '/' {
            break ;
        }
        proof {
            let sub = path@.subrange(j as int, plen as int);
            assert(sub[0] == path@[j as int]);
            assert(sub.drop_first() =~= path@.subrange(j + 1, plen as int));
        }
        j = j + 1;
    }
    proof {
        let sub = path@.subrange(j as int, plen as int);
        if j < plen {
            assert(sub[0] == path@[j as int]);
        }
        assert(drop_seps(sub) == sub);
    }
    let rel = path.substring_char(j, plen);
    let dlen = trimmed_len(dst_root);
    let mut out = String::from_str(dst_root.substring_char(0, dlen));
    if rel.unicode_len() > 0 {
        out.append("/");
        out.append(rel);
        proof {
            reveal_strlit("/");
            assert("/"@ =~= seq!['/']);
        }
    }
    Some(out)
}

} // verus!

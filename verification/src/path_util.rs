//! Path values are plain UTF-8 strings with `/` as the separator, the
//! host family's convention. This module gives the few string and path
//! operations everything else is built on: joining a relative component
//! under a base, stripping a root prefix, and character-level helpers.

use vstd::prelude::*;

verus! {

/// Relies on `alloc::string::String::push`: appends the given char to the
/// end of the string.
pub assume_specification[ String::push ](s: &mut String, ch: char)
    ensures
        final(s)@ == old(s)@.push(ch),
;

/// The view of an optional string: an optional sequence of its characters.
pub open spec fn opt_view(o: Option<String>) -> Option<Seq<char>> {
    match o {
        Some(s) => Some(s@),
        None => None,
    }
}

/// Joining `rel` under `base`, the way the host's path type does it:
/// an absolute `rel` replaces `base`; otherwise the two are separated by
/// exactly one `/`.
pub open spec fn seq_join(base: Seq<char>, rel: Seq<char>) -> Seq<char> {
    if rel.len() > 0 && rel[0] == '/' {
        rel
    } else if base.len() == 0 {
        rel
    } else if base[base.len() - 1] == '/' {
        base + rel
    } else {
        base + seq!['/'] + rel
    }
}

/// A rooted path with its root stripped — every leading separator is
/// dropped, so the remainder is always relative; a relative path is
/// unchanged.
pub open spec fn strip_root(p: Seq<char>) -> Seq<char>
    decreases p.len(),
{
    if p.len() > 0 && p[0] == '/' {
        strip_root(p.subrange(1, p.len() as int))
    } else {
        p
    }
}

/// The path up to its last separator: the directory a file path points
/// into. A path without a separator yields the empty path; a path whose
/// only separator is the leading root keeps the root.
pub open spec fn parent_dir(p: Seq<char>) -> Seq<char>
    decreases p.len(),
{
    if p.len() == 0 {
        p
    } else if p.last() == '/' {
        if p.len() == 1 {
            p
        } else {
            p.drop_last()
        }
    } else {
        parent_dir(p.drop_last())
    }
}

/// Remounting `p` under `mp`: the root is stripped and the remainder joined.
pub open spec fn mount_seq(mp: Seq<char>, p: Seq<char>) -> Seq<char> {
    seq_join(mp, strip_root(p))
}

/// The name of the C/C++ header subdirectory (the `Include` purpose),
/// spelled out character by character.
pub open spec fn hdr_component() -> Seq<char> {
    seq!['i', 'n', 'c', 'l', 'u', 'd', 'e']
}

/// The name of the C/C++ header subdirectory, as a string.
pub fn hdr_component_str() -> (r: String)
    ensures
        r@ == hdr_component(),
{
    let mut r = String::new();
    r.push('i');
    r.push('n');
    r.push('c');
    r.push('l');
    r.push('u');
    r.push('d');
    r.push('e');
    proof {
        assert(r@ =~= hdr_component());
    }
    r
}

/// Appends every character of `other` to `s`.
pub fn push_str(s: &mut String, other: &str)
    ensures
        final(s)@ == old(s)@ + other@,
{
    let n = other.unicode_len();
    let mut i: usize = 0;
    while i < n
        invariant
            n == other@.len(),
            i <= n,
            s@ == old(s)@ + other@.take(i as int),
        decreases n - i,
    {
        let c = other.get_char(i);
        s.push(c);
        proof {
            assert(other@.take(i + 1) =~= other@.take(i as int).push(other@[i as int]));
        }
        i = i + 1;
    }
    proof {
        assert(other@.take(n as int) =~= other@);
    }
}

/// Whether two string slices hold the same characters.
pub fn str_eq(a: &str, b: &str) -> (r: bool)
    ensures
        r == (a@ == b@),
{
    let na = a.unicode_len();
    let nb = b.unicode_len();
    if na != nb {
        return false;
    }
    let mut i: usize = 0;
    while i < na
        invariant
            na == a@.len(),
            na == b@.len(),
            i <= na,
            forall|j: int| 0 <= j < i ==> a@[j] == b@[j],
        decreases na - i,
    {
        if a.get_char(i) != b.get_char(i) {
            return false;
        }
        i = i + 1;
    }
    proof {
        assert(a@ =~= b@);
    }
    true
}

/// Joins `rel` under `base` as the host's path type would.
pub fn path_join(base: &str, rel: &str) -> (r: String)
    ensures
        r@ == seq_join(base@, rel@),
{
    let nrel = rel.unicode_len();
    if nrel > 0 && rel.get_char(0) == '/' {
        return String::from_str(rel);
    }
    let nbase = base.unicode_len();
    if nbase == 0 {
        return String::from_str(rel);
    }
    let mut r = String::from_str(base);
    if base.get_char(nbase - 1) != '/' {
        r.push('/');
        proof {
            assert(r@ =~= base@ + seq!['/']);
        }
    }
    push_str(&mut r, rel);
    r
}

/// The path with every leading `/` removed.
pub fn strip_root_prefix(p: &str) -> (r: String)
    ensures
        r@ == strip_root(p@),
{
    let n = p.unicode_len();
    let mut i: usize = 0;
    proof {
        assert(p@.subrange(0, n as int) =~= p@);
    }
    while i < n && p.get_char(i) == '/'
        invariant
            n == p@.len(),
            i <= n,
            strip_root(p@) == strip_root(p@.subrange(i as int, n as int)),
        decreases n - i,
    {
        proof {
            assert(p@.subrange(i as int, n as int)[0] == p@[i as int]);
            assert(p@.subrange(i as int, n as int).subrange(
                1,
                p@.subrange(i as int, n as int).len() as int,
            ) =~= p@.subrange(i + 1, n as int));
        }
        i = i + 1;
    }
    let rest = p.substring_char(i, n);
    proof {
        if i < n {
            assert(p@.subrange(i as int, n as int)[0] == p@[i as int]);
        }
        assert(strip_root(p@.subrange(i as int, n as int)) == p@.subrange(i as int, n as int));
    }
    String::from_str(rest)
}

/// The directory of a file path: everything up to its last separator.
pub fn parent_dir_str(p: &str) -> (r: String)
    ensures
        r@ == parent_dir(p@),
{
    let n = p.unicode_len();
    let mut i: usize = n;
    proof {
        assert(p@.take(n as int) =~= p@);
    }
    while i > 0 && p.get_char(i - 1) != '/'
        invariant
            n == p@.len(),
            i <= n,
            parent_dir(p@) == parent_dir(p@.take(i as int)),
        decreases i,
    {
        proof {
            assert(p@.take(i as int).last() == p@[i - 1]);
            assert(p@.take(i as int).drop_last() =~= p@.take(i - 1));
        }
        i = i - 1;
    }
    if i == 0 {
        String::new()
    } else if i == 1 {
        proof {
            reveal_strlit("/");
            assert(p@.take(1).last() == p@[0]);
            assert("/"@ =~= p@.take(1));
        }
        String::from_str("/")
    } else {
        let r = p.substring_char(0, i - 1);
        proof {
            assert(p@.take(i as int).last() == p@[i - 1]);
            assert(p@.take(i as int).drop_last() =~= p@.subrange(0, i - 1));
        }
        String::from_str(r)
    }
}

/// Remounts `p` under the mountpoint `mp`.
pub fn mount_path(mp: &str, p: &str) -> (r: String)
    ensures
        r@ == mount_seq(mp@, p@),
{
    let stripped = strip_root_prefix(p);
    path_join(mp, stripped.as_str())
}

/// The segments of `s` between `:` separators, every segment kept, empty
/// ones included; the empty text has one empty segment.
pub open spec fn split_colon(s: Seq<char>) -> Seq<Seq<char>>
    decreases s.len(),
{
    if s.len() == 0 {
        seq![Seq::empty()]
    } else if s.last() == ':' {
        split_colon(s.drop_last()).push(Seq::empty())
    } else {
        let rest = split_colon(s.drop_last());
        rest.update(rest.len() - 1, rest.last().push(s.last()))
    }
}

/// Splits `s` on `:` separators.
pub fn split_colon_str(s: &str) -> (r: Vec<String>)
    ensures
        r.deep_view() == split_colon(s@),
{
    let n = s.unicode_len();
    let mut r: Vec<String> = Vec::new();
    let mut cur = String::new();
    let mut i: usize = 0;
    while i < n
        invariant
            n == s@.len(),
            i <= n,
            r.deep_view().push(cur@) =~~= split_colon(s@.take(i as int)),
        decreases n - i,
    {
        let c = s.get_char(i);
        proof {
            assert(s@.take(i + 1).drop_last() =~= s@.take(i as int));
            assert(s@.take(i + 1).last() == s@[i as int]);
        }
        if c == ':' {
            let ghost before = r.deep_view();
            r.push(cur);
            cur = String::new();
            proof {
                assert(r.deep_view() =~~= before.push(split_colon(s@.take(i as int)).last()));
                assert(r.deep_view().push(cur@) =~~= split_colon(s@.take(i + 1)));
            }
        } else {
            cur.push(c);
            proof {
                let rest = split_colon(s@.take(i as int));
                assert(rest.last() == rest[rest.len() - 1]);
                assert(r.deep_view().push(cur@) =~~= rest.update(
                    rest.len() - 1,
                    rest.last().push(c),
                ));
            }
        }
        i = i + 1;
    }
    proof {
        assert(s@.take(n as int) =~= s@);
    }
    let ghost before = r.deep_view();
    r.push(cur);
    proof {
        assert(r.deep_view() =~~= before.push(cur@));
    }
    r
}

} // verus!

//! Unix paths as text: appending a component the way `PathBuf::push` does,
//! and taking the final component the way `Path::file_name` does.
use vstd::prelude::*;
use vstd::string::{StrSliceExecFns, StringExecFns};

verus! {

/// The path `base` with `part` pushed onto it: an absolute `part` replaces the
/// whole path; otherwise a `/` is put between the two unless `base` is empty
/// or already ends in `/`.
pub open spec fn pushed_path(base: Seq<char>, part: Seq<char>) -> Seq<char> {
    if part.len() > 0 && part[0] == '/' {
        part
    } else if base.len() > 0 && base.last() != '/' {
        base + seq!['/'] + part
    } else {
        base + part
    }
}

/// Pushes `part` onto the path `base`.
pub fn push_path(base: &str, part: &str) -> (r: String)
    ensures
        r@ == pushed_path(base@, part@),
{
    let part_len = part.unicode_len();
    if part_len > 0 && part.get_char(0) == '/' {
        return part.to_owned();
    }
    let base_len = base.unicode_len();
    if base_len > 0 && base.get_char(base_len - 1) != '/' {
        let r = base.to_owned().concat("/").concat(part);
        proof {
            reveal_strlit("/");
            assert(base@ + "/"@ + part@ =~= base@ + seq!['/'] + part@);
        }
        r
    } else {
        base.to_owned().concat(part)
    }
}

/// The path made of the given components, pushed one after the other onto an
/// empty path (what collecting them into a `PathBuf` gives).
pub open spec fn joined_path(parts: Seq<Seq<char>>) -> Seq<char>
    decreases parts.len(),
{
    if parts.len() == 0 {
        Seq::empty()
    } else {
        pushed_path(joined_path(parts.drop_last()), parts.last())
    }
}

/// The views of a list of path components.
pub open spec fn component_views(parts: Seq<String>) -> Seq<Seq<char>> {
    parts.map_values(|c: String| c@)
}

/// Collects path components into one path, pushing them one after the other
/// onto an empty path.
pub fn join_path(parts: &Vec<String>) -> (r: String)
    ensures
        r@ == joined_path(component_views(parts@)),
{
    let mut r = String::new();
    let mut i: usize = 0;
    while i < parts.len()
        invariant
            i <= parts.len(),
            r@ == joined_path(component_views(parts@).take(i as int)),
        decreases parts.len() - i,
    {
        proof {
            assert(component_views(parts@).take(i + 1).drop_last() =~= component_views(parts@).take(
                i as int,
            ));
        }
        r = push_path(r.as_str(), parts[i].as_str());
        i = i + 1;
    }
    assert(component_views(parts@).take(parts.len() as int) =~= component_views(parts@));
    r
}

/// The path without the separators and `.` components at its end.
pub open spec fn trimmed_end(p: Seq<char>) -> Seq<char>
    decreases p.len(),
{
    if p.len() > 0 && p.last() == '/' {
        trimmed_end(p.drop_last())
    } else if p.len() >= 2 && p.last() == '.' && p[p.len() - 2] == '/' {
        trimmed_end(p.drop_last())
    } else {
        p
    }
}

/// The characters after the last `/`.
pub open spec fn last_segment(p: Seq<char>) -> Seq<char>
    decreases p.len(),
{
    if p.len() == 0 || p.last() == '/' {
        Seq::empty()
    } else {
        last_segment(p.drop_last()).push(p.last())
    }
}

/// The final component of a path when it names a file or directory: `None`
/// for a path with no component, for `.`, for a root and for a path that
/// ends in `..`.
pub open spec fn path_file_name(p: Seq<char>) -> Option<Seq<char>> {
    let seg = last_segment(trimmed_end(p));
    if seg.len() == 0 || seg == seq!['.'] || seg == seq!['.', '.'] {
        None
    } else {
        Some(seg)
    }
}

proof fn lemma_prefix_drop_last(p: Seq<char>, e: int)
    requires
        0 < e <= p.len(),
    ensures
        p.subrange(0, e).drop_last() == p.subrange(0, e - 1),
        p.subrange(0, e).last() == p[e - 1],
{
    assert(p.subrange(0, e).drop_last() =~= p.subrange(0, e - 1));
}

/// The final component of a path.
pub fn file_name(path: &str) -> (r: Option<String>)
    ensures
        r is Some <==> path_file_name(path@) is Some,
        r matches Some(name) ==> path_file_name(path@) == Some(name@),
{
    let n = path.unicode_len();
    let ghost p = path@;
    assert(p.subrange(0, n as int) =~= p);
    let mut e: usize = n;
    while e > 0 && (path.get_char(e - 1) == '/' || (e >= 2 && path.get_char(e - 1) == '.'
        && path.get_char(e - 2) == '/'))
        invariant
            n == p.len(),
            p == path@,
            e <= n,
            trimmed_end(p.subrange(0, e as int)) == trimmed_end(p),
        decreases e,
    {
        proof {
            lemma_prefix_drop_last(p, e as int);
            if e >= 2 {
                assert(p.subrange(0, e as int)[e - 2] == p[e - 2]);
            }
        }
        e = e - 1;
    }
    let ghost t = p.subrange(0, e as int);
    assert(trimmed_end(t) == t) by {
        if e > 0 {
            lemma_prefix_drop_last(p, e as int);
            if e >= 2 {
                assert(t[e - 2] == p[e - 2]);
            }
        }
    }
    let mut k: usize = e;
    while k > 0 && path.get_char(k - 1) != '/'
        invariant
            n == p.len(),
            p == path@,
            k <= e <= n,
            t == p.subrange(0, e as int),
            last_segment(t) == last_segment(p.subrange(0, k as int)) + p.subrange(k as int, e as int),
        decreases k,
    {
        proof {
            lemma_prefix_drop_last(p, k as int);
            assert(p.subrange(k - 1, e as int) =~= seq![p[k - 1]] + p.subrange(k as int, e as int));
            assert(last_segment(p.subrange(0, k as int)) == last_segment(p.subrange(0, k - 1)).push(
                p[k - 1],
            ));
            assert(last_segment(p.subrange(0, k - 1)).push(p[k - 1]) + p.subrange(k as int, e as int)
                =~= last_segment(p.subrange(0, k - 1)) + p.subrange(k - 1, e as int));
        }
        k = k - 1;
    }
    proof {
        if k > 0 {
            lemma_prefix_drop_last(p, k as int);
        }
        assert(last_segment(p.subrange(0, k as int)) =~= Seq::<char>::empty());
        assert(last_segment(t) =~= p.subrange(k as int, e as int));
    }
    let seg = path.substring_char(k, e);
    let seg_len = e - k;
    if seg_len == 0 {
        None
    } else if seg_len == 1 && seg.get_char(0) == '.' {
        assert(seg@ =~= seq!['.']);
        None
    } else if seg_len == 2 && seg.get_char(0) == '.' && seg.get_char(1) == '.' {
        assert(seg@ =~= seq!['.', '.']);
        None
    } else {
        assert(seg@ != seq!['.']);
        assert(seg@ != seq!['.', '.']);
        Some(seg.to_owned())
    }
}

/// Whether a text can be a single path component: not empty, without `/`,
/// and neither `.` nor `..`.
pub open spec fn is_plain_component(name: Seq<char>) -> bool {
    &&& name.len() > 0
    &&& forall|i: int| 0 <= i < name.len() ==> name[i] != '/'
    &&& name != seq!['.']
    &&& name != seq!['.', '.']
}

/// Pushing onto an empty path gives the pushed component itself.
pub proof fn lemma_push_onto_empty(part: Seq<char>)
    ensures
        pushed_path(Seq::empty(), part) == part,
{
    assert(Seq::<char>::empty() + part =~= part);
}

proof fn lemma_last_segment_after_separator(prefix: Seq<char>, name: Seq<char>)
    requires
        prefix.len() == 0 || prefix.last() == '/',
        forall|i: int| 0 <= i < name.len() ==> name[i] != '/',
    ensures
        last_segment(prefix + name) == name,
    decreases name.len(),
{
    if name.len() == 0 {
        assert(prefix + name =~= prefix);
    } else {
        let x = prefix + name;
        assert(x.drop_last() =~= prefix + name.drop_last());
        lemma_last_segment_after_separator(prefix, name.drop_last());
        assert(name.drop_last().push(name.last()) =~= name);
    }
}

/// A path whose last component is a plain name has that name as its file
/// name, whatever comes before it.
pub proof fn law_file_name_of_pushed(base: Seq<char>, name: Seq<char>)
    requires
        is_plain_component(name),
    ensures
        path_file_name(pushed_path(base, name)) == Some(name),
{
    let prefix = if base.len() > 0 && base.last() != '/' { base + seq!['/'] } else { base };
    let x = pushed_path(base, name);
    assert(name[0] != '/');
    assert(x =~= prefix + name);
    assert(x.last() == name.last());
    if name.len() >= 2 {
        assert(x[x.len() - 2] == name[name.len() - 2]);
    } else {
        assert(name =~= seq![name[0]]);
    }
    assert(trimmed_end(x) == x);
    lemma_last_segment_after_separator(prefix, name);
}

/// Pushing a relative component keeps the path it is pushed onto as a prefix;
/// pushing an absolute one replaces the path.
pub proof fn law_push_relative_extends(base: Seq<char>, part: Seq<char>)
    ensures
        part.len() > 0 && part[0] == '/' ==> pushed_path(base, part) == part,
        !(part.len() > 0 && part[0] == '/') ==> pushed_path(base, part).subrange(0, base.len() as int)
            == base,
{
    if !(part.len() > 0 && part[0] == '/') {
        assert(pushed_path(base, part).subrange(0, base.len() as int) =~= base);
    }
}

/// The file name ignores separators and `.` components at the end of a path,
/// and a path that ends in `..` has none.
pub proof fn law_file_name_ignores_trailing_parts(p: Seq<char>)
    ensures
        path_file_name(p.push('/')) == path_file_name(p),
        path_file_name(p + seq!['/', '.']) == path_file_name(p),
        path_file_name(p + seq!['/', '.', '.']) is None,
{
    assert(p.push('/').drop_last() =~= p);
    let q = p + seq!['/', '.'];
    assert(q.drop_last() =~= p.push('/'));
    assert(q[q.len() - 2] == '/');
    let r = p + seq!['/', '.', '.'];
    assert(trimmed_end(r) == r);
    assert(r.drop_last() =~= p + seq!['/', '.']);
    assert(r.drop_last().drop_last() =~= p.push('/'));
    assert(last_segment(p.push('/')) =~= Seq::<char>::empty());
    assert(r.last() == '.');
    assert(r.drop_last().last() == '.');
    assert(last_segment(r.drop_last()) == last_segment(p.push('/')).push('.'));
    assert(last_segment(r) == last_segment(r.drop_last()).push('.'));
    assert(last_segment(r) =~= seq!['.', '.']);
}

} // verus!

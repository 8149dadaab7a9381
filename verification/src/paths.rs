//! Unix paths held as strings.
use vstd::prelude::*;
use crate::text::{chars_of, push_str, string_of_range};

verus! {

/// `base` joined with `part` as a path: `part` when it is absolute, else
/// `part` after `base` with one `/` between them when `base` is not empty and
/// does not end with `/`.
pub open spec fn path_join(base: Seq<char>, part: Seq<char>) -> Seq<char> {
    if part.len() > 0 && part[0] == '/' {
        part
    } else if base.len() == 0 || base.last() == '/' {
        base + part
    } else {
        base + seq!['/'] + part
    }
}

/// Joins two paths (as `Path::join` does on Unix).
pub fn join_path(base: &str, part: &str) -> (r: String)
    ensures
        r@ == path_join(base@, part@),
{
    let p = chars_of(part);
    let b = chars_of(base);
    let mut r = String::new();
    if p.len() > 0 && p[0] == '/' {
        push_str(&mut r, part);
        return r;
    }
    push_str(&mut r, base);
    if !(b.len() == 0 || b[b.len() - 1] == '/') {
        push_str(&mut r, "/");
        proof {
            reveal_strlit("/");
        }
    }
    push_str(&mut r, part);
    r
}

/// The last component of a path (what `Path::file_name` gives for a
/// normalized path that does not end in `/`).
pub open spec fn last_component(p: Seq<char>) -> Seq<char>
    decreases p.len(),
{
    if p.len() == 0 {
        p
    } else if p.last() == '/' {
        Seq::empty()
    } else {
        last_component(p.drop_last()).push(p.last())
    }
}


/// The last component of a path: what follows its last `/`.
pub fn file_name(p: &str) -> (r: String)
    ensures
        r@ == last_component(p@),
{
    let cs = chars_of(p);
    let mut k: usize = cs.len();
    assert(cs@.subrange(0, k as int) =~= p@);
    assert(last_component(p@) + cs@.subrange(k as int, cs@.len() as int) =~= last_component(p@));
    while k > 0 && cs[k - 1] != '/'
        invariant
            k <= cs.len(),
            cs@ == p@,
            last_component(p@) == last_component(cs@.subrange(0, k as int)) + cs@.subrange(k as int, cs@.len() as int),
        decreases k,
    {
        let ghost pre = cs@.subrange(0, k as int);
        assert(pre.drop_last() =~= cs@.subrange(0, k - 1));
        assert(cs@.subrange(k - 1, cs@.len() as int) =~= seq![pre.last()] + cs@.subrange(k as int, cs@.len() as int));
        assert(last_component(pre) == last_component(pre.drop_last()).push(pre.last()));
        assert(last_component(pre.drop_last()).push(pre.last()) + cs@.subrange(k as int, cs@.len() as int)
            =~= last_component(pre.drop_last()) + cs@.subrange(k - 1, cs@.len() as int));
        k = k - 1;
    }
    proof {
        let pre = cs@.subrange(0, k as int);
        if k == 0 {
            assert(pre =~= Seq::<char>::empty());
        }
        assert(last_component(pre) =~= Seq::<char>::empty());
        assert(Seq::<char>::empty() + cs@.subrange(k as int, cs@.len() as int) =~= cs@.subrange(k as int, cs@.len() as int));
    }
    string_of_range(&cs, k, cs.len())
}

/// Index of the last `.` in `s`, or -1 when there is none.
pub open spec fn last_dot(s: Seq<char>) -> int
    decreases s.len(),
{
    if s.len() == 0 {
        -1
    } else if s.last() == '.' {
        s.len() - 1
    } else {
        last_dot(s.drop_last())
    }
}

/// A file name without its extension (as `Path::file_stem` splits it): the
/// text before the last `.`, unless that `.` starts the name or there is none.
pub open spec fn name_stem(name: Seq<char>) -> Seq<char> {
    let k = last_dot(name);
    if k > 0 {
        name.subrange(0, k)
    } else {
        name
    }
}

/// The name of the last component of a path without its extension.
pub fn file_stem(p: &str) -> (r: String)
    ensures
        r@ == name_stem(last_component(p@)),
{
    let name = file_name(p);
    let cs = chars_of(name.as_str());
    let mut k: usize = cs.len();
    assert(cs@.subrange(0, k as int) =~= cs@);
    while k > 0 && cs[k - 1] != '.'
        invariant
            k <= cs.len(),
            cs@ == name@,
            last_dot(cs@) == last_dot(cs@.subrange(0, k as int)),
        decreases k,
    {
        assert(cs@.subrange(0, k as int).drop_last() =~= cs@.subrange(0, k - 1));
        k = k - 1;
    }
    proof {
        if k == 0 {
            assert(cs@.subrange(0, 0) =~= Seq::<char>::empty());
        } else {
            assert(cs@.subrange(0, k as int).last() == cs@[k - 1]);
        }
    }
    if k > 1 {
        string_of_range(&cs, 0, k - 1)
    } else {
        name
    }
}

} // verus!

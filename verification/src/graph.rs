//! Dependency graphs and a simple topological sort over them.
use vstd::prelude::*;
use vstd::std_specs::cmp::PartialEqSpec;

verus! {

/// The values behind a sequence of references.
pub open spec fn vals<T>(s: Seq<&T>) -> Seq<T> {
    s.map_values(|x: &T| *x)
}

proof fn lemma_vals_push<T>(s: Seq<&T>, x: &T)
    ensures
        vals(s.push(x)) == vals(s).push(*x),
{
    assert(vals(s.push(x)) =~= vals(s).push(*x));
}

/// A node of a graph without cycles that knows its direct dependencies.
pub trait Graph: PartialEq + Sized {
    /// The direct dependencies of the node.
    spec fn spec_deps(&self) -> Seq<Self>;

    /// A rank that every dependency has lower than its dependent; it exists
    /// because the graph has no cycles.
    spec fn spec_rank(&self) -> nat;

    /// Dependencies have a lower rank than the node.
    proof fn lemma_deps_rank(&self)
        ensures
            forall|i: int| 0 <= i < self.spec_deps().len() ==> #[trigger] self.spec_deps()[i].spec_rank() < self.spec_rank(),
    ;

    /// Get dependencies
    fn graph_dependencies(&self) -> (r: Vec<&Self>)
        ensures
            vals(r@) == self.spec_deps(),
    ;
}

/// The walk of a graph node.
pub trait GraphWalk: Graph {
    /// All nodes below this one: the direct dependencies, then the walk of
    /// each dependency in turn.
    fn graph_walk(&self) -> (r: Vec<&Self>)
        ensures
            vals(r@) == walk(*self),
    ;
}

impl<T: Graph> GraphWalk for T {
    fn graph_walk(&self) -> (r: Vec<&Self>) {
        walk_exec(self)
    }
}

/// The walk of a node: its dependencies, then the walk of each of them.
pub open spec fn walk<T: Graph>(n: T) -> Seq<T>
    decreases n.spec_rank(), n.spec_deps().len() + 1,
{
    n.spec_deps() + walk_all(n.spec_deps(), n.spec_rank())
}

/// The walks of the nodes of `s` one after the other (of those below `bound`).
pub open spec fn walk_all<T: Graph>(s: Seq<T>, bound: nat) -> Seq<T>
    decreases bound, s.len(),
{
    if s.len() == 0 {
        Seq::empty()
    } else if s.last().spec_rank() < bound {
        walk_all(s.drop_last(), bound) + walk(s.last())
    } else {
        walk_all(s.drop_last(), bound)
    }
}

/// The walks of the nodes of `s` one after the other.
pub open spec fn walks<T: Graph>(s: Seq<T>) -> Seq<T>
    decreases s.len(),
{
    if s.len() == 0 {
        Seq::empty()
    } else {
        walks(s.drop_last()) + walk(s.last())
    }
}

/// `s` with only the first occurrence of each element kept.
pub open spec fn dedup<T>(s: Seq<T>) -> Seq<T>
    decreases s.len(),
{
    if s.len() == 0 {
        Seq::empty()
    } else if dedup(s.drop_last()).contains(s.last()) {
        dedup(s.drop_last())
    } else {
        dedup(s.drop_last()).push(s.last())
    }
}

/// The order that [`tsort`] gives: the roots followed by their walks, read
/// backwards, with repeated nodes dropped after their first occurrence.
pub open spec fn tsort_order<T: Graph>(roots: Seq<T>) -> Seq<T> {
    dedup((roots + walks(roots)).reverse())
}

/// `T`'s `==` is equality.
pub open spec fn eq_is_equality<T: PartialEq>() -> bool {
    &&& T::obeys_eq_spec()
    &&& forall|x: T, y: T| (#[trigger] x.eq_spec(&y)) <==> (x == y)
}

/// Computes the walk of a node.
pub fn walk_exec<'a, T: Graph>(n: &'a T) -> (r: Vec<&'a T>)
    ensures
        vals(r@) == walk(*n),
    decreases n.spec_rank(),
{
    let deps = n.graph_dependencies();
    proof {
        n.lemma_deps_rank();
    }
    let ghost d = n.spec_deps();
    let mut result: Vec<&'a T> = Vec::new();
    let mut i: usize = 0;
    while i < deps.len()
        invariant
            i <= deps.len(),
            vals(deps@) == d,
            vals(result@) == d.take(i as int),
        decreases deps.len() - i,
    {
        proof {
            lemma_vals_push(result@, deps@[i as int]);
        }
        result.push(deps[i]);
        i = i + 1;
        assert(vals(result@) =~= d.take(i as int));
    }
    assert(d.take(deps.len() as int) =~= d);
    let mut i: usize = 0;
    while i < deps.len()
        invariant
            i <= deps.len(),
            vals(deps@) == d,
            d == n.spec_deps(),
            forall|j: int| 0 <= j < d.len() ==> #[trigger] d[j].spec_rank() < n.spec_rank(),
            vals(result@) == d + walk_all(d.take(i as int), n.spec_rank()),
        decreases deps.len() - i,
    {
        let dep = deps[i];
        assert(*dep == d[i as int]);
        let w = walk_exec(dep);
        let ghost before = vals(result@);
        let mut k: usize = 0;
        while k < w.len()
            invariant
                k <= w.len(),
                vals(result@) == before + vals(w@).take(k as int),
            decreases w.len() - k,
        {
            proof {
                lemma_vals_push(result@, w@[k as int]);
            }
            result.push(w[k]);
            k = k + 1;
            assert(vals(result@) =~= before + vals(w@).take(k as int));
        }
        assert(vals(w@).take(w.len() as int) =~= vals(w@));
        assert(d.take(i + 1).drop_last() =~= d.take(i as int));
        assert(d.take(i + 1).last() == d[i as int]);
        assert(vals(result@) =~= d + walk_all(d.take(i + 1), n.spec_rank()));
        i = i + 1;
    }
    assert(d.take(deps.len() as int) =~= d);
    result
}

/// Simplistic topological sort
pub fn tsort<'a, T: Graph>(graph: Vec<&'a T>) -> (r: Vec<&'a T>)
    requires
        eq_is_equality::<T>(),
    ensures
        vals(r@) == tsort_order(vals(graph@)),
{
    let ghost roots = vals(graph@);
    let mut result: Vec<&'a T> = Vec::new();
    let mut i: usize = 0;
    while i < graph.len()
        invariant
            i <= graph.len(),
            roots == vals(graph@),
            vals(result@) == roots.take(i as int),
        decreases graph.len() - i,
    {
        proof {
            lemma_vals_push(result@, graph@[i as int]);
        }
        result.push(graph[i]);
        i = i + 1;
        assert(vals(result@) =~= roots.take(i as int));
    }
    assert(roots.take(graph.len() as int) =~= roots);
    let mut i: usize = 0;
    while i < graph.len()
        invariant
            i <= graph.len(),
            roots == vals(graph@),
            vals(result@) == roots + walks(roots.take(i as int)),
        decreases graph.len() - i,
    {
        let w = graph[i].graph_walk();
        let ghost before = vals(result@);
        let mut k: usize = 0;
        while k < w.len()
            invariant
                k <= w.len(),
                vals(result@) == before + vals(w@).take(k as int),
            decreases w.len() - k,
        {
            proof {
                lemma_vals_push(result@, w@[k as int]);
            }
            result.push(w[k]);
            k = k + 1;
            assert(vals(result@) =~= before + vals(w@).take(k as int));
        }
        assert(vals(w@).take(w.len() as int) =~= vals(w@));
        assert(roots.take(i + 1).drop_last() =~= roots.take(i as int));
        assert(vals(result@) =~= roots + walks(roots.take(i + 1)));
        i = i + 1;
    }
    assert(roots.take(graph.len() as int) =~= roots);
    let ghost all = vals(result@);
    // reverse
    let mut reversed: Vec<&'a T> = Vec::new();
    let mut i: usize = result.len();
    while i > 0
        invariant
            i <= result.len(),
            all == vals(result@),
            vals(reversed@) == all.reverse().take(result.len() - i),
        decreases i,
    {
        i = i - 1;
        proof {
            lemma_vals_push(reversed@, result@[i as int]);
        }
        reversed.push(result[i]);
        assert(vals(reversed@) =~= all.reverse().take(result.len() - i));
    }
    assert(all.reverse().take(all.len() as int) =~= all.reverse());
    let ghost rev = all.reverse();
    // keep first occurrences
    let mut unique: Vec<&'a T> = Vec::new();
    let mut i: usize = 0;
    while i < reversed.len()
        invariant
            i <= reversed.len(),
            eq_is_equality::<T>(),
            vals(reversed@) == rev,
            vals(unique@) == dedup(rev.take(i as int)),
        decreases reversed.len() - i,
    {
        let x = reversed[i];
        let mut found = false;
        let mut j: usize = 0;
        while j < unique.len()
            invariant
                j <= unique.len(),
                eq_is_equality::<T>(),
                found <==> vals(unique@).take(j as int).contains(*x),
            decreases unique.len() - j,
        {
            let same = <T as PartialEq>::eq(unique[j], x);
            if same {
                assert(vals(unique@).take(j + 1)[j as int] == *x);
            }
            assert(vals(unique@).take(j + 1) =~= vals(unique@).take(j as int).push(vals(unique@)[j as int]));
            found = found || same;
            j = j + 1;
        }
        assert(vals(unique@).take(unique.len() as int) =~= vals(unique@));
        assert(rev.take(i + 1).drop_last() =~= rev.take(i as int));
        assert(rev.take(i + 1).last() == *x);
        if !found {
            proof {
                lemma_vals_push(unique@, x);
            }
            unique.push(x);
            assert(vals(unique@) =~= dedup(rev.take(i as int)).push(*x));
        }
        i = i + 1;
    }
    assert(rev.take(reversed.len() as int) =~= rev);
    unique
}

/// Every dependency of an element occurs later in the sequence.
pub open spec fn deps_follow<T: Graph>(l: Seq<T>) -> bool {
    forall|k: int, i: int|
        0 <= k < l.len() && 0 <= i < l[k].spec_deps().len() ==> #[trigger] l.subrange(k + 1, l.len() as int).contains(
            #[trigger] l[k].spec_deps()[i],
        )
}

/// Every dependency of an element occurs earlier in the sequence.
pub open spec fn deps_precede<T: Graph>(l: Seq<T>) -> bool {
    forall|k: int, i: int|
        0 <= k < l.len() && 0 <= i < l[k].spec_deps().len() ==> #[trigger] l.take(k).contains(#[trigger] l[k].spec_deps()[i])
}

proof fn lemma_dedup_contains<T>(s: Seq<T>)
    ensures
        forall|x: T| dedup(s).contains(x) <==> s.contains(x),
    decreases s.len(),
{
    if s.len() > 0 {
        lemma_dedup_contains(s.drop_last());
        assert forall|x: T| dedup(s).contains(x) <==> s.contains(x) by {
            if s.contains(x) && !s.drop_last().contains(x) {
                let k = choose|k: int| 0 <= k < s.len() && s[k] == x;
                if k < s.len() - 1 {
                    assert(s.drop_last()[k] == x);
                }
                assert(x == s.last());
            }
            if s.drop_last().contains(x) {
                let k = choose|k: int| 0 <= k < s.drop_last().len() && s.drop_last()[k] == x;
                assert(s[k] == x);
            }
            if dedup(s.drop_last()).contains(s.last()) {
            } else {
                let d = dedup(s.drop_last());
                if d.push(s.last()).contains(x) {
                    let k = choose|k: int| 0 <= k < d.push(s.last()).len() && d.push(s.last())[k] == x;
                    if k < d.len() {
                        assert(d[k] == x);
                    }
                }
                if d.contains(x) {
                    let k = choose|k: int| 0 <= k < d.len() && d[k] == x;
                    assert(d.push(s.last())[k] == x);
                }
                assert(d.push(s.last())[d.len() as int] == s.last());
            }
        }
    }
}

proof fn lemma_dedup_no_duplicates<T>(s: Seq<T>)
    ensures
        dedup(s).no_duplicates(),
    decreases s.len(),
{
    if s.len() > 0 {
        lemma_dedup_no_duplicates(s.drop_last());
        let d = dedup(s.drop_last());
        if !d.contains(s.last()) {
            let e = d.push(s.last());
            assert forall|i: int, j: int| 0 <= i < e.len() && 0 <= j < e.len() && i != j implies e[i] != e[j] by {
                if i < d.len() && j < d.len() {
                } else if i == d.len() {
                    assert(e[j] == d[j]);
                } else {
                    assert(e[i] == d[i]);
                }
            }
        }
    }
}

proof fn lemma_dedup_deps_precede<T: Graph>(s: Seq<T>)
    requires
        deps_precede(s),
    ensures
        deps_precede(dedup(s)),
    decreases s.len(),
{
    if s.len() > 0 {
        let p = s.drop_last();
        assert forall|k: int, i: int| 0 <= k < p.len() && 0 <= i < p[k].spec_deps().len() implies #[trigger] p.take(k).contains(
            #[trigger] p[k].spec_deps()[i],
        ) by {
            assert(p.take(k) =~= s.take(k));
            assert(s.take(k).contains(s[k].spec_deps()[i]));
        }
        lemma_dedup_deps_precede(p);
        lemma_dedup_contains(p);
        let d = dedup(p);
        if !d.contains(s.last()) {
            let e = d.push(s.last());
            assert forall|k: int, i: int| 0 <= k < e.len() && 0 <= i < e[k].spec_deps().len() implies #[trigger] e.take(k).contains(
                #[trigger] e[k].spec_deps()[i],
            ) by {
                if k < d.len() {
                    assert(e.take(k) =~= d.take(k));
                    assert(e[k] == d[k]);
                } else {
                    let x = s.last().spec_deps()[i];
                    assert(s.take(s.len() - 1).contains(x));
                    assert(s.take(s.len() - 1) =~= p);
                    assert(d.contains(x));
                    assert(e.take(k) =~= d);
                }
            }
        }
    }
}

proof fn lemma_reverse_deps<T: Graph>(l: Seq<T>)
    requires
        deps_follow(l),
    ensures
        deps_precede(l.reverse()),
{
    let r = l.reverse();
    let n = l.len() as int;
    assert forall|k: int, i: int| 0 <= k < r.len() && 0 <= i < r[k].spec_deps().len() implies #[trigger] r.take(k).contains(
        #[trigger] r[k].spec_deps()[i],
    ) by {
        let j = n - 1 - k;
        assert(r[k] == l[j]);
        let x = l[j].spec_deps()[i];
        assert(l.subrange(j + 1, n).contains(x));
        let sub = l.subrange(j + 1, n);
        let m = choose|m: int| 0 <= m < sub.len() && sub[m] == x;
        let q = j + 1 + m;
        assert(l[q] == x);
        assert(r[n - 1 - q] == x);
        assert(r.take(k)[n - 1 - q] == x);
    }
}

proof fn lemma_concat_deps_follow<T: Graph>(a: Seq<T>, b: Seq<T>)
    requires
        deps_follow(b),
        forall|k: int, i: int|
            0 <= k < a.len() && 0 <= i < a[k].spec_deps().len() ==> #[trigger] (a + b).subrange(k + 1, (a + b).len() as int).contains(
                #[trigger] a[k].spec_deps()[i],
            ),
    ensures
        deps_follow(a + b),
{
    let l = a + b;
    assert forall|k: int, i: int| 0 <= k < l.len() && 0 <= i < l[k].spec_deps().len() implies #[trigger] l.subrange(k + 1, l.len() as int).contains(
        #[trigger] l[k].spec_deps()[i],
    ) by {
        if k < a.len() {
            assert(l[k] == a[k]);
        } else {
            let kb = k - a.len();
            assert(l[k] == b[kb]);
            let x = b[kb].spec_deps()[i];
            assert(b.subrange(kb + 1, b.len() as int).contains(x));
            let sub = b.subrange(kb + 1, b.len() as int);
            let m = choose|m: int| 0 <= m < sub.len() && sub[m] == x;
            assert(l.subrange(k + 1, l.len() as int)[m] == x);
        }
    }
}

proof fn lemma_walk_deps_follow<T: Graph>(n: T)
    ensures
        deps_follow(walk(n)),
        forall|x: T| #[trigger] n.spec_deps().contains(x) ==> walk(n).contains(x),
    decreases n.spec_rank(), n.spec_deps().len() + 1,
{
    let d = n.spec_deps();
    let w = walk_all(d, n.spec_rank());
    n.lemma_deps_rank();
    lemma_walk_all_deps_follow(d, n.spec_rank());
    assert forall|k: int, i: int| 0 <= k < d.len() && 0 <= i < d[k].spec_deps().len() implies #[trigger] (d + w).subrange(
        k + 1,
        (d + w).len() as int,
    ).contains(#[trigger] d[k].spec_deps()[i]) by {
        let x = d[k].spec_deps()[i];
        assert(d.take(k + 1).last() == d[k]);
        lemma_walk_all_contains(d, n.spec_rank(), k, x);
        let m = choose|m: int| 0 <= m < w.len() && w[m] == x;
        assert((d + w)[d.len() + m] == x);
        assert((d + w).subrange(k + 1, (d + w).len() as int)[d.len() + m - k - 1] == x);
    }
    lemma_concat_deps_follow(d, w);
    assert forall|x: T| #[trigger] n.spec_deps().contains(x) implies walk(n).contains(x) by {
        let m = choose|m: int| 0 <= m < d.len() && d[m] == x;
        assert(walk(n)[m] == x);
    }
}

proof fn lemma_walk_all_deps_follow<T: Graph>(s: Seq<T>, bound: nat)
    ensures
        deps_follow(walk_all(s, bound)),
    decreases bound, s.len(),
{
    if s.len() > 0 {
        lemma_walk_all_deps_follow(s.drop_last(), bound);
        if s.last().spec_rank() < bound {
            lemma_walk_deps_follow(s.last());
            let a = walk_all(s.drop_last(), bound);
            let b = walk(s.last());
            assert forall|k: int, i: int| 0 <= k < a.len() && 0 <= i < a[k].spec_deps().len() implies #[trigger] (a + b).subrange(
                k + 1,
                (a + b).len() as int,
            ).contains(#[trigger] a[k].spec_deps()[i]) by {
                let x = a[k].spec_deps()[i];
                assert(a.subrange(k + 1, a.len() as int).contains(x));
                let sub = a.subrange(k + 1, a.len() as int);
                let m = choose|m: int| 0 <= m < sub.len() && sub[m] == x;
                assert((a + b).subrange(k + 1, (a + b).len() as int)[m] == x);
            }
            lemma_concat_deps_follow(a, b);
        }
    }
}

/// Every dependency of the `j`-th node (when it is below `bound`) occurs in
/// the walks of the nodes of `s`.
proof fn lemma_walk_all_contains<T: Graph>(s: Seq<T>, bound: nat, j: int, x: T)
    requires
        0 <= j < s.len(),
        s[j].spec_rank() < bound,
        s[j].spec_deps().contains(x),
    ensures
        walk_all(s, bound).contains(x),
    decreases bound, s.len(),
{
    if j == s.len() - 1 {
        lemma_walk_deps_follow(s[j]);
        let a = walk_all(s.drop_last(), bound);
        let b = walk(s.last());
        let m = choose|m: int| 0 <= m < b.len() && b[m] == x;
        assert((a + b)[a.len() + m] == x);
    } else {
        assert(s.drop_last()[j] == s[j]);
        lemma_walk_all_contains(s.drop_last(), bound, j, x);
        let a = walk_all(s.drop_last(), bound);
        let m = choose|m: int| 0 <= m < a.len() && a[m] == x;
        if s.last().spec_rank() < bound {
            assert((a + walk(s.last()))[m] == x);
        }
    }
}

proof fn lemma_walks_deps_follow<T: Graph>(s: Seq<T>)
    ensures
        deps_follow(walks(s)),
        forall|j: int, x: T| 0 <= j < s.len() && #[trigger] s[j].spec_deps().contains(x) ==> walks(s).contains(x),
    decreases s.len(),
{
    if s.len() > 0 {
        lemma_walks_deps_follow(s.drop_last());
        lemma_walk_deps_follow(s.last());
        let a = walks(s.drop_last());
        let b = walk(s.last());
        assert forall|k: int, i: int| 0 <= k < a.len() && 0 <= i < a[k].spec_deps().len() implies #[trigger] (a + b).subrange(
            k + 1,
            (a + b).len() as int,
        ).contains(#[trigger] a[k].spec_deps()[i]) by {
            let x = a[k].spec_deps()[i];
            assert(a.subrange(k + 1, a.len() as int).contains(x));
            let sub = a.subrange(k + 1, a.len() as int);
            let m = choose|m: int| 0 <= m < sub.len() && sub[m] == x;
            assert((a + b).subrange(k + 1, (a + b).len() as int)[m] == x);
        }
        lemma_concat_deps_follow(a, b);
        assert forall|j: int, x: T| 0 <= j < s.len() && #[trigger] s[j].spec_deps().contains(x) implies walks(s).contains(x) by {
            if j == s.len() - 1 {
                let m = choose|m: int| 0 <= m < b.len() && b[m] == x;
                assert((a + b)[a.len() + m] == x);
            } else {
                assert(s.drop_last()[j] == s[j]);
                let m = choose|m: int| 0 <= m < a.len() && a[m] == x;
                assert((a + b)[m] == x);
            }
        }
    }
}

/// The sorted list holds each node once.
pub proof fn law_tsort_no_duplicates<T: Graph>(roots: Seq<T>)
    ensures
        tsort_order(roots).no_duplicates(),
{
    lemma_dedup_no_duplicates((roots + walks(roots)).reverse());
}

/// The sorted list holds exactly the roots and every node below them.
pub proof fn law_tsort_same_nodes<T: Graph>(roots: Seq<T>)
    ensures
        forall|x: T| tsort_order(roots).contains(x) <==> (roots.contains(x) || walks(roots).contains(x)),
{
    let l = roots + walks(roots);
    lemma_dedup_contains(l.reverse());
    assert forall|x: T| l.reverse().contains(x) <==> (roots.contains(x) || walks(roots).contains(x)) by {
        if l.reverse().contains(x) {
            let k = choose|k: int| 0 <= k < l.reverse().len() && l.reverse()[k] == x;
            let j = l.len() - 1 - k;
            assert(l[j] == x);
            if j < roots.len() {
                assert(roots[j] == x);
            } else {
                assert(walks(roots)[j - roots.len()] == x);
            }
        }
        if roots.contains(x) {
            let k = choose|k: int| 0 <= k < roots.len() && roots[k] == x;
            assert(l[k] == x);
            assert(l.reverse()[l.len() - 1 - k] == x);
        }
        if walks(roots).contains(x) {
            let k = choose|k: int| 0 <= k < walks(roots).len() && walks(roots)[k] == x;
            assert(l[roots.len() + k] == x);
            assert(l.reverse()[l.len() - 1 - (roots.len() + k)] == x);
        }
    }
}

/// In the sorted list every dependency of a node comes before the node.
pub proof fn law_tsort_dependencies_first<T: Graph>(roots: Seq<T>)
    ensures
        deps_precede(tsort_order(roots)),
{
    let w = walks(roots);
    lemma_walks_deps_follow(roots);
    assert forall|k: int, i: int| 0 <= k < roots.len() && 0 <= i < roots[k].spec_deps().len() implies #[trigger] (roots + w).subrange(
        k + 1,
        (roots + w).len() as int,
    ).contains(#[trigger] roots[k].spec_deps()[i]) by {
        let x = roots[k].spec_deps()[i];
        assert(roots[k].spec_deps().contains(x));
        let m = choose|m: int| 0 <= m < w.len() && w[m] == x;
        assert((roots + w).subrange(k + 1, (roots + w).len() as int)[roots.len() + m - k - 1] == x);
    }
    lemma_concat_deps_follow(roots, w);
    lemma_reverse_deps(roots + w);
    lemma_dedup_deps_precede((roots + w).reverse());
}


/// A named node of a graph, with the nodes it depends on.
#[derive(Debug, PartialEq)]
pub struct Sortable<'a>(pub &'a str, pub Vec<&'a Sortable<'a>>);

/// The height of a node: one more than the highest of its dependencies.
pub open spec fn sortable_height<'a>(n: Sortable<'a>) -> nat
    decreases n, n.1@.len() + 1,
{
    1 + deps_height(n, n.1@.len())
}

/// The greatest height among the first `k` dependencies of `n`.
pub open spec fn deps_height<'a>(n: Sortable<'a>, k: nat) -> nat
    decreases n, k,
{
    if k == 0 || k > n.1@.len() {
        0
    } else {
        proof {
            assert(decreases_to!(n => n.1));
            assert(decreases_to!(n.1 => n.1@));
            assert(decreases_to!(n.1@ => n.1@[k - 1]));
        }
        let a = deps_height(n, (k - 1) as nat);
        let b = sortable_height(*n.1@[k - 1]);
        if a >= b { a } else { b }
    }
}

proof fn lemma_deps_height<'a>(n: Sortable<'a>, k: nat, i: int)
    requires
        0 <= i < k <= n.1@.len(),
    ensures
        sortable_height(*n.1@[i]) <= deps_height(n, k),
    decreases k,
{
    if i < k - 1 {
        lemma_deps_height(n, (k - 1) as nat, i);
    }
}

impl<'a> Graph for Sortable<'a> {
    open spec fn spec_deps(&self) -> Seq<Self> {
        vals(self.1@)
    }

    open spec fn spec_rank(&self) -> nat {
        sortable_height(*self)
    }

    proof fn lemma_deps_rank(&self) {
        assert forall|i: int| 0 <= i < self.spec_deps().len() implies #[trigger] self.spec_deps()[i].spec_rank() < self.spec_rank() by {
            lemma_deps_height(*self, self.1@.len(), i);
        }
    }

    fn graph_dependencies(&self) -> (r: Vec<&Self>) {
        let mut r: Vec<&Self> = Vec::new();
        let mut i: usize = 0;
        while i < self.1.len()
            invariant
                i <= self.1.len(),
                r@ == self.1@.take(i as int),
            decreases self.1.len() - i,
        {
            r.push(self.1[i]);
            i = i + 1;
            assert(r@ =~= self.1@.take(i as int));
        }
        assert(self.1@.take(self.1@.len() as int) =~= self.1@);
        r
    }
}

} // verus!

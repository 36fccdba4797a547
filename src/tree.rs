use vstd::prelude::*;

use vstd::arithmetic::div_mod::{lemma_mod_self_0, lemma_small_mod};

use crate::axes::ColorSpec;
use crate::error::ScadDotsError;

verus! {

/// A constructive solid geometry tree over primitive objects of type `O`.
/// `N` is the type of the normal vector of a mirror plane.
#[derive(Debug, PartialEq)]
pub enum Tree<O, N> {
    Object(O),
    Operator(TreeOperator<O, N>),
}

/// An operator node of a `Tree`. Children keep their order, which matters
/// for `Diff`.
#[derive(Debug, PartialEq)]
pub enum TreeOperator<O, N> {
    /// The union of the children.
    Union(Vec<Tree<O, N>>),
    /// The smallest convex solid that encloses all the children.
    Hull(Vec<Tree<O, N>>),
    /// The first child, with all the following ones subtracted from it.
    Diff(Vec<Tree<O, N>>),
    /// The intersection of the children.
    Intersect(Vec<Tree<O, N>>),
    /// The child, drawn in a colour.
    Color(ColorSpec, Box<Tree<O, N>>),
    /// The child, mirrored across the plane through the origin with the
    /// given normal.
    Mirror(N, Box<Tree<O, N>>),
}

impl<O, N> Tree<O, N> {
    /// A leaf holding one primitive object.
    pub fn object(object: O) -> (r: Self)
        ensures
            r == Tree::<O, N>::Object(object),
    {
        Tree::Object(object)
    }

    pub fn union(children: Vec<Self>) -> (r: Self)
        ensures
            r == Tree::<O, N>::Operator(TreeOperator::Union(children)),
    {
        Tree::Operator(TreeOperator::Union(children))
    }

    pub fn hull(children: Vec<Self>) -> (r: Self)
        ensures
            r == Tree::<O, N>::Operator(TreeOperator::Hull(children)),
    {
        Tree::Operator(TreeOperator::Hull(children))
    }

    pub fn diff(children: Vec<Self>) -> (r: Self)
        ensures
            r == Tree::<O, N>::Operator(TreeOperator::Diff(children)),
    {
        Tree::Operator(TreeOperator::Diff(children))
    }

    pub fn intersect(children: Vec<Self>) -> (r: Self)
        ensures
            r == Tree::<O, N>::Operator(TreeOperator::Intersect(children)),
    {
        Tree::Operator(TreeOperator::Intersect(children))
    }

    pub fn mirror(normal: N, child: Self) -> (r: Self)
        ensures
            r == Tree::<O, N>::Operator(TreeOperator::Mirror(normal, Box::new(child))),
    {
        Tree::Operator(TreeOperator::Mirror(normal, Box::new(child)))
    }

    pub fn color(color: ColorSpec, child: Self) -> (r: Self)
        ensures
            r == Tree::<O, N>::Operator(TreeOperator::Color(color, Box::new(child))),
    {
        Tree::Operator(TreeOperator::Color(color, Box::new(child)))
    }
}

/// The leaves that hold the given objects, in order.
pub open spec fn objects<O, N>(s: Seq<O>) -> Seq<Tree<O, N>> {
    s.map_values(|o: O| Tree::<O, N>::Object(o))
}

/// `t` is the hull of exactly the trees `cs`, in order.
pub open spec fn hull_of<O, N>(t: Tree<O, N>, cs: Seq<Tree<O, N>>) -> bool {
    t matches Tree::Operator(TreeOperator::Hull(v)) && v@ == cs
}

/// `t` is the union of exactly the trees `cs`, in order.
pub open spec fn union_of<O, N>(t: Tree<O, N>, cs: Seq<Tree<O, N>>) -> bool {
    t matches Tree::Operator(TreeOperator::Union(v)) && v@ == cs
}

/// `b` has the shape of `a`, node for node, and each of its objects and
/// mirror normals is a copy of the one at the same place in `a`.
pub open spec fn tree_cloned<O: Clone, N: Clone>(a: Tree<O, N>, b: Tree<O, N>) -> bool
    decreases a,
{
    match (a, b) {
        (Tree::Object(x), Tree::Object(y)) => cloned(x, y),
        (Tree::Operator(p), Tree::Operator(q)) => match (p, q) {
            (TreeOperator::Union(xs), TreeOperator::Union(ys)) => children_cloned(xs@, ys@),
            (TreeOperator::Hull(xs), TreeOperator::Hull(ys)) => children_cloned(xs@, ys@),
            (TreeOperator::Diff(xs), TreeOperator::Diff(ys)) => children_cloned(xs@, ys@),
            (TreeOperator::Intersect(xs), TreeOperator::Intersect(ys)) => children_cloned(
                xs@,
                ys@,
            ),
            (TreeOperator::Color(c, x), TreeOperator::Color(d, y)) => c == d && tree_cloned(*x, *y),
            (TreeOperator::Mirror(m, x), TreeOperator::Mirror(n, y)) => cloned(m, n) && tree_cloned(
                *x,
                *y,
            ),
            _ => false,
        },
        _ => false,
    }
}

/// `ys` is `xs` with each tree copied as `tree_cloned` says.
pub open spec fn children_cloned<O: Clone, N: Clone>(
    xs: Seq<Tree<O, N>>,
    ys: Seq<Tree<O, N>>,
) -> bool
    decreases xs,
{
    xs.len() == ys.len() && forall|i: int|
        0 <= i < xs.len() ==> tree_cloned(#[trigger] xs[i], ys[i])
}

impl<O: Clone, N: Clone> Tree<O, N> {
    /// A deep copy of the tree.
    pub fn duplicate(&self) -> (r: Self)
        ensures
            tree_cloned(*self, r),
        decreases self,
    {
        match self {
            Tree::Object(o) => Tree::Object(o.clone()),
            Tree::Operator(op) => Tree::Operator(
                match op {
                    TreeOperator::Union(xs) => TreeOperator::Union(Tree::duplicate_children(xs)),
                    TreeOperator::Hull(xs) => TreeOperator::Hull(Tree::duplicate_children(xs)),
                    TreeOperator::Diff(xs) => TreeOperator::Diff(Tree::duplicate_children(xs)),
                    TreeOperator::Intersect(xs) => TreeOperator::Intersect(
                        Tree::duplicate_children(xs),
                    ),
                    TreeOperator::Color(c, x) => TreeOperator::Color(*c, Box::new((**x).duplicate())),
                    TreeOperator::Mirror(n, x) => TreeOperator::Mirror(
                        n.clone(),
                        Box::new((**x).duplicate()),
                    ),
                },
            ),
        }
    }

    /// Deep copies of the trees, in order.
    pub fn duplicate_children(xs: &Vec<Self>) -> (r: Vec<Self>)
        ensures
            children_cloned(xs@, r@),
        decreases xs,
    {
        let mut r: Vec<Self> = Vec::new();
        let mut i: usize = 0;
        while i < xs.len()
            invariant
                0 <= i <= xs@.len(),
                r@.len() == i,
                forall|j: int| 0 <= j < i ==> tree_cloned(#[trigger] xs@[j], r@[j]),
            decreases xs@.len() - i,
        {
            proof {
                assert(decreases_to!(xs => xs[i as int]));
            }
            r.push(xs[i].duplicate());
            i = i + 1;
        }
        r
    }
}

impl<O: Clone, N: Clone> Clone for Tree<O, N> {
    fn clone(&self) -> (r: Self)
        ensures
            tree_cloned(*self, r),
    {
        self.duplicate()
    }
}

/// `t` is the hull of a copy of `a` followed by a copy of `b`.
pub open spec fn is_hull_of<O: Clone, N: Clone>(t: Tree<O, N>, a: Tree<O, N>, b: Tree<O, N>) -> bool {
    match t {
        Tree::Operator(TreeOperator::Hull(v)) => v@.len() == 2 && tree_cloned(a, v@[0]) && tree_cloned(
            b,
            v@[1],
        ),
        _ => false,
    }
}

/// `t` links each element of `s` to the next one by a hull: with two
/// elements it is that one hull, with more it is the union of the hulls in
/// order.
pub open spec fn is_chain_of<O: Clone, N: Clone>(s: Seq<Tree<O, N>>, t: Tree<O, N>) -> bool {
    if s.len() == 2 {
        is_hull_of(t, s[0], s[1])
    } else {
        match t {
            Tree::Operator(TreeOperator::Union(v)) => v@.len() + 1 == s.len() && forall|i: int|
                0 <= i < v@.len() ==> #[trigger] is_hull_of(v@[i], s[i], s[i + 1]),
            _ => false,
        }
    }
}

/// For each `i < count`, the hull of copies of `things[i]` and of the
/// element after it, where the last element is followed by the first.
fn hull_links<O: Clone, N: Clone>(things: &[Tree<O, N>], count: usize) -> (r: Vec<Tree<O, N>>)
    requires
        1 <= things@.len(),
        count <= things@.len(),
    ensures
        r@.len() == count,
        forall|i: int|
            0 <= i < count ==> #[trigger] is_hull_of(
                r@[i],
                things@[i],
                things@[(i + 1) % (things@.len() as int)],
            ),
{
    let n = things.len();
    let mut links: Vec<Tree<O, N>> = Vec::new();
    let mut i: usize = 0;
    while i < count
        invariant
            n == things@.len(),
            1 <= n,
            count <= n,
            0 <= i <= count,
            links@.len() == i,
            forall|j: int|
                0 <= j < i ==> #[trigger] is_hull_of(
                    links@[j],
                    things@[j],
                    things@[(j + 1) % (n as int)],
                ),
        decreases count - i,
    {
        let next: usize = if i + 1 == n {
            0
        } else {
            i + 1
        };
        proof {
            if i + 1 < n {
                lemma_small_mod((i + 1) as nat, n as nat);
            } else {
                lemma_mod_self_0(n as int);
            }
        }
        let a = things[i].duplicate();
        let b = things[next].duplicate();
        let pair = vec![a, b];
        let link = Tree::hull(pair);
        links.push(link);
        i = i + 1;
    }
    links
}

/// The single link, or the union of all the links.
fn join_links<O, N>(links: Vec<Tree<O, N>>) -> (r: Tree<O, N>)
    requires
        links@.len() >= 1,
    ensures
        links@.len() == 1 ==> r == links@[0],
        links@.len() != 1 ==> r == Tree::<O, N>::Operator(TreeOperator::Union(links)),
{
    if links.len() == 1 {
        let mut links = links;
        links.pop().unwrap()
    } else {
        Tree::union(links)
    }
}

/// Link each tree to the next one by a hull, and join the hulls: two trees
/// give their hull, more give the union of the hulls in order. Fails with a
/// Chain error when there are fewer than two trees.
pub fn chain<O: Clone, N: Clone>(things: &[Tree<O, N>]) -> (r: Result<Tree<O, N>, ScadDotsError>)
    ensures
        things@.len() < 2 ==> r == Err::<Tree<O, N>, ScadDotsError>(ScadDotsError::Chain),
        things@.len() >= 2 ==> r is Ok && is_chain_of(things@, r->Ok_0),
{
    if things.len() < 2 {
        return Err(ScadDotsError::Chain);
    }
    let links = hull_links(things, things.len() - 1);
    let ghost lv = links@;
    let ghost n = things@.len() as int;
    assert forall|i: int| 0 <= i < lv.len() implies is_hull_of(
        #[trigger] lv[i],
        things@[i],
        things@[i + 1],
    ) by {
        assert(is_hull_of(lv[i], things@[i], things@[(i + 1) % n]));
        lemma_small_mod((i + 1) as nat, n as nat);
    }
    let r = join_links(links);
    Ok(r)
}

/// Like `chain`, with the first tree also linked after the last one. Fails
/// with a Chain error when there is no tree.
pub fn chain_loop<O: Clone, N: Clone>(things: &[Tree<O, N>]) -> (r: Result<
    Tree<O, N>,
    ScadDotsError,
>)
    ensures
        things@.len() == 0 ==> r == Err::<Tree<O, N>, ScadDotsError>(ScadDotsError::Chain),
        things@.len() >= 1 ==> r is Ok && is_chain_of(things@.push(things@[0]), r->Ok_0),
{
    if things.len() == 0 {
        return Err(ScadDotsError::Chain);
    }
    let links = hull_links(things, things.len());
    let ghost lv = links@;
    let ghost n = things@.len() as int;
    let ghost seq = things@.push(things@[0]);
    assert forall|i: int| 0 <= i < lv.len() implies is_hull_of(
        #[trigger] lv[i],
        seq[i],
        seq[i + 1],
    ) by {
        assert(is_hull_of(lv[i], things@[i], things@[(i + 1) % n]));
        if i + 1 < n {
            lemma_small_mod((i + 1) as nat, n as nat);
        } else {
            lemma_mod_self_0(n);
        }
    }
    let r = join_links(links);
    Ok(r)
}

/// Chaining two trees gives exactly their hull, and chaining three gives the
/// union of the hull of the first two with the hull of the last two.
pub proof fn lemma_chain_two_and_three<O: Clone, N: Clone>(
    a: Tree<O, N>,
    b: Tree<O, N>,
    c: Tree<O, N>,
    t: Tree<O, N>,
)
    ensures
        is_chain_of(seq![a, b], t) == is_hull_of(t, a, b),
        is_chain_of(seq![a, b, c], t) == (t matches Tree::Operator(TreeOperator::Union(v))
            && v@.len() == 2 && is_hull_of(v@[0], a, b) && is_hull_of(v@[1], b, c)),
{
    let s = seq![a, b, c];
    match t {
        Tree::Operator(TreeOperator::Union(v)) => {
            if v@.len() == 2 {
                assert(s[0] == a && s[1] == b && s[2] == c);
                if is_hull_of(v@[0], a, b) && is_hull_of(v@[1], b, c) {
                    assert forall|i: int| 0 <= i < v@.len() implies is_hull_of(
                        #[trigger] v@[i],
                        s[i],
                        s[i + 1],
                    ) by {
                        if i == 0 {
                            assert(s[i] == a && s[i + 1] == b);
                        } else {
                            assert(s[i] == b && s[i + 1] == c);
                        }
                    }
                }
                if is_chain_of(s, t) {
                    let first: int = 0;
                    let second: int = 1;
                    assert(is_hull_of(v@[first], s[first], s[first + 1]));
                    assert(is_hull_of(v@[second], s[second], s[second + 1]));
                }
            }
        },
        _ => {},
    }
}

} // verus!

use vstd::prelude::*;

use crate::axes::{Corner1, Corner2, Corner3, CubeFace};
use crate::shapes::{CuboidLink, PostLink, PostSnakeLink, RectLink, SnakeLink, TriCorner};
use crate::tree::{chain, chain_loop, hull_of, is_chain_of, objects, union_of, Tree, TreeOperator};

verus! {

/// Four Dots at the corners of a rectangle, sharing size and rotation.
#[derive(Debug, Clone, Copy, PartialEq)]
pub struct Rect<D> {
    pub p00: D,
    pub p01: D,
    pub p10: D,
    pub p11: D,
}

/// A box made of two Rects, one above the other.
#[derive(Debug, Clone, Copy, PartialEq)]
pub struct Cuboid<D> {
    pub top: Rect<D>,
    pub bot: Rect<D>,
}

/// Two Dots, one above the other along the Post's own axis.
#[derive(Debug, Clone, Copy, PartialEq)]
pub struct Post<D> {
    pub top: D,
    pub bot: D,
}

/// Three cylinder Dots that round the corners of a triangle.
#[derive(Debug, Clone, Copy, PartialEq)]
pub struct Triangle<D> {
    pub a: D,
    pub b: D,
    pub c: D,
}

/// Four Dots along a taxicab path between two end Dots.
#[derive(Debug, Clone, Copy, PartialEq)]
pub struct Snake<D> {
    pub dots: [D; 4],
}

/// Four Posts along a taxicab path.
#[derive(Debug, Clone, Copy, PartialEq)]
pub struct PostSnake<D> {
    pub posts: [Post<D>; 4],
}

impl<D> Post<D> {
    pub open spec fn spec_dot(self, upper_or_lower: Corner1) -> D {
        match upper_or_lower {
            Corner1::P0 => self.bot,
            Corner1::P1 => self.top,
        }
    }

    /// `t` joins the bottom and top Dots: by a hull for `Solid`, by a union
    /// for `Dots`.
    pub open spec fn is_link<N>(self, style: PostLink, t: Tree<D, N>) -> bool {
        match style {
            PostLink::Solid => hull_of(t, objects(seq![self.bot, self.top])),
            PostLink::Dots => union_of(t, objects(seq![self.bot, self.top])),
        }
    }
}

impl<D: Copy> Post<D> {
    /// The same Post with `f` applied to each Dot.
    pub fn map<E, F: Fn(D) -> E>(&self, f: &F) -> (r: Post<E>)
        requires
            forall|d: D| f.requires((d,)),
        ensures
            f.ensures((self.top,), r.top),
            f.ensures((self.bot,), r.bot),
    {
        Post { top: f(self.top), bot: f(self.bot) }
    }

    /// The Dot at the bottom (`P0`) or top (`P1`) of the Post.
    pub fn dot(&self, upper_or_lower: Corner1) -> (r: D)
        ensures
            r == self.spec_dot(upper_or_lower),
    {
        match upper_or_lower {
            Corner1::P0 => self.bot,
            Corner1::P1 => self.top,
        }
    }

    /// Join the two Dots into one solid.
    pub fn link<N>(&self, style: PostLink) -> (r: Tree<D, N>)
        ensures
            self.is_link(style, r),
    {
        let v = vec![Tree::object(self.bot), Tree::object(self.top)];
        assert(v@ =~= objects(seq![self.bot, self.top]));
        match style {
            PostLink::Solid => Tree::hull(v),
            PostLink::Dots => Tree::union(v),
        }
    }
}

impl<D> Rect<D> {
    pub open spec fn spec_dot(self, corner: Corner2) -> D {
        match corner {
            Corner2::P00 => self.p00,
            Corner2::P01 => self.p01,
            Corner2::P10 => self.p10,
            Corner2::P11 => self.p11,
        }
    }

    /// The four Dots in clockwise order, starting at the origin.
    pub open spec fn spec_dots(self) -> Seq<D> {
        seq![self.p00, self.p01, self.p11, self.p10]
    }

    /// `t` is what `link` builds for the given style. The chamfer, which
    /// needs the geometry of each Dot, is described by `is_chamfer_of`
    /// instead.
    pub open spec fn is_link<N: Clone>(self, style: RectLink, t: Tree<D, N>) -> bool
        where D: Clone
    {
        match style {
            RectLink::Dots => union_of(t, objects(self.spec_dots())),
            RectLink::Solid => hull_of(t, objects(self.spec_dots())),
            RectLink::Frame => is_chain_of(
                objects(self.spec_dots()).push(Tree::<D, N>::Object(self.p00)),
                t,
            ),
            RectLink::YPosts => t matches Tree::Operator(TreeOperator::Union(v)) && v@.len() == 2
                && hull_of(v@[0], objects(seq![self.p00, self.p01])) && hull_of(
                v@[1],
                objects(seq![self.p10, self.p11]),
            ),
            RectLink::Chamfer => false,
        }
    }
}

impl<D: Copy> Rect<D> {
    /// The same Rect with `f` applied to each Dot.
    pub fn map<E, F: Fn(D) -> E>(&self, f: &F) -> (r: Rect<E>)
        requires
            forall|d: D| f.requires((d,)),
        ensures
            f.ensures((self.p00,), r.p00),
            f.ensures((self.p01,), r.p01),
            f.ensures((self.p10,), r.p10),
            f.ensures((self.p11,), r.p11),
    {
        Rect { p00: f(self.p00), p01: f(self.p01), p10: f(self.p10), p11: f(self.p11) }
    }

    /// The Dot at the given corner.
    pub fn dot(&self, corner: Corner2) -> (r: D)
        ensures
            r == self.spec_dot(corner),
    {
        match corner {
            Corner2::P00 => self.p00,
            Corner2::P10 => self.p10,
            Corner2::P01 => self.p01,
            Corner2::P11 => self.p11,
        }
    }

    /// The four Dots in clockwise order, starting at the origin.
    pub fn dots(&self) -> (r: Vec<D>)
        ensures
            r@ == self.spec_dots(),
    {
        let r = vec![self.p00, self.p01, self.p11, self.p10];
        assert(r@ =~= self.spec_dots());
        r
    }

    fn dot_trees<N>(&self) -> (r: Vec<Tree<D, N>>)
        ensures
            r@ == objects::<D, N>(self.spec_dots()),
    {
        let r = vec![
            Tree::object(self.p00),
            Tree::object(self.p01),
            Tree::object(self.p11),
            Tree::object(self.p10),
        ];
        assert(r@ =~= objects::<D, N>(self.spec_dots()));
        r
    }

    fn pair_hull<N>(a: D, b: D) -> (r: Tree<D, N>)
        ensures
            hull_of(r, objects(seq![a, b])),
    {
        let v = vec![Tree::object(a), Tree::object(b)];
        assert(v@ =~= objects::<D, N>(seq![a, b]));
        Tree::hull(v)
    }

    /// Join the four Dots into one solid: `Dots` is their union, `Solid`
    /// their hull, `Frame` the closed chain around the corners in clockwise
    /// order, `YPosts` the union of the hulls of the two edges along Y. The
    /// chamfer needs the geometry of each Dot: see `chamfer`.
    pub fn link<N: Clone>(&self, style: RectLink) -> (r: Tree<D, N>)
        requires
            style != RectLink::Chamfer,
        ensures
            self.is_link(style, r),
    {
        match style {
            RectLink::Dots => Tree::union(self.dot_trees()),
            RectLink::Solid => Tree::hull(self.dot_trees()),
            RectLink::Frame => {
                let v = self.dot_trees();
                let r = chain_loop(v.as_slice());
                assert(v@.push(v@[0]) =~= objects::<D, N>(self.spec_dots()).push(
                    Tree::<D, N>::Object(self.p00),
                ));
                r.unwrap()
            },
            _ => {
                let a = Rect::pair_hull(self.p00, self.p01);
                let b = Rect::pair_hull(self.p10, self.p11);
                let v = vec![a, b];
                Tree::union(v)
            },
        }
    }
}

impl<D> Cuboid<D> {
    /// The Dot at the given corner: Z picks the Rect, X and Y its corner.
    pub open spec fn spec_dot(self, corner: Corner3) -> D {
        if corner.spec_bools().2 {
            self.top.spec_dot(corner.spec_to_c2())
        } else {
            self.bot.spec_dot(corner.spec_to_c2())
        }
    }

    pub open spec fn spec_vertical_post(self, corner: Corner2) -> Post<D> {
        Post { top: self.top.spec_dot(corner), bot: self.bot.spec_dot(corner) }
    }

    /// The four Dots of one face, as a Rect whose `p00` is at the face's
    /// origin.
    pub open spec fn spec_rect(self, face: CubeFace) -> Rect<D> {
        match face {
            CubeFace::Z0 => self.bot,
            CubeFace::Z1 => self.top,
            CubeFace::X0 => Rect {
                p00: self.bot.p00,
                p10: self.bot.p01,
                p01: self.top.p00,
                p11: self.top.p01,
            },
            CubeFace::X1 => Rect {
                p00: self.bot.p10,
                p10: self.bot.p11,
                p01: self.top.p10,
                p11: self.top.p11,
            },
            CubeFace::Y0 => Rect {
                p00: self.bot.p00,
                p10: self.bot.p10,
                p01: self.top.p00,
                p11: self.top.p10,
            },
            CubeFace::Y1 => Rect {
                p00: self.bot.p01,
                p10: self.bot.p11,
                p01: self.top.p01,
                p11: self.top.p11,
            },
        }
    }

    /// `t` is the union of the solid X0, X1, Y0 and Y1 faces.
    pub open spec fn is_sides<N: Clone>(self, t: Tree<D, N>) -> bool
        where D: Clone
    {
        t matches Tree::Operator(TreeOperator::Union(v)) && v@.len() == 4 && self.spec_rect(
            CubeFace::X0,
        ).is_link(RectLink::Solid, v@[0]) && self.spec_rect(CubeFace::X1).is_link(
            RectLink::Solid,
            v@[1],
        ) && self.spec_rect(CubeFace::Y0).is_link(RectLink::Solid, v@[2]) && self.spec_rect(
            CubeFace::Y1,
        ).is_link(RectLink::Solid, v@[3])
    }

    /// `t` is what `link` builds for the given style. The chamfer, which
    /// needs the geometry of each Dot, is described on the Rects.
    pub open spec fn is_link<N: Clone>(self, style: CuboidLink, t: Tree<D, N>) -> bool
        where D: Clone
    {
        match style {
            CuboidLink::Solid => t matches Tree::Operator(TreeOperator::Hull(v)) && v@.len() == 2
                && self.bot.is_link(RectLink::Solid, v@[0]) && self.top.is_link(
                RectLink::Solid,
                v@[1],
            ),
            CuboidLink::Frame => t matches Tree::Operator(TreeOperator::Union(v)) && v@.len() == 6
                && self.bot.is_link(RectLink::Frame, v@[0]) && self.top.is_link(
                RectLink::Frame,
                v@[1],
            ) && self.spec_vertical_post(Corner2::P00).is_link(PostLink::Solid, v@[2])
                && self.spec_vertical_post(Corner2::P10).is_link(PostLink::Solid, v@[3])
                && self.spec_vertical_post(Corner2::P11).is_link(PostLink::Solid, v@[4])
                && self.spec_vertical_post(Corner2::P01).is_link(PostLink::Solid, v@[5]),
            CuboidLink::Dots => t matches Tree::Operator(TreeOperator::Union(v)) && v@.len() == 2
                && self.top.is_link(RectLink::Dots, v@[0]) && self.bot.is_link(
                RectLink::Dots,
                v@[1],
            ),
            CuboidLink::Face(face) => self.spec_rect(face).is_link(RectLink::Solid, t),
            CuboidLink::ZPost(corner) => self.spec_vertical_post(corner).is_link(
                PostLink::Solid,
                t,
            ),
            CuboidLink::Sides => self.is_sides(t),
            CuboidLink::OpenBot => t matches Tree::Operator(TreeOperator::Union(v)) && v@.len()
                == 2 && self.is_sides(v@[0]) && self.spec_rect(CubeFace::Z1).is_link(
                RectLink::Solid,
                v@[1],
            ),
            CuboidLink::ChamferZ => false,
        }
    }
}

impl<D: Copy> Cuboid<D> {
    /// The same Cuboid with `f` applied to each Dot.
    pub fn map<E, F: Fn(D) -> E>(&self, f: &F) -> (r: Cuboid<E>)
        requires
            forall|d: D| f.requires((d,)),
        ensures
            forall|c: Corner2| #[trigger]
                f.ensures((self.top.spec_dot(c),), r.top.spec_dot(c)) && f.ensures(
                    (self.bot.spec_dot(c),),
                    r.bot.spec_dot(c),
                ),
    {
        Cuboid { top: self.top.map(f), bot: self.bot.map(f) }
    }

    /// The Dot at the given corner.
    pub fn dot(&self, corner: Corner3) -> (r: D)
        ensures
            r == self.spec_dot(corner),
    {
        let rect_corner = Corner2::from(corner);
        if corner.is_high(crate::axes::Axis::Z) {
            self.top.dot(rect_corner)
        } else {
            self.bot.dot(rect_corner)
        }
    }

    /// The vertical Post between the lower and upper Dots at a corner.
    pub fn vertical_post(&self, corner: Corner2) -> (r: Post<D>)
        ensures
            r == self.spec_vertical_post(corner),
    {
        Post { top: self.top.dot(corner), bot: self.bot.dot(corner) }
    }

    /// The four Dots of one face.
    pub fn rect(&self, face: CubeFace) -> (r: Rect<D>)
        ensures
            r == self.spec_rect(face),
    {
        match face {
            CubeFace::Z0 => self.bot,
            CubeFace::Z1 => self.top,
            CubeFace::X0 => Rect {
                p00: self.bot.dot(Corner2::P00),
                p10: self.bot.dot(Corner2::P01),
                p01: self.top.dot(Corner2::P00),
                p11: self.top.dot(Corner2::P01),
            },
            CubeFace::X1 => Rect {
                p00: self.bot.dot(Corner2::P10),
                p10: self.bot.dot(Corner2::P11),
                p01: self.top.dot(Corner2::P10),
                p11: self.top.dot(Corner2::P11),
            },
            CubeFace::Y0 => Rect {
                p00: self.bot.dot(Corner2::P00),
                p10: self.bot.dot(Corner2::P10),
                p01: self.top.dot(Corner2::P00),
                p11: self.top.dot(Corner2::P10),
            },
            CubeFace::Y1 => Rect {
                p00: self.bot.dot(Corner2::P01),
                p10: self.bot.dot(Corner2::P11),
                p01: self.top.dot(Corner2::P01),
                p11: self.top.dot(Corner2::P11),
            },
        }
    }

    fn sides<N: Clone>(&self) -> (r: Tree<D, N>)
        ensures
            self.is_sides(r),
    {
        let v = vec![
            self.rect(CubeFace::X0).link(RectLink::Solid),
            self.rect(CubeFace::X1).link(RectLink::Solid),
            self.rect(CubeFace::Y0).link(RectLink::Solid),
            self.rect(CubeFace::Y1).link(RectLink::Solid),
        ];
        Tree::union(v)
    }

    /// Join the eight Dots into one solid. `Solid` hulls the two solid
    /// Rects; `Frame` joins the two Rect frames and the four vertical Posts;
    /// `Dots` is the union of all Dots; `Face` and `ZPost` give one solid
    /// face or vertical Post; `Sides` joins the four side faces, and
    /// `OpenBot` adds the top face to them. The chamfer needs the geometry of
    /// each Dot: see `Rect::chamfer`.
    pub fn link<N: Clone>(&self, style: CuboidLink) -> (r: Tree<D, N>)
        requires
            style != CuboidLink::ChamferZ,
        ensures
            self.is_link(style, r),
    {
        match style {
            CuboidLink::Solid => {
                let v = vec![self.bot.link(RectLink::Solid), self.top.link(RectLink::Solid)];
                Tree::hull(v)
            },
            CuboidLink::Frame => {
                let v = vec![
                    self.bot.link(RectLink::Frame),
                    self.top.link(RectLink::Frame),
                    self.vertical_post(Corner2::P00).link(PostLink::Solid),
                    self.vertical_post(Corner2::P10).link(PostLink::Solid),
                    self.vertical_post(Corner2::P11).link(PostLink::Solid),
                    self.vertical_post(Corner2::P01).link(PostLink::Solid),
                ];
                Tree::union(v)
            },
            CuboidLink::Dots => {
                let v = vec![self.top.link(RectLink::Dots), self.bot.link(RectLink::Dots)];
                Tree::union(v)
            },
            CuboidLink::Face(face) => self.rect(face).link(RectLink::Solid),
            CuboidLink::ZPost(corner) => self.vertical_post(corner).link(PostLink::Solid),
            CuboidLink::Sides => self.sides(),
            _ => {
                let v = vec![self.sides(), self.rect(CubeFace::Z1).link(RectLink::Solid)];
                Tree::union(v)
            },
        }
    }
}

impl<D> Rect<Cuboid<D>> {
    /// `t` hulls twelve thin vertical Posts: at each corner of the Rect, the
    /// three Posts of that corner's Cuboid that face the other corners.
    pub open spec fn is_chamfer_of<N: Clone>(self, t: Tree<D, N>) -> bool
        where D: Clone
    {
        t matches Tree::Operator(TreeOperator::Hull(v)) && v@.len() == 12 && self.p00.is_link(
            CuboidLink::ZPost(Corner2::P11),
            v@[0],
        ) && self.p00.is_link(CuboidLink::ZPost(Corner2::P10), v@[1]) && self.p00.is_link(
            CuboidLink::ZPost(Corner2::P01),
            v@[2],
        ) && self.p10.is_link(CuboidLink::ZPost(Corner2::P01), v@[3]) && self.p10.is_link(
            CuboidLink::ZPost(Corner2::P00),
            v@[4],
        ) && self.p10.is_link(CuboidLink::ZPost(Corner2::P11), v@[5]) && self.p01.is_link(
            CuboidLink::ZPost(Corner2::P10),
            v@[6],
        ) && self.p01.is_link(CuboidLink::ZPost(Corner2::P00), v@[7]) && self.p01.is_link(
            CuboidLink::ZPost(Corner2::P11),
            v@[8],
        ) && self.p11.is_link(CuboidLink::ZPost(Corner2::P00), v@[9]) && self.p11.is_link(
            CuboidLink::ZPost(Corner2::P10),
            v@[10],
        ) && self.p11.is_link(CuboidLink::ZPost(Corner2::P01), v@[11])
    }
}

impl<D: Copy> Rect<Cuboid<D>> {
    /// The chamfered solid of a Rect whose corner Dots have each been
    /// turned into a miniature Cuboid: the hull of the corner Posts that
    /// face inwards, which cuts every corner of the Rect.
    pub fn chamfer<N: Clone>(&self) -> (r: Tree<D, N>)
        ensures
            self.is_chamfer_of(r),
    {
        let v = vec![
            self.p00.link(CuboidLink::ZPost(Corner2::P11)),
            self.p00.link(CuboidLink::ZPost(Corner2::P10)),
            self.p00.link(CuboidLink::ZPost(Corner2::P01)),
            self.p10.link(CuboidLink::ZPost(Corner2::P01)),
            self.p10.link(CuboidLink::ZPost(Corner2::P00)),
            self.p10.link(CuboidLink::ZPost(Corner2::P11)),
            self.p01.link(CuboidLink::ZPost(Corner2::P10)),
            self.p01.link(CuboidLink::ZPost(Corner2::P00)),
            self.p01.link(CuboidLink::ZPost(Corner2::P11)),
            self.p11.link(CuboidLink::ZPost(Corner2::P00)),
            self.p11.link(CuboidLink::ZPost(Corner2::P10)),
            self.p11.link(CuboidLink::ZPost(Corner2::P01)),
        ];
        Tree::hull(v)
    }
}

impl<D: Copy> Cuboid<Cuboid<D>> {
    /// The chamfered solid of a Cuboid whose corner Dots have each been
    /// turned into a miniature Cuboid: the union of the chamfers of the
    /// bottom and top Rects.
    pub fn chamfer_z<N: Clone>(&self) -> (r: Tree<D, N>)
        ensures
            r matches Tree::Operator(TreeOperator::Union(v)) && v@.len() == 2
                && self.bot.is_chamfer_of(v@[0]) && self.top.is_chamfer_of(v@[1]),
    {
        let v = vec![self.bot.chamfer(), self.top.chamfer()];
        Tree::union(v)
    }
}

impl<D> PostSnake<D> {
    /// `t` is what `link` builds: `Chain` chains the solid Posts in order,
    /// `Posts` is the union of the solid Posts.
    pub open spec fn is_link<N: Clone>(self, style: PostSnakeLink, t: Tree<D, N>) -> bool
        where D: Clone
    {
        match style {
            PostSnakeLink::Chain => exists|ps: Seq<Tree<D, N>>|
                ps.len() == 4 && (forall|i: int|
                    0 <= i < 4 ==> #[trigger] self.posts@[i].is_link(PostLink::Solid, ps[i]))
                    && is_chain_of(ps, t),
            PostSnakeLink::Posts => t matches Tree::Operator(TreeOperator::Union(v)) && v@.len()
                == 4 && forall|i: int|
                0 <= i < 4 ==> #[trigger] self.posts@[i].is_link(PostLink::Solid, v@[i]),
        }
    }
}

impl<D: Copy> PostSnake<D> {
    /// The same path with `f` applied to each Dot of each Post.
    pub fn map<E, F: Fn(D) -> E>(&self, f: &F) -> (r: PostSnake<E>)
        requires
            forall|d: D| f.requires((d,)),
        ensures
            forall|i: int|
                0 <= i < 4 ==> f.ensures((#[trigger] self.posts@[i].top,), r.posts@[i].top)
                    && f.ensures((self.posts@[i].bot,), r.posts@[i].bot),
    {
        let r = PostSnake {
            posts: [
                self.posts[0].map(f),
                self.posts[1].map(f),
                self.posts[2].map(f),
                self.posts[3].map(f),
            ],
        };
        assert forall|i: int| 0 <= i < 4 implies f.ensures(
            (#[trigger] self.posts@[i].top,),
            r.posts@[i].top,
        ) && f.ensures((self.posts@[i].bot,), r.posts@[i].bot) by {
            if i == 0 {
            } else if i == 1 {
            } else if i == 2 {
            } else {
            }
        }
        r
    }

    /// The bottom Dots of the four Posts.
    pub fn bottoms(&self) -> (r: [D; 4])
        ensures
            forall|i: int| 0 <= i < 4 ==> #[trigger] r@[i] == self.posts@[i].bot,
    {
        [self.posts[0].bot, self.posts[1].bot, self.posts[2].bot, self.posts[3].bot]
    }

    /// The four Posts.
    pub fn all(&self) -> (r: [Post<D>; 4])
        ensures
            r == self.posts,
    {
        self.posts
    }

    /// The four Posts, in a vector.
    pub fn as_vec(&self) -> (r: Vec<Post<D>>)
        ensures
            r@ == self.posts@,
    {
        let r = vec![self.posts[0], self.posts[1], self.posts[2], self.posts[3]];
        assert(r@ =~= self.posts@);
        r
    }

    /// The Post at the given place along the path.
    pub fn get(&self, index: usize) -> (r: Post<D>)
        requires
            index < 4,
        ensures
            r == self.posts@[index as int],
    {
        self.posts[index]
    }

    fn solid_posts<N>(&self) -> (r: Vec<Tree<D, N>>)
        ensures
            r@.len() == 4,
            forall|i: int| 0 <= i < 4 ==> #[trigger] self.posts@[i].is_link(PostLink::Solid, r@[i]),
    {
        let mut v: Vec<Tree<D, N>> = Vec::new();
        let mut i: usize = 0;
        while i < 4
            invariant
                0 <= i <= 4,
                v@.len() == i,
                forall|j: int|
                    0 <= j < i ==> #[trigger] self.posts@[j].is_link(PostLink::Solid, v@[j]),
            decreases 4 - i,
        {
            v.push(self.posts[i].link(PostLink::Solid));
            i = i + 1;
        }
        v
    }

    /// Join the four Posts into one solid.
    pub fn link<N: Clone>(&self, style: PostSnakeLink) -> (r: Tree<D, N>)
        ensures
            self.is_link(style, r),
    {
        let v = self.solid_posts();
        match style {
            PostSnakeLink::Chain => {
                let ghost ps = v@;
                let t = chain(v.as_slice()).unwrap();
                assert(ps.len() == 4 && (forall|i: int|
                    0 <= i < 4 ==> #[trigger] self.posts@[i].is_link(PostLink::Solid, ps[i]))
                    && is_chain_of(ps, t));
                t
            },
            PostSnakeLink::Posts => Tree::union(v),
        }
    }
}

impl<D> Triangle<D> {
    pub open spec fn spec_dot(self, vertex: TriCorner) -> D {
        match vertex {
            TriCorner::A => self.a,
            TriCorner::B => self.b,
            TriCorner::C => self.c,
        }
    }
}

impl<D: Copy> Triangle<D> {
    /// The Dot at the given vertex.
    pub fn dot(&self, vertex: TriCorner) -> (r: D)
        ensures
            r == self.spec_dot(vertex),
    {
        match vertex {
            TriCorner::A => self.a,
            TriCorner::B => self.b,
            TriCorner::C => self.c,
        }
    }

    /// The same Triangle with `f` applied to each Dot.
    pub fn map<E, F: Fn(D) -> E>(&self, f: &F) -> (r: Triangle<E>)
        requires
            forall|d: D| f.requires((d,)),
        ensures
            f.ensures((self.a,), r.a),
            f.ensures((self.b,), r.b),
            f.ensures((self.c,), r.c),
    {
        Triangle { a: f(self.a), b: f(self.b), c: f(self.c) }
    }

    /// The solid triangle: the hull of the three Dots.
    pub fn link<N>(&self) -> (r: Tree<D, N>)
        ensures
            hull_of(r, objects(seq![self.a, self.b, self.c])),
    {
        let v = vec![Tree::object(self.a), Tree::object(self.b), Tree::object(self.c)];
        assert(v@ =~= objects::<D, N>(seq![self.a, self.b, self.c]));
        Tree::hull(v)
    }
}

impl<D: Copy> Snake<D> {
    /// Join the Dots of the path: `Chain` hulls each Dot with the next one.
    pub fn link<N: Clone>(&self, style: SnakeLink) -> (r: Tree<D, N>)
        ensures
            is_chain_of(objects(self.dots@), r),
    {
        let v = vec![
            Tree::object(self.dots[0]),
            Tree::object(self.dots[1]),
            Tree::object(self.dots[2]),
            Tree::object(self.dots[3]),
        ];
        assert(v@ =~= objects::<D, N>(self.dots@));
        match style {
            SnakeLink::Chain => chain(v.as_slice()).unwrap(),
        }
    }

    /// The same path with `f` applied to each Dot.
    pub fn map<E, F: Fn(D) -> E>(&self, f: &F) -> (r: Snake<E>)
        requires
            forall|d: D| f.requires((d,)),
        ensures
            forall|i: int| 0 <= i < 4 ==> f.ensures((#[trigger] self.dots@[i],), r.dots@[i]),
    {
        let r = Snake {
            dots: [f(self.dots[0]), f(self.dots[1]), f(self.dots[2]), f(self.dots[3])],
        };
        assert forall|i: int| 0 <= i < 4 implies f.ensures(
            (#[trigger] self.dots@[i],),
            r.dots@[i],
        ) by {
            if i == 0 {
            } else if i == 1 {
            } else if i == 2 {
            } else {
            }
        }
        r
    }
}

} // verus!

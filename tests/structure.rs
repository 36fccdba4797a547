use scad_dots::axes::{Axis, ColorSpec, Corner1, Corner2, Corner3, CubeFace};
use scad_dots::composite::{Cuboid, Post, PostSnake, Rect, Snake, Triangle};
use scad_dots::error::ScadDotsError;
use scad_dots::shapes::{
    opposite, CuboidLink, CuboidShapes, DotShape, PostLink, PostShapes, PostSnakeLink, RectLink,
    RectShapes, SnakeLink, TriCorner,
};
use scad_dots::snake::{has_repeated_axes, snake_corners};
use scad_dots::tree::{chain, chain_loop, Tree};

type T = Tree<u32, i32>;

fn leaf(n: u32) -> T {
    Tree::object(n)
}

fn hull2(a: u32, b: u32) -> T {
    Tree::hull(vec![leaf(a), leaf(b)])
}

#[test]
fn chain_of_two_is_their_hull() {
    assert_eq!(chain(&[leaf(1), leaf(2)]), Ok(hull2(1, 2)));
}

#[test]
fn chain_of_three_is_union_of_hulls() {
    assert_eq!(
        chain(&[leaf(1), leaf(2), leaf(3)]),
        Ok(Tree::union(vec![hull2(1, 2), hull2(2, 3)]))
    );
}

#[test]
fn chain_needs_two_elements() {
    assert_eq!(chain(&[leaf(1)]), Err(ScadDotsError::Chain));
    let empty: Vec<T> = Vec::new();
    assert_eq!(chain(&empty), Err(ScadDotsError::Chain));
}

#[test]
fn chain_loop_closes_the_chain() {
    let items = [leaf(1), leaf(2), leaf(3)];
    let closed = [leaf(1), leaf(2), leaf(3), leaf(1)];
    assert_eq!(chain_loop(&items), chain(&closed));
    assert_eq!(
        chain_loop(&items),
        Ok(Tree::union(vec![hull2(1, 2), hull2(2, 3), hull2(3, 1)]))
    );
    let empty: Vec<T> = Vec::new();
    assert_eq!(chain_loop(&empty), Err(ScadDotsError::Chain));
    assert_eq!(chain_loop(&[leaf(4)]), Ok(hull2(4, 4)));
}

#[test]
fn tree_builders() {
    let t = Tree::diff(vec![leaf(1), leaf(2)]);
    assert_eq!(t.clone(), t);
    let m: T = Tree::mirror(5, leaf(1));
    assert_eq!(m.duplicate(), m);
    let c: T = Tree::color(ColorSpec::Red, Tree::intersect(vec![leaf(1), leaf(2)]));
    assert_eq!(c.clone(), c);
}

#[test]
fn snake_with_repeated_axis_fails() {
    assert!(has_repeated_axes([Axis::X, Axis::X, Axis::Y]));
    assert_eq!(snake_corners([Axis::X, Axis::X, Axis::Y]), Err(ScadDotsError::Snake));
    assert_eq!(snake_corners([Axis::Z, Axis::Y, Axis::Z]), Err(ScadDotsError::Snake));
}

#[test]
fn snake_ends_at_the_end_point() {
    assert!(!has_repeated_axes([Axis::X, Axis::Y, Axis::Z]));
    assert_eq!(
        snake_corners([Axis::X, Axis::Y, Axis::Z]),
        Ok([Corner3::P000, Corner3::P100, Corner3::P110, Corner3::P111])
    );
    assert_eq!(
        snake_corners([Axis::Z, Axis::X, Axis::Y]),
        Ok([Corner3::P000, Corner3::P001, Corner3::P101, Corner3::P111])
    );
}

fn rect(base: u32) -> Rect<u32> {
    Rect { p00: base, p01: base + 1, p10: base + 2, p11: base + 3 }
}

#[test]
fn rect_links() {
    let r = rect(0);
    assert_eq!(r.dots(), vec![0, 1, 3, 2]);
    assert_eq!(r.dot(Corner2::P10), 2);
    let solid: T = r.link(RectLink::Solid);
    assert_eq!(solid, Tree::hull(vec![leaf(0), leaf(1), leaf(3), leaf(2)]));
    let dots: T = r.link(RectLink::Dots);
    assert_eq!(dots, Tree::union(vec![leaf(0), leaf(1), leaf(3), leaf(2)]));
    let frame: T = r.link(RectLink::Frame);
    assert_eq!(
        frame,
        Tree::union(vec![hull2(0, 1), hull2(1, 3), hull2(3, 2), hull2(2, 0)])
    );
    let posts: T = r.link(RectLink::YPosts);
    assert_eq!(posts, Tree::union(vec![hull2(0, 1), hull2(2, 3)]));
}

#[test]
fn rect_map_applies_to_every_dot() {
    let r = rect(10).map(&|d: u32| d * 2);
    assert_eq!(r, Rect { p00: 20, p01: 22, p10: 24, p11: 26 });
}

fn cuboid() -> Cuboid<u32> {
    Cuboid { bot: rect(0), top: rect(4) }
}

#[test]
fn cuboid_corners_and_faces() {
    let c = cuboid();
    assert_eq!(c.dot(Corner3::P000), 0);
    assert_eq!(c.dot(Corner3::P111), 7);
    assert_eq!(c.dot(Corner3::P101), 6);
    assert_eq!(c.vertical_post(Corner2::P01), Post { top: 5, bot: 1 });
    assert_eq!(c.rect(CubeFace::Z1), rect(4));
    assert_eq!(c.rect(CubeFace::X0), Rect { p00: 0, p10: 1, p01: 4, p11: 5 });
    assert_eq!(c.rect(CubeFace::Y1), Rect { p00: 1, p10: 3, p01: 5, p11: 7 });
}

#[test]
fn cuboid_links() {
    let c = cuboid();
    let post: T = c.link(CuboidLink::ZPost(Corner2::P11));
    assert_eq!(post, hull2(3, 7));
    let solid: T = c.link(CuboidLink::Solid);
    assert_eq!(
        solid,
        Tree::hull(vec![rect(0).link(RectLink::Solid), rect(4).link(RectLink::Solid)])
    );
    let sides: T = c.link(CuboidLink::Sides);
    let open: T = c.link(CuboidLink::OpenBot);
    assert_eq!(open, Tree::union(vec![sides, c.link(CuboidLink::Face(CubeFace::Z1))]));
    let frame: T = c.link(CuboidLink::Frame);
    match frame {
        Tree::Operator(scad_dots::tree::TreeOperator::Union(v)) => assert_eq!(v.len(), 6),
        _ => panic!("a frame is a union"),
    }
}

#[test]
fn chamfer_hulls_twelve_posts() {
    let corners = Rect {
        p00: cuboid(),
        p01: cuboid().map(&|d: u32| d + 10),
        p10: cuboid().map(&|d: u32| d + 20),
        p11: cuboid().map(&|d: u32| d + 30),
    };
    let t: T = corners.chamfer();
    match t {
        Tree::Operator(scad_dots::tree::TreeOperator::Hull(v)) => {
            assert_eq!(v.len(), 12);
            assert_eq!(v[0], hull2(3, 7));
            assert_eq!(v[11], hull2(31, 35));
        }
        _ => panic!("a chamfer is a hull"),
    }
    let both = Cuboid { bot: corners, top: corners };
    let z: T = both.chamfer_z();
    assert_eq!(z, Tree::union(vec![corners.chamfer(), corners.chamfer()]));
}

#[test]
fn post_links() {
    let p = Post { top: 2, bot: 1 };
    assert_eq!(p.dot(Corner1::P0), 1);
    let solid: T = p.link(PostLink::Solid);
    assert_eq!(solid, hull2(1, 2));
    let dots: T = p.link(PostLink::Dots);
    assert_eq!(dots, Tree::union(vec![leaf(1), leaf(2)]));
    assert_eq!(p.map(&|d: u32| d + 1), Post { top: 3, bot: 2 });
}

#[test]
fn post_snake_links() {
    let posts = [
        Post { top: 1, bot: 0 },
        Post { top: 3, bot: 2 },
        Post { top: 5, bot: 4 },
        Post { top: 7, bot: 6 },
    ];
    let s = PostSnake { posts };
    assert_eq!(s.bottoms(), [0, 2, 4, 6]);
    assert_eq!(s.get(2), Post { top: 5, bot: 4 });
    assert_eq!(s.as_vec().len(), 4);
    assert_eq!(s.all(), posts);
    let chained: T = s.link(PostSnakeLink::Chain);
    let solids: Vec<T> = posts.iter().map(|p| p.link(PostLink::Solid)).collect();
    assert_eq!(Ok(chained), chain(&solids));
    let union: T = s.link(PostSnakeLink::Posts);
    assert_eq!(union, Tree::union(solids));
}

#[test]
fn snake_and_triangle_links() {
    let s = Snake { dots: [1, 2, 3, 4] };
    let t: T = s.link(SnakeLink::Chain);
    assert_eq!(t, Tree::union(vec![hull2(1, 2), hull2(2, 3), hull2(3, 4)]));
    assert_eq!(s.map(&|d: u32| d * 10).dots, [10, 20, 30, 40]);
    let tri = Triangle { a: 1, b: 2, c: 3 };
    assert_eq!(tri.dot(TriCorner::B), 2);
    let h: T = tri.link();
    assert_eq!(h, Tree::hull(vec![leaf(1), leaf(2), leaf(3)]));
    assert_eq!(opposite(TriCorner::A, TriCorner::C), TriCorner::B);
    assert_eq!(opposite(TriCorner::C, TriCorner::B), TriCorner::A);
}

#[test]
fn shape_selections() {
    let custom = RectShapes::Custom {
        p00: DotShape::Cube,
        p10: DotShape::Sphere,
        p11: DotShape::Cylinder,
        p01: DotShape::Sphere,
    };
    assert_eq!(custom.get(Corner2::P11), DotShape::Cylinder);
    assert_eq!(RectShapes::Sphere.get(Corner2::P00), DotShape::Sphere);
    assert_eq!(CuboidShapes::Round.get(Corner1::P1), RectShapes::Sphere);
    assert_eq!(CuboidShapes::Round.get(Corner1::P0), RectShapes::Cylinder);
    let c = CuboidShapes::Custom {
        p000: DotShape::Cube,
        p100: DotShape::Sphere,
        p110: DotShape::Cube,
        p010: DotShape::Cube,
        p001: DotShape::Cylinder,
        p101: DotShape::Cube,
        p111: DotShape::Sphere,
        p011: DotShape::Cube,
    };
    assert_eq!(c.get(Corner1::P1).get(Corner2::P00), DotShape::Cylinder);
    assert_eq!(c.get(Corner1::P1).get(Corner2::P11), DotShape::Sphere);
    assert_eq!(c.get(Corner1::P0).get(Corner2::P10), DotShape::Sphere);
    assert_eq!(PostShapes::Round.get(Corner1::P0), DotShape::Cylinder);
    assert_eq!(
        PostShapes::Custom { top: DotShape::Cube, bot: DotShape::Sphere }.get(Corner1::P1),
        DotShape::Cube
    );
    assert_eq!(RectShapes::from(DotShape::Cube), RectShapes::Cube);
    assert_eq!(CuboidShapes::from(DotShape::Cylinder), CuboidShapes::Cylinder);
}

#[test]
fn only_a_cube_refines_into_a_cuboid() {
    assert_eq!(DotShape::Cube.require_cube(), Ok(()));
    assert_eq!(DotShape::Sphere.require_cube(), Err(ScadDotsError::Args));
    assert_eq!(DotShape::Cylinder.require_cube(), Err(ScadDotsError::Args));
}

//! Rounded rectangles that carry a tab on one edge.
//!
//! ```text
//!                  width
//!              <------------->
//!              +-------------+ ^  ^
//!              |             | :  : tab position
//!        ^ +---+             | :  v
//!   tab  : |                 | :
//!  height: |                 | : height
//!        v +---+             | :
//!              |             | :
//!              +-------------+ v
//!          <--->
//!         tab width
//! ```
//!
//! The picture shows a tab on the left edge. The outline starts behind the
//! corner that follows the tab's edge, runs round the three corners away from
//! the tab, and comes back along the tab's edge, out round the tab, and home.

use crate::path::{
    all_exact, arc_count, arc_to, arcs_among, are_exact, exact, line_count, line_to, lines_among,
    move_to, path_commands, path_element, PathCommand, Point, EXACT_LIMIT,
};
use svg::node::element::Path;
use vstd::prelude::*;

verus! {

/// The edge on which the tab sits.
#[derive(Clone, Copy, Debug, PartialEq, Eq, PartialOrd, Structural)]
pub enum TabEdge {
    /// The tab sticks out to the left, towards negative `x`.
    Left,
    /// The tab sticks out to the right, beyond the rectangle's width.
    Right,
    /// The tab sticks out at the top, towards negative `y`.
    Top,
    /// The tab sticks out at the bottom, beyond the rectangle's height.
    Bottom,
    /// There is no tab: the outline is the plain rounded rectangle.
    Absent,
}

impl Default for TabEdge {
    fn default() -> (edge: Self)
        ensures
            edge == TabEdge::Left,
    {
        TabEdge::Left
    }
}

/// A rectangle with rounded corners and, on one edge, a tab that sticks out.
#[derive(Clone, Copy, Debug, PartialEq, Eq, PartialOrd, Structural)]
pub struct Tab {
    /// The rounding radius of every corner.
    pub radius: i32,
    /// The width of the rectangle, without the tab.
    pub width: i32,
    /// The height of the rectangle, without the tab.
    pub height: i32,
    /// The edge on which the tab sits.
    pub tab_edge: TabEdge,
    /// The tab's extent in `x`: how far it sticks out of a left or right edge,
    /// how much of a top or bottom edge it takes.
    pub tab_width: i32,
    /// The tab's extent in `y`: how much of a left or right edge it takes, how
    /// far it sticks out of a top or bottom edge.
    pub tab_height: i32,
    /// The offset of the tab along its edge: from the top of a left or right
    /// edge, from the left of a top or bottom edge.
    pub tab_position: i32,
}

/// Sixteen labelled values, one for each boundary point of an outline, `a` to
/// `p` in drawing order.
pub struct Boundary<T> {
    pub a: T,
    pub b: T,
    pub c: T,
    pub d: T,
    pub e: T,
    pub f: T,
    pub g: T,
    pub h: T,
    pub i: T,
    pub j: T,
    pub k: T,
    pub l: T,
    pub m: T,
    pub n: T,
    pub o: T,
    pub p: T,
}

/// The point of the plane that a pair of machine integers stands for.
pub open spec fn plane(q: (i64, i64)) -> Point {
    (q.0 as int, q.1 as int)
}

impl View for Boundary<(i64, i64)> {
    type V = Boundary<Point>;

    open spec fn view(&self) -> Boundary<Point> {
        Boundary {
            a: plane(self.a),
            b: plane(self.b),
            c: plane(self.c),
            d: plane(self.d),
            e: plane(self.e),
            f: plane(self.f),
            g: plane(self.g),
            h: plane(self.h),
            i: plane(self.i),
            j: plane(self.j),
            k: plane(self.k),
            l: plane(self.l),
            m: plane(self.m),
            n: plane(self.n),
            o: plane(self.o),
            p: plane(self.p),
        }
    }
}

impl Default for Tab {
    fn default() -> (tab: Self)
        ensures
            tab == Tab::blank(),
    {
        Tab {
            radius: 0,
            width: 0,
            height: 0,
            tab_edge: TabEdge::Left,
            tab_width: 0,
            tab_height: 0,
            tab_position: 0,
        }
    }
}

impl Tab {
    /// The tab whose sizes are all zero, with its edge set to `Left`.
    pub open spec fn blank() -> Tab {
        Tab {
            radius: 0,
            width: 0,
            height: 0,
            tab_edge: TabEdge::Left,
            tab_width: 0,
            tab_height: 0,
            tab_position: 0,
        }
    }

    /// Whether a tab is drawn: it has an edge, and neither of its sizes is zero.
    pub open spec fn spec_has_tab(&self) -> bool {
        self.tab_edge != TabEdge::Absent && self.tab_width != 0 && self.tab_height != 0
    }

    /// The tab that is drawn in place of `self`: a tab without an edge is drawn
    /// as a tab of size zero on the left edge, every other tab as it is.
    pub open spec fn effective(self) -> Tab {
        if self.tab_edge == TabEdge::Absent {
            Tab { tab_edge: TabEdge::Left, tab_width: 0, tab_height: 0, ..self }
        } else {
            self
        }
    }

    /// The boundary points for a tab on the left edge. The outline starts on
    /// the top edge and runs clockwise on the screen.
    pub open spec fn left_points(self) -> Boundary<Point> {
        let r = self.radius as int;
        let w = self.width as int;
        let h = self.height as int;
        let tw = self.tab_width as int;
        let th = self.tab_height as int;
        let tp = self.tab_position as int;
        Boundary {
            a: (r, 0),
            b: (w - r, 0),
            c: (w, r),
            d: (w, h - r),
            e: (w - r, h),
            f: (r, h),
            g: (0, h - r),
            h: (0, tp + r + th),
            i: (-r, tp + th),
            j: (-tw + r, tp + th),
            k: (-tw, tp - r + th),
            l: (-tw, tp + r),
            m: (-tw + r, tp),
            n: (-r, tp),
            o: (0, tp - r),
            p: (0, r),
        }
    }

    /// The boundary points for a tab on the top edge. The outline starts on the
    /// right edge.
    pub open spec fn top_points(self) -> Boundary<Point> {
        let r = self.radius as int;
        let w = self.width as int;
        let h = self.height as int;
        let tw = self.tab_width as int;
        let th = self.tab_height as int;
        let tp = self.tab_position as int;
        Boundary {
            a: (w, r),
            b: (w, h - r),
            c: (w - r, h),
            d: (r, h),
            e: (0, h - r),
            f: (0, r),
            g: (r, 0),
            h: (tp - r, 0),
            i: (tp, -r),
            j: (tp, -th + r),
            k: (tp + r, -th),
            l: (tp + tw - r, -th),
            m: (tp + tw, -th + r),
            n: (tp + tw, -r),
            o: (tp + tw + r, 0),
            p: (w - r, 0),
        }
    }

    /// The boundary points for a tab on the right edge. The outline starts on
    /// the bottom edge.
    pub open spec fn right_points(self) -> Boundary<Point> {
        let r = self.radius as int;
        let w = self.width as int;
        let h = self.height as int;
        let tw = self.tab_width as int;
        let th = self.tab_height as int;
        let tp = self.tab_position as int;
        Boundary {
            a: (w - r, h),
            b: (r, h),
            c: (0, h - r),
            d: (0, r),
            e: (r, 0),
            f: (w - r, 0),
            g: (w, r),
            h: (w, tp - r),
            i: (w + r, tp),
            j: (w + tw - r, tp),
            k: (w + tw, tp + r),
            l: (w + tw, tp + th - r),
            m: (w + tw - r, tp + th),
            n: (w + r, tp + th),
            o: (w, tp + th + r),
            p: (w, h - r),
        }
    }

    /// The boundary points for a tab on the bottom edge. The outline starts on
    /// the left edge.
    pub open spec fn bottom_points(self) -> Boundary<Point> {
        let r = self.radius as int;
        let w = self.width as int;
        let h = self.height as int;
        let tw = self.tab_width as int;
        let th = self.tab_height as int;
        let tp = self.tab_position as int;
        Boundary {
            a: (0, h - r),
            b: (0, r),
            c: (r, 0),
            d: (w - r, 0),
            e: (w, r),
            f: (w, h - r),
            g: (w - r, h),
            h: (tp + tw + r, h),
            i: (tp + tw, h + r),
            j: (tp + tw, h + th - r),
            k: (tp + tw - r, h + th),
            l: (tp + r, h + th),
            m: (tp, h + th - r),
            n: (tp, h + r),
            o: (tp - r, h),
            p: (r, h),
        }
    }

    /// The sixteen boundary points of the tab that is drawn.
    pub open spec fn points(self) -> Boundary<Point> {
        let t = self.effective();
        match t.tab_edge {
            TabEdge::Right => t.right_points(),
            TabEdge::Top => t.top_points(),
            TabEdge::Bottom => t.bottom_points(),
            _ => t.left_points(),
        }
    }

    /// Whether the tab's edge has room for a corner and a straight run between
    /// the corner at `g` and the side of the tab that the outline reaches
    /// first.
    pub open spec fn spec_tab_not_near_end(&self) -> bool {
        let t = self.effective();
        match t.tab_edge {
            TabEdge::Right | TabEdge::Top => t.tab_position > t.radius,
            TabEdge::Bottom => t.tab_position + t.radius + t.tab_width < t.width,
            _ => t.tab_position + t.radius + t.tab_height < t.height,
        }
    }

    /// Whether the tab's edge has room for a corner and a straight run between
    /// the side of the tab that the outline leaves last and the corner at `a`.
    pub open spec fn spec_tab_not_near_start(&self) -> bool {
        let t = self.effective();
        match t.tab_edge {
            TabEdge::Right => t.tab_position + t.radius + t.tab_height < t.height,
            TabEdge::Top => t.tab_position + t.radius + t.tab_width < t.width,
            _ => t.tab_position > t.radius,
        }
    }

    /// The three corners away from the tab: from `a` to `f`.
    pub open spec fn far_side(self) -> Seq<PathCommand> {
        let p = self.points();
        let r = self.radius as int;
        seq![
            move_to(p.a),
            line_to(p.b),
            arc_to(r, true, p.c),
            line_to(p.d),
            arc_to(r, true, p.e),
            line_to(p.f),
        ]
    }

    /// The fourth corner of the plain rectangle: from `f` round `g` and `p`
    /// back to `a`.
    pub open spec fn plain_side(self) -> Seq<PathCommand> {
        let p = self.points();
        let r = self.radius as int;
        seq![arc_to(r, true, p.g), line_to(p.p), arc_to(r, true, p.a)]
    }

    /// The way into the tab, where the edge has room for it: round the corner
    /// at `g`, along the edge to `h`, and with an arc that turns the other way
    /// to `i`.
    pub open spec fn approach(self) -> Seq<PathCommand> {
        let p = self.points();
        let r = self.radius as int;
        if self.tab_not_near_end() {
            seq![arc_to(r, true, p.g), line_to(p.h), arc_to(r, false, p.i)]
        } else {
            Seq::empty()
        }
    }

    /// The tab itself: its two outer corners and the edges between them, from
    /// `j` to `n`.
    pub open spec fn protrusion(self) -> Seq<PathCommand> {
        let p = self.points();
        let r = self.radius as int;
        seq![
            line_to(p.j),
            arc_to(r, true, p.k),
            line_to(p.l),
            arc_to(r, true, p.m),
            line_to(p.n),
        ]
    }

    /// The way out of the tab, where the edge has room for it: with an arc
    /// that turns the other way to `o`, along the edge to `p`, and round the
    /// last corner to `a`.
    pub open spec fn departure(self) -> Seq<PathCommand> {
        let p = self.points();
        let r = self.radius as int;
        if self.tab_not_near_start() {
            seq![arc_to(r, false, p.o), line_to(p.p), arc_to(r, true, p.a)]
        } else {
            Seq::empty()
        }
    }

    /// The outline: one closed path.
    pub open spec fn outline(self) -> Seq<PathCommand> {
        let near_side = if self.has_tab() {
            self.approach() + self.protrusion() + self.departure()
        } else {
            self.plain_side()
        };
        self.far_side() + near_side + seq![PathCommand::Close]
    }

    /// Whether `svg` can hold the outline: each of its numbers is exact in
    /// single precision.
    pub open spec fn spec_is_drawable(&self) -> bool {
        all_exact(self.outline())
    }

    /// A new tab: the blank one.
    pub fn new() -> (tab: Self)
        ensures
            tab == Tab::blank(),
    {
        Default::default()
    }

    /// The same tab with the rectangle's width and height replaced.
    pub fn sized(self, width: i32, height: i32) -> (tab: Self)
        ensures
            tab == (Tab { width, height, ..self }),
    {
        Tab { width, height, ..self }
    }

    /// The same tab with the rounding radius replaced.
    pub fn radius(self, radius: i32) -> (tab: Self)
        ensures
            tab == (Tab { radius, ..self }),
    {
        Tab { radius, ..self }
    }

    /// The same tab with the tab's width and height replaced.
    pub fn tab(self, tab_width: i32, tab_height: i32) -> (tab: Self)
        ensures
            tab == (Tab { tab_width, tab_height, ..self }),
    {
        Tab { tab_width, tab_height, ..self }
    }

    /// The same tab with the tab moved to another edge.
    pub fn tab_edge(self, tab_edge: TabEdge) -> (tab: Self)
        ensures
            tab == (Tab { tab_edge, ..self }),
    {
        Tab { tab_edge, ..self }
    }

    /// The same tab with the tab moved to another offset along its edge.
    pub fn tab_position(self, tab_position: i32) -> (tab: Self)
        ensures
            tab == (Tab { tab_position, ..self }),
    {
        Tab { tab_position, ..self }
    }

    /// Whether a tab is drawn.
    #[verifier::when_used_as_spec(spec_has_tab)]
    pub fn has_tab(&self) -> (shown: bool)
        ensures
            shown == self.spec_has_tab(),
    {
        !matches!(self.tab_edge, TabEdge::Absent) && self.tab_width != 0 && self.tab_height != 0
    }

    fn drawn(&self) -> (t: Tab)
        ensures
            t == self.effective(),
    {
        match self.tab_edge {
            TabEdge::Absent => Tab { tab_edge: TabEdge::Left, tab_width: 0, tab_height: 0, ..*self },
            _ => *self,
        }
    }

    fn corners(&self) -> (out: Boundary<(i64, i64)>)
        ensures
            out@ == self.points(),
    {
        let t = self.drawn();
        let r = t.radius as i64;
        let w = t.width as i64;
        let h = t.height as i64;
        let tw = t.tab_width as i64;
        let th = t.tab_height as i64;
        let tp = t.tab_position as i64;
        match t.tab_edge {
            TabEdge::Right => Boundary {
                a: (w - r, h),
                b: (r, h),
                c: (0, h - r),
                d: (0, r),
                e: (r, 0),
                f: (w - r, 0),
                g: (w, r),
                h: (w, tp - r),
                i: (w + r, tp),
                j: (w + tw - r, tp),
                k: (w + tw, tp + r),
                l: (w + tw, tp + th - r),
                m: (w + tw - r, tp + th),
                n: (w + r, tp + th),
                o: (w, tp + th + r),
                p: (w, h - r),
            },
            TabEdge::Top => Boundary {
                a: (w, r),
                b: (w, h - r),
                c: (w - r, h),
                d: (r, h),
                e: (0, h - r),
                f: (0, r),
                g: (r, 0),
                h: (tp - r, 0),
                i: (tp, -r),
                j: (tp, -th + r),
                k: (tp + r, -th),
                l: (tp + tw - r, -th),
                m: (tp + tw, -th + r),
                n: (tp + tw, -r),
                o: (tp + tw + r, 0),
                p: (w - r, 0),
            },
            TabEdge::Bottom => Boundary {
                a: (0, h - r),
                b: (0, r),
                c: (r, 0),
                d: (w - r, 0),
                e: (w, r),
                f: (w, h - r),
                g: (w - r, h),
                h: (tp + tw + r, h),
                i: (tp + tw, h + r),
                j: (tp + tw, h + th - r),
                k: (tp + tw - r, h + th),
                l: (tp + r, h + th),
                m: (tp, h + th - r),
                n: (tp, h + r),
                o: (tp - r, h),
                p: (r, h),
            },
            _ => Boundary {
                a: (r, 0),
                b: (w - r, 0),
                c: (w, r),
                d: (w, h - r),
                e: (w - r, h),
                f: (r, h),
                g: (0, h - r),
                h: (0, tp + r + th),
                i: (-r, tp + th),
                j: (-tw + r, tp + th),
                k: (-tw, tp - r + th),
                l: (-tw, tp + r),
                m: (-tw + r, tp),
                n: (-r, tp),
                o: (0, tp - r),
                p: (0, r),
            },
        }
    }

    /// Whether the tab's edge has room for the corner before the tab.
    #[verifier::when_used_as_spec(spec_tab_not_near_end)]
    pub fn tab_not_near_end(&self) -> (clear: bool)
        ensures
            clear == self.spec_tab_not_near_end(),
    {
        let t = self.drawn();
        match t.tab_edge {
            TabEdge::Right | TabEdge::Top => t.tab_position > t.radius,
            TabEdge::Bottom => {
                t.tab_position as i64 + t.radius as i64 + (t.tab_width as i64) < t.width as i64
            },
            _ => t.tab_position as i64 + t.radius as i64 + (t.tab_height as i64) < t.height as i64,
        }
    }

    /// Whether the tab's edge has room for the corner behind the tab.
    #[verifier::when_used_as_spec(spec_tab_not_near_start)]
    pub fn tab_not_near_start(&self) -> (clear: bool)
        ensures
            clear == self.spec_tab_not_near_start(),
    {
        let t = self.drawn();
        match t.tab_edge {
            TabEdge::Right => {
                t.tab_position as i64 + t.radius as i64 + (t.tab_height as i64) < t.height as i64
            },
            TabEdge::Top => {
                t.tab_position as i64 + t.radius as i64 + (t.tab_width as i64) < t.width as i64
            },
            _ => t.tab_position > t.radius,
        }
    }

    /// The outline as a list of path commands.
    pub fn render(&self) -> (out: Vec<PathCommand>)
        ensures
            out@ == self.outline(),
    {
        let c = self.corners();
        let r = self.radius as i64;
        let mut out: Vec<PathCommand> = Vec::new();
        out.push(PathCommand::MoveTo { x: c.a.0, y: c.a.1 });
        out.push(PathCommand::LineTo { x: c.b.0, y: c.b.1 });
        out.push(fillet(r, true, c.c));
        out.push(PathCommand::LineTo { x: c.d.0, y: c.d.1 });
        out.push(fillet(r, true, c.e));
        out.push(PathCommand::LineTo { x: c.f.0, y: c.f.1 });
        assert(out@ == self.far_side());
        if self.has_tab() {
            if self.tab_not_near_end() {
                out.push(fillet(r, true, c.g));
                out.push(PathCommand::LineTo { x: c.h.0, y: c.h.1 });
                out.push(fillet(r, false, c.i));
            }
            assert(out@ == self.far_side() + self.approach());
            out.push(PathCommand::LineTo { x: c.j.0, y: c.j.1 });
            out.push(fillet(r, true, c.k));
            out.push(PathCommand::LineTo { x: c.l.0, y: c.l.1 });
            out.push(fillet(r, true, c.m));
            out.push(PathCommand::LineTo { x: c.n.0, y: c.n.1 });
            assert(out@ == self.far_side() + self.approach() + self.protrusion());
            if self.tab_not_near_start() {
                out.push(fillet(r, false, c.o));
                out.push(PathCommand::LineTo { x: c.p.0, y: c.p.1 });
                out.push(fillet(r, true, c.a));
            }
            assert(out@ == self.far_side() + (self.approach() + self.protrusion()
                + self.departure()));
        } else {
            out.push(fillet(r, true, c.g));
            out.push(PathCommand::LineTo { x: c.p.0, y: c.p.1 });
            out.push(fillet(r, true, c.a));
            assert(out@ == self.far_side() + self.plain_side());
        }
        out.push(PathCommand::Close);
        out
    }

    /// Whether `svg` can hold the outline.
    #[verifier::when_used_as_spec(spec_is_drawable)]
    pub fn is_drawable(&self) -> (fits: bool)
        ensures
            fits == self.spec_is_drawable(),
    {
        let commands = self.render();
        are_exact(&commands)
    }

    /// The outline as a path element of `svg`.
    pub fn svg(&self) -> (path: Path)
        requires
            self.is_drawable(),
        ensures
            path_commands(path) == self.outline(),
    {
        let commands = self.render();
        path_element(&commands).unwrap()
    }

    /// The outline as a path element of `svg`; `None` where `svg` cannot hold
    /// it.
    pub fn try_svg(&self) -> (path: Option<Path>)
        ensures
            path is Some <==> self.is_drawable(),
            path matches Some(element) ==> path_commands(element) == self.outline(),
    {
        let commands = self.render();
        path_element(&commands)
    }
}

impl Tab {
    /// The eight points at which a straight edge of the plain rectangle meets
    /// a rounded corner, clockwise on the screen from the left end of the top
    /// edge.
    pub open spec fn rim(self) -> Seq<Point> {
        let r = self.radius as int;
        let w = self.width as int;
        let h = self.height as int;
        seq![(r, 0), (w - r, 0), (w, r), (w, h - r), (w - r, h), (r, h), (0, h - r), (0, r)]
    }

    /// The index in `rim` at which the outline starts: behind the corner that
    /// follows the tab's edge.
    pub open spec fn rim_start(self) -> int {
        match self.tab_edge {
            TabEdge::Top => 2,
            TabEdge::Right => 4,
            TabEdge::Bottom => 6,
            _ => 0,
        }
    }

    /// The plain rounded rectangle as one loop over `rim`, started at index
    /// `start`: a line along each edge, an arc round each corner.
    pub open spec fn rim_loop(self, start: int) -> Seq<PathCommand> {
        let rim = self.rim();
        let r = self.radius as int;
        seq![
            move_to(rim[start % 8]),
            line_to(rim[(start + 1) % 8]),
            arc_to(r, true, rim[(start + 2) % 8]),
            line_to(rim[(start + 3) % 8]),
            arc_to(r, true, rim[(start + 4) % 8]),
            line_to(rim[(start + 5) % 8]),
            arc_to(r, true, rim[(start + 6) % 8]),
            line_to(rim[(start + 7) % 8]),
            arc_to(r, true, rim[start % 8]),
            PathCommand::Close,
        ]
    }

    /// Whether three times each size of the tab stays within the exact limit.
    pub open spec fn is_small(self) -> bool {
        &&& -EXACT_LIMIT <= 3 * self.radius <= EXACT_LIMIT
        &&& -EXACT_LIMIT <= 3 * self.width <= EXACT_LIMIT
        &&& -EXACT_LIMIT <= 3 * self.height <= EXACT_LIMIT
        &&& -EXACT_LIMIT <= 3 * self.tab_width <= EXACT_LIMIT
        &&& -EXACT_LIMIT <= 3 * self.tab_height <= EXACT_LIMIT
        &&& -EXACT_LIMIT <= 3 * self.tab_position <= EXACT_LIMIT
    }

    /// The number of commands of the outline: ten without a tab; with a tab
    /// twelve, and three more for each end of the edge that has room for its
    /// corner.
    pub open spec fn outline_len(self) -> nat {
        if !self.has_tab() {
            10
        } else {
            (12 + (if self.tab_not_near_end() { 3nat } else { 0 })
                + (if self.tab_not_near_start() { 3nat } else { 0 })) as nat
        }
    }
}

/// Rendering is repeatable: whatever two calls of `render` return for one
/// tab, they return the same commands.
pub proof fn lemma_render_is_repeatable(tab: Tab, first: Vec<PathCommand>, second: Vec<PathCommand>)
    requires
        call_ensures(Tab::render, (&tab,), first),
        call_ensures(Tab::render, (&tab,), second),
    ensures
        first@ == second@,
{
}

/// The path elements that two calls of `svg` return for one tab spell out the
/// same commands.
pub proof fn lemma_svg_is_repeatable(tab: Tab, first: Path, second: Path)
    requires
        call_ensures(Tab::svg, (&tab,), first),
        call_ensures(Tab::svg, (&tab,), second),
    ensures
        path_commands(first) == path_commands(second),
{
}

/// A tab without an edge has the outline of the rectangle of the same width,
/// height and radius with a tab of size zero on its left edge, wherever the
/// two tabs are placed along the edge.
pub proof fn lemma_absent_tab_is_empty_left_tab(absent: Tab, left: Tab)
    requires
        absent.tab_edge == TabEdge::Absent,
        left.tab_edge == TabEdge::Left,
        left.tab_width == 0,
        left.tab_height == 0,
        absent.width == left.width,
        absent.height == left.height,
        absent.radius == left.radius,
    ensures
        absent.outline() == left.outline(),
{
}

/// The outline has `outline_len` commands.
pub proof fn lemma_outline_len(tab: Tab)
    ensures
        tab.outline().len() == tab.outline_len(),
{
}

/// The outline of a plain rectangle has four arcs and four lines. The outline
/// of a tab has four arcs and six lines, and two arcs and a line more for each
/// end of the edge that has room for its corner: eight arcs and eight lines
/// where both have.
pub proof fn lemma_outline_counts(tab: Tab)
    ensures
        !tab.has_tab() ==> arc_count(tab.outline()) == 4 && line_count(tab.outline()) == 4,
        tab.has_tab() ==> arc_count(tab.outline()) == 4 + (if tab.tab_not_near_end() {
            2int
        } else {
            0
        }) + (if tab.tab_not_near_start() {
            2int
        } else {
            0
        }),
        tab.has_tab() ==> line_count(tab.outline()) == 6 + (if tab.tab_not_near_end() {
            1int
        } else {
            0
        }) + (if tab.tab_not_near_start() {
            1int
        } else {
            0
        }),
{
    lemma_outline_len(tab);
    reveal_with_fuel(arcs_among, 19);
    reveal_with_fuel(lines_among, 19);
}

/// The outline is a single closed loop: it starts with the move to `a`, ends
/// with the close command, and every command between the two draws a line or
/// an arc.
pub proof fn lemma_outline_is_one_loop(tab: Tab)
    ensures
        tab.outline().first() == move_to(tab.points().a),
        tab.outline().last() == PathCommand::Close,
        forall|k: int| 0 < k < tab.outline().len() - 1 ==> (#[trigger] tab.outline()[k]).draws(),
{
    lemma_outline_len(tab);
    let o = tab.outline();
    assert forall|k: int| 0 < k < o.len() - 1 implies (#[trigger] o[k]).draws() by {
        lemma_side_of_command(tab, k);
    }
}

/// Where the tab's edge has room for the last corner, and where no tab is
/// drawn, the pen is back at the start of the outline before the close
/// command: the last arc ends at `a`.
pub proof fn lemma_outline_returns_to_start(tab: Tab)
    requires
        !tab.has_tab() || tab.tab_not_near_start(),
    ensures
        tab.outline()[tab.outline().len() - 2] == arc_to(
            tab.radius as int,
            true,
            tab.points().a,
        ),
        tab.outline()[tab.outline().len() - 2].target() == tab.outline()[0].target(),
{
    lemma_outline_len(tab);
}

/// Where the tab's edge has no room for the last corner, the outline stops at
/// `n`, on the tab, and the close command draws the rest.
pub proof fn lemma_outline_stops_on_tab(tab: Tab)
    requires
        tab.has_tab(),
        !tab.tab_not_near_start(),
    ensures
        tab.outline()[tab.outline().len() - 2] == line_to(tab.points().n),
{
    lemma_outline_len(tab);
}

/// Every arc of the outline is a corner of the rounding radius: both radii
/// are the radius, the ellipse is not rotated, and the small arc is taken.
pub proof fn lemma_arcs_are_corners(tab: Tab, k: int)
    requires
        0 <= k < tab.outline().len(),
        tab.outline()[k] is ArcTo,
    ensures
        tab.outline()[k].is_corner(tab.radius as int),
{
    lemma_outline_len(tab);
    lemma_side_of_command(tab, k);
}

/// The arcs that turn against the outline are the one into the tab, which
/// ends at `i`, and the one out of it, which ends at `o`. Every other arc, and
/// so every arc of an outline without a tab, turns with the outline.
pub proof fn lemma_arcs_against_the_turn(tab: Tab, k: int)
    requires
        0 <= k < tab.outline().len(),
        tab.outline()[k] is ArcTo,
        !tab.outline()[k]->sweep,
    ensures
        tab.has_tab(),
        k == 8 || k == tab.outline().len() - 4,
        k == 8 ==> tab.tab_not_near_end() && tab.outline()[k] == arc_to(
            tab.radius as int,
            false,
            tab.points().i,
        ),
        k != 8 ==> tab.tab_not_near_start() && tab.outline()[k] == arc_to(
            tab.radius as int,
            false,
            tab.points().o,
        ),
{
    lemma_outline_len(tab);
    lemma_side_of_command(tab, k);
}

/// A tab is drawable where three times each of its sizes stays within the
/// exact limit: every coordinate of the outline adds up at most three of them.
pub proof fn lemma_small_tab_is_drawable(tab: Tab)
    requires
        tab.is_small(),
    ensures
        tab.is_drawable(),
{
    lemma_points_of_small_tab(tab);
    lemma_sides_of_exact_points(tab);
    lemma_outline_of_exact_sides(tab);
}

/// Without a tab the outline is the loop over the rim of the rectangle that
/// starts at `rim_start`: the edge changes the corner at which the pen sets
/// out, and nothing else.
pub proof fn lemma_plain_outline_walks_rim(tab: Tab)
    requires
        !tab.has_tab(),
    ensures
        tab.outline() == tab.rim_loop(tab.rim_start()),
{
    let t = tab.effective();
    assert(t.radius == tab.radius && t.width == tab.width && t.height == tab.height);
    assert(tab.outline() =~= tab.rim_loop(tab.rim_start()));
}

/// Whether both coordinates of `p` are exact.
spec fn point_exact(p: Point) -> bool {
    exact(p.0) && exact(p.1)
}

/// Whether the coordinates of all sixteen points are exact.
spec fn points_exact(points: Boundary<Point>) -> bool {
    &&& point_exact(points.a)
    &&& point_exact(points.b)
    &&& point_exact(points.c)
    &&& point_exact(points.d)
    &&& point_exact(points.e)
    &&& point_exact(points.f)
    &&& point_exact(points.g)
    &&& point_exact(points.h)
    &&& point_exact(points.i)
    &&& point_exact(points.j)
    &&& point_exact(points.k)
    &&& point_exact(points.l)
    &&& point_exact(points.m)
    &&& point_exact(points.n)
    &&& point_exact(points.o)
    &&& point_exact(points.p)
}

/// The radius and every point of a small tab are exact.
proof fn lemma_points_of_small_tab(tab: Tab)
    requires
        tab.is_small(),
    ensures
        exact(tab.radius as int),
        points_exact(tab.points()),
{
    let t = tab.effective();
    assert(t.is_small());
    match t.tab_edge {
        TabEdge::Right => {
            assert(points_exact(t.right_points()));
        },
        TabEdge::Top => {
            assert(points_exact(t.top_points()));
        },
        TabEdge::Bottom => {
            assert(points_exact(t.bottom_points()));
        },
        _ => {
            assert(points_exact(t.left_points()));
        },
    }
}

/// Where every command of each side of the outline is exact, so is every
/// command of the outline.
proof fn lemma_outline_of_exact_sides(tab: Tab)
    requires
        all_exact(tab.far_side()),
        all_exact(tab.plain_side()),
        all_exact(tab.approach()),
        all_exact(tab.protrusion()),
        all_exact(tab.departure()),
    ensures
        all_exact(tab.outline()),
{
    let o = tab.outline();
    assert forall|k: int| 0 <= k < o.len() implies (#[trigger] o[k]).is_exact() by {
        lemma_command_at(tab, k);
    }
}

/// Where the radius and every point of a tab are exact, so is every command
/// of each side of its outline.
proof fn lemma_sides_of_exact_points(tab: Tab)
    requires
        exact(tab.radius as int),
        points_exact(tab.points()),
    ensures
        all_exact(tab.far_side()),
        all_exact(tab.plain_side()),
        all_exact(tab.approach()),
        all_exact(tab.protrusion()),
        all_exact(tab.departure()),
{
    let far = tab.far_side();
    assert forall|k: int| 0 <= k < far.len() implies (#[trigger] far[k]).is_exact() by {
        assert(k == 0 || k == 1 || k == 2 || k == 3 || k == 4 || k == 5);
    }
    let plain = tab.plain_side();
    assert forall|k: int| 0 <= k < plain.len() implies (#[trigger] plain[k]).is_exact() by {
        assert(k == 0 || k == 1 || k == 2);
    }
    let a = tab.approach();
    assert forall|k: int| 0 <= k < a.len() implies (#[trigger] a[k]).is_exact() by {
        assert(k == 0 || k == 1 || k == 2);
    }
    let b = tab.protrusion();
    assert forall|k: int| 0 <= k < b.len() implies (#[trigger] b[k]).is_exact() by {
        assert(k == 0 || k == 1 || k == 2 || k == 3 || k == 4);
    }
    let c = tab.departure();
    assert forall|k: int| 0 <= k < c.len() implies (#[trigger] c[k]).is_exact() by {
        assert(k == 0 || k == 1 || k == 2);
    }
}

/// Command `k` of the outline as a command of the side that it belongs to.
proof fn lemma_command_at(tab: Tab, k: int)
    requires
        0 <= k < tab.outline().len(),
    ensures
        ({
            let a = tab.approach();
            let b = tab.protrusion();
            let c = tab.departure();
            if k < 6 {
                tab.outline()[k] == tab.far_side()[k]
            } else if k == tab.outline().len() - 1 {
                tab.outline()[k] == PathCommand::Close
            } else if !tab.has_tab() {
                tab.outline()[k] == tab.plain_side()[k - 6]
            } else if k - 6 < a.len() {
                tab.outline()[k] == a[k - 6]
            } else if k - 6 < a.len() + 5 {
                tab.outline()[k] == b[k - 6 - a.len()]
            } else {
                tab.outline()[k] == c[k - 11 - a.len()]
            }
        }),
{
    let o = tab.outline();
    assert(o.len() == tab.outline_len());
    assert(tab.far_side().len() == 6);
    assert(tab.protrusion().len() == 5);
    if 6 <= k < o.len() - 1 && tab.has_tab() {
        let near = tab.approach() + tab.protrusion() + tab.departure();
        assert(o[k] == near[k - 6]);
    }
}

/// What command `k` of the outline is: at either end the move and the close
/// command, between them a line or a corner of the rounding radius, and a
/// corner that turns against the outline only at the two ends of the tab.
proof fn lemma_side_of_command(tab: Tab, k: int)
    requires
        0 <= k < tab.outline().len(),
    ensures
        0 < k < tab.outline().len() - 1 ==> tab.outline()[k] is LineTo || tab.outline()[k].is_corner(
            tab.radius as int,
        ),
        tab.outline()[k] is ArcTo && !tab.outline()[k]->sweep ==> {
            &&& tab.has_tab()
            &&& k == 8 || k == tab.outline().len() - 4
            &&& k == 8 ==> tab.tab_not_near_end() && tab.outline()[k] == tab.approach()[2]
            &&& k != 8 ==> tab.tab_not_near_start() && tab.outline()[k] == tab.departure()[0]
        },
{
    lemma_command_at(tab, k);
    assert(tab.outline().len() == tab.outline_len());
}

/// The arc of radius `r` to `q`, turning as `sweep` says.
fn fillet(r: i64, sweep: bool, q: (i64, i64)) -> (command: PathCommand)
    ensures
        command == arc_to(r as int, sweep, plane(q)),
{
    PathCommand::ArcTo { rx: r, ry: r, rotation: 0, large_arc: false, sweep, x: q.0, y: q.1 }
}

} // verus!

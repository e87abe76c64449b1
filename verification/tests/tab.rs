use svg_util::path::PathCommand;
use svg_util::tab::{Tab, TabEdge};

fn mv(x: i64, y: i64) -> PathCommand {
    PathCommand::MoveTo { x, y }
}

fn line(x: i64, y: i64) -> PathCommand {
    PathCommand::LineTo { x, y }
}

fn arc(r: i64, sweep: bool, x: i64, y: i64) -> PathCommand {
    PathCommand::ArcTo { rx: r, ry: r, rotation: 0, large_arc: false, sweep, x, y }
}

fn count_arcs(commands: &[PathCommand]) -> usize {
    commands.iter().filter(|c| matches!(c, PathCommand::ArcTo { .. })).count()
}

fn count_lines(commands: &[PathCommand]) -> usize {
    commands.iter().filter(|c| matches!(c, PathCommand::LineTo { .. })).count()
}

fn count_closes(commands: &[PathCommand]) -> usize {
    commands.iter().filter(|c| matches!(c, PathCommand::Close)).count()
}

/// The points that the drawing commands of an outline reach, in order.
fn targets(commands: &[PathCommand]) -> Vec<(i64, i64)> {
    let mut out = Vec::new();
    for c in commands {
        match *c {
            PathCommand::MoveTo { x, y } => out.push((x, y)),
            PathCommand::LineTo { x, y } => out.push((x, y)),
            PathCommand::ArcTo { x, y, .. } => out.push((x, y)),
            PathCommand::Close => {}
        }
    }
    out
}

fn left_tab() -> Tab {
    Tab::new().sized(50, 80).radius(10).tab(15, 25).tab_position(15).tab_edge(TabEdge::Left)
}

#[test]
fn new_tab_is_blank() {
    let t = Tab::new();
    assert_eq!(
        t,
        Tab {
            radius: 0,
            width: 0,
            height: 0,
            tab_edge: TabEdge::Left,
            tab_width: 0,
            tab_height: 0,
            tab_position: 0
        }
    );
    assert_eq!(Tab::default(), t);
    assert_eq!(TabEdge::default(), TabEdge::Left);
}

#[test]
fn builders_replace_their_fields_only() {
    let t = Tab::new().sized(50, 80);
    assert_eq!((t.width, t.height), (50, 80));
    let t = t.radius(10);
    assert_eq!((t.width, t.height, t.radius), (50, 80, 10));
    let t = t.tab(15, 25);
    assert_eq!((t.tab_width, t.tab_height, t.radius), (15, 25, 10));
    let t = t.tab_position(17);
    assert_eq!((t.tab_position, t.tab_width), (17, 15));
    let t = t.tab_edge(TabEdge::Bottom);
    assert_eq!(
        t,
        Tab {
            radius: 10,
            width: 50,
            height: 80,
            tab_edge: TabEdge::Bottom,
            tab_width: 15,
            tab_height: 25,
            tab_position: 17
        }
    );
}

#[test]
fn has_tab_needs_an_edge_and_both_sizes() {
    assert!(left_tab().has_tab());
    assert!(!left_tab().tab(0, 25).has_tab());
    assert!(!left_tab().tab(15, 0).has_tab());
    assert!(!left_tab().tab_edge(TabEdge::Absent).has_tab());
    assert!(left_tab().tab(-15, -25).has_tab());
}

#[test]
fn left_tab_with_room_at_both_ends() {
    let t = left_tab();
    assert!(t.tab_not_near_end());
    assert!(t.tab_not_near_start());
    let o = t.render();
    assert_eq!(
        o,
        vec![
            mv(10, 0),
            line(40, 0),
            arc(10, true, 50, 10),
            line(50, 70),
            arc(10, true, 40, 80),
            line(10, 80),
            arc(10, true, 0, 70),
            line(0, 50),
            arc(10, false, -10, 40),
            line(-5, 40),
            arc(10, true, -15, 30),
            line(-15, 25),
            arc(10, true, -5, 15),
            line(-10, 15),
            arc(10, false, 0, 5),
            line(0, 10),
            arc(10, true, 10, 0),
            PathCommand::Close,
        ]
    );
}

#[test]
fn left_tab_counts_eight_arcs_eight_lines_one_close() {
    let o = left_tab().render();
    assert_eq!(count_arcs(&o), 8);
    assert_eq!(count_lines(&o), 8);
    assert_eq!(count_closes(&o), 1);
    assert_eq!(o.len(), 18);
}

#[test]
fn top_tab_with_room_at_both_ends() {
    let t = Tab::new().sized(50, 80).radius(5).tab(10, 20).tab_position(10).tab_edge(TabEdge::Top);
    assert!(t.tab_not_near_end());
    assert!(t.tab_not_near_start());
    assert_eq!(
        t.render(),
        vec![
            mv(50, 5),
            line(50, 75),
            arc(5, true, 45, 80),
            line(5, 80),
            arc(5, true, 0, 75),
            line(0, 5),
            arc(5, true, 5, 0),
            line(5, 0),
            arc(5, false, 10, -5),
            line(10, -15),
            arc(5, true, 15, -20),
            line(15, -20),
            arc(5, true, 20, -15),
            line(20, -5),
            arc(5, false, 25, 0),
            line(45, 0),
            arc(5, true, 50, 5),
            PathCommand::Close,
        ]
    );
}

#[test]
fn right_tab_with_room_at_both_ends() {
    let t =
        Tab::new().sized(50, 80).radius(5).tab(25, 10).tab_position(30).tab_edge(TabEdge::Right);
    assert!(t.tab_not_near_end());
    assert!(t.tab_not_near_start());
    assert_eq!(
        t.render(),
        vec![
            mv(45, 80),
            line(5, 80),
            arc(5, true, 0, 75),
            line(0, 5),
            arc(5, true, 5, 0),
            line(45, 0),
            arc(5, true, 50, 5),
            line(50, 25),
            arc(5, false, 55, 30),
            line(70, 30),
            arc(5, true, 75, 35),
            line(75, 35),
            arc(5, true, 70, 40),
            line(55, 40),
            arc(5, false, 50, 45),
            line(50, 75),
            arc(5, true, 45, 80),
            PathCommand::Close,
        ]
    );
}

#[test]
fn bottom_tab_at_the_start_of_its_edge() {
    let t =
        Tab::new().sized(50, 80).radius(3).tab(10, 10).tab_position(0).tab_edge(TabEdge::Bottom);
    assert!(t.tab_not_near_end());
    assert!(!t.tab_not_near_start());
    assert_eq!(
        t.render(),
        vec![
            mv(0, 77),
            line(0, 3),
            arc(3, true, 3, 0),
            line(47, 0),
            arc(3, true, 50, 3),
            line(50, 77),
            arc(3, true, 47, 80),
            line(13, 80),
            arc(3, false, 10, 83),
            line(10, 87),
            arc(3, true, 7, 90),
            line(3, 90),
            arc(3, true, 0, 87),
            line(0, 83),
            PathCommand::Close,
        ]
    );
}

#[test]
fn left_tab_near_the_end_of_its_edge() {
    let t = Tab::new().sized(50, 80).radius(5).tab(10, 20).tab_position(60).tab_edge(TabEdge::Left);
    assert!(!t.tab_not_near_end());
    assert!(t.tab_not_near_start());
    assert_eq!(
        t.render(),
        vec![
            mv(5, 0),
            line(45, 0),
            arc(5, true, 50, 5),
            line(50, 75),
            arc(5, true, 45, 80),
            line(5, 80),
            line(-5, 80),
            arc(5, true, -10, 75),
            line(-10, 65),
            arc(5, true, -5, 60),
            line(-5, 60),
            arc(5, false, 0, 55),
            line(0, 5),
            arc(5, true, 5, 0),
            PathCommand::Close,
        ]
    );
}

#[test]
fn tab_that_fills_its_edge_has_neither_corner() {
    let t = Tab::new().sized(50, 80).radius(5).tab(10, 80).tab_position(0).tab_edge(TabEdge::Left);
    assert!(!t.tab_not_near_end());
    assert!(!t.tab_not_near_start());
    let o = t.render();
    assert_eq!(o.len(), 12);
    assert_eq!(count_arcs(&o), 4);
    assert_eq!(count_lines(&o), 6);
    assert_eq!(o[6], line(-5, 80));
    assert_eq!(o[10], line(-5, 0));
    assert_eq!(o[11], PathCommand::Close);
}

#[test]
fn gates_are_strict() {
    // the tab ends one corner short of the far end: no room
    let t = Tab::new().sized(50, 80).radius(10).tab(15, 55).tab_position(15).tab_edge(TabEdge::Left);
    assert!(!t.tab_not_near_end());
    assert!(t.tab(15, 54).tab_not_near_end());
    // the tab starts exactly one radius from the start: no room
    assert!(!t.tab_position(10).tab_not_near_start());
    assert!(t.tab_position(11).tab_not_near_start());
}

#[test]
fn gates_follow_the_edge() {
    let base = Tab::new().sized(50, 80).radius(5).tab(10, 20);
    // on the top and right edges the outline reaches the low end of the tab first
    let top = base.tab_edge(TabEdge::Top);
    assert!(!top.tab_position(5).tab_not_near_end());
    assert!(top.tab_position(6).tab_not_near_end());
    assert!(top.tab_position(34).tab_not_near_start());
    assert!(!top.tab_position(35).tab_not_near_start());
    let right = base.tab_edge(TabEdge::Right);
    assert!(!right.tab_position(5).tab_not_near_end());
    assert!(right.tab_position(54).tab_not_near_start());
    assert!(!right.tab_position(55).tab_not_near_start());
    let bottom = base.tab_edge(TabEdge::Bottom);
    assert!(bottom.tab_position(34).tab_not_near_end());
    assert!(!bottom.tab_position(35).tab_not_near_end());
    assert!(!bottom.tab_position(5).tab_not_near_start());
    assert!(bottom.tab_position(6).tab_not_near_start());
}

#[test]
fn absent_tab_equals_left_tab_of_size_zero() {
    let absent =
        Tab::new().sized(50, 80).radius(5).tab(10, 20).tab_position(40).tab_edge(TabEdge::Absent);
    let left = Tab::new().sized(50, 80).radius(5).tab(0, 0).tab_edge(TabEdge::Left);
    assert_eq!(absent.render(), left.render());
    assert_eq!(
        absent.render(),
        vec![
            mv(5, 0),
            line(45, 0),
            arc(5, true, 50, 5),
            line(50, 75),
            arc(5, true, 45, 80),
            line(5, 80),
            arc(5, true, 0, 75),
            line(0, 5),
            arc(5, true, 5, 0),
            PathCommand::Close,
        ]
    );
}

#[test]
fn right_tab_of_size_zero_is_the_plain_rectangle() {
    let right = Tab::new().sized(50, 80).radius(5).tab(0, 0).tab_position(40).tab_edge(TabEdge::Right);
    let absent = right.tab_edge(TabEdge::Absent);
    assert!(!right.has_tab());
    let r = right.render();
    let a = absent.render();
    assert_eq!(
        r,
        vec![
            mv(45, 80),
            line(5, 80),
            arc(5, true, 0, 75),
            line(0, 5),
            arc(5, true, 5, 0),
            line(45, 0),
            arc(5, true, 50, 5),
            line(50, 75),
            arc(5, true, 45, 80),
            PathCommand::Close,
        ]
    );
    // the same loop over the same eight points, entered four points further on
    let rim_r = &targets(&r)[..8];
    let rim_a = &targets(&a)[..8];
    for k in 0..8 {
        assert_eq!(rim_r[k], rim_a[(k + 4) % 8]);
    }
    assert_eq!(count_arcs(&r), count_arcs(&a));
    assert_eq!(count_lines(&r), count_lines(&a));
    assert_eq!(r.len(), a.len());
}

#[test]
fn plain_outline_starts_behind_the_corner_after_the_edge() {
    let base = Tab::new().sized(50, 80).radius(5);
    let rim = [(5, 0), (45, 0), (50, 5), (50, 75), (45, 80), (5, 80), (0, 75), (0, 5)];
    for (edge, start) in [
        (TabEdge::Left, 0),
        (TabEdge::Absent, 0),
        (TabEdge::Top, 2),
        (TabEdge::Right, 4),
        (TabEdge::Bottom, 6),
    ] {
        let o = base.tab_edge(edge).render();
        let t = targets(&o);
        assert_eq!(t.len(), 9);
        for k in 0..9 {
            assert_eq!(t[k], rim[(start + k) % 8]);
        }
    }
}

#[test]
fn outline_is_one_closed_loop() {
    let tabs = [
        left_tab(),
        left_tab().tab_edge(TabEdge::Top),
        left_tab().tab_edge(TabEdge::Right),
        left_tab().tab_edge(TabEdge::Bottom),
        left_tab().tab_edge(TabEdge::Absent),
        left_tab().tab_position(0),
        left_tab().tab_position(70),
    ];
    for t in tabs {
        let o = t.render();
        assert!(matches!(o[0], PathCommand::MoveTo { .. }));
        assert_eq!(o[o.len() - 1], PathCommand::Close);
        for c in &o[1..o.len() - 1] {
            assert!(matches!(c, PathCommand::LineTo { .. } | PathCommand::ArcTo { .. }));
        }
        let reached = targets(&o);
        if !t.has_tab() || t.tab_not_near_start() {
            assert_eq!(reached[reached.len() - 1], reached[0]);
        }
    }
}

#[test]
fn outline_stops_on_the_tab_without_room_for_the_last_corner() {
    let t = Tab::new().sized(50, 80).radius(2).tab(5, 25).tab_position(0).tab_edge(TabEdge::Left);
    let o = t.render();
    assert_eq!(o[0], mv(2, 0));
    assert_eq!(o[o.len() - 2], line(-2, 0));
    assert_eq!(o[o.len() - 1], PathCommand::Close);
}

#[test]
fn render_is_repeatable() {
    let t = left_tab();
    assert_eq!(t.render(), t.render());
    assert_eq!(t.svg().to_string(), t.svg().to_string());
}

#[test]
fn negative_radius_and_zero_sizes_still_render() {
    let t = Tab::new().sized(0, 0).radius(-3).tab(4, 4).tab_position(1).tab_edge(TabEdge::Left);
    let o = t.render();
    assert_eq!(o[0], mv(-3, 0));
    assert_eq!(o[o.len() - 1], PathCommand::Close);
    let z = Tab::new().render();
    assert_eq!(z.len(), 10);
    assert_eq!(z[0], mv(0, 0));
}

#[test]
fn extreme_sizes_do_not_overflow() {
    let t = Tab::new()
        .sized(i32::MAX, i32::MAX)
        .radius(i32::MIN)
        .tab(i32::MIN, i32::MAX)
        .tab_position(i32::MAX)
        .tab_edge(TabEdge::Left);
    let o = t.render();
    let m = i32::MAX as i64;
    let n = i32::MIN as i64;
    assert_eq!(o[1], line(m - n, 0));
    assert!(!t.is_drawable());
    assert!(t.try_svg().is_none());
}

#[test]
fn svg_path_spells_out_the_outline() {
    let path = left_tab().svg();
    assert_eq!(
        path.to_string(),
        "<path d=\"M10,0 L40,0 A10,10,0,0,1,50,10 L50,70 A10,10,0,0,1,40,80 L10,80 \
         A10,10,0,0,1,0,70 L0,50 A10,10,0,0,0,-10,40 L-5,40 A10,10,0,0,1,-15,30 L-15,25 \
         A10,10,0,0,1,-5,15 L-10,15 A10,10,0,0,0,0,5 L0,10 A10,10,0,0,1,10,0 z\"/>"
    );
}

#[test]
fn try_svg_draws_what_fits() {
    let t = left_tab();
    assert!(t.is_drawable());
    let path = t.try_svg();
    assert!(path.is_some());
    assert_eq!(path.unwrap().to_string(), t.svg().to_string());
}

#[test]
fn drawable_ends_at_the_exact_limit() {
    let limit = 16_777_216;
    let t = Tab::new().sized(limit, 10).radius(0);
    assert!(t.is_drawable());
    assert!(t.try_svg().is_some());
    let t = Tab::new().sized(limit + 1, 10).radius(0);
    assert!(!t.is_drawable());
    assert!(t.try_svg().is_none());
    // a point that the outline does not use does not count
    let t = Tab::new().sized(10, 10).radius(0).tab(0, 0).tab_position(limit + 5);
    assert!(t.is_drawable());
}

#[test]
fn arcs_are_corners_of_the_radius() {
    for edge in [TabEdge::Left, TabEdge::Right, TabEdge::Top, TabEdge::Bottom, TabEdge::Absent] {
        for position in [0, 15, 70] {
            let o = left_tab().tab_edge(edge).tab_position(position).render();
            for c in o {
                if let PathCommand::ArcTo { rx, ry, rotation, large_arc, .. } = c {
                    assert_eq!((rx, ry, rotation, large_arc), (10, 10, 0, false));
                }
            }
        }
    }
}

#[test]
fn only_the_arcs_into_and_out_of_the_tab_turn_back() {
    let against = |o: &[PathCommand]| -> Vec<usize> {
        (0..o.len())
            .filter(|&k| matches!(o[k], PathCommand::ArcTo { sweep: false, .. }))
            .collect()
    };
    // room at both ends
    let o = left_tab().render();
    assert_eq!(against(&o), vec![8, o.len() - 4]);
    assert_eq!(o[8], arc(10, false, -10, 40));
    assert_eq!(o[o.len() - 4], arc(10, false, 0, 5));
    // room at the end only
    let o = left_tab().tab_position(0).render();
    assert_eq!(against(&o), vec![8]);
    // room at the start only
    let o = left_tab().tab_position(70).render();
    assert_eq!(against(&o), vec![o.len() - 4]);
    // no room at all, and no tab at all
    assert!(against(&left_tab().tab(15, 80).tab_position(0).render()).is_empty());
    assert!(against(&left_tab().tab_edge(TabEdge::Absent).render()).is_empty());
    assert!(against(&left_tab().tab(0, 0).render()).is_empty());
}

#[test]
fn counts_follow_the_room_at_the_ends() {
    // room at the end only: six arcs, seven lines
    let o = left_tab().tab_position(0).render();
    assert_eq!((count_arcs(&o), count_lines(&o), o.len()), (6, 7, 15));
    // room at the start only
    let o = left_tab().tab_position(70).render();
    assert_eq!((count_arcs(&o), count_lines(&o), o.len()), (6, 7, 15));
    // no room at all
    let o = left_tab().tab(15, 80).tab_position(0).render();
    assert_eq!((count_arcs(&o), count_lines(&o), o.len()), (4, 6, 12));
    // no tab
    let o = left_tab().tab_edge(TabEdge::Absent).render();
    assert_eq!((count_arcs(&o), count_lines(&o), o.len()), (4, 4, 10));
}

#[test]
fn bottom_tab_with_room_at_both_ends() {
    let t =
        Tab::new().sized(50, 80).radius(3).tab(10, 10).tab_position(10).tab_edge(TabEdge::Bottom);
    assert!(t.tab_not_near_end());
    assert!(t.tab_not_near_start());
    assert_eq!(
        t.render(),
        vec![
            mv(0, 77),
            line(0, 3),
            arc(3, true, 3, 0),
            line(47, 0),
            arc(3, true, 50, 3),
            line(50, 77),
            arc(3, true, 47, 80),
            line(23, 80),
            arc(3, false, 20, 83),
            line(20, 87),
            arc(3, true, 17, 90),
            line(13, 90),
            arc(3, true, 10, 87),
            line(10, 83),
            arc(3, false, 7, 80),
            line(3, 80),
            arc(3, true, 0, 77),
            PathCommand::Close,
        ]
    );
}

#[test]
fn svg_path_of_a_tab_at_the_start_of_the_bottom_edge() {
    let t =
        Tab::new().sized(50, 80).radius(3).tab(10, 10).tab_position(0).tab_edge(TabEdge::Bottom);
    assert_eq!(
        t.svg().to_string(),
        "<path d=\"M0,77 L0,3 A3,3,0,0,1,3,0 L47,0 A3,3,0,0,1,50,3 L50,77 A3,3,0,0,1,47,80 \
         L13,80 A3,3,0,0,0,10,83 L10,87 A3,3,0,0,1,7,90 L3,90 A3,3,0,0,1,0,87 L0,83 z\"/>"
    );
}

#[test]
fn tabs_with_sizes_up_to_a_third_of_the_limit_are_drawable() {
    let third = 16_777_216 / 3;
    for edge in [TabEdge::Left, TabEdge::Right, TabEdge::Top, TabEdge::Bottom, TabEdge::Absent] {
        for sign in [1, -1] {
            let t = Tab {
                radius: -sign * third,
                width: sign * third,
                height: sign * third,
                tab_edge: edge,
                tab_width: sign * third,
                tab_height: sign * third,
                tab_position: sign * third,
            };
            assert!(t.is_drawable());
            assert!(t.try_svg().is_some());
        }
    }
    // one more unit, three times over, is too much
    let t = Tab::new().sized(third + 1, 0).radius(-third - 1).tab(third + 1, 1).tab_edge(TabEdge::Right);
    assert!(!t.is_drawable());
}

use platformer::geo::{Axis, CollisionGrid, CollisionRect, Side};

fn rect(id: u32, left: i64, right: i64, bottom: i64, top: i64) -> CollisionRect<()> {
    CollisionRect { id, top, bottom, left, right, custom: None }
}

fn collide(a: &CollisionRect<()>, b: &CollisionRect<()>) -> bool {
    CollisionGrid::<()>::do_rects_collide(a, b)
}

#[test]
fn for_each_visits_x_then_y() {
    let mut seen = Vec::new();
    Axis::for_each(|axis| seen.push(axis));
    assert_eq!(seen, vec![Axis::X, Axis::Y]);
}

#[test]
fn an_axis_knows_which_it_is() {
    assert!(Axis::X.is_x());
    assert!(!Axis::X.is_y());
    assert!(Axis::Y.is_y());
    assert!(!Axis::Y.is_x());
}

#[test]
fn inner_is_the_only_inner_side() {
    assert!(Side::Inner.is_inner());
    assert!(!Side::Top.is_inner());
    assert!(!Side::Bottom.is_inner());
    assert!(!Side::Left.is_inner());
    assert!(!Side::Right.is_inner());
}

#[test]
fn a_rect_reaches_half_its_size_to_each_side() {
    let rect = CollisionRect::<()>::new(1, (10_000, 20_000), Some((4_000, 6_000)));
    assert_eq!(rect.id, 1);
    assert_eq!(rect.left, 8_000);
    assert_eq!(rect.right, 12_000);
    assert_eq!(rect.bottom, 17_000);
    assert_eq!(rect.top, 23_000);
    assert_eq!(rect.custom, None);
}

#[test]
fn a_rect_without_size_is_a_point() {
    let rect = CollisionRect::<()>::new(7, (-3_000, 4_500), None);
    assert_eq!((rect.left, rect.right, rect.bottom, rect.top), (-3_000, -3_000, 4_500, 4_500));
}

#[test]
fn half_of_an_odd_size_rounds_toward_zero() {
    let rect = CollisionRect::<()>::new(1, (0, 0), Some((5, 7)));
    assert_eq!((rect.left, rect.right, rect.bottom, rect.top), (-2, 2, -3, 3));
}

#[test]
fn a_rect_at_the_end_of_the_range_saturates() {
    let rect = CollisionRect::<()>::new(1, (i64::MAX, i64::MIN), Some((10, 10)));
    assert_eq!(rect.right, i64::MAX);
    assert_eq!(rect.left, i64::MAX - 5);
    assert_eq!(rect.bottom, i64::MIN);
    assert_eq!(rect.top, i64::MIN + 5);
}

#[test]
fn a_rect_carries_what_is_attached() {
    let rect = CollisionRect::with_custom(3, (0, 0), Some((2_000, 2_000)), Some(Side::Left));
    assert_eq!(rect.custom, Some(Side::Left));
    assert_eq!((rect.left, rect.right), (-1_000, 1_000));
}

#[test]
fn a_rect_is_made_from_a_tuple() {
    let bare = CollisionRect::<bool>::from((4, (1_000, 1_000), Some((2_000, 4_000))));
    assert_eq!((bare.id, bare.left, bare.right, bare.bottom, bare.top), (4, 0, 2_000, -1_000, 3_000));
    assert_eq!(bare.custom, None);
    let tagged = CollisionRect::from((4, (1_000, 1_000), None, Some(true)));
    assert_eq!((tagged.left, tagged.right, tagged.bottom, tagged.top), (1_000, 1_000, 1_000, 1_000));
    assert_eq!(tagged.custom, Some(true));
}

#[test]
fn rects_that_share_an_area_collide_both_ways() {
    let a = rect(1, 0, 10_000, 0, 10_000);
    let b = rect(2, 5_000, 15_000, 5_000, 15_000);
    assert!(collide(&a, &b));
    assert!(collide(&b, &a));
}

#[test]
fn rects_apart_do_not_collide() {
    let a = rect(1, 0, 10_000, 0, 10_000);
    let right = rect(2, 20_000, 30_000, 0, 10_000);
    let above = rect(3, 0, 10_000, 20_000, 30_000);
    assert!(!collide(&a, &right));
    assert!(!collide(&right, &a));
    assert!(!collide(&a, &above));
    assert!(!collide(&above, &a));
}

#[test]
fn rects_of_one_entity_do_not_collide() {
    let a = rect(1, 0, 10_000, 0, 10_000);
    let b = rect(1, 5_000, 15_000, 5_000, 15_000);
    assert!(!collide(&a, &a));
    assert!(!collide(&a, &b));
    assert!(!collide(&b, &a));
}

#[test]
fn rects_that_only_share_an_edge_do_not_overlap() {
    let a = rect(1, 9_000, 10_000, 0, 1_000);
    let beside = rect(2, 10_000, 11_000, 0, 1_000);
    let above = rect(3, 9_000, 10_000, 1_000, 2_000);
    assert!(!collide(&a, &beside));
    assert!(!collide(&beside, &a));
    assert!(!collide(&a, &above));
    assert!(!collide(&above, &a));
}

#[test]
fn extents_are_closed_on_the_left_and_at_the_top() {
    let area = rect(1, 0, 10_000, 0, 10_000);
    let point = |id: u32, x: i64, y: i64| rect(id, x, x, y, y);
    assert!(collide(&point(2, 5_000, 5_000), &area));
    assert!(collide(&area, &point(2, 5_000, 5_000)));
    assert!(collide(&point(2, 0, 5_000), &area));
    assert!(!collide(&point(2, 10_000, 5_000), &area));
    assert!(collide(&point(2, 5_000, 10_000), &area));
    assert!(!collide(&point(2, 5_000, 0), &area));
    assert!(collide(&point(2, 9_999, 1), &area));
}

#[test]
fn overlap_is_symmetric_on_many_rects() {
    let edges = [-2_000, -1_000, 0, 1_000, 2_000];
    let mut rects = Vec::new();
    let mut id = 0;
    for &left in &edges {
        for &right in &edges {
            for &bottom in &[-1_000, 0, 1_000] {
                for &top in &[-1_000, 0, 1_000] {
                    id += 1;
                    rects.push(rect(id % 7, left, right, bottom, top));
                }
            }
        }
    }
    for a in &rects {
        assert!(!collide(a, a));
        for b in &rects {
            assert_eq!(collide(a, b), collide(b, a));
            if a.id == b.id {
                assert!(!collide(a, b));
            }
        }
    }
}

fn sample_grid() -> CollisionGrid<()> {
    CollisionGrid::new(vec![
        rect(1, 0, 10_000, 0, 10_000),
        rect(2, 5_000, 15_000, 5_000, 15_000),
        rect(3, 100_000, 110_000, 0, 10_000),
        rect(2, 8_000, 9_000, 8_000, 9_000),
        rect(4, 9_000, 20_000, 9_000, 20_000),
    ])
}

#[test]
fn a_grid_finds_the_first_rect_of_an_entity() {
    let grid = sample_grid();
    assert_eq!(grid.rect_by_id(2).map(|rect| rect.left), Some(5_000));
    assert_eq!(grid.rect_by_id(3).map(|rect| rect.left), Some(100_000));
    assert!(grid.rect_by_id(9).is_none());
    assert!(CollisionGrid::<()>::new(Vec::new()).rect_by_id(1).is_none());
}

#[test]
fn a_grid_tells_whether_anything_collides() {
    let grid = sample_grid();
    assert!(grid.collides_any(&rect(7, 1_000, 2_000, 1_000, 2_000)));
    assert!(!grid.collides_any(&rect(1, 1_000, 2_000, 1_000, 2_000)));
    assert!(!grid.collides_any(&rect(7, 50_000, 60_000, 0, 10_000)));
    assert!(!CollisionGrid::<()>::new(Vec::new()).collides_any(&rect(7, 0, 1, 0, 1)));
}

#[test]
fn a_grid_lists_what_collides_in_order() {
    let grid = sample_grid();
    let hits = grid.colliding_with(&rect(7, 8_500, 9_500, 8_500, 9_500));
    let found: Vec<(u32, i64)> = hits.iter().map(|rect| (rect.id, rect.left)).collect();
    assert_eq!(found, vec![(1, 0), (2, 5_000), (2, 8_000), (4, 9_000)]);
    let none = grid.colliding_with(&rect(7, 50_000, 60_000, 0, 10_000));
    assert!(none.is_empty());
}

#[test]
fn a_grid_lists_what_collides_with_an_entity() {
    let grid = sample_grid();
    let hits = grid.colliding_with_id(2);
    let found: Vec<u32> = hits.iter().map(|rect| rect.id).collect();
    assert_eq!(found, vec![1, 4]);
    assert!(grid.colliding_with_id(3).is_empty());
    assert!(grid.colliding_with_id(9).is_empty());
}

#[test]
fn a_grid_is_made_from_tuples() {
    let bare = CollisionGrid::<bool>::from(vec![
        (1, (0, 0), Some((2_000, 2_000))),
        (2, (5_000, 5_000), None),
    ]);
    assert_eq!(bare.rects.len(), 2);
    assert_eq!((bare.rects[0].left, bare.rects[0].right), (-1_000, 1_000));
    assert_eq!(bare.rects[0].custom, None);
    assert_eq!((bare.rects[1].id, bare.rects[1].left, bare.rects[1].top), (2, 5_000, 5_000));
    let tagged = CollisionGrid::from(vec![
        (1, (0, 0), Some((2_000, 2_000)), Some(true)),
        (2, (5_000, 5_000), None, None),
    ]);
    assert_eq!(tagged.rects.len(), 2);
    assert_eq!(tagged.rects[0].custom, Some(true));
    assert_eq!(tagged.rects[1].custom, None);
    assert_eq!((tagged.rects[0].bottom, tagged.rects[0].top), (-1_000, 1_000));
}

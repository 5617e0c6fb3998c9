use window_host::geometry::{Position, Size};
use window_host::placement::{
    placement_position, plan_placement, settled_position, window_size_or, Placement,
    PlacementPolicy, BOTTOM_MARGIN, FALLBACK_HEIGHT, FALLBACK_WIDTH,
};

#[test]
fn full_hd_display_small_window() {
    let plan = plan_placement(
        PlacementPolicy::standard(),
        Some(Size::new(1920, 1080)),
        Some(Size::new(400, 280)),
    );
    assert_eq!(plan, Placement::MoveTo(Position::new(760, 740)));
}

#[test]
fn unknown_window_size_uses_fallback() {
    let plan = plan_placement(PlacementPolicy::standard(), Some(Size::new(1920, 1080)), None);
    assert_eq!(plan, Placement::MoveTo(Position::new(760, 740)));
}

#[test]
fn fallback_on_another_display() {
    let plan = plan_placement(PlacementPolicy::standard(), Some(Size::new(2560, 1440)), None);
    assert_eq!(plan, Placement::MoveTo(Position::new(1080, 1100)));
}

#[test]
fn live_size_is_never_overridden() {
    let plan = plan_placement(
        PlacementPolicy::standard(),
        Some(Size::new(1920, 1080)),
        Some(Size::new(800, 600)),
    );
    assert_eq!(plan, Placement::MoveTo(Position::new(560, 420)));
}

#[test]
fn odd_spare_width_rounds_down() {
    let p = placement_position(Size::new(1921, 1080), Size::new(400, 280), 60);
    assert_eq!(p, Position::new(760, 740));
}

#[test]
fn window_filling_display() {
    let p = placement_position(Size::new(1280, 720), Size::new(1280, 720), 60);
    assert_eq!(p, Position::new(0, -60));
}

#[test]
fn wider_window_gets_negative_x() {
    let p = placement_position(Size::new(300, 1000), Size::new(400, 280), 60);
    assert_eq!(p, Position::new(-50, 660));
    let q = placement_position(Size::new(10, 10), Size::new(15, 10), 0);
    assert_eq!(q, Position::new(-2, 0));
}

#[test]
fn largest_sizes() {
    let p = placement_position(Size::new(u32::MAX, u32::MAX), Size::new(0, 0), u32::MAX);
    assert_eq!(p, Position::new(2147483647, 0));
    let q = placement_position(Size::new(0, 0), Size::new(u32::MAX, u32::MAX), u32::MAX);
    assert_eq!(q, Position::new(-2147483647, -8589934590));
}

#[test]
fn no_monitor_is_a_no_op() {
    let plan = plan_placement(PlacementPolicy::standard(), None, Some(Size::new(400, 280)));
    assert_eq!(plan, Placement::Unchanged);
    let before = Position::new(13, 27);
    assert_eq!(settled_position(before, plan, true), before);
    let plan = plan_placement(PlacementPolicy::standard(), None, None);
    assert_eq!(plan, Placement::Unchanged);
}

#[test]
fn refused_move_leaves_window_in_place() {
    let before = Position::new(5, 6);
    let plan = Placement::MoveTo(Position::new(760, 740));
    assert_eq!(settled_position(before, plan, false), before);
    assert_eq!(settled_position(before, plan, true), Position::new(760, 740));
}

#[test]
fn standard_policy_values() {
    let p = PlacementPolicy::standard();
    assert_eq!(p.fallback, Size::new(400, 280));
    assert_eq!(p.bottom_margin, 60);
    assert_eq!((FALLBACK_WIDTH, FALLBACK_HEIGHT, BOTTOM_MARGIN), (400, 280, 60));
}

#[test]
fn custom_policy() {
    let policy = PlacementPolicy { fallback: Size::new(200, 100), bottom_margin: 0 };
    let plan = plan_placement(policy, Some(Size::new(1000, 500)), None);
    assert_eq!(plan, Placement::MoveTo(Position::new(400, 400)));
}

#[test]
fn size_choice() {
    assert_eq!(window_size_or(None, Size::new(400, 280)), Size::new(400, 280));
    assert_eq!(window_size_or(Some(Size::new(1, 2)), Size::new(400, 280)), Size::new(1, 2));
}

#[test]
fn toolkit_coordinates() {
    assert_eq!(Position::new(760, 740).to_i32_pair(), Some((760, 740)));
    assert_eq!(Position::new(-5, i32::MIN as i64).to_i32_pair(), Some((-5, i32::MIN)));
    assert_eq!(Position::new(0, -8589934590).to_i32_pair(), None);
    assert_eq!(Position::new(i32::MAX as i64 + 1, 0).to_i32_pair(), None);
}

use winit_x11::geometry::{
    add_saturating, cast_dimension_to_hint, cast_physical_size_to_hint, cast_size_to_hint,
    cast_size_to_unsigned_hint, clamp_to_i16, offset_saturating, sub_saturating,
    AaRect, FrameExtents, FrameExtentsHeuristic, FrameExtentsHeuristicPath, HintSize,
    LogicalExtent, PhysicalSize, PixelRange, Scale, ScaleFactor, Size,
};

#[test]
fn dimension_within_range_is_kept() {
    assert_eq!(cast_dimension_to_hint(0), 0);
    assert_eq!(cast_dimension_to_hint(800), 800);
    assert_eq!(cast_dimension_to_hint(i32::MAX as u32), i32::MAX);
}

#[test]
fn dimension_above_range_is_clamped() {
    assert_eq!(cast_dimension_to_hint(i32::MAX as u32 + 1), i32::MAX);
    assert_eq!(cast_dimension_to_hint(u32::MAX), i32::MAX);
}

#[test]
fn physical_size_is_cast_side_by_side() {
    let size = PhysicalSize { width: 1600, height: u32::MAX };
    assert_eq!(cast_physical_size_to_hint(size), (1600, i32::MAX));
}

#[test]
fn rectangle_holds_its_edges() {
    let rect = AaRect::new((10, 20), (100, 50));
    assert_eq!(rect, AaRect { x: 10, y: 20, width: 100, height: 50 });
    assert!(rect.contains_point(10, 20));
    assert!(rect.contains_point(110, 70));
    assert!(rect.contains_point(60, 40));
    assert!(!rect.contains_point(9, 20));
    assert!(!rect.contains_point(111, 70));
    assert!(!rect.contains_point(60, 71));
    assert!(!rect.contains_point(60, 19));
}

#[test]
fn rectangle_at_the_far_corner_does_not_overflow() {
    let rect = AaRect { x: i64::MAX, y: i64::MAX, width: 10, height: 10 };
    assert!(rect.contains_point(i64::MAX, i64::MAX));
    assert!(!rect.contains_point(0, 0));
}

#[test]
fn physical_size_hint_is_clamped() {
    let scale = Scale::Factor(ScaleFactor { bits: 2.0f64.to_bits() });
    let size = Size::Physical(PhysicalSize { width: 640, height: u32::MAX });
    assert_eq!(cast_size_to_hint(size, scale), HintSize::Pixels(640, i32::MAX));
    assert_eq!(cast_size_to_unsigned_hint(size, scale), HintSize::Pixels(640, i32::MAX));
}

#[test]
fn logical_size_hint_is_left_to_the_receiver() {
    let scale = Scale::Factor(ScaleFactor { bits: 1.5f64.to_bits() });
    let logical = LogicalExtent { width: 100.0f64.to_bits(), height: 50.0f64.to_bits() };
    assert_eq!(
        cast_size_to_hint(Size::Logical(logical), scale),
        HintSize::Scaled { size: logical, scale, range: PixelRange::Signed }
    );
    assert_eq!(
        cast_size_to_unsigned_hint(Size::Logical(logical), scale),
        HintSize::Scaled { size: logical, scale, range: PixelRange::Unsigned }
    );
}

#[test]
fn coordinates_saturate_at_sixteen_bits() {
    assert_eq!(clamp_to_i16(0), 0);
    assert_eq!(clamp_to_i16(-5), -5);
    assert_eq!(clamp_to_i16(40000), i16::MAX);
    assert_eq!(clamp_to_i16(-40000), i16::MIN);
    assert_eq!(clamp_to_i16(i32::MAX), i16::MAX);
}

#[test]
fn frame_extents_convert_positions_and_sizes() {
    let extents = FrameExtentsHeuristic {
        frame_extents: FrameExtents { left: 4, right: 6, top: 30, bottom: 8 },
        heuristic_path: FrameExtentsHeuristicPath::Supported,
    };
    assert_eq!(extents.surface_position(), (4, 30));
    assert_eq!(extents.inner_pos_to_outer(100, 200), (96, 170));
    assert_eq!(extents.surface_size_to_outer(800, 600), (810, 638));
}

#[test]
fn bordered_frame_extents_leave_positions_alone() {
    let extents = FrameExtentsHeuristic {
        frame_extents: FrameExtents { left: 4, right: 6, top: 30, bottom: 8 },
        heuristic_path: FrameExtentsHeuristicPath::UnsupportedBordered,
    };
    assert_eq!(extents.surface_position(), (0, 0));
    assert_eq!(extents.inner_pos_to_outer(100, 200), (100, 200));
    assert_eq!(extents.surface_size_to_outer(800, 600), (810, 638));
}

#[test]
fn frame_extents_saturate() {
    let extents = FrameExtentsHeuristic {
        frame_extents: FrameExtents { left: u32::MAX, right: u32::MAX, top: 1, bottom: 1 },
        heuristic_path: FrameExtentsHeuristicPath::UnsupportedNested,
    };
    assert_eq!(extents.inner_pos_to_outer(i32::MIN, i32::MIN), (i32::MIN, i32::MIN));
    assert_eq!(extents.inner_pos_to_outer(0, 0), (i32::MIN, -1));
    assert_eq!(extents.surface_size_to_outer(5, u32::MAX), (u32::MAX, u32::MAX));
    assert_eq!(extents.surface_position(), (i32::MAX, 1));
}

#[test]
fn saturating_sums() {
    assert_eq!(add_saturating(1, 2), 3);
    assert_eq!(add_saturating(u32::MAX, 1), u32::MAX);
    assert_eq!(sub_saturating(5, 7), -2);
    assert_eq!(sub_saturating(i32::MIN, 1), i32::MIN);
    assert_eq!(offset_saturating(i32::MAX, 1), i32::MAX);
    assert_eq!(offset_saturating(i32::MIN, -1), i32::MIN);
    assert_eq!(offset_saturating(-3, 10), 7);
}

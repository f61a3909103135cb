use openchute::band::{band_shape, segment_sides, side_value, turn_sides, BandShape, Side};
use openchute::pattern::{corner_rule, CornerRule};
use openchute::shapes::{ChuteSectionType, CircularChuteSection, PolygonalChuteSection};

#[test]
fn band_shapes_by_case() {
    assert_eq!(band_shape(true, 8, false, false, false), BandShape::Empty);
    assert_eq!(band_shape(false, 0, true, false, false), BandShape::Empty);
    assert_eq!(band_shape(false, 8, true, true, true), BandShape::Rectangle);
    assert_eq!(band_shape(false, 1, false, true, true), BandShape::Disk);
    assert_eq!(band_shape(false, 1, false, true, false), BandShape::RingWithoutHole);
    assert_eq!(band_shape(false, 8, false, false, true), BandShape::Sector);
    assert_eq!(band_shape(false, 8, false, false, false), BandShape::AnnularSector);
}

#[test]
fn sides_of_each_outline() {
    assert!(segment_sides(BandShape::Empty).is_empty());
    assert_eq!(segment_sides(BandShape::Rectangle), vec![Side::Right, Side::Top, Side::Left, Side::Bottom]);
    assert_eq!(segment_sides(BandShape::Disk), vec![Side::Bottom]);
    assert_eq!(segment_sides(BandShape::RingWithoutHole), vec![Side::Bottom]);
    assert_eq!(segment_sides(BandShape::Sector), vec![Side::Bottom, Side::Right, Side::Left]);
    assert_eq!(segment_sides(BandShape::AnnularSector), vec![Side::Bottom, Side::Right, Side::Top, Side::Left]);
}

#[test]
fn allowances_turn_with_a_reversed_line() {
    let a = (1.0, 2.0, 3.0, 4.0);
    assert_eq!(turn_sides(a), (3.0, 4.0, 1.0, 2.0));
    assert_eq!(turn_sides(turn_sides(a)), a);
    assert_eq!(side_value(a, Side::Right), 1.0);
    assert_eq!(side_value(a, Side::Top), 2.0);
    assert_eq!(side_value(a, Side::Left), 3.0);
    assert_eq!(side_value(a, Side::Bottom), 4.0);
}

#[test]
fn corner_rules() {
    assert_eq!(corner_rule(true, true, true, true), CornerRule::Keep);
    assert_eq!(corner_rule(false, true, false, true), CornerRule::OffsetMean);
    assert_eq!(corner_rule(false, true, true, false), CornerRule::OffsetEach);
    assert_eq!(corner_rule(false, false, true, true), CornerRule::Cutout);
    assert_eq!(corner_rule(false, false, true, false), CornerRule::Miter);
    assert_eq!(corner_rule(false, false, false, true), CornerRule::Miter);
    assert_eq!(CornerRule::Keep.point_count(), 1);
    assert_eq!(CornerRule::OffsetMean.point_count(), 1);
    assert_eq!(CornerRule::OffsetEach.point_count(), 2);
    assert_eq!(CornerRule::Cutout.point_count(), 3);
    assert_eq!(CornerRule::Miter.point_count(), 1);
}

#[test]
fn section_kinds() {
    let kinds = vec![
        ChuteSectionType::Polygonal(PolygonalChuteSection::new()),
        ChuteSectionType::Circular(CircularChuteSection::new()),
    ];
    assert!(matches!(kinds[0], ChuteSectionType::Polygonal(_)));
    assert!(matches!(kinds[1], ChuteSectionType::Circular(_)));
}

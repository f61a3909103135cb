use openchute::edit::move_entry;
use openchute::labels::{new_input_id, new_parameter_id, piece_label};
use openchute::shapes::{
    CircularChuteSection, ConfigurableEllipse, ConfigurableLine, ConfigurablePointList, GeometryType,
    PolygonalChuteSection,
};
use openchute::units::StandardUnit;

#[test]
fn unit_options_and_names() {
    let opts = StandardUnit::get_options();
    assert_eq!(
        opts,
        vec![
            StandardUnit::UnitLess,
            StandardUnit::MeterFoot,
            StandardUnit::MillimeterInch,
            StandardUnit::Radian,
            StandardUnit::Degree
        ]
    );
    let names: Vec<String> = opts.iter().map(|u| u.get_general_name()).collect();
    assert_eq!(names, vec!["unitless", "m | ft", "mm | in", "rad", "deg"]);
    assert_eq!(StandardUnit::default(), StandardUnit::UnitLess);
}

#[test]
fn default_line_formulas() {
    let l = ConfigurableLine::new();
    assert_eq!(l.expressions, ["0", "0", "1.0", "0.0"].map(String::from));
    let c = CircularChuteSection::new();
    assert_eq!(c.expressions, ["0", "0", "1.0", "0.0"].map(String::from));
}

#[test]
fn default_ellipse_formulas() {
    let e = ConfigurableEllipse::new();
    assert_eq!(e.start_angle, "0.0");
    assert_eq!(e.stop_angle, "0.5 * pi");
    assert_eq!(e.rotation, "0.0");
    assert_eq!(e.radius_x, "1.0");
    assert_eq!(e.radius_y, "1.0");
    assert_eq!(e.center, ["0.0", "0.0"].map(String::from));
}

#[test]
fn default_point_list() {
    let p = ConfigurablePointList::new();
    assert_eq!(p.point_list, "0,0\n1,0");
    assert_eq!(p.scale_x, "1");
    assert_eq!(p.scale_y, "1");
    assert_eq!(p.offset, ["0.0", "0.0"].map(String::from));
}

#[test]
fn polygonal_section_grows_in_order() {
    let mut s = PolygonalChuteSection::new();
    assert!(s.objects.is_empty());
    s.add_line();
    s.add_ellipse();
    s.add_line();
    assert_eq!(s.objects.len(), 3);
    assert!(matches!(s.objects[0], GeometryType::Line(_)));
    assert!(matches!(s.objects[1], GeometryType::EllipseArc(_)));
    assert!(matches!(s.objects[2], GeometryType::Line(_)));
}

#[test]
fn moving_entries() {
    let mut v = vec![1, 2, 3, 4];
    move_entry(&mut v, 2, true);
    assert_eq!(v, vec![1, 3, 2, 4]);
    move_entry(&mut v, 2, false);
    assert_eq!(v, vec![1, 3, 4, 2]);
    move_entry(&mut v, 0, true);
    assert_eq!(v, vec![1, 3, 4, 2]);
    move_entry(&mut v, 3, false);
    assert_eq!(v, vec![1, 3, 4, 2]);
}

#[test]
fn export_labels_and_new_ids() {
    assert_eq!(piece_label(0, 8), "#1(x8)");
    assert_eq!(piece_label(11, 24), "#12(x24)");
    assert_eq!(piece_label(99, 0), "#100(x0)");
    assert_eq!(new_input_id(0), "input1");
    assert_eq!(new_input_id(9), "input10");
    assert_eq!(new_parameter_id(2), "param3");
}

use vstd::prelude::*;
use vstd::string::*;
use crate::names::views_of;
use crate::units::StandardUnit;

verus! {

// The formula side of the shapes: every numeric field of a geometry is typed in
// as a formula, which the evaluator turns into a number whenever the named
// values change.

/// A straight line given by four formulas: begin x, begin y, end x, end y.
pub struct ConfigurableLine {
    pub expressions: [String; 4],
}

/// An elliptical arc given by formulas for its angles, rotation, radii and centre.
pub struct ConfigurableEllipse {
    pub start_angle: String,
    pub stop_angle: String,
    /// Counter-clockwise rotation of the ellipse.
    pub rotation: String,
    pub radius_x: String,
    pub radius_y: String,
    pub center: [String; 2],
}

/// A list of points typed in as text (one `x,y` pair per line), scaled and
/// offset by formulas.
pub struct ConfigurablePointList {
    pub point_list: String,
    pub scale_x: String,
    pub scale_y: String,
    pub offset: [String; 2],
}

/// The formulas of a new line: from the origin to (1, 0).
pub open spec fn is_default_line(l: ConfigurableLine) -> bool {
    views_of(l.expressions@) == seq!["0"@, "0"@, "1.0"@, "0.0"@]
}

/// The formulas of a new arc: a quarter of the unit circle about the origin,
/// starting on the x axis.
pub open spec fn is_default_ellipse(e: ConfigurableEllipse) -> bool {
    &&& e.start_angle@ == "0.0"@
    &&& e.stop_angle@ == "0.5 * pi"@
    &&& e.rotation@ == "0.0"@
    &&& e.radius_x@ == "1.0"@
    &&& e.radius_y@ == "1.0"@
    &&& views_of(e.center@) == seq!["0.0"@, "0.0"@]
}

impl ConfigurableLine {
    pub fn new() -> (r: Self)
        ensures
            is_default_line(r),
    {
        let r = ConfigurableLine {
            expressions: [
                String::from_str("0"),
                String::from_str("0"),
                String::from_str("1.0"),
                String::from_str("0.0"),
            ],
        };
        assert(views_of(r.expressions@) =~= seq!["0"@, "0"@, "1.0"@, "0.0"@]);
        r
    }
}

impl ConfigurableEllipse {
    pub fn new() -> (r: Self)
        ensures
            is_default_ellipse(r),
    {
        let r = ConfigurableEllipse {
            start_angle: String::from_str("0.0"),
            stop_angle: String::from_str("0.5 * pi"),
            rotation: String::from_str("0.0"),
            radius_x: String::from_str("1.0"),
            radius_y: String::from_str("1.0"),
            center: [String::from_str("0.0"), String::from_str("0.0")],
        };
        assert(views_of(r.center@) =~= seq!["0.0"@, "0.0"@]);
        r
    }
}

impl ConfigurablePointList {
    /// A list with the two points (0,0) and (1,0), unscaled and not offset.
    pub fn new() -> (r: Self)
        ensures
            r.point_list@ == "0,0\n1,0"@,
            r.scale_x@ == "1"@,
            r.scale_y@ == "1"@,
            views_of(r.offset@) == seq!["0.0"@, "0.0"@],
    {
        let r = ConfigurablePointList {
            point_list: String::from_str("0,0\n1,0"),
            scale_x: String::from_str("1"),
            scale_y: String::from_str("1"),
            offset: [String::from_str("0.0"), String::from_str("0.0")],
        };
        assert(views_of(r.offset@) =~= seq!["0.0"@, "0.0"@]);
        r
    }
}

/// One piece of a polygonal section's half-profile.
pub enum GeometryType {
    Line(ConfigurableLine),
    EllipseArc(ConfigurableEllipse),
}

/// A band whose half-profile is the given geometries joined in order; the
/// canopy is faceted into straight-sided gores.
pub struct PolygonalChuteSection {
    pub objects: Vec<GeometryType>,
}

impl PolygonalChuteSection {
    /// A section with no geometry yet.
    pub fn new() -> (r: Self)
        ensures
            r.objects@.len() == 0,
    {
        PolygonalChuteSection { objects: Vec::new() }
    }

    /// Appends a default line to the profile.
    pub fn add_line(&mut self)
        ensures
            final(self).objects@.len() == old(self).objects@.len() + 1,
            final(self).objects@.drop_last() == old(self).objects@,
            final(self).objects@.last() matches GeometryType::Line(l) && is_default_line(l),
    {
        self.objects.push(GeometryType::Line(ConfigurableLine::new()));
        assert(self.objects@.drop_last() =~= old(self).objects@);
    }

    /// Appends a default quarter-circle arc to the profile.
    pub fn add_ellipse(&mut self)
        ensures
            final(self).objects@.len() == old(self).objects@.len() + 1,
            final(self).objects@.drop_last() == old(self).objects@,
            final(self).objects@.last() matches GeometryType::EllipseArc(e) && is_default_ellipse(e),
    {
        self.objects.push(GeometryType::EllipseArc(ConfigurableEllipse::new()));
        assert(self.objects@.drop_last() =~= old(self).objects@);
    }
}

/// A band that unrolls onto a cone, cylinder or disk: a single straight line
/// from its inner (vent) point to its outer (skirt) point, each coordinate a
/// formula.
pub struct CircularChuteSection {
    pub expressions: [String; 4],
}

impl CircularChuteSection {
    /// A flat ring from radius 0 to radius 1 at height 0.
    pub fn new() -> (r: Self)
        ensures
            views_of(r.expressions@) == seq!["0"@, "0"@, "1.0"@, "0.0"@],
    {
        let r = CircularChuteSection {
            expressions: [
                String::from_str("0"),
                String::from_str("0"),
                String::from_str("1.0"),
                String::from_str("0.0"),
            ],
        };
        assert(views_of(r.expressions@) =~= seq!["0"@, "0"@, "1.0"@, "0.0"@]);
        r
    }
}

/// The two kinds of chute section.
pub enum ChuteSectionType {
    Polygonal(PolygonalChuteSection),
    Circular(CircularChuteSection),
}

/// A named value computed from a formula over the inputs and the parameters
/// listed before it.
pub struct ParameterValue {
    pub id: String,
    pub expression: String,
    /// Unit used only when the value is shown.
    pub display_unit: StandardUnit,
}

} // verus!

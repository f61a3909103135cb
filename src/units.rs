use vstd::prelude::*;

verus! {

/// Unit pair offered for an input slider (metric | imperial).
#[derive(Clone, Copy, Debug, PartialEq, Eq, Structural, Default)]
pub enum StandardUnit {
    #[default]
    UnitLess,
    MeterFoot,
    MillimeterInch,
    Radian,
    Degree,
}

/// The label shown for each unit choice.
pub open spec fn general_name(u: StandardUnit) -> Seq<char> {
    match u {
        StandardUnit::UnitLess => "unitless"@,
        StandardUnit::MeterFoot => "m | ft"@,
        StandardUnit::MillimeterInch => "mm | in"@,
        StandardUnit::Radian => "rad"@,
        StandardUnit::Degree => "deg"@,
    }
}

impl StandardUnit {
    /// Every unit choice, in the order a selector lists them.
    pub fn get_options() -> (r: Vec<StandardUnit>)
        ensures
            r@ == seq![
                StandardUnit::UnitLess,
                StandardUnit::MeterFoot,
                StandardUnit::MillimeterInch,
                StandardUnit::Radian,
                StandardUnit::Degree,
            ],
    {
        vec![
            StandardUnit::UnitLess,
            StandardUnit::MeterFoot,
            StandardUnit::MillimeterInch,
            StandardUnit::Radian,
            StandardUnit::Degree,
        ]
    }

    pub fn get_general_name(&self) -> (r: String)
        ensures
            r@ == general_name(*self),
    {
        match self {
            StandardUnit::UnitLess => String::from_str("unitless"),
            StandardUnit::MeterFoot => String::from_str("m | ft"),
            StandardUnit::MillimeterInch => String::from_str("mm | in"),
            StandardUnit::Radian => String::from_str("rad"),
            StandardUnit::Degree => String::from_str("deg"),
        }
    }
}

} // verus!

//! Small value enums backed by integer header variables.
//!
//! Each enum converts to and from the 16-bit integer that travels on the
//! wire.  An out-of-range integer falls back to the enum's documented
//! default variant instead of failing the read.

use vstd::prelude::*;

verus! {

/// Direction in which angles grow (`$ANGDIR`).
#[derive(Clone, Copy, PartialEq, Eq, Structural, Debug)]
pub enum AngleDirection {
    CounterClockwise,
    Clockwise,
}

pub open spec fn spec_angle_direction_from_i16(v: i16) -> AngleDirection {
    if v == 1 {
        AngleDirection::Clockwise
    } else {
        AngleDirection::CounterClockwise
    }
}

pub open spec fn spec_angle_direction_to_i16(d: AngleDirection) -> i16 {
    match d {
        AngleDirection::CounterClockwise => 0,
        AngleDirection::Clockwise => 1,
    }
}

impl AngleDirection {
    pub fn from_i16(v: i16) -> (r: AngleDirection)
        ensures
            r == spec_angle_direction_from_i16(v),
    {
        if v == 1 {
            AngleDirection::Clockwise
        } else {
            AngleDirection::CounterClockwise
        }
    }

    pub fn to_i16(self) -> (r: i16)
        ensures
            r == spec_angle_direction_to_i16(self),
    {
        match self {
            AngleDirection::CounterClockwise => 0,
            AngleDirection::Clockwise => 1,
        }
    }
}

/// Visibility of block attributes (`$ATTMODE`).
#[derive(Clone, Copy, PartialEq, Eq, Structural, Debug)]
pub enum AttributeVisibility {
    Hidden,
    Normal,
    All,
}

pub open spec fn spec_attribute_visibility_from_i16(v: i16) -> AttributeVisibility {
    if v == 0 {
        AttributeVisibility::Hidden
    } else if v == 2 {
        AttributeVisibility::All
    } else {
        AttributeVisibility::Normal
    }
}

pub open spec fn spec_attribute_visibility_to_i16(a: AttributeVisibility) -> i16 {
    match a {
        AttributeVisibility::Hidden => 0,
        AttributeVisibility::Normal => 1,
        AttributeVisibility::All => 2,
    }
}

impl AttributeVisibility {
    pub fn from_i16(v: i16) -> (r: AttributeVisibility)
        ensures
            r == spec_attribute_visibility_from_i16(v),
    {
        if v == 0 {
            AttributeVisibility::Hidden
        } else if v == 2 {
            AttributeVisibility::All
        } else {
            AttributeVisibility::Normal
        }
    }

    pub fn to_i16(self) -> (r: i16)
        ensures
            r == spec_attribute_visibility_to_i16(self),
    {
        match self {
            AttributeVisibility::Hidden => 0,
            AttributeVisibility::Normal => 1,
            AttributeVisibility::All => 2,
        }
    }
}

/// Format in which angles are displayed (`$AUNITS`).
#[derive(Clone, Copy, PartialEq, Eq, Structural, Debug)]
pub enum AngleFormat {
    DecimalDegrees,
    DegreesMinutesSeconds,
    Gradians,
    Radians,
    SurveyorsUnits,
}

pub open spec fn spec_angle_format_from_i16(v: i16) -> AngleFormat {
    if v == 1 {
        AngleFormat::DegreesMinutesSeconds
    } else if v == 2 {
        AngleFormat::Gradians
    } else if v == 3 {
        AngleFormat::Radians
    } else if v == 4 {
        AngleFormat::SurveyorsUnits
    } else {
        AngleFormat::DecimalDegrees
    }
}

pub open spec fn spec_angle_format_to_i16(a: AngleFormat) -> i16 {
    match a {
        AngleFormat::DecimalDegrees => 0,
        AngleFormat::DegreesMinutesSeconds => 1,
        AngleFormat::Gradians => 2,
        AngleFormat::Radians => 3,
        AngleFormat::SurveyorsUnits => 4,
    }
}

impl AngleFormat {
    pub fn from_i16(v: i16) -> (r: AngleFormat)
        ensures
            r == spec_angle_format_from_i16(v),
    {
        if v == 1 {
            AngleFormat::DegreesMinutesSeconds
        } else if v == 2 {
            AngleFormat::Gradians
        } else if v == 3 {
            AngleFormat::Radians
        } else if v == 4 {
            AngleFormat::SurveyorsUnits
        } else {
            AngleFormat::DecimalDegrees
        }
    }

    pub fn to_i16(self) -> (r: i16)
        ensures
            r == spec_angle_format_to_i16(self),
    {
        match self {
            AngleFormat::DecimalDegrees => 0,
            AngleFormat::DegreesMinutesSeconds => 1,
            AngleFormat::Gradians => 2,
            AngleFormat::Radians => 3,
            AngleFormat::SurveyorsUnits => 4,
        }
    }
}

/// Format in which linear units are displayed (`$LUNITS`).
#[derive(Clone, Copy, PartialEq, Eq, Structural, Debug)]
pub enum UnitFormat {
    Scientific,
    Decimal,
    Engineering,
    ArchitecturalStacked,
    FractionalStacked,
    Architectural,
    Fractional,
}

pub open spec fn spec_unit_format_from_i16(v: i16) -> UnitFormat {
    if v == 1 {
        UnitFormat::Scientific
    } else if v == 3 {
        UnitFormat::Engineering
    } else if v == 4 {
        UnitFormat::ArchitecturalStacked
    } else if v == 5 {
        UnitFormat::FractionalStacked
    } else if v == 6 {
        UnitFormat::Architectural
    } else if v == 7 {
        UnitFormat::Fractional
    } else {
        UnitFormat::Decimal
    }
}

pub open spec fn spec_unit_format_to_i16(u: UnitFormat) -> i16 {
    match u {
        UnitFormat::Scientific => 1,
        UnitFormat::Decimal => 2,
        UnitFormat::Engineering => 3,
        UnitFormat::ArchitecturalStacked => 4,
        UnitFormat::FractionalStacked => 5,
        UnitFormat::Architectural => 6,
        UnitFormat::Fractional => 7,
    }
}

impl UnitFormat {
    pub fn from_i16(v: i16) -> (r: UnitFormat)
        ensures
            r == spec_unit_format_from_i16(v),
    {
        if v == 1 {
            UnitFormat::Scientific
        } else if v == 3 {
            UnitFormat::Engineering
        } else if v == 4 {
            UnitFormat::ArchitecturalStacked
        } else if v == 5 {
            UnitFormat::FractionalStacked
        } else if v == 6 {
            UnitFormat::Architectural
        } else if v == 7 {
            UnitFormat::Fractional
        } else {
            UnitFormat::Decimal
        }
    }

    pub fn to_i16(self) -> (r: i16)
        ensures
            r == spec_unit_format_to_i16(self),
    {
        match self {
            UnitFormat::Scientific => 1,
            UnitFormat::Decimal => 2,
            UnitFormat::Engineering => 3,
            UnitFormat::ArchitecturalStacked => 4,
            UnitFormat::FractionalStacked => 5,
            UnitFormat::Architectural => 6,
            UnitFormat::Fractional => 7,
        }
    }
}

} // verus!

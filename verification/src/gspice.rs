//! The symbol vocabulary of the native schematic dialect: rotations and
//! instance-name letters.

use vstd::prelude::*;

use crate::text::str_eq;

verus! {

pub enum Rotation {
    R0,
    R90,
    R180,
    R270,
}

/// Which rotation a text such as `R90` denotes; anything unrecognized is
/// the zero rotation.
pub open spec fn rotation_of_text(s: Seq<char>) -> Rotation {
    if s == "R90"@ {
        Rotation::R90
    } else if s == "R180"@ {
        Rotation::R180
    } else if s == "R270"@ {
        Rotation::R270
    } else {
        Rotation::R0
    }
}

/// Which rotation an angle in degrees denotes; anything unrecognized is
/// the zero rotation.
pub open spec fn rotation_of_number(n: int) -> Rotation {
    if n == 90 {
        Rotation::R90
    } else if n == 180 {
        Rotation::R180
    } else if n == 270 {
        Rotation::R270
    } else {
        Rotation::R0
    }
}

/// The text of a rotation.
pub open spec fn rotation_text(r: Rotation) -> Seq<char> {
    match r {
        Rotation::R0 => "R0"@,
        Rotation::R90 => "R90"@,
        Rotation::R180 => "R180"@,
        Rotation::R270 => "R270"@,
    }
}

impl Rotation {
    pub fn from_string(value: &str) -> (r: Rotation)
        ensures
            r == rotation_of_text(value@),
    {
        if str_eq(value, "R90") {
            Rotation::R90
        } else if str_eq(value, "R180") {
            Rotation::R180
        } else if str_eq(value, "R270") {
            Rotation::R270
        } else {
            Rotation::R0
        }
    }

    pub fn from_number(value: i32) -> (r: Rotation)
        ensures
            r == rotation_of_number(value as int),
    {
        match value {
            90 => Rotation::R90,
            180 => Rotation::R180,
            270 => Rotation::R270,
            _ => Rotation::R0,
        }
    }

    pub fn to_string(&self) -> (r: String)
        ensures
            r@ == rotation_text(*self),
    {
        match self {
            Rotation::R0 => String::from_str("R0"),
            Rotation::R90 => String::from_str("R90"),
            Rotation::R180 => String::from_str("R180"),
            Rotation::R270 => String::from_str("R270"),
        }
    }

    /// Renders an angle in degrees directly as rotation text.
    pub fn from_number_to_string(value: i32) -> (r: String)
        ensures
            r@ == rotation_text(rotation_of_number(value as int)),
    {
        match value {
            90 => String::from_str("R90"),
            180 => String::from_str("R180"),
            270 => String::from_str("R270"),
            _ => String::from_str("R0"),
        }
    }

    /// The angle of the rotation in degrees.
    pub fn to_number(&self) -> (r: i32)
        ensures
            r == (match self {
                Rotation::R0 => 0int,
                Rotation::R90 => 90int,
                Rotation::R180 => 180int,
                Rotation::R270 => 270int,
            }),
    {
        match self {
            Rotation::R0 => 0,
            Rotation::R90 => 90,
            Rotation::R180 => 180,
            Rotation::R270 => 270,
        }
    }
}

/// The instance-name letter of each supported element kind.
pub enum InstanceName {
    R,
    C,
    L,
    V,
    I,
    Q,
}

/// The letter of an instance name.
pub open spec fn instance_letter(i: InstanceName) -> Seq<char> {
    match i {
        InstanceName::R => "R"@,
        InstanceName::C => "C"@,
        InstanceName::L => "L"@,
        InstanceName::V => "V"@,
        InstanceName::I => "I"@,
        InstanceName::Q => "Q"@,
    }
}

impl InstanceName {
    pub fn to_string(&self) -> (r: String)
        ensures
            r@ == instance_letter(*self),
    {
        match self {
            InstanceName::R => String::from_str("R"),
            InstanceName::C => String::from_str("C"),
            InstanceName::L => String::from_str("L"),
            InstanceName::V => String::from_str("V"),
            InstanceName::I => String::from_str("I"),
            InstanceName::Q => String::from_str("Q"),
        }
    }

    pub fn from_string(value: &str) -> (r: Option<InstanceName>)
        ensures
            match r {
                Some(i) => value@ == instance_letter(i),
                None => value@ != "R"@ && value@ != "C"@ && value@ != "L"@ && value@ != "V"@
                    && value@ != "I"@ && value@ != "Q"@,
            },
    {
        if str_eq(value, "R") {
            Some(InstanceName::R)
        } else if str_eq(value, "C") {
            Some(InstanceName::C)
        } else if str_eq(value, "L") {
            Some(InstanceName::L)
        } else if str_eq(value, "V") {
            Some(InstanceName::V)
        } else if str_eq(value, "I") {
            Some(InstanceName::I)
        } else if str_eq(value, "Q") {
            Some(InstanceName::Q)
        } else {
            None
        }
    }
}

} // verus!

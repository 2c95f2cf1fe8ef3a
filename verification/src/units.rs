//! The physical quantities that circuit attributes carry.  Each quantity
//! wraps one signed base value and renders it in decimal.

use vstd::prelude::*;

use crate::text::{fmt_i16, int_rep};

verus! {

/// One physical quantity: a signed base value with decimal rendering.
pub trait Unit: Sized {
    spec fn base_spec(&self) -> int;

    fn new(base: i16) -> (r: Self)
        ensures
            r.base_spec() == base as int,
    ;

    fn format(&self) -> (r: String)
        ensures
            r@ == int_rep(self.base_spec()),
    ;
}

#[derive(Debug, Clone)]
pub struct Frequency {
    base: i16,
}

impl Unit for Frequency {
    closed spec fn base_spec(&self) -> int {
        self.base as int
    }

    fn new(base: i16) -> Self {
        Self { base }
    }

    fn format(&self) -> String {
        fmt_i16(self.base)
    }
}

#[derive(Debug, Clone)]
pub struct Time {
    base: i16,
}

impl Unit for Time {
    closed spec fn base_spec(&self) -> int {
        self.base as int
    }

    fn new(base: i16) -> Self {
        Self { base }
    }

    fn format(&self) -> String {
        fmt_i16(self.base)
    }
}

#[derive(Debug, Clone)]
pub struct Resistance {
    base: i16,
}

impl Unit for Resistance {
    closed spec fn base_spec(&self) -> int {
        self.base as int
    }

    fn new(base: i16) -> Self {
        Self { base }
    }

    fn format(&self) -> String {
        fmt_i16(self.base)
    }
}

#[derive(Debug, Clone)]
pub struct Capacitance {
    base: i16,
}

impl Unit for Capacitance {
    closed spec fn base_spec(&self) -> int {
        self.base as int
    }

    fn new(base: i16) -> Self {
        Self { base }
    }

    fn format(&self) -> String {
        fmt_i16(self.base)
    }
}

#[derive(Debug, Clone)]
pub struct Inductance {
    base: i16,
}

impl Unit for Inductance {
    closed spec fn base_spec(&self) -> int {
        self.base as int
    }

    fn new(base: i16) -> Self {
        Self { base }
    }

    fn format(&self) -> String {
        fmt_i16(self.base)
    }
}

#[derive(Debug, Clone)]
pub struct Voltage {
    base: i16,
}

impl Unit for Voltage {
    closed spec fn base_spec(&self) -> int {
        self.base as int
    }

    fn new(base: i16) -> Self {
        Self { base }
    }

    fn format(&self) -> String {
        fmt_i16(self.base)
    }
}

#[derive(Debug, Clone)]
pub struct Current {
    base: i16,
}

impl Unit for Current {
    closed spec fn base_spec(&self) -> int {
        self.base as int
    }

    fn new(base: i16) -> Self {
        Self { base }
    }

    fn format(&self) -> String {
        fmt_i16(self.base)
    }
}

#[derive(Debug, Clone)]
pub struct Phase {
    base: i16,
}

impl Unit for Phase {
    closed spec fn base_spec(&self) -> int {
        self.base as int
    }

    fn new(base: i16) -> Self {
        Self { base }
    }

    fn format(&self) -> String {
        fmt_i16(self.base)
    }
}

#[derive(Debug, Clone)]
pub struct Dimensionless {
    base: i16,
}

impl Unit for Dimensionless {
    closed spec fn base_spec(&self) -> int {
        self.base as int
    }

    fn new(base: i16) -> Self {
        Self { base }
    }

    fn format(&self) -> String {
        fmt_i16(self.base)
    }
}

#[derive(Debug, Clone)]
pub struct Energy {
    base: i16,
}

impl Unit for Energy {
    closed spec fn base_spec(&self) -> int {
        self.base as int
    }

    fn new(base: i16) -> Self {
        Self { base }
    }

    fn format(&self) -> String {
        fmt_i16(self.base)
    }
}

#[derive(Debug, Clone)]
pub struct Conductance {
    base: i16,
}

impl Unit for Conductance {
    closed spec fn base_spec(&self) -> int {
        self.base as int
    }

    fn new(base: i16) -> Self {
        Self { base }
    }

    fn format(&self) -> String {
        fmt_i16(self.base)
    }
}

} // verus!

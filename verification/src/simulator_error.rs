//! The failures the simulator core reports.  Every variant that concerns
//! one element or one field carries its name, so a caller can point at
//! the offending part of the schematic.

use vstd::prelude::*;

use crate::unit::UnitOfMagnitudeError;

verus! {

#[derive(Debug)]
pub enum SimulatorError {
    /// An element had fewer resolved connections than its terminals need.
    FloatingNode(String),
    /// An element was placed without its required configuration value.
    UnconfiguredElement(String),
    /// An element could not be rendered as a netlist line.
    ElementParserError(String),
    /// No schematic was loaded before a simulation was requested.
    NoSchematicFound,
    /// A magnitude failed to parse.
    UnitError(UnitOfMagnitudeError),
    /// A request configuration field was missing or malformed.
    MalformedSimulationConfig(String),
    /// The schematic file could not be written.
    FailedToSaveGraphicSpiceFile,
}

} // verus!

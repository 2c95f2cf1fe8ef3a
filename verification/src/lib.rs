//! Core of a schematic-driven circuit simulator: engineering-notation unit
//! values, a schematic-to-netlist compiler, and the state machine that
//! distributes simulation requests over a pool of engine workers.

pub mod canvas;
pub mod commands;
pub mod compiler;
pub mod element;
pub mod gspice;
pub mod ltspice;
pub mod position;
pub mod schematic;
pub mod simulation;
pub mod simulation_data;
pub mod simulation_status;
pub mod simulator_error;
pub mod text;
pub mod unit;
pub mod units;

//! Core logic of a schematic viewer for a fixed MOSFET/resistor circuit:
//! a parameter store, an operating-point result set, the bridge that turns
//! parameter edits into simulator alteration directives, the MOSFET region
//! classification, and the fixed netlist and drawing data.

pub mod bridge;
pub mod circuit;
pub mod kv;
pub mod laws;
pub mod params;
pub mod results;
pub mod scalar;
pub mod region;
pub mod scene;

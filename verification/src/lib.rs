//! Marching-cubes terrain kernel: a chunked point lattice, cube
//! classification against the 256-case tables, triangle assembly and
//! vertex welding, with every function verified by Verus.

pub mod generation;
pub mod scalar;
pub mod ui;
pub mod utils;

//! Image operating tool: a fixed, canonical sequence of picture
//! transformations (quarter turns, mirroring, brightness) with a
//! mathematical account of what each one does to the pixels.

pub mod grid;
pub mod options;
pub mod pipeline;
pub mod raster;

pub use grid::Grid;
pub use options::{Destination, Filter, Opt, Step, STEP_COUNT};
pub use pipeline::{do_operations, Outcome};

//! The detection worker of an interactive image-detection application, as a
//! verified state machine, together with the data it exchanges with its caller.

pub mod backend;
pub mod frontend;
pub mod io;
pub mod model;
pub mod screen;

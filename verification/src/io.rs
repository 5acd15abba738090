//! Getting an image from the user.

use vstd::prelude::*;

verus! {

/// Why no image reached the application.
#[derive(Debug, Clone, Copy, PartialEq, Eq, Structural)]
pub enum LoadError {
    /// The file dialog was dismissed without a choice.
    Cancelled,
    /// The chosen file could not be opened or decoded.
    FileError,
}

} // verus!

//! The screens of the application.

pub mod inference;

use vstd::prelude::*;

verus! {

/// The screens of the application.
#[derive(Debug, Clone, Copy, PartialEq, Eq, Structural)]
pub enum Screen {
    Loading,
    Inference,
}

} // verus!

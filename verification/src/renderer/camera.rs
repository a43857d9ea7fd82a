//! Camera orientation.
use vstd::prelude::*;

verus! {

/// Corner of the screen where a camera puts its origin.
#[derive(Copy, Clone, Debug, PartialEq, Eq, Structural)]
pub enum CameraOrigin {
    LeftTop,
    LeftBottom,
}

} // verus!

//! What a drawing surface reports of the pointer.
//!
//! The geometry of a drawing (points, rectangles, paths) is measured in
//! floating-point logical pixels and stays with the backends; the kind of a
//! pointer movement is plain data and lives here.
use vstd::prelude::*;

verus! {

/// The kind of a pointer (mouse, touch, pen) movement.
#[derive(Debug, Clone, Copy, PartialEq, Eq, Structural, Hash)]
pub enum PointerPhase {
    /// Pressed.
    Down,
    /// Moved; also reported while nothing is pressed (hover).
    Move,
    /// Released.
    Up,
}

} // verus!

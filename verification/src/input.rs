//! The keys and buttons that the games listen to, and the direction that
//! held keys give.

use vstd::prelude::*;

verus! {

/// A key of the keyboard, as far as any of the games tells it apart.
#[derive(Clone, Copy, Debug, PartialEq, Eq, Structural)]
pub enum Key {
    W,
    A,
    S,
    D,
    Space,
    /// Any key that no game listens to.
    Other,
}

/// A button of the mouse.
#[derive(Clone, Copy, Debug, PartialEq, Eq, Structural)]
pub enum Button {
    Left,
    /// Any button that no game listens to.
    Other,
}

/// The direction of a walk, in terms of the body's look and side vectors.
#[derive(Clone, Copy, Debug, PartialEq, Eq, Structural)]
pub struct Heading {
    /// How often the look vector counts: -1, 0 or 1.
    pub look: i8,
    /// How often the side vector counts: -1, 0 or 1.
    pub side: i8,
}

} // verus!

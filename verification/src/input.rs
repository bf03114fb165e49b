//! The keys the scene binds.

use vstd::prelude::*;

verus! {

/// A keyboard key with a binding or an effect in this scene.
#[derive(Clone, Copy, PartialEq, Eq, Structural, Debug)]
pub enum Key {
    Comma,
    O,
    A,
    E,
    Space,
    LShift,
    Escape,
}

} // verus!

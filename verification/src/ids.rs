//! Stable object identifiers.
//!
//! The game engine assigns every world object a stable identifier that is
//! safe to persist across ticks; live handles obtained from an identifier
//! are valid only within the tick that resolved them.  The engine's packed
//! identifier fits in 128 bits, so the library stores it as a plain `u128`.
//! Resolution of an identifier to a live handle is the host's job and is
//! always fallible: the object may have been destroyed or have left
//! visibility since the identifier was stored.

use vstd::prelude::*;

verus! {

/// A stable, persistable reference to a game world object.
#[derive(Clone, Copy, Debug, PartialEq, Eq, Structural)]
pub struct ObjectId(pub u128);

} // verus!

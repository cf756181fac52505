//! Per-tick decision engine for a colony of autonomous game agents.
//!
//! The host re-invokes the engine once per discrete time step ("tick") with
//! no in-process state surviving between invocations.  Everything durable
//! lives in a per-entity persisted memory blob; everything live (object
//! handles, world observations) is valid for the current tick only.  The
//! engine therefore consists of pure decision functions: given the raw
//! persisted memory and a snapshot of this tick's observations, they return
//! the action to attempt and the memory to write back.  The thin host shim
//! that talks to the game engine performs the actions and the memory writes.

pub mod codec;
pub mod creep;
pub mod ids;
pub mod memory;
pub mod spawner;
pub mod structures;
pub mod tick;
pub mod wire;

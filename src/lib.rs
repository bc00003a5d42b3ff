//! A single-slot container that hands out at most one exclusive guard at a
//! time, with poisoning and a lazily created native lock for blocking waits.

pub mod exclusive;
pub mod lemmas;
pub mod lock;
pub mod state;

pub use exclusive::{ExclusiveView, LazyExclusive, Mut};
pub use lock::{Lock, LockPhase, NativeOp};
pub use state::{State, StateCell};

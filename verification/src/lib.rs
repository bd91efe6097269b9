//! An in-memory, string-keyed store with per-entry expiry that is enforced
//! lazily, when an entry is read.
//!
//! The executable store lives in [`store`]. What it does is stated over the
//! mathematical model in [`model`] and [`pattern`], and the laws that follow
//! from that model are proved in [`laws`]. The system clock is read through
//! [`clock`].

pub mod clock;
mod distinct;
pub mod laws;
pub mod model;
pub mod pattern;
pub mod store;

pub use clock::ClockError;
pub use model::{EntryView, StoreView};
pub use store::{Database, Entry};

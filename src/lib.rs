//! A registry of uniquely identified creatures: creation, breeding of two
//! creatures into a new one, and transfer of ownership, with a bounded number
//! of creatures per owner.

pub mod genome;
pub mod laws;
pub mod pallet;
pub mod random;
pub mod state;

pub use genome::{combine, Kitty};
pub use pallet::Pallet;
pub use random::{random_value, Entropy};
pub use state::{Config, Error, Event};

//! A registry and marketplace of collectible kitties.
//!
//! Every kitty has a unique index, an immutable 16-byte DNA and exactly one
//! owner. New kitties are created from entropy or bred from two parents by a
//! bitwise crossover of their DNA; owners may hand kitties over, offer them
//! for sale and buy them from each other.

//!
//! The registry is `pallet::Pallet`. What each of its calls does is defined
//! on a mathematical model of the state in `model`, and `laws` holds what
//! follows for every sequence of calls. Randomness and payments come from
//! outside: a call is handed the chain's random seed, and a purchase is
//! handed the function that moves the money.

pub mod dna;
pub mod laws;
pub mod model;
pub mod pallet;
pub mod randomness;
pub mod sums;
pub mod types;

pub use crate::pallet::Pallet;
pub use crate::types::{Error, Event, Kitty};

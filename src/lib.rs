//! Key infrastructure for stealth addresses over the JubJub curve.
//!
//! A secret spend key `(a, b)` has the public image `(a·G, b·G)`. A sender
//! derives from it a one-time stealth address `(r·G, H(r·A)·G + B)`; the
//! holder of the view key `(a, B)` recognises it, and only the holder of the
//! secret spend key recovers the one-time secret `H(a·R) + b`.
#![allow(non_snake_case)]

mod bytes;
mod decode;
mod error;
mod hexstr;
pub mod laws;
mod permutation;
mod point;
mod public_key;
mod public_spend_key;
mod scalar;
mod secret_key;
mod secret_spend_key;
mod stealth;
mod view;

pub use decode::{decode, From32Bytes};
pub use error::Error;
pub use permutation::hash;
pub use point::Point;
pub use public_key::PublicKey;
pub use public_spend_key::PublicSpendKey;
pub use scalar::Scalar;
pub use secret_key::SecretKey;
pub use secret_spend_key::SecretSpendKey;
pub use stealth::{Ownable, StealthAddress};
pub use view::ViewKey;

//! Cryptographic core of the Tachyon shielded-transaction protocol.
//!
//! The crate builds, authorizes, aggregates, strips and verifies transaction
//! bundles made of actions (unified spends and outputs). Each action commits
//! to a note value with a Pedersen commitment over the Pallas curve and is
//! authorized by a per-action randomized RedPallas key; a bundle-wide binding
//! signature proves value balance.
//!
//! The outside cryptography (BLAKE2b, Pallas arithmetic, RedPallas
//! signatures) is reached through a small set of trusted wrappers in
//! [`primitives`]; everything layered on top of those wrappers is verified.

pub mod action;
pub mod bundle;
pub mod constants;
pub mod custody;
pub mod encoding;
pub mod error;
pub mod keys;
pub mod note;
pub mod pcd;
pub mod primitives;
pub mod stamp;
pub mod value;
pub mod witness;

pub use action::Action;
pub use bundle::{Bundle, Stamped, Stripped};
pub use error::EncodingError;
pub use note::{Note, Nullifier};
pub use pcd::Proof;
pub use primitives::{Anchor, Epoch, Tachygram};
pub use stamp::Stamp;

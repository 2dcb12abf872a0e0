//! MD5 message digest, built from integer and bit operations, with its
//! behaviour stated and proved over sequences of bytes and words.

pub mod bits;
pub mod block;
pub mod digest;
pub mod padding;
pub mod round;
pub mod state;
pub mod tables;
pub mod words;

pub use crate::digest::{digest, md5};
pub use crate::padding::add_padding;
pub use crate::round::Round;
pub use crate::state::Md5State;

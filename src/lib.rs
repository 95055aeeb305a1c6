//! Minimal UUID implementation: a 16-byte value, its canonical text form, and the
//! RFC4122 generation schemes (time-based, name-based, random).
use vstd::prelude::*;

pub mod digest;
pub mod error;
pub mod hex;
pub mod laws;
pub mod random;
pub mod text;
pub mod timestamp;
pub mod uuid;

pub use crate::error::ParseError;
pub use crate::hex::{byte_to_hex, hex_to_byte};
pub use crate::text::TextRepr;
pub use crate::timestamp::Timestamp;
pub use crate::uuid::{Uuid, Version, UUID_SIZE};

verus! {

} // verus!

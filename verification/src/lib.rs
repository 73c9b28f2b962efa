//! Byte-level facade over two post-quantum primitives: the Kyber-512
//! key-encapsulation mechanism and the Falcon-512 detached-signature scheme.
//!
//! The two modules, [`kem`] and [`signature`], share nothing but the error
//! type. Every operation is a function of its inputs and, where it generates
//! something, of the system's random source: the crate keeps no state.
//!
//! The primitives themselves are the work of the primitive library. What this
//! crate assumes of them stands in [`kyber512`] and [`falcon512`], and what it
//! assumes of the primitive library's error at the head of [`error`];
//! everything else is proved.

pub mod error;
pub mod falcon512;
pub mod kem;
pub mod kyber512;
pub mod signature;
pub mod tamper;

pub use error::{Argument, InvalidEncoding};
pub use kem::{kyber_decapsulate, kyber_encapsulate, kyber_keygen};
pub use signature::{falcon_keygen, falcon_sign, falcon_verify};

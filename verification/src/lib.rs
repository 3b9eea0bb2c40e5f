//! Request signing for a cloud billing query: from the attributes of one
//! request and one instant, the header set that authenticates the request.
//!
//! The signature scheme chains keyed hashes over a canonical text of the
//! request. Everything here is a pure function of its arguments; the clock,
//! the credentials file and the network belong to the caller.
//!
//! - `derivers`: the arguments of a request and the derivation of its headers.
//! - `canonical`: the canonical request and the texts assembled around it.
//! - `signers`: the digest, the keyed hash and the key derivation chain.
//! - `timestamp`: the instant of a request and its two renderings.
//! - `headers`: the header set that comes out.
//! - `payload`: the body of a billing query.
//! - `text`: numerals, hexadecimal digits and case folding.
//! - `header_names`, `sensitivity`: what holds of the texts that are signed.
//! - `errors`: the ways in which signing fails.

pub mod canonical;
pub mod derivers;
pub mod errors;
pub mod header_names;
pub mod headers;
pub mod payload;
pub mod sensitivity;
pub mod signers;
pub mod text;
pub mod timestamp;

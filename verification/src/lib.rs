//! Signed session tokens under one shared secret: issuing, verifying and
//! provisioning of secrets.
//!
//! A token carries a numeric subject, an absolute expiry in Unix seconds and a
//! random token identifier. Signing and the wire format are done by the
//! `jsonwebtoken` crate; what is decided around it (the expiry rule, the shape
//! of the claims, the failure kinds) is verified here.

pub mod claims;
pub mod framing;
pub mod keygen;
pub mod laws;
pub mod outside;
pub mod token;

pub use claims::{ClaimValue, Claims, ClaimsView, DecodeFailure, TokenError};
pub use keygen::{encode_key, secret_key, secret_key_from};
pub use token::RustToken;

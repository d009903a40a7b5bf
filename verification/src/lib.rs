//! Commit-verification core of a BFT light client.
//!
//! Given a signed header (a block header together with the commit that
//! attests to it) and a candidate validator set, this library decides
//! whether the commit is structurally well-formed for that set and how
//! much voting power actually signed the header, checking every
//! signature cryptographically.  Both operations carry machine-checked
//! contracts; the ed25519 signature check itself is delegated to an
//! outside implementation and is the library's trust boundary.

pub mod account;
pub mod block;
pub mod error;
pub mod hash;
pub mod lite;
pub mod signed_header;
pub mod textfmt;
pub mod validator;
pub mod vote;

//! Core of an owner-addressed blogging ledger: deterministic record
//! addressing, exact byte-size accounting at creation time, and per-record
//! authorization for every mutating operation.
//!
//! Records live in an external key/value account store at addresses the
//! library derives; the store hands back fixed-size buffers whose layout the
//! codec here pins down.  The dispatch boundary hands the library
//! already-authenticated signer identities and plain instruction arguments.

use vstd::prelude::*;

pub mod addr;
pub mod auth;
pub mod codec;
pub mod records;
pub mod store;

verus! {

/// The error taxonomy of the ledger core.  Every failing operation aborts
/// with exactly one of these kinds and leaves every record untouched.
#[derive(Clone, Copy, Debug, PartialEq, Eq, Structural)]
pub enum BlogError {
    /// An attempt to initialize a record at an address already claimed.
    AddressCollision,
    /// The post sequencing seed would overflow its one-byte domain.
    AddressSpaceExhausted,
    /// The signer does not match the record owner.
    Unauthorized,
    /// A subscriber append beyond the declared capacity.
    CapacityExceeded,
    /// New variable-length content exceeds the bytes reserved at creation.
    SpaceOverrun,
}

} // verus!

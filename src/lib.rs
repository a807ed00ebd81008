//! A handle and dispatch protocol for driving long-lived wallet sessions from a
//! host runtime that cannot hold native objects.
//!
//! The host holds only a handle record: an address and a type tag, both as
//! big-endian bytes. Every call presents it again; the library checks the tag,
//! resolves the address in a table of live objects whose stale addresses are
//! never reused, and decides per request whether the object is borrowed or,
//! for the destructor, taken out of the table.
use vstd::prelude::*;

pub mod handle;
pub mod registry;
pub mod error;
pub mod request;
pub mod dispatch;
pub mod construct;
pub mod codec;
pub mod chain;
pub mod operation;
pub mod keys;

verus! {

} // verus!

//! A request-handling bridge between a host WASM runtime and handler code.
//!
//! - `directive`: how a buffer is materialised (no transfer, copy, reference).
//! - `view`: bounded views over materialised bytes, with scoped release.
//! - `bind`: the context handle and the two-step bind protocol around the
//!   native transfer.
//! - `handler`: the handler logic run against the bound views.
//! - `lifecycle`: the init / request / end entry points and their ordering.
use vstd::prelude::*;

pub mod directive;
pub mod view;
pub mod bind;
pub mod handler;
pub mod lifecycle;

verus! {

} // verus!

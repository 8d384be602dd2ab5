//! Verified core of a small file-upload HTTP service.
//!
//! The service accepts multipart uploads, stores each part on disk under a
//! timestamp-prefixed storage key, and serves the stored files back. This
//! crate holds the decision logic of that service: validating the parts of a
//! request, deriving storage keys, and fixing the exact responses, together
//! with a model of the directory the files land in. The surrounding binary
//! performs the actual network and filesystem work and hands this crate plain
//! values.

use vstd::prelude::*;

pub mod key;
pub mod store;
pub mod timestamp;
pub mod upload;

verus! {

/// The text the root route answers with, for any request state.
pub open spec fn spec_health_body() -> Seq<char> {
    "File Upload API"@
}

/// Fixed body of `GET /`: the service's health check.
pub fn health_message() -> (r: &'static str)
    ensures
        r@ == spec_health_body(),
{
    "File Upload API"
}

} // verus!

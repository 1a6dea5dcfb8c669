//! Reasons for which a call is refused.

use vstd::prelude::*;

verus! {

/// Why a call was refused. A refused call never changes any state.
#[derive(Clone, Copy, Debug, PartialEq, Eq, Structural)]
pub enum Error {
    /// A signed caller tried to set the uploader while no admin exists.
    AdminNotSet,
    /// A signed caller other than the admin tried to set the uploader.
    CallableByAdminOnly,
    /// A blob was submitted while no uploader exists.
    UploaderNotSet,
    /// A blob was submitted by a caller other than the uploader.
    CallableByUploaderOnly,
    /// The log of the current height already holds the maximum number of blobs.
    ExceededMaxBlobsPerBlock,
    /// The blob is longer than the maximum blob size.
    ExceededMaxBlobSize,
    /// The origin of the call does not carry the authority that the call needs.
    BadOrigin,
}

} // verus!

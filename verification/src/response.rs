//! The success side of the response envelope.

use vstd::prelude::*;

verus! {

/// The status of a read, an update or a removal that succeeded.
pub const STATUS_OK: u16 = 200;

/// The status of a creation that succeeded.
pub const STATUS_CREATED: u16 = 201;

/// A successful outcome: what was read or written, and its HTTP-style
/// status.
#[derive(Debug, PartialEq, Eq)]
pub struct ApiResponse<T> {
    pub status: u16,
    pub data: T,
}

/// The envelope of a read, an update or a removal that succeeded.
pub fn ok<T>(data: T) -> (r: ApiResponse<T>)
    ensures
        r.status == STATUS_OK,
        r.data == data,
{
    ApiResponse { status: STATUS_OK, data }
}

/// The envelope of a creation that succeeded.
pub fn created<T>(data: T) -> (r: ApiResponse<T>)
    ensures
        r.status == STATUS_CREATED,
        r.data == data,
{
    ApiResponse { status: STATUS_CREATED, data }
}

} // verus!

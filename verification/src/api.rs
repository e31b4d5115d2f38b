//! Plain data shapes of the REST layer: the response envelope and the
//! history query parameters. The transport around them lives outside
//! the library.

use vstd::prelude::*;

verus! {

/// Envelope of every API response: either data or an error message.
pub struct ApiResponse<T> {
    pub success: bool,
    pub data: Option<T>,
    pub error: Option<String>,
}

impl<T> ApiResponse<T> {
    /// A successful response carrying data.
    pub fn ok(data: T) -> (r: Self)
        ensures
            r.success,
            r.data == Some(data),
            r.error is None,
    {
        ApiResponse { success: true, data: Some(data), error: None }
    }

    /// A failed response carrying an error message.
    pub fn err(message: String) -> (r: Self)
        ensures
            !r.success,
            r.data is None,
            r.error == Some(message),
    {
        ApiResponse { success: false, data: None, error: Some(message) }
    }
}

/// Query parameters of a history request.
pub struct HistoryQuery {
    pub days: i32,
}

/// The default trailing history window, in days.
pub fn default_days() -> (d: i32)
    ensures
        d == 30,
{
    30
}

} // verus!

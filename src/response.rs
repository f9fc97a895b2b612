use vstd::prelude::*;

verus! {

/// The envelope every handler answers with: on success `data` is set and
/// `error` is absent, on failure the reverse.
pub struct ApiResponse<T> {
    pub success: bool,
    pub data: Option<T>,
    pub error: Option<String>,
}

impl<T> ApiResponse<T> {
    /// Exactly one of `data` and `error` is present, as `success` says.
    pub open spec fn well_formed(&self) -> bool {
        &&& self.success <==> self.data is Some
        &&& self.success <==> self.error is None
    }

    pub fn ok(data: T) -> (r: Self)
        ensures
            r.success,
            r.data == Some(data),
            r.error is None,
            r.well_formed(),
    {
        ApiResponse { success: true, data: Some(data), error: None }
    }

    pub fn err(msg: &str) -> (r: Self)
        ensures
            !r.success,
            r.data is None,
            r.error is Some,
            r.error->0@ == msg@,
            r.well_formed(),
    {
        ApiResponse { success: false, data: None, error: Some(msg.to_string()) }
    }
}

/// `r` answers with `outcome`: the payload's view on success, the error
/// text on failure.
pub open spec fn answers<T: View>(r: ApiResponse<T>, outcome: Result<T::V, Seq<char>>) -> bool {
    match outcome {
        Ok(v) => r.success && r.error is None && r.data is Some && r.data->0@ == v,
        Err(m) => !r.success && r.data is None && r.error is Some && r.error->0@ == m,
    }
}

} // verus!

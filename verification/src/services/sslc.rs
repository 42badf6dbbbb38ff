//! SSLC (TLS) service.
use vstd::prelude::*;
use crate::error::{Error, ResultCode, is_failure_code};

verus! {

/// Handle to the SSLC service.
pub struct SslC {
    _private: (),
}

impl SslC {
    /// The handle, once the service initialization reported `result`.
    pub fn new(result: i32) -> (r: Result<SslC, Error>)
        ensures
            is_failure_code(result) ==> (r matches Err(Error::Os(c)) && c == result),
            !is_failure_code(result) ==> r is Ok,
    {
        ResultCode(result).branch()?;
        Ok(SslC { _private: () })
    }
}

} // verus!

//! Service manager handle.
use vstd::prelude::*;
use crate::error::Error;

verus! {

/// Handle to the service manager.
pub struct Srv {
    _private: (),
}

impl Srv {
    /// The handle, once the initialization reported `result`: an error for a
    /// negative result code.
    pub fn init(result: i32) -> (r: Result<Srv, Error>)
        ensures
            result < 0 ==> (r matches Err(Error::Os(c)) && c == result),
            result >= 0 ==> r is Ok,
    {
        if result < 0 {
            Err(Error::Os(result))
        } else {
            Ok(Srv { _private: () })
        }
    }
}

} // verus!

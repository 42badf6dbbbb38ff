//! SD card: the handle of its mounted archive.
use vstd::prelude::*;
use crate::error::Error;

verus! {

/// Handle to the mounted SD card.
pub struct Sdmc {
    _private: (),
}

impl Sdmc {
    /// The handle, once the initialization reported `result`: an error for a
    /// negative result code.
    pub fn init(result: i32) -> (r: Result<Sdmc, Error>)
        ensures
            result < 0 ==> (r matches Err(Error::Os(c)) && c == result),
            result >= 0 ==> r is Ok,
    {
        if result < 0 {
            Err(Error::Os(result))
        } else {
            Ok(Sdmc { _private: () })
        }
    }
}

} // verus!

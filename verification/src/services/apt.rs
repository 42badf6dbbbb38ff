//! Applet service: the handle, and the chainloader that picks the title started
//! after this one exits.
use vstd::prelude::*;
use crate::error::{Error, ResultCode, is_failure_code};
use crate::services::am::Title;

verus! {

/// Handle to the applet service.
pub struct Apt {
    _private: (),
}

impl Apt {
    /// The handle, once the service initialization reported `result`.
    pub fn new(result: i32) -> (r: Result<Apt, Error>)
        ensures
            is_failure_code(result) ==> (r matches Err(Error::Os(c)) && c == result),
            !is_failure_code(result) ==> r is Ok,
    {
        ResultCode(result).branch()?;
        Ok(Apt { _private: () })
    }
}

/// Can launch other applications when the current one exits.
pub struct Chainloader<'a> {
    _apt: &'a Apt,
}

impl<'a> Chainloader<'a> {
    /// Gets a handle to the chainloader.
    pub fn new(apt: &'a Apt) -> (c: Chainloader<'a>) {
        Chainloader { _apt: apt }
    }

    /// Checks if the chainloader is set: the answer of `query`, the system's
    /// report of whether a title to launch on exit is set.
    pub fn is_set<F: FnOnce() -> bool>(&mut self, query: F) -> (set: bool)
        requires
            call_requires(query, ()),
        ensures
            call_ensures(query, (), set),
    {
        query()
    }

    /// The title to launch and its media, as the system takes them.
    pub fn chainloader_target(&self, title: &Title) -> (t: (u64, u8))
        ensures
            t.0 == title.parts().0,
            t.1 == title.parts().1.raw_spec() as u8,
    {
        (title.id(), title.media_type().raw() as u8)
    }
}

} // verus!

//! PTM SystemMenu service: sleep, shutdown and reboot requests.
use vstd::prelude::*;
use crate::error::{Error, ResultCode, is_failure_code};
use crate::services::reference::{ServiceCounter, ServiceReference, count_after_acquire, effective_count, must_start, refused_as_active};

verus! {

/// Handle to the PTM:SysM service.
pub struct PTMSysM {
    _service_handler: ServiceReference,
}

/// The timeout of a shutdown or reboot request, in nanoseconds, as the system
/// takes it (the low 64 bits of the duration's nanoseconds).
pub open spec fn timeout_nanos_spec(secs: u64, subsec_nanos: u32) -> u64 {
    ((secs as nat * 1_000_000_000 + subsec_nanos as nat) % 0x1_0000_0000_0000_0000) as u64
}

impl PTMSysM {
    /// Initializes the service with `start` (closing it with `close` after a lost
    /// handle); a single handle may be live at a time.
    pub fn new<S, E>(counter: &mut ServiceCounter, start: S, close: E) -> (r: Result<PTMSysM, Error>) where
        S: FnOnce() -> Result<(), Error>,
        E: FnOnce(),
        requires
            must_start(effective_count(old(counter)@)) ==> call_requires(start, ()),
            old(counter)@.poisoned ==> call_requires(close, ()),
            old(counter)@.count < usize::MAX,
        ensures
            refused_as_active(effective_count(old(counter)@), false) ==> r matches Err(Error::ServiceAlreadyActive),
            final(counter)@.count == count_after_acquire(effective_count(old(counter)@), false, r is Ok),
            !final(counter)@.poisoned,
            must_start(effective_count(old(counter)@)) ==> (r is Ok ==> call_ensures(start, (), Ok::<(), Error>(()))),
            must_start(effective_count(old(counter)@)) ==> (r matches Err(e) ==> call_ensures(start, (), Err::<(), Error>(e))),
    {
        let handler = ServiceReference::new(counter, false, start, close)?;
        Ok(PTMSysM { _service_handler: handler })
    }

    /// Releases the handle; the service is closed with `close` when it was the last.
    pub fn drop_with<E: FnOnce()>(self, counter: &mut ServiceCounter, close: E) -> (closed: bool)
        requires
            old(counter)@.count > 0,
            old(counter)@.count == 1 ==> call_requires(close, ()),
        ensures
            final(counter)@.count == old(counter)@.count - 1,
            closed == (final(counter)@.count == 0),
    {
        self._service_handler.release(counter, close)
    }

    /// The outcome of a sleep request, from the result code the system reported.
    pub fn request_sleep(&self, result: i32) -> (r: Result<(), Error>)
        ensures
            r is Ok <==> !is_failure_code(result),
            r is Err ==> r == Err::<(), Error>(Error::Os(result)),
    {
        ResultCode(result).branch()
    }

    /// The timeout argument of a shutdown or reboot request, in nanoseconds.
    pub fn timeout_nanos(secs: u64, subsec_nanos: u32) -> (n: u64)
        requires
            subsec_nanos < 1_000_000_000,
        ensures
            n == timeout_nanos_spec(secs, subsec_nanos),
    {
        let total: u128 = (secs as u128) * 1_000_000_000 + (subsec_nanos as u128);
        (total % 0x1_0000_0000_0000_0000) as u64
    }
}

} // verus!

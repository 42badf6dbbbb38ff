//! Bookkeeping of service handles: a service is started when its first handle is
//! created and closed when its last handle is dropped, and services that allow a
//! single handle refuse a second one.
use vstd::prelude::*;
use crate::error::Error;

verus! {

/// The number of live handles of a service, and whether a handle was lost while
/// its service was running (a holder that panicked), which leaves the service to
/// be closed and started afresh.
pub struct ServiceCounter {
    count: usize,
    poisoned: bool,
}

/// The state of a [`ServiceCounter`].
pub struct CounterState {
    /// Number of live handles.
    pub count: nat,
    /// Whether a handle was lost.
    pub poisoned: bool,
}

impl View for ServiceCounter {
    type V = CounterState;

    closed spec fn view(&self) -> CounterState {
        CounterState { count: self.count as nat, poisoned: self.poisoned }
    }
}

/// What acquiring a handle does, for a counter holding `count` live handles (after
/// any recovery from a lost handle): whether the service must be started first,
/// and whether the request is refused because the service allows a single handle.
pub open spec fn must_start(count: nat) -> bool {
    count == 0
}

/// Whether a request for a handle is refused as already active.
pub open spec fn refused_as_active(count: nat, allow_multiple: bool) -> bool {
    count > 0 && !allow_multiple
}

/// The live handle count after a request: one more when the request succeeds.
pub open spec fn count_after_acquire(count: nat, allow_multiple: bool, start_ok: bool) -> nat {
    if refused_as_active(count, allow_multiple) || (must_start(count) && !start_ok) {
        count
    } else {
        count + 1
    }
}

/// The live handle count that a request starts from: zero after a lost handle.
pub open spec fn effective_count(s: CounterState) -> nat {
    if s.poisoned {
        0
    } else {
        s.count
    }
}

impl ServiceCounter {
    /// A counter with no live handle.
    pub fn new() -> (c: ServiceCounter)
        ensures
            c@.count == 0,
            !c@.poisoned,
    {
        ServiceCounter { count: 0, poisoned: false }
    }

    /// The number of live handles.
    pub fn count(&self) -> (n: usize)
        ensures
            n == self@.count,
    {
        self.count
    }

    /// Records that a handle was lost while its service was running.
    pub fn poison(&mut self)
        ensures
            final(self)@.count == old(self)@.count,
            final(self)@.poisoned,
    {
        self.poisoned = true;
    }
}

/// A live handle of a service.
pub struct ServiceReference {
    allow_multiple: bool,
}

impl ServiceReference {
    /// Whether the service allows more than one live handle.
    pub closed spec fn allows_multiple(self) -> bool {
        self.allow_multiple
    }

    /// Requests a handle of a service. After a lost handle, `close` is called and the
    /// count starts again from zero. The first handle starts the service with
    /// `start` and is refused with start's error if it fails; a further handle is
    /// refused with [`Error::ServiceAlreadyActive`] unless the service allows
    /// several.
    pub fn new<S, E>(
        counter: &mut ServiceCounter,
        allow_multiple: bool,
        start: S,
        close: E,
    ) -> (r: Result<ServiceReference, Error>) where S: FnOnce() -> Result<(), Error>, E: FnOnce()
        requires
            must_start(effective_count(old(counter)@)) ==> call_requires(start, ()),
            old(counter)@.poisoned ==> call_requires(close, ()),
            old(counter)@.count < usize::MAX,
        ensures
            !final(counter)@.poisoned,
            old(counter)@.poisoned ==> call_ensures(close, (), ()),
            refused_as_active(effective_count(old(counter)@), allow_multiple) ==> r matches Err(
                Error::ServiceAlreadyActive,
            ),
            !refused_as_active(effective_count(old(counter)@), allow_multiple) && !must_start(
                effective_count(old(counter)@),
            ) ==> r is Ok,
            must_start(effective_count(old(counter)@)) ==> (r is Ok ==> call_ensures(start, (), Ok(()))),
            must_start(effective_count(old(counter)@)) ==> (r matches Err(e) ==> call_ensures(
                start,
                (),
                Err(e),
            )),
            final(counter)@.count == count_after_acquire(
                effective_count(old(counter)@),
                allow_multiple,
                r is Ok,
            ),
            r matches Ok(h) ==> h.allows_multiple() == allow_multiple,
    {
        if counter.poisoned {
            close();
            counter.count = 0;
            counter.poisoned = false;
        }
        if counter.count == 0 {
            let res = start();
            match res {
                Ok(u) => {
                    assert(res == Ok::<(), Error>(()));
                },
                Err(e) => {
                    return Err(e);
                },
            }
        } else if !allow_multiple {
            return Err(Error::ServiceAlreadyActive);
        }
        counter.count = counter.count + 1;
        Ok(ServiceReference { allow_multiple })
    }

    /// Drops the handle: the count goes down by one, and the service is closed with
    /// `close` when the last handle goes. Returns whether it was closed.
    pub fn release<E>(self, counter: &mut ServiceCounter, close: E) -> (closed: bool) where E: FnOnce()
        requires
            old(counter)@.count > 0,
            old(counter)@.count == 1 ==> call_requires(close, ()),
        ensures
            final(counter)@.count == old(counter)@.count - 1,
            final(counter)@.poisoned == old(counter)@.poisoned,
            closed == (final(counter)@.count == 0),
            closed ==> call_ensures(close, (), ()),
    {
        counter.count = counter.count - 1;
        if counter.count == 0 {
            close();
            true
        } else {
            false
        }
    }
}

/// A handle request followed by its release brings the count back to where it
/// was; the service is started by the request and closed by the release exactly
/// when there was no handle before.
pub proof fn acquire_then_release_restores_count(count: nat, allow_multiple: bool)
    requires
        !refused_as_active(count, allow_multiple),
    ensures
        count_after_acquire(count, allow_multiple, true) == count + 1,
        (count_after_acquire(count, allow_multiple, true) - 1 == 0) == must_start(count),
{
}

/// The first request starts the service; when starting fails the request leaves
/// no handle, and when it succeeds exactly one handle is live, whose release
/// closes the service again.
pub proof fn first_request_starts_service(allow_multiple: bool, start_ok: bool)
    ensures
        must_start(0),
        !refused_as_active(0, allow_multiple),
        !start_ok ==> count_after_acquire(0, allow_multiple, start_ok) == 0,
        start_ok ==> count_after_acquire(0, allow_multiple, start_ok) == 1,
{
}

/// While a handle of a single-handle service is live, every further request is
/// refused as already active and leaves the count unchanged.
pub proof fn second_single_handle_refused(count: nat, start_ok: bool)
    requires
        count > 0,
    ensures
        refused_as_active(count, false),
        count_after_acquire(count, false, start_ok) == count,
{
}

/// The first successful request of a single-handle service leaves exactly one live
/// handle, so the next request is refused.
pub proof fn first_handle_then_refusal(start_ok: bool)
    requires
        start_ok,
    ensures
        count_after_acquire(0, false, start_ok) == 1,
        refused_as_active(count_after_acquire(0, false, start_ok), false),
{
}

} // verus!

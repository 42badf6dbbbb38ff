//! Read-only memory file system: mounting the application's bundled files.
use vstd::prelude::*;
use crate::error::Error;
use crate::services::reference::{ServiceCounter, ServiceReference, count_after_acquire, effective_count, must_start, refused_as_active};

verus! {

/// Handle to the mounted RomFS.
pub struct RomFS {
    _service_handler: ServiceReference,
}

impl RomFS {
    /// Mounts the RomFS with `mount` (unmounting with `unmount` after a lost
    /// handle); a single handle may be live at a time.
    pub fn new<S, E>(counter: &mut ServiceCounter, mount: S, unmount: E) -> (r: Result<RomFS, Error>) where
        S: FnOnce() -> Result<(), Error>,
        E: FnOnce(),
        requires
            must_start(effective_count(old(counter)@)) ==> call_requires(mount, ()),
            old(counter)@.poisoned ==> call_requires(unmount, ()),
            old(counter)@.count < usize::MAX,
        ensures
            refused_as_active(effective_count(old(counter)@), false) ==> r matches Err(Error::ServiceAlreadyActive),
            final(counter)@.count == count_after_acquire(effective_count(old(counter)@), false, r is Ok),
            !final(counter)@.poisoned,
            must_start(effective_count(old(counter)@)) ==> (r is Ok ==> call_ensures(mount, (), Ok::<(), Error>(()))),
            must_start(effective_count(old(counter)@)) ==> (r matches Err(e) ==> call_ensures(mount, (), Err::<(), Error>(e))),
    {
        let handler = ServiceReference::new(counter, false, mount, unmount)?;
        Ok(RomFS { _service_handler: handler })
    }

    /// Mounts the RomFS with `mount` when no handle is live; further handles share
    /// the mount, and each counts.
    pub fn init<S, E>(counter: &mut ServiceCounter, mount: S, unmount: E) -> (r: Result<RomFS, Error>) where
        S: FnOnce() -> Result<(), Error>,
        E: FnOnce(),
        requires
            must_start(effective_count(old(counter)@)) ==> call_requires(mount, ()),
            old(counter)@.poisoned ==> call_requires(unmount, ()),
            old(counter)@.count < usize::MAX,
        ensures
            final(counter)@.count == count_after_acquire(effective_count(old(counter)@), true, r is Ok),
            !final(counter)@.poisoned,
            must_start(effective_count(old(counter)@)) ==> (r is Ok ==> call_ensures(mount, (), Ok::<(), Error>(()))),
            must_start(effective_count(old(counter)@)) ==> (r matches Err(e) ==> call_ensures(mount, (), Err::<(), Error>(e))),
            !must_start(effective_count(old(counter)@)) ==> r is Ok,
    {
        let handler = ServiceReference::new(counter, true, mount, unmount)?;
        Ok(RomFS { _service_handler: handler })
    }

    /// Releases the handle; the RomFS is unmounted with `unmount` when it was the
    /// last.
    pub fn drop_with<E: FnOnce()>(self, counter: &mut ServiceCounter, unmount: E) -> (unmounted: bool)
        requires
            old(counter)@.count > 0,
            old(counter)@.count == 1 ==> call_requires(unmount, ()),
        ensures
            final(counter)@.count == old(counter)@.count - 1,
            unmounted == (final(counter)@.count == 0),
    {
        self._service_handler.release(counter, unmount)
    }
}

} // verus!

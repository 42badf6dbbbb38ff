//! Network socket service: the handle, its socket buffer, and the redirection of
//! the output streams to 3dslink.
use vstd::prelude::*;
use crate::error::Error;
use crate::services::reference::{ServiceCounter, ServiceReference, count_after_acquire, effective_count, must_start, refused_as_active};

verus! {

/// Size of the socket buffer by default.
pub const DEFAULT_BUFFER_SIZE: usize = 0x100000;

/// Handle to the network socket service.
pub struct Soc {
    _service_handler: ServiceReference,
    sock_3dslink: i32,
}

impl Soc {
    /// The socket of the 3dslink redirection, negative when there is none.
    pub closed spec fn link_socket(&self) -> i32 {
        self.sock_3dslink
    }

    /// Initializes the service with a socket buffer of the default size (see
    /// [`Soc::init_with_buffer_size`]).
    pub fn new<S, E>(counter: &mut ServiceCounter, start: S, close: E) -> (r: Result<Soc, Error>) where
        S: FnOnce(usize) -> Result<(), Error>,
        E: FnOnce(),
        requires
            must_start(effective_count(old(counter)@)) ==> call_requires(start, (DEFAULT_BUFFER_SIZE,)),
            old(counter)@.poisoned ==> call_requires(close, ()),
            old(counter)@.count < usize::MAX,
        ensures
            refused_as_active(effective_count(old(counter)@), false) ==> r matches Err(Error::ServiceAlreadyActive),
            final(counter)@.count == count_after_acquire(effective_count(old(counter)@), false, r is Ok),
            !final(counter)@.poisoned,
            must_start(effective_count(old(counter)@)) ==> (r is Ok ==> call_ensures(start, (DEFAULT_BUFFER_SIZE,), Ok::<(), Error>(()))),
            must_start(effective_count(old(counter)@)) ==> (r matches Err(e) ==> call_ensures(start, (DEFAULT_BUFFER_SIZE,), Err::<(), Error>(e))),
            r matches Ok(s) ==> s.link_socket() < 0,
    {
        Soc::init_with_buffer_size(counter, DEFAULT_BUFFER_SIZE, start, close)
    }

    /// Initializes the service with `start` (given the buffer size); a single
    /// handle may be live at a time. Nothing is redirected.
    pub fn init_with_buffer_size<S, E>(counter: &mut ServiceCounter, num_bytes: usize, start: S, close: E) -> (r: Result<Soc, Error>) where
        S: FnOnce(usize) -> Result<(), Error>,
        E: FnOnce(),
        requires
            must_start(effective_count(old(counter)@)) ==> call_requires(start, (num_bytes,)),
            old(counter)@.poisoned ==> call_requires(close, ()),
            old(counter)@.count < usize::MAX,
        ensures
            refused_as_active(effective_count(old(counter)@), false) ==> r matches Err(Error::ServiceAlreadyActive),
            final(counter)@.count == count_after_acquire(effective_count(old(counter)@), false, r is Ok),
            !final(counter)@.poisoned,
            must_start(effective_count(old(counter)@)) ==> (r is Ok ==> call_ensures(start, (num_bytes,), Ok::<(), Error>(()))),
            must_start(effective_count(old(counter)@)) ==> (r matches Err(e) ==> call_ensures(start, (num_bytes,), Err::<(), Error>(e))),
            r matches Ok(s) ==> s.link_socket() < 0,
    {
        let start_with_buffer = move || -> (res: Result<(), Error>)
            requires
                call_requires(start, (num_bytes,)),
            ensures
                call_ensures(start, (num_bytes,), res),
            {
                start(num_bytes)
            };
        let handler = ServiceReference::new(counter, false, start_with_buffer, close)?;
        Ok(Soc { _service_handler: handler, sock_3dslink: -1 })
    }

    /// Redirects the chosen output streams to 3dslink with `connect` (given which
    /// streams), which reports the socket, negative on failure (the failure's
    /// error then comes from `os_error`). Refused with
    /// [`Error::OutputAlreadyRedirected`] when already redirected; nothing is done
    /// when no stream is chosen.
    pub fn redirect_to_3dslink<C, F>(&mut self, stdout: bool, stderr: bool, connect: C, os_error: F) -> (r: Result<(), Error>) where
        C: FnOnce(bool, bool) -> i32,
        F: FnOnce() -> Error,
        requires
            old(self).link_socket() < 0 && (stdout || stderr) ==> call_requires(connect, (stdout, stderr)),
            old(self).link_socket() < 0 && (stdout || stderr) ==> call_requires(os_error, ()),
        ensures
            old(self).link_socket() >= 0 ==> (r matches Err(Error::OutputAlreadyRedirected) && final(self).link_socket() == old(self).link_socket()),
            old(self).link_socket() < 0 && !stdout && !stderr ==> (r is Ok && final(self).link_socket() == old(self).link_socket()),
            old(self).link_socket() < 0 && (stdout || stderr) ==> call_ensures(connect, (stdout, stderr), final(self).link_socket())
                && (r is Ok <==> final(self).link_socket() >= 0),
            old(self).link_socket() < 0 && final(self).link_socket() < 0 && (stdout || stderr) ==> (r matches Err(e) && call_ensures(os_error, (), e)),
    {
        if self.sock_3dslink >= 0 {
            return Err(Error::OutputAlreadyRedirected);
        }
        if !stdout && !stderr {
            return Ok(());
        }
        self.sock_3dslink = connect(stdout, stderr);
        if self.sock_3dslink < 0 {
            Err(os_error())
        } else {
            Ok(())
        }
    }

    /// The redirection socket to close when the handle goes away, if any.
    pub fn socket_to_close(&self) -> (s: Option<i32>)
        ensures
            s == (if self.link_socket() >= 0 { Some(self.link_socket()) } else { None::<i32> }),
    {
        if self.sock_3dslink >= 0 {
            Some(self.sock_3dslink)
        } else {
            None
        }
    }

    /// Releases the handle; the service is closed with `close` when it was the last.
    pub fn drop_with<E: FnOnce()>(self, counter: &mut ServiceCounter, close: E) -> (closed: bool)
        requires
            old(counter)@.count > 0,
            old(counter)@.count == 1 ==> call_requires(close, ()),
        ensures
            final(counter)@.count == old(counter)@.count - 1,
            closed == (final(counter)@.count == 0),
    {
        self._service_handler.release(counter, close)
    }
}

/// A second handle is refused while the first is live.
pub proof fn second_soc_refused(count: nat)
    requires
        count > 0,
    ensures
        refused_as_active(count, false),
        count_after_acquire(count, false, true) == count,
{
}

} // verus!

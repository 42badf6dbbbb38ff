//! Graphics service: the console's screens, handed out one borrower at a time,
//! and the handle that owns them.
use vstd::prelude::*;
use vstd::std_specs::convert::FromSpecImpl;
use crate::error::Error;
use crate::sealed::Sealed;
use crate::services::gspgpu::{Event, FramebufferFormat};
use crate::services::reference::{ServiceCounter, ServiceReference, count_after_acquire, effective_count, must_start, refused_as_active};

verus! {

/// The top screen, as the system numbers it.
pub const GFX_TOP: u32 = 0;

/// The bottom screen, as the system numbers it.
pub const GFX_BOTTOM: u32 = 1;

/// Side of the top screen framebuffer.
#[derive(Copy, Clone, Debug, PartialEq, Eq, Structural)]
pub enum Side {
    /// The left framebuffer. This framebuffer is also the one used when 3D is disabled.
    Left,
    /// The right framebuffer.
    Right,
}

impl Side {
    /// The raw value of the variant.
    pub open spec fn raw_spec(self) -> u8 {
        match self {
            Side::Left => 0,
            Side::Right => 1,
        }
    }

    /// The variant with the given raw value, if any.
    pub open spec fn from_raw_spec(value: u8) -> Option<Side> {
        if value == 0 {
            Some(Side::Left)
        } else if value == 1 {
            Some(Side::Right)
        } else {
            None
        }
    }

    /// The raw value of the variant.
    pub fn raw(self) -> (r: u8)
        ensures
            r == self.raw_spec(),
    {
        match self {
            Side::Left => 0,
            Side::Right => 1,
        }
    }

    /// The variant with the given raw value, if any.
    pub fn from_raw(value: u8) -> (r: Option<Side>)
        ensures
            r == Self::from_raw_spec(value),
    {
        match value {
            0 => Some(Side::Left),
            1 => Some(Side::Right),
            _ => None,
        }
    }
}

impl From<Side> for u8 {
    fn from(v: Side) -> (r: u8) {
        v.raw()
    }
}

impl FromSpecImpl<Side> for u8 {
    open spec fn obeys_from_spec() -> bool {
        true
    }

    open spec fn from_spec(v: Side) -> u8 {
        v.raw_spec()
    }
}

/// A screen of the console, with the framebuffer side it draws to.
pub trait Screen: Sealed {
    /// The screen, as the system numbers it.
    spec fn raw_spec(&self) -> u32;

    /// The side of the framebuffer.
    spec fn side_spec(&self) -> Side;

    /// Returns the screen, as the system numbers it.
    fn as_raw(&self) -> (r: u32)
        ensures
            r == self.raw_spec(),
    ;

    /// Returns the side of the framebuffer.
    fn side(&self) -> (s: Side)
        ensures
            s == self.side_spec(),
    ;
}

/// Left side of the top screen.
#[derive(Debug)]
#[non_exhaustive]
pub struct TopScreenLeft;

/// Right side of the top screen.
#[derive(Debug)]
#[non_exhaustive]
pub struct TopScreenRight;

/// The bottom screen.
#[derive(Debug)]
#[non_exhaustive]
pub struct BottomScreen;

impl Sealed for TopScreenLeft {}

impl Sealed for TopScreenRight {}

impl Sealed for BottomScreen {}

impl Screen for TopScreenLeft {
    open spec fn raw_spec(&self) -> u32 {
        GFX_TOP
    }

    open spec fn side_spec(&self) -> Side {
        Side::Left
    }

    fn as_raw(&self) -> (r: u32) {
        GFX_TOP
    }

    fn side(&self) -> (s: Side) {
        Side::Left
    }
}

impl Screen for TopScreenRight {
    open spec fn raw_spec(&self) -> u32 {
        GFX_TOP
    }

    open spec fn side_spec(&self) -> Side {
        Side::Right
    }

    fn as_raw(&self) -> (r: u32) {
        GFX_TOP
    }

    fn side(&self) -> (s: Side) {
        Side::Right
    }
}

impl Screen for BottomScreen {
    open spec fn raw_spec(&self) -> u32 {
        GFX_BOTTOM
    }

    open spec fn side_spec(&self) -> Side {
        Side::Left
    }

    fn as_raw(&self) -> (r: u32) {
        GFX_BOTTOM
    }

    fn side(&self) -> (s: Side) {
        Side::Left
    }
}

/// The top screen, with its left and right sides.
pub struct TopScreen {
    left: TopScreenLeft,
    right: TopScreenRight,
}

impl TopScreen {
    /// The top screen.
    pub fn new() -> (t: TopScreen) {
        TopScreen { left: TopScreenLeft, right: TopScreenRight }
    }
}

/// The top screen in stereoscopic mode: both of its sides are used.
pub struct TopScreen3D<'screen> {
    screen: &'screen mut TopScreen,
}

impl<'screen> TopScreen3D<'screen> {
    /// Turns stereoscopic mode on with `set_3d` (given `true`) and borrows the top
    /// screen for it.
    pub fn from<F: FnOnce(bool)>(top_screen: &'screen mut TopScreen, set_3d: F) -> (t: TopScreen3D<'screen>)
        requires
            call_requires(set_3d, (true,)),
        ensures
            call_ensures(set_3d, (true,), ()),
    {
        set_3d(true);
        TopScreen3D { screen: top_screen }
    }

    /// Immutably borrows the two sides of the screen.
    pub fn split(&self) -> (sides: (&TopScreenLeft, &TopScreenRight))
        ensures
            sides.0.side_spec() == Side::Left,
            sides.1.side_spec() == Side::Right,
    {
        (&self.screen.left, &self.screen.right)
    }

    /// Mutably borrows the two sides of the screen.
    pub fn split_mut(&mut self) -> (sides: (&mut TopScreenLeft, &mut TopScreenRight))
        ensures
            sides.0.side_spec() == Side::Left,
            sides.1.side_spec() == Side::Right,
    {
        (&mut self.screen.left, &mut self.screen.right)
    }

    /// Turns stereoscopic mode off with `set_3d` (given `false`) and gives the top
    /// screen back.
    pub fn release<F: FnOnce(bool)>(self, set_3d: F)
        requires
            call_requires(set_3d, (false,)),
        ensures
            call_ensures(set_3d, (false,), ()),
    {
        set_3d(false);
    }
}

/// Handle to the GFX service, which owns the screens.
pub struct Gfx {
    /// Top screen representation.
    pub top_screen: TopScreen,
    /// Bottom screen representation.
    pub bottom_screen: BottomScreen,
    _service_handler: ServiceReference,
}

impl Gfx {
    /// Initializes the service with both framebuffers in the BGR8 format and in
    /// shared memory (see [`Gfx::with_configuration`]).
    pub fn new<S, E>(counter: &mut ServiceCounter, init: S, exit: E) -> (r: Result<Gfx, Error>) where
        S: FnOnce(FramebufferFormat, FramebufferFormat, bool),
        E: FnOnce(),
        requires
            must_start(effective_count(old(counter)@)) ==> call_requires(init, (FramebufferFormat::Bgr8, FramebufferFormat::Bgr8, false)),
            old(counter)@.poisoned ==> call_requires(exit, ()),
            old(counter)@.count < usize::MAX,
        ensures
            refused_as_active(effective_count(old(counter)@), false) ==> r matches Err(Error::ServiceAlreadyActive),
            !refused_as_active(effective_count(old(counter)@), false) ==> r is Ok,
            final(counter)@.count == count_after_acquire(effective_count(old(counter)@), false, r is Ok),
            !final(counter)@.poisoned,
    {
        Gfx::with_formats_shared(counter, FramebufferFormat::Bgr8, FramebufferFormat::Bgr8, init, exit)
    }

    /// Initializes the service with both framebuffers in the BGR8 format, as the
    /// older interface named it (see [`Gfx::new`]).
    pub fn init<S, E>(counter: &mut ServiceCounter, init: S, exit: E) -> (r: Result<Gfx, Error>) where
        S: FnOnce(FramebufferFormat, FramebufferFormat, bool),
        E: FnOnce(),
        requires
            must_start(effective_count(old(counter)@)) ==> call_requires(init, (FramebufferFormat::Bgr8, FramebufferFormat::Bgr8, false)),
            old(counter)@.poisoned ==> call_requires(exit, ()),
            old(counter)@.count < usize::MAX,
        ensures
            refused_as_active(effective_count(old(counter)@), false) ==> r matches Err(Error::ServiceAlreadyActive),
            !refused_as_active(effective_count(old(counter)@), false) ==> r is Ok,
            final(counter)@.count == count_after_acquire(effective_count(old(counter)@), false, r is Ok),
            !final(counter)@.poisoned,
    {
        Gfx::new(counter, init, exit)
    }

    /// Initializes the service with the given framebuffer formats, in VRAM when
    /// `use_vram_buffers` is set (see [`Gfx::with_configuration`]).
    pub fn with_formats<S, E>(
        counter: &mut ServiceCounter,
        top_fb_fmt: FramebufferFormat,
        bottom_fb_fmt: FramebufferFormat,
        use_vram_buffers: bool,
        init: S,
        exit: E,
    ) -> (r: Result<Gfx, Error>) where
        S: FnOnce(FramebufferFormat, FramebufferFormat, bool),
        E: FnOnce(),
        requires
            must_start(effective_count(old(counter)@)) ==> call_requires(init, (top_fb_fmt, bottom_fb_fmt, use_vram_buffers)),
            old(counter)@.poisoned ==> call_requires(exit, ()),
            old(counter)@.count < usize::MAX,
        ensures
            refused_as_active(effective_count(old(counter)@), false) ==> r matches Err(Error::ServiceAlreadyActive),
            !refused_as_active(effective_count(old(counter)@), false) ==> r is Ok,
            final(counter)@.count == count_after_acquire(effective_count(old(counter)@), false, r is Ok),
            !final(counter)@.poisoned,
    {
        Gfx::with_configuration(counter, top_fb_fmt, bottom_fb_fmt, use_vram_buffers, init, exit)
    }

    /// Initializes the service with the given framebuffer formats, in shared
    /// memory.
    pub fn with_formats_shared<S, E>(
        counter: &mut ServiceCounter,
        top_fb_fmt: FramebufferFormat,
        bottom_fb_fmt: FramebufferFormat,
        init: S,
        exit: E,
    ) -> (r: Result<Gfx, Error>) where
        S: FnOnce(FramebufferFormat, FramebufferFormat, bool),
        E: FnOnce(),
        requires
            must_start(effective_count(old(counter)@)) ==> call_requires(init, (top_fb_fmt, bottom_fb_fmt, false)),
            old(counter)@.poisoned ==> call_requires(exit, ()),
            old(counter)@.count < usize::MAX,
        ensures
            refused_as_active(effective_count(old(counter)@), false) ==> r matches Err(Error::ServiceAlreadyActive),
            !refused_as_active(effective_count(old(counter)@), false) ==> r is Ok,
            final(counter)@.count == count_after_acquire(effective_count(old(counter)@), false, r is Ok),
            !final(counter)@.poisoned,
    {
        Gfx::with_configuration(counter, top_fb_fmt, bottom_fb_fmt, false, init, exit)
    }

    /// Initializes the service: the first handle initializes the screens with
    /// `init` (given the formats and whether the framebuffers are in VRAM), which
    /// cannot fail; a single handle may be live at a time.
    pub fn with_configuration<S, E>(
        counter: &mut ServiceCounter,
        top_fb_fmt: FramebufferFormat,
        bottom_fb_fmt: FramebufferFormat,
        vram_buffer: bool,
        init: S,
        exit: E,
    ) -> (r: Result<Gfx, Error>) where
        S: FnOnce(FramebufferFormat, FramebufferFormat, bool),
        E: FnOnce(),
        requires
            must_start(effective_count(old(counter)@)) ==> call_requires(init, (top_fb_fmt, bottom_fb_fmt, vram_buffer)),
            old(counter)@.poisoned ==> call_requires(exit, ()),
            old(counter)@.count < usize::MAX,
        ensures
            refused_as_active(effective_count(old(counter)@), false) ==> r matches Err(Error::ServiceAlreadyActive),
            !refused_as_active(effective_count(old(counter)@), false) ==> r is Ok,
            final(counter)@.count == count_after_acquire(effective_count(old(counter)@), false, r is Ok),
            !final(counter)@.poisoned,
    {
        let start = move || -> (res: Result<(), Error>)
            requires
                call_requires(init, (top_fb_fmt, bottom_fb_fmt, vram_buffer)),
            ensures
                res is Ok,
            {
                init(top_fb_fmt, bottom_fb_fmt, vram_buffer);
                Ok(())
            };
        let handler = ServiceReference::new(counter, false, start, exit)?;
        Ok(Gfx { top_screen: TopScreen::new(), bottom_screen: BottomScreen, _service_handler: handler })
    }

    /// Waits for the vertical blank interrupt of the top screen with `wait` (given
    /// the event and whether to discard an earlier one).
    pub fn wait_for_vblank<W: FnOnce(Event, bool)>(&self, wait: W)
        requires
            call_requires(wait, (Event::VBlank0, true)),
        ensures
            call_ensures(wait, (Event::VBlank0, true), ()),
    {
        wait(Event::VBlank0, true);
    }

    /// Releases the handle; the service is closed with `exit` when it was the last.
    pub fn drop_with<E: FnOnce()>(self, counter: &mut ServiceCounter, exit: E) -> (closed: bool)
        requires
            old(counter)@.count > 0,
            old(counter)@.count == 1 ==> call_requires(exit, ()),
        ensures
            final(counter)@.count == old(counter)@.count - 1,
            closed == (final(counter)@.count == 0),
    {
        self._service_handler.release(counter, exit)
    }
}

} // verus!

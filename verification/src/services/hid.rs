//! Human Interface Device service: buttons, touch screen, circle pad and motion
//! sensors.
use vstd::prelude::*;
use crate::error::Error;
use crate::services::reference::{ServiceCounter, ServiceReference, count_after_acquire, effective_count, must_start, refused_as_active};

verus! {

/// Every button bit that the HID service reports.
pub const KEYPAD_ALL_BITS: u32 = 0xFF10_CFFF;

/// A button.
pub const KEY_A: u32 = 0x1;
/// B button.
pub const KEY_B: u32 = 0x2;
/// Select button.
pub const KEY_SELECT: u32 = 0x4;
/// Start button.
pub const KEY_START: u32 = 0x8;
/// D-Pad right.
pub const KEY_DPAD_RIGHT: u32 = 0x10;
/// D-Pad left.
pub const KEY_DPAD_LEFT: u32 = 0x20;
/// D-Pad up.
pub const KEY_DPAD_UP: u32 = 0x40;
/// D-Pad down.
pub const KEY_DPAD_DOWN: u32 = 0x80;
/// R button.
pub const KEY_R: u32 = 0x100;
/// L button.
pub const KEY_L: u32 = 0x200;
/// X button.
pub const KEY_X: u32 = 0x400;
/// Y button.
pub const KEY_Y: u32 = 0x800;
/// ZL button.
pub const KEY_ZL: u32 = 0x4000;
/// ZR button.
pub const KEY_ZR: u32 = 0x8000;
/// Touch screen.
pub const KEY_TOUCH: u32 = 0x10_0000;
/// C-Stick right.
pub const KEY_CSTICK_RIGHT: u32 = 0x100_0000;
/// C-Stick left.
pub const KEY_CSTICK_LEFT: u32 = 0x200_0000;
/// C-Stick up.
pub const KEY_CSTICK_UP: u32 = 0x400_0000;
/// C-Stick down.
pub const KEY_CSTICK_DOWN: u32 = 0x800_0000;
/// Circle pad right.
pub const KEY_CPAD_RIGHT: u32 = 0x1000_0000;
/// Circle pad left.
pub const KEY_CPAD_LEFT: u32 = 0x2000_0000;
/// Circle pad up.
pub const KEY_CPAD_UP: u32 = 0x4000_0000;
/// Circle pad down.
pub const KEY_CPAD_DOWN: u32 = 0x8000_0000;
/// Up on the D-Pad or the circle pad.
pub const KEY_UP: u32 = 0x4000_0040;
/// Down on the D-Pad or the circle pad.
pub const KEY_DOWN: u32 = 0x8000_0080;
/// Left on the D-Pad or the circle pad.
pub const KEY_LEFT: u32 = 0x2000_0020;
/// Right on the D-Pad or the circle pad.
pub const KEY_RIGHT: u32 = 0x1000_0010;

/// A set of buttons and directions, as the HID service reports them.
#[derive(Copy, Clone, Debug, PartialEq, Eq, PartialOrd, Ord, Hash, Structural)]
pub struct KeyPad {
    bits: u32,
}

impl KeyPad {
    /// The raw bits of the set.
    pub closed spec fn bits_spec(self) -> u32 {
        self.bits
    }

    /// The raw bits of the set.
    pub fn bits(&self) -> (b: u32)
        ensures
            b == self.bits_spec(),
    {
        self.bits
    }

    /// The set of known buttons among `bits` (unknown bits are dropped).
    pub fn from_bits_truncate(bits: u32) -> (k: KeyPad)
        ensures
            k.bits_spec() == bits & KEYPAD_ALL_BITS,
    {
        KeyPad { bits: bits & KEYPAD_ALL_BITS }
    }

    /// The empty set.
    pub fn empty() -> (k: KeyPad)
        ensures
            k.bits_spec() == 0,
    {
        KeyPad { bits: 0 }
    }

    /// Whether every button of `other` is in the set.
    pub fn contains(&self, other: KeyPad) -> (b: bool)
        ensures
            b == (self.bits_spec() & other.bits_spec() == other.bits_spec()),
    {
        self.bits & other.bits == other.bits
    }

    /// Whether the set and `other` have a button in common.
    pub fn intersects(&self, other: KeyPad) -> (b: bool)
        ensures
            b == (self.bits_spec() & other.bits_spec() != 0),
    {
        self.bits & other.bits != 0
    }

    /// The buttons in either set.
    pub fn union(self, other: KeyPad) -> (k: KeyPad)
        ensures
            k.bits_spec() == self.bits_spec() | other.bits_spec(),
    {
        KeyPad { bits: self.bits | other.bits }
    }

    /// Whether the set is empty.
    pub fn is_empty(&self) -> (b: bool)
        ensures
            b == (self.bits_spec() == 0),
    {
        self.bits == 0
    }
}

/// Handle to the HID service.
pub struct Hid {
    active_accellerometer: bool,
    active_gyroscope: bool,
    _service_handler: ServiceReference,
}

impl Hid {
    /// Whether the accelerometer is enabled.
    pub closed spec fn accellerometer_enabled(self) -> bool {
        self.active_accellerometer
    }

    /// Whether the gyroscope is enabled.
    pub closed spec fn gyroscope_enabled(self) -> bool {
        self.active_gyroscope
    }

    /// Initializes the service with `start` (closing it with `close` after a lost
    /// handle); a single handle may be live at a time. Both motion sensors start
    /// disabled.
    pub fn new<S, E>(counter: &mut ServiceCounter, start: S, close: E) -> (r: Result<Hid, Error>) where
        S: FnOnce() -> Result<(), Error>,
        E: FnOnce(),
        requires
            must_start(effective_count(old(counter)@)) ==> call_requires(start, ()),
            old(counter)@.poisoned ==> call_requires(close, ()),
            old(counter)@.count < usize::MAX,
        ensures
            refused_as_active(effective_count(old(counter)@), false) ==> r matches Err(Error::ServiceAlreadyActive),
            final(counter)@.count == count_after_acquire(effective_count(old(counter)@), false, r is Ok),
            !final(counter)@.poisoned,
            must_start(effective_count(old(counter)@)) ==> (r is Ok ==> call_ensures(start, (), Ok::<(), Error>(()))),
            must_start(effective_count(old(counter)@)) ==> (r matches Err(e) ==> call_ensures(start, (), Err::<(), Error>(e))),
            r matches Ok(h) ==> !h.accellerometer_enabled() && !h.gyroscope_enabled(),
    {
        let handler = ServiceReference::new(counter, false, start, close)?;
        Ok(Hid { active_accellerometer: false, active_gyroscope: false, _service_handler: handler })
    }

    /// Releases the handle; the service is closed with `close` when it was the last.
    pub fn drop_with<E: FnOnce()>(self, counter: &mut ServiceCounter, close: E) -> (closed: bool)
        requires
            old(counter)@.count > 0,
            old(counter)@.count == 1 ==> call_requires(close, ()),
        ensures
            final(counter)@.count == old(counter)@.count - 1,
            closed == (final(counter)@.count == 0),
    {
        self._service_handler.release(counter, close)
    }

    /// The buttons pressed in the latest scan, from the raw bits the system reported.
    pub fn keys_down(&self, raw: u32) -> (k: KeyPad)
        ensures
            k.bits_spec() == raw & KEYPAD_ALL_BITS,
    {
        KeyPad::from_bits_truncate(raw)
    }

    /// The buttons held in the latest scan, from the raw bits the system reported.
    pub fn keys_held(&self, raw: u32) -> (k: KeyPad)
        ensures
            k.bits_spec() == raw & KEYPAD_ALL_BITS,
    {
        KeyPad::from_bits_truncate(raw)
    }

    /// The buttons released in the latest scan, from the raw bits the system reported.
    pub fn keys_up(&self, raw: u32) -> (k: KeyPad)
        ensures
            k.bits_spec() == raw & KEYPAD_ALL_BITS,
    {
        KeyPad::from_bits_truncate(raw)
    }

    /// Whether the accelerometer is enabled.
    pub fn is_accellerometer_enabled(&self) -> (b: bool)
        ensures
            b == self.accellerometer_enabled(),
    {
        self.active_accellerometer
    }

    /// Whether the gyroscope is enabled.
    pub fn is_gyroscope_enabled(&self) -> (b: bool)
        ensures
            b == self.gyroscope_enabled(),
    {
        self.active_gyroscope
    }

    /// Enables the accelerometer with `enable` (whose result the system gives
    /// no use for) and records it as enabled.
    pub fn enable_accellerometer<F: FnOnce() -> i32>(&mut self, enable: F)
        requires
            call_requires(enable, ()),
        ensures
            final(self).accellerometer_enabled(),
            final(self).gyroscope_enabled() == old(self).gyroscope_enabled(),
            exists|code: i32| #[trigger] call_ensures(enable, (), code),
    {
        let _ = enable();
        self.active_accellerometer = true;
    }

    /// Enables the gyroscope with `enable` (whose result the system gives no use
    /// for) and records it as enabled.
    pub fn enable_gyroscope<F: FnOnce() -> i32>(&mut self, enable: F)
        requires
            call_requires(enable, ()),
        ensures
            final(self).gyroscope_enabled(),
            final(self).accellerometer_enabled() == old(self).accellerometer_enabled(),
            exists|code: i32| #[trigger] call_ensures(enable, (), code),
    {
        let _ = enable();
        self.active_gyroscope = true;
    }

    /// Disables the accelerometer with `disable` (whose result the system gives
    /// no use for) and records it as disabled.
    pub fn disable_accellerometer<F: FnOnce() -> i32>(&mut self, disable: F)
        requires
            call_requires(disable, ()),
        ensures
            !final(self).accellerometer_enabled(),
            final(self).gyroscope_enabled() == old(self).gyroscope_enabled(),
            exists|code: i32| #[trigger] call_ensures(disable, (), code),
    {
        let _ = disable();
        self.active_accellerometer = false;
    }

    /// Disables the gyroscope with `disable` (whose result the system gives no
    /// use for) and records it as disabled.
    pub fn disable_gyroscope<F: FnOnce() -> i32>(&mut self, disable: F)
        requires
            call_requires(disable, ()),
        ensures
            !final(self).gyroscope_enabled(),
            final(self).accellerometer_enabled() == old(self).accellerometer_enabled(),
            exists|code: i32| #[trigger] call_ensures(disable, (), code),
    {
        let _ = disable();
        self.active_gyroscope = false;
    }

    /// The accelerometer vector, as `read` reports it. Reading it while the
    /// accelerometer is disabled is not allowed.
    pub fn accellerometer_vector<R: FnOnce() -> (i16, i16, i16)>(&self, read: R) -> (v: (i16, i16, i16))
        requires
            self.accellerometer_enabled(),
            call_requires(read, ()),
        ensures
            call_ensures(read, (), v),
    {
        read()
    }

    /// The gyroscope rate, as `read` reports it. Reading it while the gyroscope
    /// is disabled is not allowed.
    pub fn gyroscope_rate<R: FnOnce() -> (i16, i16, i16)>(&self, read: R) -> (v: (i16, i16, i16))
        requires
            self.gyroscope_enabled(),
            call_requires(read, ()),
        ensures
            call_ensures(read, (), v),
    {
        read()
    }
}

/// The accelerometer may be read exactly when the last of the enable and disable
/// calls made on a handle since it was created enabled it: `states` are the
/// handle's successive states, from a new handle (`states[0]`), and `calls[i]`
/// tells whether the call that led to `states[i + 1]` enabled the accelerometer.
pub proof fn accellerometer_follows_last_call(states: Seq<Hid>, calls: Seq<bool>)
    requires
        states.len() == calls.len() + 1,
        !states[0].accellerometer_enabled(),
        forall|i: int| 0 <= i < calls.len() ==> #[trigger] states[i + 1].accellerometer_enabled() == calls[i],
    ensures
        states.last().accellerometer_enabled() == (calls.len() > 0 && calls.last()),
{
    if calls.len() > 0 {
        assert(states[calls.len() - 1 + 1].accellerometer_enabled() == calls[calls.len() - 1]);
    }
}

} // verus!

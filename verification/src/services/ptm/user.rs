//! PTM User service: the console's shell state, battery and step count.
use vstd::prelude::*;
use vstd::std_specs::convert::FromSpecImpl;
use crate::error::{Error, ResultCode, is_failure_code};
use crate::services::reference::{ServiceCounter, ServiceReference, count_after_acquire, effective_count, must_start, refused_as_active};
use crate::text::{dec_digits, decimal_string};

verus! {

/// The message for a raw value that no variant stands for.
pub open spec fn unexpected_value_message(what: Seq<char>, v: u8) -> Seq<char> {
    "unexpected "@ + what + " value: "@ + dec_digits(v as nat)
}

/// Builds the error for a raw value that no variant stands for.
fn unexpected_value(what: &str, v: u8) -> (e: Error)
    ensures
        e matches Error::Other(m) && m@ == unexpected_value_message(what@, v),
{
    let n = decimal_string(v as u64);
    let mut m = String::from_str("unexpected ");
    m.append(what);
    m.append(" value: ");
    m.append(n.as_str());
    Error::Other(m)
}

/// Whether the console's shell is open or closed.
#[derive(Debug, Clone, Copy, PartialEq, Eq, PartialOrd, Ord, Structural)]
pub enum ShellState {
    /// Clam shell is currently closed.
    Closed,
    /// Clam shell is currently open.
    Open,
}

impl ShellState {
    /// The raw value of the variant.
    pub open spec fn raw_spec(self) -> u8 {
        match self {
            ShellState::Closed => 0,
            ShellState::Open => 1,
        }
    }

    /// The variant with the given raw value, if any.
    pub open spec fn from_raw_spec(value: u8) -> Option<ShellState> {
        if value == 0 {
            Some(ShellState::Closed)
        } else if value == 1 {
            Some(ShellState::Open)
        } else {
            None
        }
    }

    /// The raw value of the variant.
    pub fn raw(self) -> (r: u8)
        ensures
            r == self.raw_spec(),
    {
        match self {
            ShellState::Closed => 0,
            ShellState::Open => 1,
        }
    }

    /// The variant with the given raw value, if any.
    pub fn from_raw(value: u8) -> (r: Option<ShellState>)
        ensures
            r == Self::from_raw_spec(value),
    {
        match value {
            0 => Some(ShellState::Closed),
            1 => Some(ShellState::Open),
            _ => None,
        }
    }
}

impl From<ShellState> for u8 {
    fn from(v: ShellState) -> (r: u8) {
        v.raw()
    }
}

impl FromSpecImpl<ShellState> for u8 {
    open spec fn obeys_from_spec() -> bool {
        true
    }

    open spec fn from_spec(v: ShellState) -> u8 {
        v.raw_spec()
    }
}

/// Representation of the console's battery charge level, as shown in the Home Menu.
#[derive(Debug, Clone, Copy, PartialEq, Eq, PartialOrd, Ord, Structural)]
pub enum BatteryLevel {
    /// Battery charge at 0%. System shutdown is imminent.
    Drained,
    /// Battery charge between 5-1%.
    Critical,
    /// Battery charge between 10-6%.
    VeryLow,
    /// Battery charge between 30-11%.
    Low,
    /// Battery charge between 60-31%.
    Medium,
    /// Battery charge between 100-61%.
    High,
}

impl BatteryLevel {
    /// The raw value of the variant.
    pub open spec fn raw_spec(self) -> u8 {
        match self {
            BatteryLevel::Drained => 0,
            BatteryLevel::Critical => 1,
            BatteryLevel::VeryLow => 2,
            BatteryLevel::Low => 3,
            BatteryLevel::Medium => 4,
            BatteryLevel::High => 5,
        }
    }

    /// The variant with the given raw value, if any.
    pub open spec fn from_raw_spec(value: u8) -> Option<BatteryLevel> {
        if value == 0 {
            Some(BatteryLevel::Drained)
        } else if value == 1 {
            Some(BatteryLevel::Critical)
        } else if value == 2 {
            Some(BatteryLevel::VeryLow)
        } else if value == 3 {
            Some(BatteryLevel::Low)
        } else if value == 4 {
            Some(BatteryLevel::Medium)
        } else if value == 5 {
            Some(BatteryLevel::High)
        } else {
            None
        }
    }

    /// The raw value of the variant.
    pub fn raw(self) -> (r: u8)
        ensures
            r == self.raw_spec(),
    {
        match self {
            BatteryLevel::Drained => 0,
            BatteryLevel::Critical => 1,
            BatteryLevel::VeryLow => 2,
            BatteryLevel::Low => 3,
            BatteryLevel::Medium => 4,
            BatteryLevel::High => 5,
        }
    }

    /// The variant with the given raw value, if any.
    pub fn from_raw(value: u8) -> (r: Option<BatteryLevel>)
        ensures
            r == Self::from_raw_spec(value),
    {
        match value {
            0 => Some(BatteryLevel::Drained),
            1 => Some(BatteryLevel::Critical),
            2 => Some(BatteryLevel::VeryLow),
            3 => Some(BatteryLevel::Low),
            4 => Some(BatteryLevel::Medium),
            5 => Some(BatteryLevel::High),
            _ => None,
        }
    }
}

impl From<BatteryLevel> for u8 {
    fn from(v: BatteryLevel) -> (r: u8) {
        v.raw()
    }
}

impl FromSpecImpl<BatteryLevel> for u8 {
    open spec fn obeys_from_spec() -> bool {
        true
    }

    open spec fn from_spec(v: BatteryLevel) -> u8 {
        v.raw_spec()
    }
}

impl ShellState {
    /// The shell state that a raw value stands for, or an error naming the value.
    pub fn try_from(value: u8) -> (r: Result<ShellState, Error>)
        ensures
            ShellState::from_raw_spec(value) matches Some(s) ==> r == Ok::<ShellState, Error>(s),
            ShellState::from_raw_spec(value) is None ==> (r matches Err(Error::Other(m))
                && m@ == unexpected_value_message("shell state"@, value)),
    {
        match ShellState::from_raw(value) {
            Some(s) => Ok(s),
            None => Err(unexpected_value("shell state", value)),
        }
    }
}

impl BatteryLevel {
    /// The battery level that a raw value stands for, or an error naming the value.
    pub fn try_from(value: u8) -> (r: Result<BatteryLevel, Error>)
        ensures
            BatteryLevel::from_raw_spec(value) matches Some(s) ==> r == Ok::<BatteryLevel, Error>(s),
            BatteryLevel::from_raw_spec(value) is None ==> (r matches Err(Error::Other(m))
                && m@ == unexpected_value_message("battery level"@, value)),
    {
        match BatteryLevel::from_raw(value) {
            Some(s) => Ok(s),
            None => Err(unexpected_value("battery level", value)),
        }
    }
}

/// Handle to the PTM:User service.
pub struct PTMUser {
    _service_handler: ServiceReference,
}

impl PTMUser {
    /// Initializes the service with `start` (closing it with `close` after a lost
    /// handle); a single handle may be live at a time.
    pub fn new<S, E>(counter: &mut ServiceCounter, start: S, close: E) -> (r: Result<PTMUser, Error>) where
        S: FnOnce() -> Result<(), Error>,
        E: FnOnce(),
        requires
            must_start(effective_count(old(counter)@)) ==> call_requires(start, ()),
            old(counter)@.poisoned ==> call_requires(close, ()),
            old(counter)@.count < usize::MAX,
        ensures
            refused_as_active(effective_count(old(counter)@), false) ==> r matches Err(Error::ServiceAlreadyActive),
            final(counter)@.count == count_after_acquire(effective_count(old(counter)@), false, r is Ok),
            !final(counter)@.poisoned,
            must_start(effective_count(old(counter)@)) ==> (r is Ok ==> call_ensures(start, (), Ok::<(), Error>(()))),
            must_start(effective_count(old(counter)@)) ==> (r matches Err(e) ==> call_ensures(start, (), Err::<(), Error>(e))),
    {
        let handler = ServiceReference::new(counter, false, start, close)?;
        Ok(PTMUser { _service_handler: handler })
    }

    /// Releases the handle; the service is closed with `close` when it was the last.
    pub fn drop_with<E: FnOnce()>(self, counter: &mut ServiceCounter, close: E) -> (closed: bool)
        requires
            old(counter)@.count > 0,
            old(counter)@.count == 1 ==> call_requires(close, ()),
        ensures
            final(counter)@.count == old(counter)@.count - 1,
            closed == (final(counter)@.count == 0),
    {
        self._service_handler.release(counter, close)
    }

    /// Whether the console's clamshell is closed or open, from the result code and
    /// raw value reported by the system.
    pub fn shell_state(&self, result: i32, state: u8) -> (r: Result<ShellState, Error>)
        ensures
            is_failure_code(result) ==> r == Err::<ShellState, Error>(Error::Os(result)),
            !is_failure_code(result) && ShellState::from_raw_spec(state) is Some ==> r == Ok::<ShellState, Error>(ShellState::from_raw_spec(state).unwrap()),
            !is_failure_code(result) && ShellState::from_raw_spec(state) is None ==> (r matches Err(Error::Other(m))
                && m@ == unexpected_value_message("shell state"@, state)),
    {
        ResultCode(result).branch()?;
        ShellState::try_from(state)
    }

    /// The console's current battery charge level, from the result code and raw
    /// value reported by the system.
    pub fn battery_level(&self, result: i32, level: u8) -> (r: Result<BatteryLevel, Error>)
        ensures
            is_failure_code(result) ==> r == Err::<BatteryLevel, Error>(Error::Os(result)),
            !is_failure_code(result) && BatteryLevel::from_raw_spec(level) is Some ==> r == Ok::<BatteryLevel, Error>(BatteryLevel::from_raw_spec(level).unwrap()),
            !is_failure_code(result) && BatteryLevel::from_raw_spec(level) is None ==> (r matches Err(Error::Other(m))
                && m@ == unexpected_value_message("battery level"@, level)),
    {
        ResultCode(result).branch()?;
        BatteryLevel::try_from(level)
    }

    /// Whether the console is charging its battery, from the result code and raw
    /// value (0 or 1) reported by the system.
    pub fn is_charging(&self, result: i32, charging: u8) -> (r: Result<bool, Error>)
        ensures
            is_failure_code(result) ==> r == Err::<bool, Error>(Error::Os(result)),
            !is_failure_code(result) && charging == 0 ==> r == Ok::<bool, Error>(false),
            !is_failure_code(result) && charging == 1 ==> r == Ok::<bool, Error>(true),
            !is_failure_code(result) && charging > 1 ==> (r matches Err(Error::Other(m))
                && m@ == unexpected_value_message("charging state"@, charging)),
    {
        ResultCode(result).branch()?;
        match charging {
            0 => Ok(false),
            1 => Ok(true),
            v => Err(unexpected_value("charging state", v)),
        }
    }

    /// The console's total step count, from the result code and count reported by
    /// the system.
    pub fn step_count(&self, result: i32, steps: u32) -> (r: Result<u32, Error>)
        ensures
            is_failure_code(result) ==> r == Err::<u32, Error>(Error::Os(result)),
            !is_failure_code(result) ==> r == Ok::<u32, Error>(steps),
    {
        ResultCode(result).branch()?;
        Ok(steps)
    }
}

/// Converting a [`ShellState`] to its raw value and back gives the same variant, and
/// a raw value that stands for a variant converts back to that same raw value.
pub proof fn shell_state_raw_round_trip(v: ShellState, raw: u8)
    ensures
        ShellState::from_raw_spec(v.raw_spec()) == Some(v),
        ShellState::from_raw_spec(raw) matches Some(w) ==> w.raw_spec() == raw,
{
}

/// Converting a [`BatteryLevel`] to its raw value and back gives the same variant, and
/// a raw value that stands for a variant converts back to that same raw value.
pub proof fn battery_level_raw_round_trip(v: BatteryLevel, raw: u8)
    ensures
        BatteryLevel::from_raw_spec(v.raw_spec()) == Some(v),
        BatteryLevel::from_raw_spec(raw) matches Some(w) ==> w.raw_spec() == raw,
{
}

} // verus!

//! Operating system information: packed system versions, WiFi strength and
//! memory regions.
use vstd::prelude::*;
use vstd::std_specs::convert::FromSpecImpl;

verus! {

/// The byte value of `value` at byte position `shift / 8` (that is, `(value >> shift) & 0xFF`).
pub open spec fn byte_at(value: u32, shift: u32) -> u8 {
    ((value >> shift) & 0xFF) as u8
}

/// The packed representation of a system version: major in bits 24..32, minor in
/// bits 16..24, revision in bits 8..16 and zero in the lowest byte.
pub open spec fn packed_version(major: u8, minor: u8, revision: u8) -> u32 {
    ((major as u32) << 24u32) | ((minor as u32) << 16u32) | ((revision as u32) << 8u32)
}

/// System version information. This struct is used for both kernel and firmware versions.
#[derive(Clone, Copy)]
pub struct Version(u32);

impl View for Version {
    type V = u32;

    /// The packed 32-bit value.
    closed spec fn view(&self) -> u32 {
        self.0
    }
}

impl Version {
    /// Wraps a packed version value, as reported by the system.
    pub fn from_raw(raw: u32) -> (v: Version)
        ensures
            v@ == raw,
    {
        Version(raw)
    }

    /// Pack a system version from its components.
    pub fn new(major: u8, minor: u8, revision: u8) -> (v: Version)
        ensures
            v@ == packed_version(major, minor, revision),
    {
        let major = major as u32;
        let minor = minor as u32;
        let revision = revision as u32;
        Version(major << 24 | minor << 16 | revision << 8)
    }

    /// Get the major version from a packed system version.
    pub fn major(&self) -> (m: u8)
        ensures
            m == byte_at(self@, 24),
    {
        let v = self.0;
        assert((v >> 24u32) <= 0xFF) by (bit_vector);
        assert((v >> 24u32) & 0xFF == v >> 24u32) by (bit_vector);
        (v >> 24) as u8
    }

    /// Get the minor version from a packed system version.
    pub fn minor(&self) -> (m: u8)
        ensures
            m == byte_at(self@, 16),
    {
        (self.0 >> 16 & 0xFF) as u8
    }

    /// Get the revision from a packed system version.
    pub fn revision(&self) -> (r: u8)
        ensures
            r == byte_at(self@, 8),
    {
        (self.0 >> 8 & 0xFF) as u8
    }
}

/// Packing a version and reading it back gives the same components, and the
/// lowest byte of a packed version is zero.
pub proof fn version_components_round_trip(major: u8, minor: u8, revision: u8)
    ensures
        byte_at(packed_version(major, minor, revision), 24) == major,
        byte_at(packed_version(major, minor, revision), 16) == minor,
        byte_at(packed_version(major, minor, revision), 8) == revision,
        byte_at(packed_version(major, minor, revision), 0) == 0,
{
    assert(((((major as u32) << 24u32) | ((minor as u32) << 16u32) | ((revision as u32) << 8u32)) >> 24u32) & 0xFF == major as u32) by (bit_vector);
    assert(((((major as u32) << 24u32) | ((minor as u32) << 16u32) | ((revision as u32) << 8u32)) >> 16u32) & 0xFF == minor as u32) by (bit_vector);
    assert(((((major as u32) << 24u32) | ((minor as u32) << 16u32) | ((revision as u32) << 8u32)) >> 8u32) & 0xFF == revision as u32) by (bit_vector);
    assert(((((major as u32) << 24u32) | ((minor as u32) << 16u32) | ((revision as u32) << 8u32)) >> 0u32) & 0xFF == 0) by (bit_vector);
}

/// Memory regions of the console.
#[derive(Copy, Clone, Debug, PartialEq, Eq, Structural)]
#[non_exhaustive]
pub enum MemRegion {
    /// All memory regions.
    All,
    /// APPLICATION memory.
    Application,
    /// SYSTEM memory.
    System,
    /// BASE memory.
    Base,
}

impl MemRegion {
    /// The raw value of the variant.
    pub open spec fn raw_spec(self) -> u32 {
        match self {
            MemRegion::All => 0,
            MemRegion::Application => 1,
            MemRegion::System => 2,
            MemRegion::Base => 3,
        }
    }

    /// The variant with the given raw value, if any.
    pub open spec fn from_raw_spec(value: u32) -> Option<MemRegion> {
        if value == 0 {
            Some(MemRegion::All)
        } else if value == 1 {
            Some(MemRegion::Application)
        } else if value == 2 {
            Some(MemRegion::System)
        } else if value == 3 {
            Some(MemRegion::Base)
        } else {
            None
        }
    }

    /// The raw value of the variant.
    pub fn raw(self) -> (r: u32)
        ensures
            r == self.raw_spec(),
    {
        match self {
            MemRegion::All => 0,
            MemRegion::Application => 1,
            MemRegion::System => 2,
            MemRegion::Base => 3,
        }
    }

    /// The variant with the given raw value, if any.
    pub fn from_raw(value: u32) -> (r: Option<MemRegion>)
        ensures
            r == Self::from_raw_spec(value),
    {
        match value {
            0 => Some(MemRegion::All),
            1 => Some(MemRegion::Application),
            2 => Some(MemRegion::System),
            3 => Some(MemRegion::Base),
            _ => None,
        }
    }
}

impl From<MemRegion> for u32 {
    fn from(v: MemRegion) -> (r: u32) {
        v.raw()
    }
}

impl FromSpecImpl<MemRegion> for u32 {
    open spec fn obeys_from_spec() -> bool {
        true
    }

    open spec fn from_spec(v: MemRegion) -> u32 {
        v.raw_spec()
    }
}

/// WiFi connection strength.
#[derive(Copy, Clone, Debug, PartialEq, Eq, Structural)]
#[non_exhaustive]
pub enum WifiStrength {
    /// This may indicate a very poor signal quality even worse than `Bad`, or that no network is connected at all.
    Disconnected,
    /// Poor signal strength.
    Bad,
    /// Medium signal strength.
    Decent,
    /// Good signal strength.
    Good,
}

impl WifiStrength {
    /// The raw value of the variant.
    pub open spec fn raw_spec(self) -> u8 {
        match self {
            WifiStrength::Disconnected => 0,
            WifiStrength::Bad => 1,
            WifiStrength::Decent => 2,
            WifiStrength::Good => 3,
        }
    }

    /// The variant with the given raw value, if any.
    pub open spec fn from_raw_spec(value: u8) -> Option<WifiStrength> {
        if value == 0 {
            Some(WifiStrength::Disconnected)
        } else if value == 1 {
            Some(WifiStrength::Bad)
        } else if value == 2 {
            Some(WifiStrength::Decent)
        } else if value == 3 {
            Some(WifiStrength::Good)
        } else {
            None
        }
    }

    /// The raw value of the variant.
    pub fn raw(self) -> (r: u8)
        ensures
            r == self.raw_spec(),
    {
        match self {
            WifiStrength::Disconnected => 0,
            WifiStrength::Bad => 1,
            WifiStrength::Decent => 2,
            WifiStrength::Good => 3,
        }
    }

    /// The variant with the given raw value, if any.
    pub fn from_raw(value: u8) -> (r: Option<WifiStrength>)
        ensures
            r == Self::from_raw_spec(value),
    {
        match value {
            0 => Some(WifiStrength::Disconnected),
            1 => Some(WifiStrength::Bad),
            2 => Some(WifiStrength::Decent),
            3 => Some(WifiStrength::Good),
            _ => None,
        }
    }
}

impl From<WifiStrength> for u8 {
    fn from(v: WifiStrength) -> (r: u8) {
        v.raw()
    }
}

impl FromSpecImpl<WifiStrength> for u8 {
    open spec fn obeys_from_spec() -> bool {
        true
    }

    open spec fn from_spec(v: WifiStrength) -> u8 {
        v.raw_spec()
    }
}


impl WifiStrength {
    /// The current WiFi strength, from the raw value the system reports; the
    /// system reports a value from 0 to 3.
    pub fn current(raw: u8) -> (w: WifiStrength)
        requires
            raw <= 3,
        ensures
            Some(w) == WifiStrength::from_raw_spec(raw),
    {
        WifiStrength::from_raw(raw).unwrap()
    }
}

/// A WiFi strength converts to its raw value and back.
pub proof fn wifi_strength_round_trip(w: WifiStrength, raw: u8)
    ensures
        WifiStrength::from_raw_spec(w.raw_spec()) == Some(w),
        raw <= 3 <==> WifiStrength::from_raw_spec(raw) is Some,
{
}

} // verus!

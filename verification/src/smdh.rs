//! SMDH: the metadata of an application (its names in each language, version,
//! flags, region lock and ratings).
use vstd::prelude::*;
use crate::services::cfgu::Language;
use crate::utf16::{decode_utf16_lossy, decode_utf16_lossy_spec};
use crate::text::chars_to_string;

verus! {

/// Number of languages an SMDH holds titles for.
pub const SMDH_LANGUAGES: usize = 16;

/// The names of an application in one language.
#[derive(Copy, Clone, Debug)]
pub struct SmdhTitle {
    short: [u16; 0x40],
    long: [u16; 0x80],
    publisher: [u16; 0x40],
}

impl SmdhTitle {
    /// The short name, long name and publisher, as UTF-16 units.
    pub closed spec fn units(&self) -> (Seq<u16>, Seq<u16>, Seq<u16>) {
        (self.short@, self.long@, self.publisher@)
    }

    /// The names as they are stored.
    pub fn new(short: [u16; 0x40], long: [u16; 0x80], publisher: [u16; 0x40]) -> (t: SmdhTitle)
        ensures
            t.units() == (short@, long@, publisher@),
    {
        SmdhTitle { short, long, publisher }
    }
}

/// Flag bits of an SMDH.
#[derive(Clone, Copy, Debug, PartialEq, Eq, Structural)]
pub struct SmdhFlags {
    bits: u32,
}

impl SmdhFlags {
    /// The raw bits.
    pub closed spec fn bits_spec(self) -> u32 {
        self.bits
    }

    /// The raw bits.
    pub fn bits(&self) -> (b: u32)
        ensures
            b == self.bits_spec(),
    {
        self.bits
    }
}

/// Region lock bits of an SMDH.
#[derive(Clone, Copy, Debug, PartialEq, Eq, Structural)]
pub struct RegionLock {
    bits: u32,
}

impl RegionLock {
    /// The raw bits.
    pub closed spec fn bits_spec(self) -> u32 {
        self.bits
    }

    /// The raw bits.
    pub fn bits(&self) -> (b: u32)
        ensures
            b == self.bits_spec(),
    {
        self.bits
    }
}

/// The metadata of an application (its icons and banner animation frame are
/// not kept).
pub struct Smdh {
    magic: [u8; 4],
    version: u16,
    titles: Vec<SmdhTitle>,
    age_ratings: [u8; 16],
    region_lock: RegionLock,
    matchmaker_id: u32,
    matchmaker_bit_id: u64,
    flags: SmdhFlags,
    eula_version_major: u8,
    eula_version_minor: u8,
    streetpass_id: u32,
}

impl Smdh {
    /// The titles, one per language.
    pub closed spec fn titles_spec(&self) -> Seq<SmdhTitle> {
        self.titles@
    }

    /// The version, flags, region lock, EULA version and StreetPass ID.
    pub closed spec fn fields(&self) -> (u16, SmdhFlags, RegionLock, (u8, u8), u32) {
        (self.version, self.flags, self.region_lock, (self.eula_version_major, self.eula_version_minor), self.streetpass_id)
    }

    /// The magic bytes.
    pub closed spec fn magic_spec(&self) -> Seq<u8> {
        self.magic@
    }

    /// Metadata as it is stored.
    pub fn new(
        magic: [u8; 4],
        version: u16,
        titles: Vec<SmdhTitle>,
        age_ratings: [u8; 16],
        region_lock: u32,
        matchmaker_id: u32,
        matchmaker_bit_id: u64,
        flags: u32,
        eula_version: (u8, u8),
        streetpass_id: u32,
    ) -> (s: Smdh)
        ensures
            s.titles_spec() == titles@,
            s.magic_spec() == magic@,
            s.fields().0 == version,
            s.fields().1.bits_spec() == flags,
            s.fields().2.bits_spec() == region_lock,
            s.fields().3 == eula_version,
            s.fields().4 == streetpass_id,
    {
        Smdh {
            magic,
            version,
            titles,
            age_ratings,
            region_lock: RegionLock { bits: region_lock },
            matchmaker_id,
            matchmaker_bit_id,
            flags: SmdhFlags { bits: flags },
            eula_version_major: eula_version.0,
            eula_version_minor: eula_version.1,
            streetpass_id,
        }
    }

    /// The application's short name in a language: its units decoded, unpaired
    /// surrogates replaced by U+FFFD.
    pub fn short_name(&self, lang: Language) -> (s: String)
        requires
            self.titles_spec().len() == SMDH_LANGUAGES,
        ensures
            s@ == decode_utf16_lossy_spec(self.titles_spec()[lang.raw_spec() as int].units().0),
    {
        let t = self.titles[lang.raw() as usize];
        let chars = decode_utf16_lossy(&t.short);
        chars_to_string(chars.as_slice())
    }

    /// The application's long name in a language (see [`Smdh::short_name`]).
    pub fn long_name(&self, lang: Language) -> (s: String)
        requires
            self.titles_spec().len() == SMDH_LANGUAGES,
        ensures
            s@ == decode_utf16_lossy_spec(self.titles_spec()[lang.raw_spec() as int].units().1),
    {
        let t = self.titles[lang.raw() as usize];
        let chars = decode_utf16_lossy(&t.long);
        chars_to_string(chars.as_slice())
    }

    /// The application's publisher in a language (see [`Smdh::short_name`]).
    pub fn publisher(&self, lang: Language) -> (s: String)
        requires
            self.titles_spec().len() == SMDH_LANGUAGES,
        ensures
            s@ == decode_utf16_lossy_spec(self.titles_spec()[lang.raw_spec() as int].units().2),
    {
        let t = self.titles[lang.raw() as usize];
        let chars = decode_utf16_lossy(&t.publisher);
        chars_to_string(chars.as_slice())
    }

    /// The version of the metadata.
    pub fn version(&self) -> (v: u16)
        ensures
            v == self.fields().0,
    {
        self.version
    }

    /// The application's flags.
    pub fn flags(&self) -> (f: SmdhFlags)
        ensures
            f == self.fields().1,
    {
        self.flags
    }

    /// The regions the application may run in.
    pub fn region(&self) -> (r: RegionLock)
        ensures
            r == self.fields().2,
    {
        self.region_lock
    }

    /// The EULA version (major, minor).
    pub fn eula_version(&self) -> (v: (u8, u8))
        ensures
            v == self.fields().3,
    {
        (self.eula_version_major, self.eula_version_minor)
    }

    /// The magic bytes.
    pub(crate) fn magic(&self) -> (m: [u8; 4])
        ensures
            m@ == self.magic_spec(),
    {
        self.magic
    }

    /// The StreetPass ID.
    pub fn streetpass_id(&self) -> (i: u32)
        ensures
            i == self.fields().4,
    {
        self.streetpass_id
    }
}

} // verus!

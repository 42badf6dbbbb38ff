//! File system service: the data types used when talking to it.
use vstd::prelude::*;
use vstd::std_specs::convert::FromSpecImpl;

verus! {


/// Media type used for storage.
#[derive(Copy, Clone, Debug, PartialEq, Eq, Structural)]
pub enum MediaType {
    /// Internal NAND memory.
    Nand,
    /// External SD card.
    Sd,
    /// Game Cartridge.
    GameCard,
}

impl MediaType {
    /// The raw value of the variant.
    pub open spec fn raw_spec(self) -> u32 {
        match self {
            MediaType::Nand => 0,
            MediaType::Sd => 1,
            MediaType::GameCard => 2,
        }
    }

    /// The variant with the given raw value, if any.
    pub open spec fn from_raw_spec(value: u32) -> Option<MediaType> {
        if value == 0 {
            Some(MediaType::Nand)
        } else if value == 1 {
            Some(MediaType::Sd)
        } else if value == 2 {
            Some(MediaType::GameCard)
        } else {
            None
        }
    }

    /// The raw value of the variant.
    pub fn raw(self) -> (r: u32)
        ensures
            r == self.raw_spec(),
    {
        match self {
            MediaType::Nand => 0,
            MediaType::Sd => 1,
            MediaType::GameCard => 2,
        }
    }

    /// The variant with the given raw value, if any.
    pub fn from_raw(value: u32) -> (r: Option<MediaType>)
        ensures
            r == Self::from_raw_spec(value),
    {
        match value {
            0 => Some(MediaType::Nand),
            1 => Some(MediaType::Sd),
            2 => Some(MediaType::GameCard),
            _ => None,
        }
    }
}

impl From<MediaType> for u32 {
    fn from(v: MediaType) -> (r: u32) {
        v.raw()
    }
}

impl FromSpecImpl<MediaType> for u32 {
    open spec fn obeys_from_spec() -> bool {
        true
    }

    open spec fn from_spec(v: MediaType) -> u32 {
        v.raw_spec()
    }
}

/// Kind of file path.
#[derive(Copy, Clone, Debug, PartialEq, Eq, Structural)]
pub enum PathType {
    /// Invalid path.
    Invalid,
    /// Empty path.
    Empty,
    /// Binary path.
    Binary,
    /// ASCII path.
    ASCII,
    /// UTF-16 path.
    UTF16,
}

impl PathType {
    /// The raw value of the variant.
    pub open spec fn raw_spec(self) -> u32 {
        match self {
            PathType::Invalid => 0,
            PathType::Empty => 1,
            PathType::Binary => 2,
            PathType::ASCII => 3,
            PathType::UTF16 => 4,
        }
    }

    /// The variant with the given raw value, if any.
    pub open spec fn from_raw_spec(value: u32) -> Option<PathType> {
        if value == 0 {
            Some(PathType::Invalid)
        } else if value == 1 {
            Some(PathType::Empty)
        } else if value == 2 {
            Some(PathType::Binary)
        } else if value == 3 {
            Some(PathType::ASCII)
        } else if value == 4 {
            Some(PathType::UTF16)
        } else {
            None
        }
    }

    /// The raw value of the variant.
    pub fn raw(self) -> (r: u32)
        ensures
            r == self.raw_spec(),
    {
        match self {
            PathType::Invalid => 0,
            PathType::Empty => 1,
            PathType::Binary => 2,
            PathType::ASCII => 3,
            PathType::UTF16 => 4,
        }
    }

    /// The variant with the given raw value, if any.
    pub fn from_raw(value: u32) -> (r: Option<PathType>)
        ensures
            r == Self::from_raw_spec(value),
    {
        match value {
            0 => Some(PathType::Invalid),
            1 => Some(PathType::Empty),
            2 => Some(PathType::Binary),
            3 => Some(PathType::ASCII),
            4 => Some(PathType::UTF16),
            _ => None,
        }
    }
}

impl From<PathType> for u32 {
    fn from(v: PathType) -> (r: u32) {
        v.raw()
    }
}

impl FromSpecImpl<PathType> for u32 {
    open spec fn obeys_from_spec() -> bool {
        true
    }

    open spec fn from_spec(v: PathType) -> u32 {
        v.raw_spec()
    }
}

/// Index of the various usable data archives.
#[derive(Copy, Clone, Debug, PartialEq, Eq, Structural)]
pub enum ArchiveID {
    /// Read-Only Memory File System.
    RomFS,
    /// Game save data.
    Savedata,
    /// Game ext data.
    Extdata,
    /// Shared ext data.
    SharedExtdata,
    /// System save data.
    SystemSavedata,
    /// SD card.
    Sdmc,
    /// SD card (write-only).
    SdmcWriteOnly,
    /// BOSS ext data.
    BossExtdata,
    /// Card SPI File System.
    CardSpiFS,
    /// Game ext data and BOSS data.
    ExtDataAndBossExtdata,
    /// System save data.
    SystemSaveData2,
    /// Internal NAND (read-write).
    NandRW,
    /// Internal NAND (read-only).
    NandRO,
    /// Internal NAND (read-only write access).
    NandROWriteAccess,
    /// User save data and ExeFS/RomFS.
    SaveDataAndContent,
    /// User save data and ExeFS/RomFS (only available on the NAND).
    SaveDataAndContent2,
    /// NAND CTR File System.
    NandCtrFS,
    /// TWL photo.
    TwlPhoto,
    /// NAND TWL File System.
    NandTwlFS,
    /// Game card save data.
    GameCardSavedata,
    /// User save data.
    UserSavedata,
    /// Demo save data.
    DemoSavedata,
}

impl ArchiveID {
    /// The raw value of the variant.
    pub open spec fn raw_spec(self) -> u32 {
        match self {
            ArchiveID::RomFS => 0x3,
            ArchiveID::Savedata => 0x4,
            ArchiveID::Extdata => 0x6,
            ArchiveID::SharedExtdata => 0x7,
            ArchiveID::SystemSavedata => 0x8,
            ArchiveID::Sdmc => 0x9,
            ArchiveID::SdmcWriteOnly => 0xA,
            ArchiveID::BossExtdata => 0x12345678,
            ArchiveID::CardSpiFS => 0x12345679,
            ArchiveID::ExtDataAndBossExtdata => 0x1234567B,
            ArchiveID::SystemSaveData2 => 0x1234567C,
            ArchiveID::NandRW => 0x1234567D,
            ArchiveID::NandRO => 0x1234567E,
            ArchiveID::NandROWriteAccess => 0x1234567F,
            ArchiveID::SaveDataAndContent => 0x2345678A,
            ArchiveID::SaveDataAndContent2 => 0x2345678E,
            ArchiveID::NandCtrFS => 0x567890AB,
            ArchiveID::TwlPhoto => 0x567890AC,
            ArchiveID::NandTwlFS => 0x567890AE,
            ArchiveID::GameCardSavedata => 0x567890B1,
            ArchiveID::UserSavedata => 0x567890B2,
            ArchiveID::DemoSavedata => 0x567890B4,
        }
    }

    /// The variant with the given raw value, if any.
    pub open spec fn from_raw_spec(value: u32) -> Option<ArchiveID> {
        if value == 0x3 {
            Some(ArchiveID::RomFS)
        } else if value == 0x4 {
            Some(ArchiveID::Savedata)
        } else if value == 0x6 {
            Some(ArchiveID::Extdata)
        } else if value == 0x7 {
            Some(ArchiveID::SharedExtdata)
        } else if value == 0x8 {
            Some(ArchiveID::SystemSavedata)
        } else if value == 0x9 {
            Some(ArchiveID::Sdmc)
        } else if value == 0xA {
            Some(ArchiveID::SdmcWriteOnly)
        } else if value == 0x12345678 {
            Some(ArchiveID::BossExtdata)
        } else if value == 0x12345679 {
            Some(ArchiveID::CardSpiFS)
        } else if value == 0x1234567B {
            Some(ArchiveID::ExtDataAndBossExtdata)
        } else if value == 0x1234567C {
            Some(ArchiveID::SystemSaveData2)
        } else if value == 0x1234567D {
            Some(ArchiveID::NandRW)
        } else if value == 0x1234567E {
            Some(ArchiveID::NandRO)
        } else if value == 0x1234567F {
            Some(ArchiveID::NandROWriteAccess)
        } else if value == 0x2345678A {
            Some(ArchiveID::SaveDataAndContent)
        } else if value == 0x2345678E {
            Some(ArchiveID::SaveDataAndContent2)
        } else if value == 0x567890AB {
            Some(ArchiveID::NandCtrFS)
        } else if value == 0x567890AC {
            Some(ArchiveID::TwlPhoto)
        } else if value == 0x567890AE {
            Some(ArchiveID::NandTwlFS)
        } else if value == 0x567890B1 {
            Some(ArchiveID::GameCardSavedata)
        } else if value == 0x567890B2 {
            Some(ArchiveID::UserSavedata)
        } else if value == 0x567890B4 {
            Some(ArchiveID::DemoSavedata)
        } else {
            None
        }
    }

    /// The raw value of the variant.
    pub fn raw(self) -> (r: u32)
        ensures
            r == self.raw_spec(),
    {
        match self {
            ArchiveID::RomFS => 0x3,
            ArchiveID::Savedata => 0x4,
            ArchiveID::Extdata => 0x6,
            ArchiveID::SharedExtdata => 0x7,
            ArchiveID::SystemSavedata => 0x8,
            ArchiveID::Sdmc => 0x9,
            ArchiveID::SdmcWriteOnly => 0xA,
            ArchiveID::BossExtdata => 0x12345678,
            ArchiveID::CardSpiFS => 0x12345679,
            ArchiveID::ExtDataAndBossExtdata => 0x1234567B,
            ArchiveID::SystemSaveData2 => 0x1234567C,
            ArchiveID::NandRW => 0x1234567D,
            ArchiveID::NandRO => 0x1234567E,
            ArchiveID::NandROWriteAccess => 0x1234567F,
            ArchiveID::SaveDataAndContent => 0x2345678A,
            ArchiveID::SaveDataAndContent2 => 0x2345678E,
            ArchiveID::NandCtrFS => 0x567890AB,
            ArchiveID::TwlPhoto => 0x567890AC,
            ArchiveID::NandTwlFS => 0x567890AE,
            ArchiveID::GameCardSavedata => 0x567890B1,
            ArchiveID::UserSavedata => 0x567890B2,
            ArchiveID::DemoSavedata => 0x567890B4,
        }
    }

    /// The variant with the given raw value, if any.
    pub fn from_raw(value: u32) -> (r: Option<ArchiveID>)
        ensures
            r == Self::from_raw_spec(value),
    {
        match value {
            0x3 => Some(ArchiveID::RomFS),
            0x4 => Some(ArchiveID::Savedata),
            0x6 => Some(ArchiveID::Extdata),
            0x7 => Some(ArchiveID::SharedExtdata),
            0x8 => Some(ArchiveID::SystemSavedata),
            0x9 => Some(ArchiveID::Sdmc),
            0xA => Some(ArchiveID::SdmcWriteOnly),
            0x12345678 => Some(ArchiveID::BossExtdata),
            0x12345679 => Some(ArchiveID::CardSpiFS),
            0x1234567B => Some(ArchiveID::ExtDataAndBossExtdata),
            0x1234567C => Some(ArchiveID::SystemSaveData2),
            0x1234567D => Some(ArchiveID::NandRW),
            0x1234567E => Some(ArchiveID::NandRO),
            0x1234567F => Some(ArchiveID::NandROWriteAccess),
            0x2345678A => Some(ArchiveID::SaveDataAndContent),
            0x2345678E => Some(ArchiveID::SaveDataAndContent2),
            0x567890AB => Some(ArchiveID::NandCtrFS),
            0x567890AC => Some(ArchiveID::TwlPhoto),
            0x567890AE => Some(ArchiveID::NandTwlFS),
            0x567890B1 => Some(ArchiveID::GameCardSavedata),
            0x567890B2 => Some(ArchiveID::UserSavedata),
            0x567890B4 => Some(ArchiveID::DemoSavedata),
            _ => None,
        }
    }
}

impl From<ArchiveID> for u32 {
    fn from(v: ArchiveID) -> (r: u32) {
        v.raw()
    }
}

impl FromSpecImpl<ArchiveID> for u32 {
    open spec fn obeys_from_spec() -> bool {
        true
    }

    open spec fn from_spec(v: ArchiveID) -> u32 {
        v.raw_spec()
    }
}

/// Converting a [`MediaType`] to its raw value and back gives the same variant, and
/// a raw value that stands for a variant converts back to that same raw value.
pub proof fn media_type_round_trip(v: MediaType, raw: u32)
    ensures
        MediaType::from_raw_spec(v.raw_spec()) == Some(v),
        MediaType::from_raw_spec(raw) matches Some(w) ==> w.raw_spec() == raw,
{
}

/// Converting a [`ArchiveID`] to its raw value and back gives the same variant, and
/// a raw value that stands for a variant converts back to that same raw value.
pub proof fn archive_id_round_trip(v: ArchiveID, raw: u32)
    ensures
        ArchiveID::from_raw_spec(v.raw_spec()) == Some(v),
        ArchiveID::from_raw_spec(raw) matches Some(w) ==> w.raw_spec() == raw,
{
}

} // verus!

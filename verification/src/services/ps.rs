//! Process Services: the console's friend code seed and device ID, and the AES
//! settings of its cryptographic engine.
use vstd::prelude::*;
use vstd::std_specs::convert::FromSpecImpl;
use crate::error::{Error, ResultCode, is_failure_code};
use crate::services::ac::read_spec;

verus! {

/// Type of AES algorithm to use.
#[derive(Copy, Clone, Debug, PartialEq, Eq, Structural)]
pub enum AESAlgorithm {
    /// CBC encryption.
    CbcEnc,
    /// CBC decryption.
    CbcDec,
    /// CTR encryption.
    CtrEnc,
    /// CTR decryption.
    CtrDec,
    /// CCM encryption.
    CcmEnc,
    /// CCM decryption.
    CcmDec,
}

impl AESAlgorithm {
    /// The raw value of the variant.
    pub open spec fn raw_spec(self) -> u32 {
        match self {
            AESAlgorithm::CbcEnc => 0,
            AESAlgorithm::CbcDec => 1,
            AESAlgorithm::CtrEnc => 2,
            AESAlgorithm::CtrDec => 3,
            AESAlgorithm::CcmEnc => 4,
            AESAlgorithm::CcmDec => 5,
        }
    }

    /// The variant with the given raw value, if any.
    pub open spec fn from_raw_spec(value: u32) -> Option<AESAlgorithm> {
        if value == 0 {
            Some(AESAlgorithm::CbcEnc)
        } else if value == 1 {
            Some(AESAlgorithm::CbcDec)
        } else if value == 2 {
            Some(AESAlgorithm::CtrEnc)
        } else if value == 3 {
            Some(AESAlgorithm::CtrDec)
        } else if value == 4 {
            Some(AESAlgorithm::CcmEnc)
        } else if value == 5 {
            Some(AESAlgorithm::CcmDec)
        } else {
            None
        }
    }

    /// The raw value of the variant.
    pub fn raw(self) -> (r: u32)
        ensures
            r == self.raw_spec(),
    {
        match self {
            AESAlgorithm::CbcEnc => 0,
            AESAlgorithm::CbcDec => 1,
            AESAlgorithm::CtrEnc => 2,
            AESAlgorithm::CtrDec => 3,
            AESAlgorithm::CcmEnc => 4,
            AESAlgorithm::CcmDec => 5,
        }
    }

    /// The variant with the given raw value, if any.
    pub fn from_raw(value: u32) -> (r: Option<AESAlgorithm>)
        ensures
            r == Self::from_raw_spec(value),
    {
        match value {
            0 => Some(AESAlgorithm::CbcEnc),
            1 => Some(AESAlgorithm::CbcDec),
            2 => Some(AESAlgorithm::CtrEnc),
            3 => Some(AESAlgorithm::CtrDec),
            4 => Some(AESAlgorithm::CcmEnc),
            5 => Some(AESAlgorithm::CcmDec),
            _ => None,
        }
    }
}

impl From<AESAlgorithm> for u32 {
    fn from(v: AESAlgorithm) -> (r: u32) {
        v.raw()
    }
}

impl FromSpecImpl<AESAlgorithm> for u32 {
    open spec fn obeys_from_spec() -> bool {
        true
    }

    open spec fn from_spec(v: AESAlgorithm) -> u32 {
        v.raw_spec()
    }
}

/// PS Key slot to use.
#[derive(Copy, Clone, Debug, PartialEq, Eq, Structural)]
pub enum AESKeyType {
    /// Keyslot 0x0D.
    Keyslot0D,
    /// Keyslot 0x2D.
    Keyslot2D,
    /// Keyslot 0x31.
    Keyslot31,
    /// Keyslot 0x38.
    Keyslot38,
    /// Keyslot 0x32.
    Keyslot32,
    /// Keyslot 0x39 (DLP).
    Keyslot39Dlp,
    /// Keyslot 0x2E.
    Keyslot2E,
    /// Invalid keyslot.
    KeyslotInvalid,
    /// Keyslot 0x36.
    Keyslot36,
    /// Keyslot 0x39 (NFC).
    Keyslot39Nfc,
}

impl AESKeyType {
    /// The raw value of the variant.
    pub open spec fn raw_spec(self) -> u32 {
        match self {
            AESKeyType::Keyslot0D => 0,
            AESKeyType::Keyslot2D => 1,
            AESKeyType::Keyslot31 => 2,
            AESKeyType::Keyslot38 => 3,
            AESKeyType::Keyslot32 => 4,
            AESKeyType::Keyslot39Dlp => 5,
            AESKeyType::Keyslot2E => 6,
            AESKeyType::KeyslotInvalid => 7,
            AESKeyType::Keyslot36 => 8,
            AESKeyType::Keyslot39Nfc => 9,
        }
    }

    /// The variant with the given raw value, if any.
    pub open spec fn from_raw_spec(value: u32) -> Option<AESKeyType> {
        if value == 0 {
            Some(AESKeyType::Keyslot0D)
        } else if value == 1 {
            Some(AESKeyType::Keyslot2D)
        } else if value == 2 {
            Some(AESKeyType::Keyslot31)
        } else if value == 3 {
            Some(AESKeyType::Keyslot38)
        } else if value == 4 {
            Some(AESKeyType::Keyslot32)
        } else if value == 5 {
            Some(AESKeyType::Keyslot39Dlp)
        } else if value == 6 {
            Some(AESKeyType::Keyslot2E)
        } else if value == 7 {
            Some(AESKeyType::KeyslotInvalid)
        } else if value == 8 {
            Some(AESKeyType::Keyslot36)
        } else if value == 9 {
            Some(AESKeyType::Keyslot39Nfc)
        } else {
            None
        }
    }

    /// The raw value of the variant.
    pub fn raw(self) -> (r: u32)
        ensures
            r == self.raw_spec(),
    {
        match self {
            AESKeyType::Keyslot0D => 0,
            AESKeyType::Keyslot2D => 1,
            AESKeyType::Keyslot31 => 2,
            AESKeyType::Keyslot38 => 3,
            AESKeyType::Keyslot32 => 4,
            AESKeyType::Keyslot39Dlp => 5,
            AESKeyType::Keyslot2E => 6,
            AESKeyType::KeyslotInvalid => 7,
            AESKeyType::Keyslot36 => 8,
            AESKeyType::Keyslot39Nfc => 9,
        }
    }

    /// The variant with the given raw value, if any.
    pub fn from_raw(value: u32) -> (r: Option<AESKeyType>)
        ensures
            r == Self::from_raw_spec(value),
    {
        match value {
            0 => Some(AESKeyType::Keyslot0D),
            1 => Some(AESKeyType::Keyslot2D),
            2 => Some(AESKeyType::Keyslot31),
            3 => Some(AESKeyType::Keyslot38),
            4 => Some(AESKeyType::Keyslot32),
            5 => Some(AESKeyType::Keyslot39Dlp),
            6 => Some(AESKeyType::Keyslot2E),
            7 => Some(AESKeyType::KeyslotInvalid),
            8 => Some(AESKeyType::Keyslot36),
            9 => Some(AESKeyType::Keyslot39Nfc),
            _ => None,
        }
    }
}

impl From<AESKeyType> for u32 {
    fn from(v: AESKeyType) -> (r: u32) {
        v.raw()
    }
}

impl FromSpecImpl<AESKeyType> for u32 {
    open spec fn obeys_from_spec() -> bool {
        true
    }

    open spec fn from_spec(v: AESKeyType) -> u32 {
        v.raw_spec()
    }
}

/// Handle to the Process Services.
pub struct Ps {
    _private: (),
}

impl Ps {
    /// The handle, once the service initialization reported `result`.
    pub fn new(result: i32) -> (r: Result<Ps, Error>)
        ensures
            is_failure_code(result) ==> (r matches Err(Error::Os(c)) && c == result),
            !is_failure_code(result) ==> r is Ok,
    {
        ResultCode(result).branch()?;
        Ok(Ps { _private: () })
    }

    /// The console's local friend code seed, as reported by the system.
    pub fn local_friend_code_seed(&self, result: i32, seed: u64) -> (r: Result<u64, Error>)
        ensures
            r == read_spec(result, seed),
    {
        ResultCode(result).branch()?;
        Ok(seed)
    }

    /// The console's device ID, as reported by the system.
    pub fn device_id(&self, result: i32, id: u32) -> (r: Result<u32, Error>)
        ensures
            r == read_spec(result, id),
    {
        ResultCode(result).branch()?;
        Ok(id)
    }
}

} // verus!

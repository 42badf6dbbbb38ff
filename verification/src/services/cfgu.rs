//! Configuration service: the console's region, language and model.
use vstd::prelude::*;
use vstd::std_specs::convert::{FromSpecImpl, TryFromSpecImpl};
use crate::error::Error;

verus! {

/// Region of the console.
#[derive(Copy, Clone, Debug, PartialEq, Eq, Structural)]
pub enum Region {
    /// Japan.
    Japan,
    /// USA.
    Usa,
    /// Europe.
    Europe,
    /// Australia.
    Australia,
    /// China.
    China,
    /// Korea.
    Korea,
    /// Taiwan.
    Taiwan,
}

impl Region {
    /// The raw value of the variant.
    pub open spec fn raw_spec(self) -> u8 {
        match self {
            Region::Japan => 0,
            Region::Usa => 1,
            Region::Europe => 2,
            Region::Australia => 3,
            Region::China => 4,
            Region::Korea => 5,
            Region::Taiwan => 6,
        }
    }

    /// The variant with the given raw value, if any.
    pub open spec fn from_raw_spec(value: u8) -> Option<Region> {
        if value == 0 {
            Some(Region::Japan)
        } else if value == 1 {
            Some(Region::Usa)
        } else if value == 2 {
            Some(Region::Europe)
        } else if value == 3 {
            Some(Region::Australia)
        } else if value == 4 {
            Some(Region::China)
        } else if value == 5 {
            Some(Region::Korea)
        } else if value == 6 {
            Some(Region::Taiwan)
        } else {
            None
        }
    }

    /// The raw value of the variant.
    pub fn raw(self) -> (r: u8)
        ensures
            r == self.raw_spec(),
    {
        match self {
            Region::Japan => 0,
            Region::Usa => 1,
            Region::Europe => 2,
            Region::Australia => 3,
            Region::China => 4,
            Region::Korea => 5,
            Region::Taiwan => 6,
        }
    }

    /// The variant with the given raw value, if any.
    pub fn from_raw(value: u8) -> (r: Option<Region>)
        ensures
            r == Self::from_raw_spec(value),
    {
        match value {
            0 => Some(Region::Japan),
            1 => Some(Region::Usa),
            2 => Some(Region::Europe),
            3 => Some(Region::Australia),
            4 => Some(Region::China),
            5 => Some(Region::Korea),
            6 => Some(Region::Taiwan),
            _ => None,
        }
    }
}

impl From<Region> for u8 {
    fn from(v: Region) -> (r: u8) {
        v.raw()
    }
}

impl FromSpecImpl<Region> for u8 {
    open spec fn obeys_from_spec() -> bool {
        true
    }

    open spec fn from_spec(v: Region) -> u8 {
        v.raw_spec()
    }
}

impl TryFrom<u8> for Region {
    type Error = ();

    fn try_from(value: u8) -> (r: Result<Region, ()>) {
        match Region::from_raw(value) {
            Some(v) => Ok(v),
            None => Err(()),
        }
    }
}

impl TryFromSpecImpl<u8> for Region {
    open spec fn obeys_try_from_spec() -> bool {
        true
    }

    open spec fn try_from_spec(value: u8) -> Result<Region, ()> {
        match Region::from_raw_spec(value) {
            Some(v) => Ok(v),
            None => Err(()),
        }
    }
}

/// Language of the console.
#[derive(Copy, Clone, Debug, PartialEq, Eq, Structural)]
pub enum Language {
    /// Japanese.
    Japan,
    /// English.
    English,
    /// French.
    French,
    /// German.
    German,
    /// Italian.
    Italian,
    /// Spanish.
    Spanish,
    /// Simplified Chinese.
    SimpChinese,
    /// Korean.
    Korean,
    /// Dutch.
    Dutch,
    /// Portuguese.
    Portuguese,
    /// Russian.
    Russian,
    /// Traditional Chinese.
    TradChinese,
}

impl Language {
    /// The raw value of the variant.
    pub open spec fn raw_spec(self) -> u8 {
        match self {
            Language::Japan => 0,
            Language::English => 1,
            Language::French => 2,
            Language::German => 3,
            Language::Italian => 4,
            Language::Spanish => 5,
            Language::SimpChinese => 6,
            Language::Korean => 7,
            Language::Dutch => 8,
            Language::Portuguese => 9,
            Language::Russian => 10,
            Language::TradChinese => 11,
        }
    }

    /// The variant with the given raw value, if any.
    pub open spec fn from_raw_spec(value: u8) -> Option<Language> {
        if value == 0 {
            Some(Language::Japan)
        } else if value == 1 {
            Some(Language::English)
        } else if value == 2 {
            Some(Language::French)
        } else if value == 3 {
            Some(Language::German)
        } else if value == 4 {
            Some(Language::Italian)
        } else if value == 5 {
            Some(Language::Spanish)
        } else if value == 6 {
            Some(Language::SimpChinese)
        } else if value == 7 {
            Some(Language::Korean)
        } else if value == 8 {
            Some(Language::Dutch)
        } else if value == 9 {
            Some(Language::Portuguese)
        } else if value == 10 {
            Some(Language::Russian)
        } else if value == 11 {
            Some(Language::TradChinese)
        } else {
            None
        }
    }

    /// The raw value of the variant.
    pub fn raw(self) -> (r: u8)
        ensures
            r == self.raw_spec(),
    {
        match self {
            Language::Japan => 0,
            Language::English => 1,
            Language::French => 2,
            Language::German => 3,
            Language::Italian => 4,
            Language::Spanish => 5,
            Language::SimpChinese => 6,
            Language::Korean => 7,
            Language::Dutch => 8,
            Language::Portuguese => 9,
            Language::Russian => 10,
            Language::TradChinese => 11,
        }
    }

    /// The variant with the given raw value, if any.
    pub fn from_raw(value: u8) -> (r: Option<Language>)
        ensures
            r == Self::from_raw_spec(value),
    {
        match value {
            0 => Some(Language::Japan),
            1 => Some(Language::English),
            2 => Some(Language::French),
            3 => Some(Language::German),
            4 => Some(Language::Italian),
            5 => Some(Language::Spanish),
            6 => Some(Language::SimpChinese),
            7 => Some(Language::Korean),
            8 => Some(Language::Dutch),
            9 => Some(Language::Portuguese),
            10 => Some(Language::Russian),
            11 => Some(Language::TradChinese),
            _ => None,
        }
    }
}

impl From<Language> for u8 {
    fn from(v: Language) -> (r: u8) {
        v.raw()
    }
}

impl FromSpecImpl<Language> for u8 {
    open spec fn obeys_from_spec() -> bool {
        true
    }

    open spec fn from_spec(v: Language) -> u8 {
        v.raw_spec()
    }
}

impl TryFrom<u8> for Language {
    type Error = ();

    fn try_from(value: u8) -> (r: Result<Language, ()>) {
        match Language::from_raw(value) {
            Some(v) => Ok(v),
            None => Err(()),
        }
    }
}

impl TryFromSpecImpl<u8> for Language {
    open spec fn obeys_try_from_spec() -> bool {
        true
    }

    open spec fn try_from_spec(value: u8) -> Result<Language, ()> {
        match Language::from_raw_spec(value) {
            Some(v) => Ok(v),
            None => Err(()),
        }
    }
}

/// Model of the console.
#[derive(Copy, Clone, Debug, PartialEq, Eq, Structural)]
pub enum SystemModel {
    /// Old Nintendo 3DS.
    Model3DS,
    /// Old Nintendo 3DS XL.
    Model3DSXL,
    /// New Nintendo 3DS.
    ModelNew3DS,
    /// Old Nintendo 2DS.
    Model2DS,
    /// New Nintendo 3DS XL.
    ModelNew3DSXL,
    /// New Nintendo 2DS XL.
    ModelNew2DSXL,
}

impl SystemModel {
    /// The raw value of the variant.
    pub open spec fn raw_spec(self) -> u8 {
        match self {
            SystemModel::Model3DS => 0,
            SystemModel::Model3DSXL => 1,
            SystemModel::ModelNew3DS => 2,
            SystemModel::Model2DS => 3,
            SystemModel::ModelNew3DSXL => 4,
            SystemModel::ModelNew2DSXL => 5,
        }
    }

    /// The variant with the given raw value, if any.
    pub open spec fn from_raw_spec(value: u8) -> Option<SystemModel> {
        if value == 0 {
            Some(SystemModel::Model3DS)
        } else if value == 1 {
            Some(SystemModel::Model3DSXL)
        } else if value == 2 {
            Some(SystemModel::ModelNew3DS)
        } else if value == 3 {
            Some(SystemModel::Model2DS)
        } else if value == 4 {
            Some(SystemModel::ModelNew3DSXL)
        } else if value == 5 {
            Some(SystemModel::ModelNew2DSXL)
        } else {
            None
        }
    }

    /// The raw value of the variant.
    pub fn raw(self) -> (r: u8)
        ensures
            r == self.raw_spec(),
    {
        match self {
            SystemModel::Model3DS => 0,
            SystemModel::Model3DSXL => 1,
            SystemModel::ModelNew3DS => 2,
            SystemModel::Model2DS => 3,
            SystemModel::ModelNew3DSXL => 4,
            SystemModel::ModelNew2DSXL => 5,
        }
    }

    /// The variant with the given raw value, if any.
    pub fn from_raw(value: u8) -> (r: Option<SystemModel>)
        ensures
            r == Self::from_raw_spec(value),
    {
        match value {
            0 => Some(SystemModel::Model3DS),
            1 => Some(SystemModel::Model3DSXL),
            2 => Some(SystemModel::ModelNew3DS),
            3 => Some(SystemModel::Model2DS),
            4 => Some(SystemModel::ModelNew3DSXL),
            5 => Some(SystemModel::ModelNew2DSXL),
            _ => None,
        }
    }
}

impl From<SystemModel> for u8 {
    fn from(v: SystemModel) -> (r: u8) {
        v.raw()
    }
}

impl FromSpecImpl<SystemModel> for u8 {
    open spec fn obeys_from_spec() -> bool {
        true
    }

    open spec fn from_spec(v: SystemModel) -> u8 {
        v.raw_spec()
    }
}

impl TryFrom<u8> for SystemModel {
    type Error = ();

    fn try_from(value: u8) -> (r: Result<SystemModel, ()>) {
        match SystemModel::from_raw(value) {
            Some(v) => Ok(v),
            None => Err(()),
        }
    }
}

impl TryFromSpecImpl<u8> for SystemModel {
    open spec fn obeys_try_from_spec() -> bool {
        true
    }

    open spec fn try_from_spec(value: u8) -> Result<SystemModel, ()> {
        match SystemModel::from_raw_spec(value) {
            Some(v) => Ok(v),
            None => Err(()),
        }
    }
}

/// Converting a [`Region`] to its raw value and back gives the same variant, and
/// a raw value that stands for a variant converts back to that same raw value.
pub proof fn region_raw_round_trip(v: Region, raw: u8)
    ensures
        Region::from_raw_spec(v.raw_spec()) == Some(v),
        Region::from_raw_spec(raw) matches Some(w) ==> w.raw_spec() == raw,
{
}

/// Converting a [`Language`] to its raw value and back gives the same variant, and
/// a raw value that stands for a variant converts back to that same raw value.
pub proof fn language_raw_round_trip(v: Language, raw: u8)
    ensures
        Language::from_raw_spec(v.raw_spec()) == Some(v),
        Language::from_raw_spec(raw) matches Some(w) ==> w.raw_spec() == raw,
{
}

/// Converting a [`SystemModel`] to its raw value and back gives the same variant, and
/// a raw value that stands for a variant converts back to that same raw value.
pub proof fn system_model_raw_round_trip(v: SystemModel, raw: u8)
    ensures
        SystemModel::from_raw_spec(v.raw_spec()) == Some(v),
        SystemModel::from_raw_spec(raw) matches Some(w) ==> w.raw_spec() == raw,
{
}

/// Handle to the configuration service.
pub struct Cfgu {
    _private: (),
}

/// The value a getter reports: an error for a negative system result code, and
/// otherwise the value.
pub open spec fn reply_spec<T>(result: i32, value: T) -> Result<T, Error> {
    if result < 0 {
        Err(Error::Os(result))
    } else {
        Ok(value)
    }
}

impl Cfgu {
    /// The handle, once the service initialization reported `result`: an error for
    /// a negative result code.
    pub fn init(result: i32) -> (r: Result<Cfgu, Error>)
        ensures
            result < 0 <==> r is Err,
            r matches Err(e) ==> e == Error::Os(result),
    {
        if result < 0 {
            Err(Error::Os(result))
        } else {
            Ok(Cfgu { _private: () })
        }
    }

    /// The system region, from the result code and raw value reported by the
    /// system. The system only reports valid regions.
    pub fn get_region(&self, result: i32, region: u8) -> (r: Result<Region, Error>)
        requires
            result < 0 || Region::from_raw_spec(region) is Some,
        ensures
            r == reply_spec(result, Region::from_raw_spec(region).unwrap()),
    {
        if result < 0 {
            Err(Error::Os(result))
        } else {
            match Region::from_raw(region) {
                Some(v) => Ok(v),
                None => Err(Error::Os(result)),
            }
        }
    }

    /// The system model, from the result code and raw value reported by the
    /// system. The system only reports valid models.
    pub fn get_model(&self, result: i32, model: u8) -> (r: Result<SystemModel, Error>)
        requires
            result < 0 || SystemModel::from_raw_spec(model) is Some,
        ensures
            r == reply_spec(result, SystemModel::from_raw_spec(model).unwrap()),
    {
        if result < 0 {
            Err(Error::Os(result))
        } else {
            match SystemModel::from_raw(model) {
                Some(v) => Ok(v),
                None => Err(Error::Os(result)),
            }
        }
    }

    /// The system language, from the result code and raw value reported by the
    /// system. The system only reports valid languages.
    pub fn get_language(&self, result: i32, language: u8) -> (r: Result<Language, Error>)
        requires
            result < 0 || Language::from_raw_spec(language) is Some,
        ensures
            r == reply_spec(result, Language::from_raw_spec(language).unwrap()),
    {
        if result < 0 {
            Err(Error::Os(result))
        } else {
            match Language::from_raw(language) {
                Some(v) => Ok(v),
                None => Err(Error::Os(result)),
            }
        }
    }

    /// Whether NFC is supported, from the result code and flag reported by the system.
    pub fn is_nfc_supported(&self, result: i32, supported: bool) -> (r: Result<bool, Error>)
        ensures
            r == reply_spec(result, supported),
    {
        if result < 0 {
            Err(Error::Os(result))
        } else {
            Ok(supported)
        }
    }

    /// Whether the console is 2DS-like (2DS, New2DS, New2DSXL), from the result code
    /// and raw value reported by the system, which is 0 for those models.
    pub fn is_2ds_like(&self, result: i32, raw: u8) -> (r: Result<bool, Error>)
        ensures
            r == reply_spec(result, raw < 1),
    {
        if result < 0 {
            Err(Error::Os(result))
        } else {
            Ok(raw < 1)
        }
    }
}

} // verus!

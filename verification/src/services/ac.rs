//! Wi-Fi connection service: the console's Wi-Fi status, security and proxy, as
//! the system reports them.
use vstd::prelude::*;
use vstd::std_specs::convert::FromSpecImpl;
use crate::error::{Error, ResultCode, is_failure_code};

verus! {

/// The Wi-Fi status the system reports when the console is connected.
pub const WIFI_CONNECTED_STATUS: u32 = 3;

/// A value read from the system: an error for a failure code, the value
/// otherwise.
pub open spec fn read_spec<T>(result: i32, value: T) -> Result<T, Error> {
    if is_failure_code(result) {
        Err(Error::Os(result))
    } else {
        Ok(value)
    }
}

/// Possible security modes of a Wi-Fi network.
#[derive(Copy, Clone, Debug, PartialEq, Eq, Structural)]
#[allow(non_camel_case_types)]
#[non_exhaustive]
pub enum SecurityMode {
    /// No authentication.
    Open,
    /// WEP 40-bit authentication.
    WEP40Bit,
    /// WEP 104-bit authentication.
    WEP104Bit,
    /// WEP 128-bit authentication.
    WEP128Bit,
    /// WPA TKIP authentication.
    WPA_TKIP,
    /// WPA2 TKIP authentication.
    WPA2_TKIP,
    /// WPA AES authentication.
    WPA_AES,
    /// WPA2 AES authentication.
    WPA2_AES,
}

impl SecurityMode {
    /// The raw value of the variant.
    pub open spec fn raw_spec(self) -> u32 {
        match self {
            SecurityMode::Open => 0,
            SecurityMode::WEP40Bit => 1,
            SecurityMode::WEP104Bit => 2,
            SecurityMode::WEP128Bit => 3,
            SecurityMode::WPA_TKIP => 4,
            SecurityMode::WPA2_TKIP => 5,
            SecurityMode::WPA_AES => 6,
            SecurityMode::WPA2_AES => 7,
        }
    }

    /// The variant with the given raw value, if any.
    pub open spec fn from_raw_spec(value: u32) -> Option<SecurityMode> {
        if value == 0 {
            Some(SecurityMode::Open)
        } else if value == 1 {
            Some(SecurityMode::WEP40Bit)
        } else if value == 2 {
            Some(SecurityMode::WEP104Bit)
        } else if value == 3 {
            Some(SecurityMode::WEP128Bit)
        } else if value == 4 {
            Some(SecurityMode::WPA_TKIP)
        } else if value == 5 {
            Some(SecurityMode::WPA2_TKIP)
        } else if value == 6 {
            Some(SecurityMode::WPA_AES)
        } else if value == 7 {
            Some(SecurityMode::WPA2_AES)
        } else {
            None
        }
    }

    /// The raw value of the variant.
    pub fn raw(self) -> (r: u32)
        ensures
            r == self.raw_spec(),
    {
        match self {
            SecurityMode::Open => 0,
            SecurityMode::WEP40Bit => 1,
            SecurityMode::WEP104Bit => 2,
            SecurityMode::WEP128Bit => 3,
            SecurityMode::WPA_TKIP => 4,
            SecurityMode::WPA2_TKIP => 5,
            SecurityMode::WPA_AES => 6,
            SecurityMode::WPA2_AES => 7,
        }
    }

    /// The variant with the given raw value, if any.
    pub fn from_raw(value: u32) -> (r: Option<SecurityMode>)
        ensures
            r == Self::from_raw_spec(value),
    {
        match value {
            0 => Some(SecurityMode::Open),
            1 => Some(SecurityMode::WEP40Bit),
            2 => Some(SecurityMode::WEP104Bit),
            3 => Some(SecurityMode::WEP128Bit),
            4 => Some(SecurityMode::WPA_TKIP),
            5 => Some(SecurityMode::WPA2_TKIP),
            6 => Some(SecurityMode::WPA_AES),
            7 => Some(SecurityMode::WPA2_AES),
            _ => None,
        }
    }
}

impl From<SecurityMode> for u32 {
    fn from(v: SecurityMode) -> (r: u32) {
        v.raw()
    }
}

impl FromSpecImpl<SecurityMode> for u32 {
    open spec fn obeys_from_spec() -> bool {
        true
    }

    open spec fn from_spec(v: SecurityMode) -> u32 {
        v.raw_spec()
    }
}

/// Handle to the Wi-Fi connection service.
pub struct Ac {
    _private: (),
}

impl Ac {
    /// The handle, once the service initialization reported `result`.
    pub fn new(result: i32) -> (r: Result<Ac, Error>)
        ensures
            is_failure_code(result) ==> (r matches Err(Error::Os(c)) && c == result),
            !is_failure_code(result) ==> r is Ok,
    {
        ResultCode(result).branch()?;
        Ok(Ac { _private: () })
    }

    /// Whether the console is connected to a Wi-Fi network, from the result code
    /// and status reported by the system (connected is status 3).
    pub fn get_wifi_status(&self, result: i32, status: u32) -> (r: Result<bool, Error>)
        ensures
            r == read_spec(result, status == WIFI_CONNECTED_STATUS),
    {
        ResultCode(result).branch()?;
        Ok(status == WIFI_CONNECTED_STATUS)
    }

    /// The security mode of the connected network, from the result code and raw
    /// mode reported by the system; the system only reports known modes.
    pub fn get_wifi_security(&self, result: i32, mode: u32) -> (r: Result<SecurityMode, Error>)
        requires
            is_failure_code(result) || SecurityMode::from_raw_spec(mode) is Some,
        ensures
            r == read_spec(result, SecurityMode::from_raw_spec(mode).unwrap()),
    {
        ResultCode(result).branch()?;
        Ok(SecurityMode::from_raw(mode).unwrap())
    }

    /// Whether the connected network uses a proxy, as reported by the system.
    pub fn get_proxy_enabled(&self, result: i32, enabled: bool) -> (r: Result<bool, Error>)
        ensures
            r == read_spec(result, enabled),
    {
        ResultCode(result).branch()?;
        Ok(enabled)
    }

    /// The port of the connected network's proxy, as reported by the system.
    pub fn get_proxy_port(&self, result: i32, port: u32) -> (r: Result<u32, Error>)
        ensures
            r == read_spec(result, port),
    {
        ResultCode(result).branch()?;
        Ok(port)
    }
}

} // verus!

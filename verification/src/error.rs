//! Error handling: the result codes that the system returns, their
//! decomposition into level, summary, module and description, and the error
//! type of the library.
use vstd::prelude::*;
use vstd::std_specs::convert::FromSpecImpl;
use crate::bits::{bit_field, field_u32};
use crate::text::{dec_digits, decimal_string, hex_chars, hex_digits, hex_string_prefixed, pad_zeros, zero_padded, chars_to_string};

verus! {

/// The 32 bits of a result code, read as an unsigned number.
pub open spec fn code_bits(code: i32) -> nat {
    (code as u32) as nat
}

/// The level of a result code: bits 27..32.
pub open spec fn spec_level(code: i32) -> nat {
    bit_field(code_bits(code), 27, 5)
}

/// The summary of a result code: bits 21..27.
pub open spec fn spec_summary(code: i32) -> nat {
    bit_field(code_bits(code), 21, 6)
}

/// The module of a result code: bits 10..18.
pub open spec fn spec_module(code: i32) -> nat {
    bit_field(code_bits(code), 10, 8)
}

/// The description of a result code: bits 0..10.
pub open spec fn spec_description(code: i32) -> nat {
    bit_field(code_bits(code), 0, 10)
}

/// A result code reports a failure when it is negative or its summary is not
/// "success" (0).
pub open spec fn is_failure_code(code: i32) -> bool {
    code < 0 || spec_summary(code) != 0
}

/// The text used for a value that has no name: `prefix`, `0x`, the lower-case
/// hexadecimal digits of the value, and `)`.
pub open spec fn unknown_name(prefix: Seq<char>, value: nat) -> Seq<char> {
    prefix + "0x"@ + hex_digits(value, false) + ")"@
}

/// Builds the text of [`unknown_name`].
fn unknown_string(prefix: &str, value: u32) -> (s: String)
    ensures
        s@ == unknown_name(prefix@, value as nat),
{
    let hex = hex_string_prefixed(value as u64);
    let mut s = String::from_str(prefix);
    s.append(hex.as_str());
    s.append(")");
    s
}

/// A result code returned by the system.
#[derive(Debug, Copy, Clone, PartialEq, Eq, PartialOrd, Ord, Structural)]
pub struct ResultCode(pub i32);

impl ResultCode {
    /// The level of the result code (bits 27..32).
    pub fn level(self) -> (l: u32)
        ensures
            l == spec_level(self.0),
    {
        field_u32(self.0 as u32, 27, 5)
    }

    /// The summary of the result code (bits 21..27).
    pub fn summary(self) -> (s: u32)
        ensures
            s == spec_summary(self.0),
    {
        field_u32(self.0 as u32, 21, 6)
    }

    /// The module of the result code (bits 10..18).
    pub fn module(self) -> (m: u32)
        ensures
            m == spec_module(self.0),
    {
        field_u32(self.0 as u32, 10, 8)
    }

    /// The description of the result code (bits 0..10).
    pub fn description(self) -> (d: u32)
        ensures
            d == spec_description(self.0),
    {
        field_u32(self.0 as u32, 0, 10)
    }

    /// Whether the code reports a failure: negative, or with a summary other than
    /// success. Timeouts, for example, have a non-negative code but a failing summary.
    pub fn is_failure(self) -> (b: bool)
        ensures
            b == is_failure_code(self.0),
    {
        self.0 < 0 || self.summary() != 0
    }

    /// Continues with `Ok(())` on success and stops with [`Error::Os`] carrying the
    /// code on failure.
    pub fn branch(self) -> (r: Result<(), Error>)
        ensures
            r is Ok <==> !is_failure_code(self.0),
            r is Err ==> r == Err::<(), Error>(Error::Os(self.0)),
    {
        if self.is_failure() {
            Err(Error::Os(self.0))
        } else {
            Ok(())
        }
    }

    /// The result code carried by an [`Error::Os`].
    pub fn from_residual(e: Error) -> (r: ResultCode)
        requires
            e is Os,
        ensures
            r.0 == e->Os_0,
    {
        match e {
            Error::Os(result) => ResultCode(result),
            _ => ResultCode(0),
        }
    }
}

/// The error type returned by the functions of this library.
#[derive(Debug)]
pub enum Error {
    /// Raw error code reported by the system.
    Os(i32),
    /// An error described by the C library.
    Libc(String),
    /// The requested service is already active and cannot be activated again.
    ServiceAlreadyActive,
    /// The output streams are already redirected to 3dslink.
    OutputAlreadyRedirected,
    /// The provided buffer is too short for the wanted data.
    BufferTooShort {
        /// Length of the buffer provided by the user.
        provided: usize,
        /// Size of the requested data (in bytes).
        wanted: usize,
    },
    /// Any other error, described by a message.
    Other(String),
}

impl From<i32> for Error {
    fn from(err: i32) -> (e: Error) {
        Error::Os(err)
    }
}

impl FromSpecImpl<i32> for Error {
    open spec fn obeys_from_spec() -> bool {
        true
    }

    open spec fn from_spec(v: i32) -> Error {
        Error::Os(v)
    }
}

impl From<ResultCode> for Error {
    fn from(err: ResultCode) -> (e: Error) {
        Error::Os(err.0)
    }
}

impl FromSpecImpl<ResultCode> for Error {
    open spec fn obeys_from_spec() -> bool {
        true
    }

    open spec fn from_spec(v: ResultCode) -> Error {
        Error::Os(v.0)
    }
}

/// The human-readable text of an error.
pub open spec fn error_text(e: Error) -> Seq<char> {
    match e {
        Error::Os(err) => "libctru result code 0x"@ + zero_padded(hex_digits(code_bits(err), true), 8)
            + ": ["@ + level_name(spec_level(err)) + " "@ + module_name(spec_module(err)) + "] "@
            + summary_name(spec_summary(err)) + ": "@ + description_name(spec_description(err)),
        Error::Libc(s) => s@,
        Error::ServiceAlreadyActive => "service already active"@,
        Error::OutputAlreadyRedirected => "output streams are already redirected to 3dslink"@,
        Error::BufferTooShort { provided, wanted } =>
            "the provided buffer's length is too short (length = "@ + dec_digits(provided as nat)
            + ") to hold the wanted data (size = "@ + dec_digits(wanted as nat) + ")"@,
        Error::Other(s) => s@,
    }
}

impl Error {
    /// The human-readable text of the error (see [`error_text`]).
    pub fn to_display_string(&self) -> (s: String)
        ensures
            s@ == error_text(*self),
    {
        match self {
            Error::Os(err) => {
                let err = *err;
                let digits = pad_zeros(hex_chars(err as u32 as u64, true), 8);
                let hex = chars_to_string(digits.as_slice());
                let level = result_code_level_str(err);
                let module = result_code_module_str(err);
                let summary = result_code_summary_str(err);
                let description = result_code_description_str(err);
                let mut s = String::from_str("libctru result code 0x");
                s.append(hex.as_str());
                s.append(": [");
                s.append(level.as_str());
                s.append(" ");
                s.append(module.as_str());
                s.append("] ");
                s.append(summary.as_str());
                s.append(": ");
                s.append(description.as_str());
                s
            },
            Error::Libc(err) => err.clone(),
            Error::ServiceAlreadyActive => String::from_str("service already active"),
            Error::OutputAlreadyRedirected => String::from_str(
                "output streams are already redirected to 3dslink",
            ),
            Error::BufferTooShort { provided, wanted } => {
                let p = decimal_string(*provided as u64);
                let w = decimal_string(*wanted as u64);
                let mut s = String::from_str("the provided buffer's length is too short (length = ");
                s.append(p.as_str());
                s.append(") to hold the wanted data (size = ");
                s.append(w.as_str());
                s.append(")");
                s
            },
            Error::Other(err) => err.clone(),
        }
    }
}

/// The name of a result-code level value, as `libctru` calls it; values without a
/// name are written as `(unknown level: 0x..)`.
pub open spec fn level_name(value: nat) -> Seq<char> {
    if value == 0 {
        "success"@
    } else if value == 1 {
        "info"@
    } else if value == 31 {
        "fatal"@
    } else if value == 30 {
        "reset"@
    } else if value == 29 {
        "reinitialize"@
    } else if value == 28 {
        "usage"@
    } else if value == 27 {
        "permanent"@
    } else if value == 26 {
        "temporary"@
    } else if value == 25 {
        "status"@
    } else {
        unknown_name("(unknown level: "@, value)
    }
}

/// The name of the level of a result code (see [`level_name`]).
pub fn result_code_level_str(result: i32) -> (s: String)
    ensures
        s@ == level_name(spec_level(result)),
{
    let value = ResultCode(result).level();
    match value {
        0 => String::from_str("success"),
        1 => String::from_str("info"),
        31 => String::from_str("fatal"),
        30 => String::from_str("reset"),
        29 => String::from_str("reinitialize"),
        28 => String::from_str("usage"),
        27 => String::from_str("permanent"),
        26 => String::from_str("temporary"),
        25 => String::from_str("status"),
        _ => unknown_string("(unknown level: ", value),
    }
}

/// The name of a result-code summary value, as `libctru` calls it; values without a
/// name are written as `(unknown summary: 0x..)`.
pub open spec fn summary_name(value: nat) -> Seq<char> {
    if value == 0 {
        "success"@
    } else if value == 1 {
        "nop"@
    } else if value == 2 {
        "would_block"@
    } else if value == 3 {
        "out_of_resource"@
    } else if value == 4 {
        "not_found"@
    } else if value == 5 {
        "invalid_state"@
    } else if value == 6 {
        "not_supported"@
    } else if value == 7 {
        "invalid_arg"@
    } else if value == 8 {
        "wrong_arg"@
    } else if value == 9 {
        "canceled"@
    } else if value == 10 {
        "status_changed"@
    } else if value == 11 {
        "internal"@
    } else if value == 63 {
        "invalid_res_val"@
    } else {
        unknown_name("(unknown summary: "@, value)
    }
}

/// The name of the summary of a result code (see [`summary_name`]).
pub fn result_code_summary_str(result: i32) -> (s: String)
    ensures
        s@ == summary_name(spec_summary(result)),
{
    let value = ResultCode(result).summary();
    match value {
        0 => String::from_str("success"),
        1 => String::from_str("nop"),
        2 => String::from_str("would_block"),
        3 => String::from_str("out_of_resource"),
        4 => String::from_str("not_found"),
        5 => String::from_str("invalid_state"),
        6 => String::from_str("not_supported"),
        7 => String::from_str("invalid_arg"),
        8 => String::from_str("wrong_arg"),
        9 => String::from_str("canceled"),
        10 => String::from_str("status_changed"),
        11 => String::from_str("internal"),
        63 => String::from_str("invalid_res_val"),
        _ => unknown_string("(unknown summary: ", value),
    }
}

/// The name of a result-code description value, as `libctru` calls it; values without a
/// name are written as `(unknown description: 0x..)`.
pub open spec fn description_name(value: nat) -> Seq<char> {
    if value == 0 {
        "success"@
    } else if value == 1023 {
        "invalid_result_value"@
    } else if value == 1022 {
        "timeout"@
    } else if value == 1021 {
        "out_of_range"@
    } else if value == 1020 {
        "already_exists"@
    } else if value == 1019 {
        "cancel_requested"@
    } else if value == 1018 {
        "not_found"@
    } else if value == 1017 {
        "already_initialized"@
    } else if value == 1016 {
        "not_initialized"@
    } else if value == 1015 {
        "invalid_handle"@
    } else if value == 1014 {
        "invalid_pointer"@
    } else if value == 1013 {
        "invalid_address"@
    } else if value == 1012 {
        "not_implemented"@
    } else if value == 1011 {
        "out_of_memory"@
    } else if value == 1010 {
        "misaligned_size"@
    } else if value == 1009 {
        "misaligned_address"@
    } else if value == 1008 {
        "busy"@
    } else if value == 1007 {
        "no_data"@
    } else if value == 1006 {
        "invalid_combination"@
    } else if value == 1005 {
        "invalid_enum_value"@
    } else if value == 1004 {
        "invalid_size"@
    } else if value == 1003 {
        "already_done"@
    } else if value == 1002 {
        "not_authorized"@
    } else if value == 1001 {
        "too_large"@
    } else if value == 1000 {
        "invalid_selection"@
    } else {
        unknown_name("(unknown description: "@, value)
    }
}

/// The name of the description of a result code (see [`description_name`]).
pub fn result_code_description_str(result: i32) -> (s: String)
    ensures
        s@ == description_name(spec_description(result)),
{
    let value = ResultCode(result).description();
    match value {
        0 => String::from_str("success"),
        1023 => String::from_str("invalid_result_value"),
        1022 => String::from_str("timeout"),
        1021 => String::from_str("out_of_range"),
        1020 => String::from_str("already_exists"),
        1019 => String::from_str("cancel_requested"),
        1018 => String::from_str("not_found"),
        1017 => String::from_str("already_initialized"),
        1016 => String::from_str("not_initialized"),
        1015 => String::from_str("invalid_handle"),
        1014 => String::from_str("invalid_pointer"),
        1013 => String::from_str("invalid_address"),
        1012 => String::from_str("not_implemented"),
        1011 => String::from_str("out_of_memory"),
        1010 => String::from_str("misaligned_size"),
        1009 => String::from_str("misaligned_address"),
        1008 => String::from_str("busy"),
        1007 => String::from_str("no_data"),
        1006 => String::from_str("invalid_combination"),
        1005 => String::from_str("invalid_enum_value"),
        1004 => String::from_str("invalid_size"),
        1003 => String::from_str("already_done"),
        1002 => String::from_str("not_authorized"),
        1001 => String::from_str("too_large"),
        1000 => String::from_str("invalid_selection"),
        _ => unknown_string("(unknown description: ", value),
    }
}

/// The name of a result-code module value, as `libctru` calls it; values without a
/// name are written as `(unknown module: 0x..)`.
pub open spec fn module_name(value: nat) -> Seq<char> {
    if value == 0 {
        "common"@
    } else if value == 1 {
        "kernel"@
    } else if value == 2 {
        "util"@
    } else if value == 3 {
        "file_server"@
    } else if value == 4 {
        "loader_server"@
    } else if value == 5 {
        "tcb"@
    } else if value == 6 {
        "os"@
    } else if value == 7 {
        "dbg"@
    } else if value == 8 {
        "dmnt"@
    } else if value == 9 {
        "pdn"@
    } else if value == 10 {
        "gsp"@
    } else if value == 11 {
        "i2c"@
    } else if value == 12 {
        "gpio"@
    } else if value == 13 {
        "dd"@
    } else if value == 14 {
        "codec"@
    } else if value == 15 {
        "spi"@
    } else if value == 16 {
        "pxi"@
    } else if value == 17 {
        "fs"@
    } else if value == 18 {
        "di"@
    } else if value == 19 {
        "hid"@
    } else if value == 20 {
        "cam"@
    } else if value == 21 {
        "pi"@
    } else if value == 22 {
        "pm"@
    } else if value == 23 {
        "pm_low"@
    } else if value == 24 {
        "fsi"@
    } else if value == 25 {
        "srv"@
    } else if value == 26 {
        "ndm"@
    } else if value == 27 {
        "nwm"@
    } else if value == 28 {
        "soc"@
    } else if value == 29 {
        "ldr"@
    } else if value == 30 {
        "acc"@
    } else if value == 31 {
        "romfs"@
    } else if value == 32 {
        "am"@
    } else if value == 33 {
        "hio"@
    } else if value == 34 {
        "updater"@
    } else if value == 35 {
        "mic"@
    } else if value == 36 {
        "fnd"@
    } else if value == 37 {
        "mp"@
    } else if value == 38 {
        "mpwl"@
    } else if value == 39 {
        "ac"@
    } else if value == 40 {
        "http"@
    } else if value == 41 {
        "dsp"@
    } else if value == 42 {
        "snd"@
    } else if value == 43 {
        "dlp"@
    } else if value == 44 {
        "hio_low"@
    } else if value == 45 {
        "csnd"@
    } else if value == 46 {
        "ssl"@
    } else if value == 47 {
        "am_low"@
    } else if value == 48 {
        "nex"@
    } else if value == 49 {
        "friends"@
    } else if value == 50 {
        "rdt"@
    } else if value == 51 {
        "applet"@
    } else if value == 52 {
        "nim"@
    } else if value == 53 {
        "ptm"@
    } else if value == 54 {
        "midi"@
    } else if value == 55 {
        "mc"@
    } else if value == 56 {
        "swc"@
    } else if value == 57 {
        "fatfs"@
    } else if value == 58 {
        "ngc"@
    } else if value == 59 {
        "card"@
    } else if value == 60 {
        "cardnor"@
    } else if value == 61 {
        "sdmc"@
    } else if value == 62 {
        "boss"@
    } else if value == 63 {
        "dbm"@
    } else if value == 64 {
        "config"@
    } else if value == 65 {
        "ps"@
    } else if value == 66 {
        "cec"@
    } else if value == 67 {
        "ir"@
    } else if value == 68 {
        "uds"@
    } else if value == 69 {
        "pl"@
    } else if value == 70 {
        "cup"@
    } else if value == 71 {
        "gyroscope"@
    } else if value == 72 {
        "mcu"@
    } else if value == 73 {
        "ns"@
    } else if value == 74 {
        "news"@
    } else if value == 75 {
        "ro"@
    } else if value == 76 {
        "gd"@
    } else if value == 77 {
        "card_spi"@
    } else if value == 78 {
        "ec"@
    } else if value == 79 {
        "web_browser"@
    } else if value == 80 {
        "test"@
    } else if value == 81 {
        "enc"@
    } else if value == 82 {
        "pia"@
    } else if value == 83 {
        "act"@
    } else if value == 84 {
        "vctl"@
    } else if value == 85 {
        "olv"@
    } else if value == 86 {
        "neia"@
    } else if value == 87 {
        "npns"@
    } else if value == 90 {
        "avd"@
    } else if value == 91 {
        "l2b"@
    } else if value == 92 {
        "mvd"@
    } else if value == 93 {
        "nfc"@
    } else if value == 94 {
        "uart"@
    } else if value == 95 {
        "spm"@
    } else if value == 96 {
        "qtm"@
    } else if value == 97 {
        "nfp"@
    } else if value == 254 {
        "application"@
    } else if value == 255 {
        "invalid_res_val"@
    } else {
        unknown_name("(unknown module: "@, value)
    }
}

/// The name of the module of a result code (see [`module_name`]).
pub fn result_code_module_str(result: i32) -> (s: String)
    ensures
        s@ == module_name(spec_module(result)),
{
    let value = ResultCode(result).module();
    match value {
        0 => String::from_str("common"),
        1 => String::from_str("kernel"),
        2 => String::from_str("util"),
        3 => String::from_str("file_server"),
        4 => String::from_str("loader_server"),
        5 => String::from_str("tcb"),
        6 => String::from_str("os"),
        7 => String::from_str("dbg"),
        8 => String::from_str("dmnt"),
        9 => String::from_str("pdn"),
        10 => String::from_str("gsp"),
        11 => String::from_str("i2c"),
        12 => String::from_str("gpio"),
        13 => String::from_str("dd"),
        14 => String::from_str("codec"),
        15 => String::from_str("spi"),
        16 => String::from_str("pxi"),
        17 => String::from_str("fs"),
        18 => String::from_str("di"),
        19 => String::from_str("hid"),
        20 => String::from_str("cam"),
        21 => String::from_str("pi"),
        22 => String::from_str("pm"),
        23 => String::from_str("pm_low"),
        24 => String::from_str("fsi"),
        25 => String::from_str("srv"),
        26 => String::from_str("ndm"),
        27 => String::from_str("nwm"),
        28 => String::from_str("soc"),
        29 => String::from_str("ldr"),
        30 => String::from_str("acc"),
        31 => String::from_str("romfs"),
        32 => String::from_str("am"),
        33 => String::from_str("hio"),
        34 => String::from_str("updater"),
        35 => String::from_str("mic"),
        36 => String::from_str("fnd"),
        37 => String::from_str("mp"),
        38 => String::from_str("mpwl"),
        39 => String::from_str("ac"),
        40 => String::from_str("http"),
        41 => String::from_str("dsp"),
        42 => String::from_str("snd"),
        43 => String::from_str("dlp"),
        44 => String::from_str("hio_low"),
        45 => String::from_str("csnd"),
        46 => String::from_str("ssl"),
        47 => String::from_str("am_low"),
        48 => String::from_str("nex"),
        49 => String::from_str("friends"),
        50 => String::from_str("rdt"),
        51 => String::from_str("applet"),
        52 => String::from_str("nim"),
        53 => String::from_str("ptm"),
        54 => String::from_str("midi"),
        55 => String::from_str("mc"),
        56 => String::from_str("swc"),
        57 => String::from_str("fatfs"),
        58 => String::from_str("ngc"),
        59 => String::from_str("card"),
        60 => String::from_str("cardnor"),
        61 => String::from_str("sdmc"),
        62 => String::from_str("boss"),
        63 => String::from_str("dbm"),
        64 => String::from_str("config"),
        65 => String::from_str("ps"),
        66 => String::from_str("cec"),
        67 => String::from_str("ir"),
        68 => String::from_str("uds"),
        69 => String::from_str("pl"),
        70 => String::from_str("cup"),
        71 => String::from_str("gyroscope"),
        72 => String::from_str("mcu"),
        73 => String::from_str("ns"),
        74 => String::from_str("news"),
        75 => String::from_str("ro"),
        76 => String::from_str("gd"),
        77 => String::from_str("card_spi"),
        78 => String::from_str("ec"),
        79 => String::from_str("web_browser"),
        80 => String::from_str("test"),
        81 => String::from_str("enc"),
        82 => String::from_str("pia"),
        83 => String::from_str("act"),
        84 => String::from_str("vctl"),
        85 => String::from_str("olv"),
        86 => String::from_str("neia"),
        87 => String::from_str("npns"),
        90 => String::from_str("avd"),
        91 => String::from_str("l2b"),
        92 => String::from_str("mvd"),
        93 => String::from_str("nfc"),
        94 => String::from_str("uart"),
        95 => String::from_str("spm"),
        96 => String::from_str("qtm"),
        97 => String::from_str("nfp"),
        254 => String::from_str("application"),
        255 => String::from_str("invalid_res_val"),
        _ => unknown_string("(unknown module: ", value),
    }
}
/// The four fields of a result code, read with shifts and masks: the level is
/// `code >> 27`, the summary `(code >> 21) & 0x3F`, the module `(code >> 10) &
/// 0xFF` and the description `code & 0x3FF`, the code taken as 32 unsigned bits.
pub proof fn result_code_fields_by_shift(code: i32)
    ensures
        spec_level(code) == (code as u32) >> 27u32,
        spec_summary(code) == ((code as u32) >> 21u32) & 0x3Fu32,
        spec_module(code) == ((code as u32) >> 10u32) & 0xFFu32,
        spec_description(code) == (code as u32) & 0x3FFu32,
{
    vstd::arithmetic::power2::lemma2_to64();
    let raw = code as u32;
    vstd::bits::lemma_u32_shr_is_div(raw, 27u32);
    vstd::bits::lemma_u32_shr_is_div(raw, 21u32);
    vstd::bits::lemma_u32_shr_is_div(raw, 10u32);
    assert(raw >> 0u32 == raw) by (bit_vector);
    vstd::bits::lemma_u32_low_bits_mask_is_mod(raw >> 21u32, 6);
    vstd::bits::lemma_u32_low_bits_mask_is_mod(raw >> 10u32, 8);
    vstd::bits::lemma_u32_low_bits_mask_is_mod(raw, 10);
    vstd::bits::lemma_low_bits_mask_values();
    assert((raw >> 27u32) < 32) by (bit_vector);
}

/// The level names of result codes, value by value, as `libctru` names them.
pub proof fn level_names_table()
    ensures
        level_name(0) == "success"@,
        level_name(1) == "info"@,
        level_name(31) == "fatal"@,
        level_name(30) == "reset"@,
        level_name(29) == "reinitialize"@,
        level_name(28) == "usage"@,
        level_name(27) == "permanent"@,
        level_name(26) == "temporary"@,
        level_name(25) == "status"@,
{
}

/// The summary names of result codes, value by value, as `libctru` names them.
pub proof fn summary_names_table()
    ensures
        summary_name(0) == "success"@,
        summary_name(1) == "nop"@,
        summary_name(2) == "would_block"@,
        summary_name(3) == "out_of_resource"@,
        summary_name(4) == "not_found"@,
        summary_name(5) == "invalid_state"@,
        summary_name(6) == "not_supported"@,
        summary_name(7) == "invalid_arg"@,
        summary_name(8) == "wrong_arg"@,
        summary_name(9) == "canceled"@,
        summary_name(10) == "status_changed"@,
        summary_name(11) == "internal"@,
        summary_name(63) == "invalid_res_val"@,
{
}

/// The description names of result codes, value by value, as `libctru` names them.
pub proof fn description_names_table()
    ensures
        description_name(0) == "success"@,
        description_name(1023) == "invalid_result_value"@,
        description_name(1022) == "timeout"@,
        description_name(1021) == "out_of_range"@,
        description_name(1020) == "already_exists"@,
        description_name(1019) == "cancel_requested"@,
        description_name(1018) == "not_found"@,
        description_name(1017) == "already_initialized"@,
        description_name(1016) == "not_initialized"@,
        description_name(1015) == "invalid_handle"@,
        description_name(1014) == "invalid_pointer"@,
        description_name(1013) == "invalid_address"@,
        description_name(1012) == "not_implemented"@,
        description_name(1011) == "out_of_memory"@,
        description_name(1010) == "misaligned_size"@,
        description_name(1009) == "misaligned_address"@,
        description_name(1008) == "busy"@,
        description_name(1007) == "no_data"@,
        description_name(1006) == "invalid_combination"@,
        description_name(1005) == "invalid_enum_value"@,
        description_name(1004) == "invalid_size"@,
        description_name(1003) == "already_done"@,
        description_name(1002) == "not_authorized"@,
        description_name(1001) == "too_large"@,
        description_name(1000) == "invalid_selection"@,
{
}

/// The module names of result codes, value by value, as `libctru` names them.
pub proof fn module_names_table()
    ensures
        module_name(0) == "common"@,
        module_name(1) == "kernel"@,
        module_name(2) == "util"@,
        module_name(3) == "file_server"@,
        module_name(4) == "loader_server"@,
        module_name(5) == "tcb"@,
        module_name(6) == "os"@,
        module_name(7) == "dbg"@,
        module_name(8) == "dmnt"@,
        module_name(9) == "pdn"@,
        module_name(10) == "gsp"@,
        module_name(11) == "i2c"@,
        module_name(12) == "gpio"@,
        module_name(13) == "dd"@,
        module_name(14) == "codec"@,
        module_name(15) == "spi"@,
        module_name(16) == "pxi"@,
        module_name(17) == "fs"@,
        module_name(18) == "di"@,
        module_name(19) == "hid"@,
        module_name(20) == "cam"@,
        module_name(21) == "pi"@,
        module_name(22) == "pm"@,
        module_name(23) == "pm_low"@,
        module_name(24) == "fsi"@,
        module_name(25) == "srv"@,
        module_name(26) == "ndm"@,
        module_name(27) == "nwm"@,
        module_name(28) == "soc"@,
        module_name(29) == "ldr"@,
        module_name(30) == "acc"@,
        module_name(31) == "romfs"@,
        module_name(32) == "am"@,
        module_name(33) == "hio"@,
        module_name(34) == "updater"@,
        module_name(35) == "mic"@,
        module_name(36) == "fnd"@,
        module_name(37) == "mp"@,
        module_name(38) == "mpwl"@,
        module_name(39) == "ac"@,
        module_name(40) == "http"@,
        module_name(41) == "dsp"@,
        module_name(42) == "snd"@,
        module_name(43) == "dlp"@,
        module_name(44) == "hio_low"@,
        module_name(45) == "csnd"@,
        module_name(46) == "ssl"@,
        module_name(47) == "am_low"@,
        module_name(48) == "nex"@,
        module_name(49) == "friends"@,
        module_name(50) == "rdt"@,
        module_name(51) == "applet"@,
        module_name(52) == "nim"@,
        module_name(53) == "ptm"@,
        module_name(54) == "midi"@,
        module_name(55) == "mc"@,
        module_name(56) == "swc"@,
        module_name(57) == "fatfs"@,
        module_name(58) == "ngc"@,
        module_name(59) == "card"@,
        module_name(60) == "cardnor"@,
        module_name(61) == "sdmc"@,
        module_name(62) == "boss"@,
        module_name(63) == "dbm"@,
        module_name(64) == "config"@,
        module_name(65) == "ps"@,
        module_name(66) == "cec"@,
        module_name(67) == "ir"@,
        module_name(68) == "uds"@,
        module_name(69) == "pl"@,
        module_name(70) == "cup"@,
        module_name(71) == "gyroscope"@,
        module_name(72) == "mcu"@,
        module_name(73) == "ns"@,
        module_name(74) == "news"@,
        module_name(75) == "ro"@,
        module_name(76) == "gd"@,
        module_name(77) == "card_spi"@,
        module_name(78) == "ec"@,
        module_name(79) == "web_browser"@,
        module_name(80) == "test"@,
        module_name(81) == "enc"@,
        module_name(82) == "pia"@,
        module_name(83) == "act"@,
        module_name(84) == "vctl"@,
        module_name(85) == "olv"@,
        module_name(86) == "neia"@,
        module_name(87) == "npns"@,
        module_name(90) == "avd"@,
        module_name(91) == "l2b"@,
        module_name(92) == "mvd"@,
        module_name(93) == "nfc"@,
        module_name(94) == "uart"@,
        module_name(95) == "spm"@,
        module_name(96) == "qtm"@,
        module_name(97) == "nfp"@,
        module_name(254) == "application"@,
        module_name(255) == "invalid_res_val"@,
{
}

} // verus!

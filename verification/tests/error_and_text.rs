use ctru::error::{
    result_code_description_str, result_code_level_str, result_code_module_str,
    result_code_summary_str, Error, ResultCode,
};
use ctru::text::{decimal_string, hex_string_prefixed};
use ctru::utf16::{decode_utf16_lossy, encode_utf16, remove_nul, Utf16Writer};

#[test]
fn result_code_parts() {
    let code = ResultCode(0xD8A0_93F8u32 as i32);
    assert_eq!(code.level(), 27);
    assert_eq!(code.summary(), 5);
    assert_eq!(code.module(), 36);
    assert_eq!(code.description(), 1016);
    assert_eq!(result_code_summary_str(code.0), "invalid_state");
    assert_eq!(result_code_module_str(code.0), "fnd");
    assert_eq!(result_code_description_str(code.0), "not_initialized");
    assert!(code.is_failure());
}

#[test]
fn result_code_success_is_not_failure() {
    assert!(!ResultCode(0).is_failure());
    assert!(ResultCode(0).branch().is_ok());
    // A positive code with a non-zero summary is a failure too.
    let code = ResultCode(1 << 21);
    assert!(code.is_failure());
    assert!(matches!(code.branch(), Err(Error::Os(c)) if c == 1 << 21));
}

#[test]
fn result_code_names() {
    let code = 0xD840_2009u32 as i32;
    assert_eq!(result_code_level_str(code), "permanent");
    assert_eq!(result_code_summary_str(code), "would_block");
    assert_eq!(result_code_module_str(code), "dmnt");
    assert_eq!(result_code_description_str(code), "(unknown description: 0x9)");
}

#[test]
fn error_display_texts() {
    assert_eq!(Error::ServiceAlreadyActive.to_display_string(), "service already active");
    assert_eq!(
        Error::OutputAlreadyRedirected.to_display_string(),
        "output streams are already redirected to 3dslink"
    );
    assert_eq!(
        Error::BufferTooShort { provided: 10, wanted: 20 }.to_display_string(),
        "the provided buffer's length is too short (length = 10) to hold the wanted data (size = 20)"
    );
    assert_eq!(Error::Other(String::from("custom")).to_display_string(), "custom");
    assert_eq!(Error::Libc(String::from("libc says")).to_display_string(), "libc says");
    assert_eq!(
        Error::Os(0xD840_2009u32 as i32).to_display_string(),
        "libctru result code 0xD8402009: [permanent dmnt] would_block: (unknown description: 0x9)"
    );
}

#[test]
fn error_conversions() {
    assert!(matches!(Error::from(-5), Error::Os(-5)));
    assert!(matches!(Error::from(ResultCode(-7)), Error::Os(-7)));
    assert_eq!(ResultCode::from_residual(Error::Os(-9)).0, -9);
}

#[test]
fn number_texts() {
    assert_eq!(decimal_string(0), "0");
    assert_eq!(decimal_string(1234567890), "1234567890");
    assert_eq!(hex_string_prefixed(0xA5), "0xa5");
    assert_eq!(hex_string_prefixed(0), "0x0");
}

#[test]
fn utf16_round_trip() {
    let text: Vec<char> = "h\u{e9}llo \u{1F496}".chars().collect();
    let units = encode_utf16(&text);
    let expected: Vec<u16> = "h\u{e9}llo \u{1F496}".encode_utf16().collect();
    assert_eq!(units, expected);
    assert_eq!(decode_utf16_lossy(&units), text);
}

#[test]
fn utf16_lossy_replaces_unpaired_surrogates() {
    let units = [0xD834u16, 0xDD1E, 0x006d, 0xDD1E, 0x0069, 0xD834];
    let decoded: String = decode_utf16_lossy(&units).into_iter().collect();
    assert_eq!(decoded, "\u{1D11E}m\u{FFFD}i\u{FFFD}");
}

#[test]
fn nul_characters_removed() {
    let chars = vec!['a', '\0', 'b', '\0'];
    assert_eq!(remove_nul(&chars), vec!['a', 'b']);
}

#[test]
fn utf16_writer_fits() {
    let mut w = Utf16Writer::new(vec![0xFFFF; 8]);
    assert!(w.write_str("abc").is_ok());
    assert!(w.write_str("de").is_ok());
    let buf = w.into_inner();
    assert_eq!(&buf[..6], &[97, 98, 99, 100, 101, 0]);
    assert_eq!(buf[6], 0xFFFF);
}

#[test]
fn utf16_writer_truncates() {
    let mut w = Utf16Writer::new(vec![0xFFFF; 4]);
    assert!(w.write_str("abcdef").is_err());
    let buf = w.into_inner();
    assert_eq!(buf, vec![97, 98, 99, 0]);
}

#[test]
fn late_module_names() {
    assert_eq!(result_code_module_str(87 << 10), "npns");
    assert_eq!(result_code_module_str(88 << 10), "(unknown module: 0x58)");
    assert_eq!(result_code_module_str(89 << 10), "(unknown module: 0x59)");
    assert_eq!(result_code_module_str(90 << 10), "avd");
    assert_eq!(result_code_module_str(93 << 10), "nfc");
    assert_eq!(result_code_module_str(96 << 10), "qtm");
    assert_eq!(result_code_module_str(97 << 10), "nfp");
    assert_eq!(result_code_module_str(100 << 10), "(unknown module: 0x64)");
}

use ctru::error::Error;
use ctru::services::ac::{Ac, SecurityMode};
use ctru::services::am::{Am, Title, TitleEntry};
use ctru::services::apt::{Apt, Chainloader};
use ctru::services::cfgu::{Cfgu, Language, Region, SystemModel};
use ctru::services::fs::{ArchiveID, MediaType, PathType};
use ctru::services::gspgpu::FramebufferFormat;
use ctru::services::hid::{Hid, KeyPad, KEY_A, KEY_B, KEY_START, KEYPAD_ALL_BITS};
use ctru::services::ps::{AESAlgorithm, AESKeyType, Ps};
use ctru::services::ptm::sysm::PTMSysM;
use ctru::services::ptm::user::{BatteryLevel, PTMUser, ShellState};
use ctru::services::reference::{ServiceCounter, ServiceReference};
use ctru::services::romfs::RomFS;
use ctru::services::soc::Soc;
use ctru::services::sslc::SslC;

fn ok_start() -> Result<(), Error> {
    Ok(())
}

fn failing_start() -> Result<(), Error> {
    Err(Error::Os(-1))
}

#[test]
fn single_handle_service_refuses_second() {
    let mut counter = ServiceCounter::new();
    let first = ServiceReference::new(&mut counter, false, ok_start, || {}).unwrap();
    assert_eq!(counter.count(), 1);
    assert!(matches!(
        ServiceReference::new(&mut counter, false, ok_start, || {}),
        Err(Error::ServiceAlreadyActive)
    ));
    assert_eq!(counter.count(), 1);
    assert!(first.release(&mut counter, || {}));
    assert_eq!(counter.count(), 0);
}

#[test]
fn multi_handle_service_counts() {
    let mut counter = ServiceCounter::new();
    let a = ServiceReference::new(&mut counter, true, ok_start, || {}).unwrap();
    let b = ServiceReference::new(&mut counter, true, failing_start, || {}).unwrap();
    assert_eq!(counter.count(), 2);
    assert!(!a.release(&mut counter, || {}));
    assert!(b.release(&mut counter, || {}));
    assert_eq!(counter.count(), 0);
}

#[test]
fn failed_start_leaves_count() {
    let mut counter = ServiceCounter::new();
    assert!(matches!(
        ServiceReference::new(&mut counter, false, failing_start, || {}),
        Err(Error::Os(-1))
    ));
    assert_eq!(counter.count(), 0);
}

#[test]
fn poisoned_counter_closes_and_restarts() {
    let mut counter = ServiceCounter::new();
    let _lost = ServiceReference::new(&mut counter, false, ok_start, || {}).unwrap();
    counter.poison();
    let mut closed = false;
    let h = ServiceReference::new(&mut counter, false, ok_start, || closed = true);
    assert!(h.is_ok());
    assert!(closed);
    assert_eq!(counter.count(), 1);
}

#[test]
fn romfs_single_mount_refused_twice() {
    let mut counter = ServiceCounter::new();
    let r = RomFS::new(&mut counter, ok_start, || {}).unwrap();
    assert!(matches!(RomFS::new(&mut counter, ok_start, || {}), Err(Error::ServiceAlreadyActive)));
    assert!(r.drop_with(&mut counter, || {}));
}

#[test]
fn soc_duplicate_refused() {
    let mut counter = ServiceCounter::new();
    let mut soc = Soc::new(&mut counter, |_n| Ok(()), || {}).unwrap();
    assert!(matches!(Soc::new(&mut counter, |_n| Ok(()), || {}), Err(Error::ServiceAlreadyActive)));
    assert_eq!(soc.socket_to_close(), None);
    assert!(soc.redirect_to_3dslink(false, false, |_, _| 5, || Error::Other(String::new())).is_ok());
    assert_eq!(soc.socket_to_close(), None);
    assert!(soc.redirect_to_3dslink(true, false, |_, _| 7, || Error::Other(String::new())).is_ok());
    assert_eq!(soc.socket_to_close(), Some(7));
    assert!(matches!(
        soc.redirect_to_3dslink(true, true, |_, _| 9, || Error::Other(String::new())),
        Err(Error::OutputAlreadyRedirected)
    ));
}

#[test]
fn soc_failed_redirect_reports_error() {
    let mut counter = ServiceCounter::new();
    let mut soc = Soc::init_with_buffer_size(&mut counter, 0x2000, |n| {
        assert_eq!(n, 0x2000);
        Ok(())
    }, || {})
    .unwrap();
    let r = soc.redirect_to_3dslink(true, true, |_, _| -1, || Error::Libc(String::from("refused")));
    assert!(matches!(r, Err(Error::Libc(m)) if m == "refused"));
    assert_eq!(soc.socket_to_close(), None);
}

#[test]
fn simple_service_handles() {
    assert!(Am::new(0).is_ok());
    assert!(matches!(Am::new(-3), Err(Error::Os(-3))));
    assert!(Apt::new(0).is_ok());
    assert!(Ac::new(0).is_ok());
    assert!(Ps::new(0).is_ok());
    assert!(SslC::new(0).is_ok());
    assert!(matches!(SslC::new(1 << 21), Err(Error::Os(c)) if c == 1 << 21));
}

#[test]
fn am_titles_from_entries() {
    let entries = vec![
        TitleEntry { title_id: 0x0004000000055D00, size: 100, version: 3 },
        TitleEntry { title_id: 7, size: 8, version: 9 },
    ];
    let titles = Am::titles_from_entries(MediaType::Sd, entries);
    assert_eq!(titles.len(), 2);
    assert_eq!(titles[0].id(), 0x0004000000055D00);
    assert_eq!(titles[0].size(), 100);
    assert_eq!(titles[0].version(), 3);
    assert_eq!(titles[1].media_type(), MediaType::Sd);
}

#[test]
fn am_title_list_through_calls() {
    let am = Am::new(0).unwrap();
    let list = am.title_list(
        MediaType::Nand,
        |_m| Ok(1),
        |_m, n| Ok(vec![0u64; n as usize]),
        |_m, ids| Ok(ids.iter().map(|_| TitleEntry { title_id: 42, size: 1, version: 2 }).collect()),
    );
    let list = list.unwrap();
    assert_eq!(list.len(), 1);
    assert_eq!(list[0].id(), 42);
    let failed = am.title_list(MediaType::Nand, |_m| Err(Error::Os(-8)), |_m, _n| Ok(vec![]), |_m, _ids| Ok(vec![]));
    assert!(matches!(failed, Err(Error::Os(-8))));
}

#[test]
fn am_product_code_text() {
    let t = Title::from_entry(MediaType::GameCard, TitleEntry { title_id: 1, size: 2, version: 3 });
    let mut code = [0u8; 16];
    code[..10].copy_from_slice(b"CTR-P-ABCD");
    assert_eq!(t.product_code(&code), "CTR-P-ABCD\0\0\0\0\0\0");
    code[0] = 0xFF;
    code[1..3].copy_from_slice("é".as_bytes());
    assert_eq!(t.product_code(&code), "\u{FFFD}é-P-ABCD\0\0\0\0\0\0");
}

#[test]
fn chainloader_target_of_title() {
    let apt = Apt::new(0).unwrap();
    let mut c = Chainloader::new(&apt);
    assert!(c.is_set(|| true));
    assert!(!c.is_set(|| false));
    let t = Title::from_entry(MediaType::Sd, TitleEntry { title_id: 99, size: 0, version: 0 });
    assert_eq!(c.chainloader_target(&t), (99, 1));
}

#[test]
fn ac_reports() {
    let ac = Ac::new(0).unwrap();
    assert_eq!(ac.get_wifi_status(0, 3).unwrap(), true);
    assert_eq!(ac.get_wifi_status(0, 2).unwrap(), false);
    assert!(matches!(ac.get_wifi_status(-1, 3), Err(Error::Os(-1))));
    assert_eq!(ac.get_wifi_security(0, 7).unwrap(), SecurityMode::WPA2_AES);
    assert_eq!(ac.get_proxy_port(0, 8080).unwrap(), 8080);
    assert_eq!(ac.get_proxy_enabled(0, true).unwrap(), true);
}

#[test]
fn ps_reports() {
    let ps = Ps::new(0).unwrap();
    assert_eq!(ps.local_friend_code_seed(0, 0x1234).unwrap(), 0x1234);
    assert_eq!(ps.device_id(0, 77).unwrap(), 77);
    assert!(matches!(ps.device_id(-4, 77), Err(Error::Os(-4))));
    assert_eq!(u32::from(AESAlgorithm::CcmDec), 5);
    assert_eq!(u32::from(AESKeyType::Keyslot39Nfc), 9);
}

#[test]
fn fs_raw_values() {
    assert_eq!(u32::from(MediaType::GameCard), 2);
    assert_eq!(u32::from(PathType::UTF16), 4);
    assert_eq!(u32::from(ArchiveID::Sdmc), 0x9);
    assert_eq!(u32::from(ArchiveID::DemoSavedata), 0x567890B4);
    assert_eq!(ArchiveID::from_raw(0x3), Some(ArchiveID::RomFS));
    assert_eq!(ArchiveID::from_raw(0x5), None);
}

#[test]
fn cfgu_conversions() {
    let cfgu = Cfgu::init(0).unwrap();
    assert!(matches!(Cfgu::init(-1), Err(Error::Os(-1))));
    assert_eq!(cfgu.get_region(0, 1).unwrap(), Region::Usa);
    assert_eq!(cfgu.get_model(0, 3).unwrap(), SystemModel::Model2DS);
    assert_eq!(cfgu.get_language(0, 1).unwrap(), Language::English);
    assert!(matches!(cfgu.get_language(-2, 1), Err(Error::Os(-2))));
    assert_eq!(cfgu.is_nfc_supported(0, true).unwrap(), true);
    assert_eq!(cfgu.is_2ds_like(0, 0).unwrap(), true);
    assert_eq!(cfgu.is_2ds_like(0, 1).unwrap(), false);
    assert_eq!(Region::try_from(7u8), Err(()));
    assert_eq!(u8::from(Language::TradChinese), 11);
}

#[test]
fn ptm_reports() {
    let mut counter = ServiceCounter::new();
    let ptm = PTMUser::new(&mut counter, ok_start, || {}).unwrap();
    assert_eq!(ptm.shell_state(0, 1).unwrap(), ShellState::Open);
    assert_eq!(ptm.battery_level(0, 5).unwrap(), BatteryLevel::High);
    let e = ptm.battery_level(0, 9);
    assert!(matches!(e, Err(Error::Other(m)) if m == "unexpected battery level value: 9"));
    let e = ptm.shell_state(0, 3);
    assert!(matches!(e, Err(Error::Other(m)) if m == "unexpected shell state value: 3"));
    assert!(matches!(ptm.shell_state(-6, 1), Err(Error::Os(-6))));
    assert!(ptm.drop_with(&mut counter, || {}));
}

#[test]
fn ptm_sysm_timeout() {
    assert_eq!(PTMSysM::timeout_nanos(2, 5), 2_000_000_005);
    assert_eq!(PTMSysM::timeout_nanos(u64::MAX, 0), ((u64::MAX as u128 * 1_000_000_000) % (1u128 << 64)) as u64);
}

#[test]
fn hid_keys() {
    let mut counter = ServiceCounter::new();
    let mut hid = Hid::new(&mut counter, ok_start, || {}).unwrap();
    let down = hid.keys_down(KEY_A | KEY_START | 0x0000_2000);
    assert_eq!(down.bits(), KEY_A | KEY_START);
    assert!(down.contains(KeyPad::from_bits_truncate(KEY_A)));
    assert!(!down.contains(KeyPad::from_bits_truncate(KEY_B)));
    assert!(down.intersects(KeyPad::from_bits_truncate(KEY_A | KEY_B)));
    assert!(KeyPad::empty().is_empty());
    assert_eq!(KeyPad::from_bits_truncate(u32::MAX).bits(), KEYPAD_ALL_BITS);
    assert_eq!(down.union(KeyPad::from_bits_truncate(KEY_B)).bits(), KEY_A | KEY_B | KEY_START);
    let mut calls = Vec::new();
    hid.enable_accellerometer(|| {
        calls.push("enable accelerometer");
        0
    });
    assert!(hid.is_accellerometer_enabled() && !hid.is_gyroscope_enabled());
    assert_eq!(hid.accellerometer_vector(|| (1, -2, 3)), (1, -2, 3));
    hid.enable_gyroscope(|| {
        calls.push("enable gyroscope");
        0
    });
    assert_eq!(hid.gyroscope_rate(|| (4, 5, -6)), (4, 5, -6));
    hid.disable_accellerometer(|| {
        calls.push("disable accelerometer");
        -1
    });
    hid.disable_gyroscope(|| {
        calls.push("disable gyroscope");
        0
    });
    assert!(!hid.is_accellerometer_enabled() && !hid.is_gyroscope_enabled());
    assert_eq!(calls, vec!["enable accelerometer", "enable gyroscope", "disable accelerometer", "disable gyroscope"]);
}

#[test]
fn framebuffer_pixel_sizes() {
    assert_eq!(FramebufferFormat::Rgba8.pixel_depth_bytes(), 4);
    assert_eq!(FramebufferFormat::Bgr8.pixel_depth_bytes(), 3);
    assert_eq!(FramebufferFormat::Rgb565.pixel_depth_bytes(), 2);
    assert_eq!(FramebufferFormat::from(1), FramebufferFormat::Bgr8);
}

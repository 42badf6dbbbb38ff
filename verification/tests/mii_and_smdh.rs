use ctru::mii::{Charset, Mii, MiiData, OriginConsole, RegionLock, Sex};
use ctru::services::cfgu::Language;
use ctru::smdh::{Smdh, SmdhTitle};

fn sample() -> MiiData {
    let mut name = [0u16; 10];
    for (i, u) in "Mario".encode_utf16().enumerate() {
        name[i] = u;
    }
    let mut author = [0u16; 10];
    for (i, u) in "Ann".encode_utf16().enumerate() {
        author[i] = u;
    }
    MiiData {
        mii_options: 0b0001_0101,
        mii_pos: 0x32,
        console_identity: 0x30,
        system_id: 0x1122_3344_5566_7788,
        mac: [1, 2, 3, 4, 5, 6],
        mii_details: 1 | (5 << 1) | (17 << 5) | (3 << 10) | (1 << 14),
        mii_name: name,
        height: 64,
        width: 32,
        face_style: 0b0110_0101,
        face_details: 0x21,
        hair_style: 12,
        hair_details: 0b1011,
        eye_details: 0,
        eyebrow_details: 0,
        nose_details: 0,
        mouth_details: 0,
        mustache_details: (2 << 5) | 9,
        beard_details: 0b10_0011_1010,
        glasses_details: 0,
        mole_details: 1 | (2 << 1),
        author_name: author,
    }
}

#[test]
fn mii_decoding() {
    let m = Mii::from(sample());
    assert!(m.options.is_copying_allowed);
    assert!(!m.options.is_profanity_flag_enabled);
    assert_eq!(m.options.region_lock, RegionLock::Japan);
    assert_eq!(m.options.charset, Charset::China);
    assert_eq!((m.selector_position.page_index, m.selector_position.slot_index), (2, 3));
    assert_eq!(m.console_identity.origin_console, OriginConsole::N3DS);
    assert_eq!(m.system_id, 0x1122_3344_5566_7788);
    assert_eq!(m.mac_address, [1, 2, 3, 4, 5, 6]);
    assert_eq!(m.details.sex, Sex::Female);
    assert_eq!((m.details.birthday_month, m.details.birthday_day), (5, 17));
    assert_eq!(m.details.shirt_color, 3);
    assert!(m.details.is_favorite);
    assert!(!m.details.is_sharing_enabled);
    assert_eq!(m.name, "Mario");
    assert_eq!(m.author_name, "Ann");
    assert_eq!((m.height, m.width), (64, 32));
    assert_eq!((m.face_details.style.shape, m.face_details.style.skin_color), (2, 3));
    assert_eq!((m.face_details.wrinkles, m.face_details.makeup), (1, 2));
    assert_eq!((m.hair_details.style, m.hair_details.color, m.hair_details.is_flipped), (12, 3, true));
    assert_eq!(m.mouth_details.y_position, 9);
    assert_eq!(m.mustache_details.mustache_style, 2);
    assert_eq!((m.beard_details.style, m.beard_details.color, m.beard_details.scale), (2, 7, 8));
    assert!(m.mole_details.is_enabled);
    assert_eq!(m.mole_details.scale, 2);
}

fn title(text: &str) -> SmdhTitle {
    let mut short = [0u16; 0x40];
    for (i, u) in text.encode_utf16().enumerate() {
        short[i] = u;
    }
    SmdhTitle::new(short, [0; 0x80], [0; 0x40])
}

#[test]
fn smdh_names() {
    let mut titles = Vec::new();
    for i in 0..16 {
        titles.push(title(if i == 1 { "Game" } else { "" }));
    }
    let smdh = Smdh::new(*b"SMDH", 0, titles, [0; 16], 0x7fff_ffff, 0, 0, 1, (1, 2), 0);
    let name = smdh.short_name(Language::English);
    assert!(name.starts_with("Game"));
    assert_eq!(name.len(), 0x40);
    assert_eq!(smdh.eula_version(), (1, 2));
    assert_eq!(smdh.region().bits(), 0x7fff_ffff);
    assert_eq!(smdh.flags().bits(), 1);
    assert_eq!(smdh.publisher(Language::Japan), "\0".repeat(0x40));
}

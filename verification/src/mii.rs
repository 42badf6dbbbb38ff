//! Mii data.
//!
//! The structs that represent all the data of a Mii, and their decoding from the
//! packed format in which the system stores a Mii.
use vstd::prelude::*;
use vstd::arithmetic::power2::pow2;
use vstd::bits::low_bits_mask;
use crate::bits::{bit_field, bit_set, bit_u32, field_u32};
use crate::utf16::{decode_utf16_lossy, decode_utf16_lossy_spec, remove_nul, without_nul};
use crate::text::chars_to_string;

verus! {

/// Region lock of the Mii.
#[derive(Copy, Clone, Debug, PartialEq, Eq, Structural)]
pub enum RegionLock {
    /// No region-lock.
    NoLock,
    /// Japan region-lock.
    Japan,
    /// USA region-lock.
    USA,
    /// Europe region-lock.
    Europe,
}

/// Charset of the Mii.
#[derive(Copy, Clone, Debug, PartialEq, Eq, Structural)]
pub enum Charset {
    /// Japan-USA-Europe unified charset.
    JapanUSAEurope,
    /// China charset.
    China,
    /// Korea charset.
    Korea,
    /// Taiwan charset.
    Taiwan,
}

/// Generic options of the Mii.
#[derive(Copy, Clone, Debug)]
pub struct Options {
    /// Whether it is allowed to copy the Mii.
    pub is_copying_allowed: bool,
    /// Whether the profanity flag is active.
    pub is_profanity_flag_enabled: bool,
    /// The Mii's active region-lock.
    pub region_lock: RegionLock,
    /// The Mii's used charset.
    pub charset: Charset,
}

/// Positional index that the Mii has on the Mii Selector window.
#[derive(Copy, Clone, Debug)]
pub struct SelectorPosition {
    /// Index of the page where the Mii is found.
    pub page_index: u8,
    /// Index of the slot (relative to the page) where the Mii is found.
    pub slot_index: u8,
}

/// Console model from which the Mii originated.
#[derive(Copy, Clone, Debug, PartialEq, Eq, Structural)]
pub enum OriginConsole {
    /// Nintendo Wii.
    Wii,
    /// Nintendo DSi.
    DSi,
    /// Nintendo 3DS (all consoles of the 3DS family).
    N3DS,
    /// Nintendo Wii U/Switch.
    WiiUSwitch,
}

/// Identity of the origin console.
#[derive(Copy, Clone, Debug)]
pub struct ConsoleIdentity {
    /// From which console the Mii originated from.
    pub origin_console: OriginConsole,
}

/// Sex of the Mii.
#[derive(Copy, Clone, Debug, PartialEq, Eq, Structural)]
pub enum Sex {
    /// Male sex.
    Male,
    /// Female sex.
    Female,
}

/// Generic details of the Mii.
#[derive(Copy, Clone, Debug)]
pub struct Details {
    /// Sex of the Mii.
    pub sex: Sex,
    /// Birthday month.
    pub birthday_month: u8,
    /// Birthday day.
    pub birthday_day: u8,
    /// Color of the Mii's shirt.
    pub shirt_color: u8,
    /// Whether the Mii is a favorite.
    pub is_favorite: bool,
    /// Whether the Mii can be shared.
    pub is_sharing_enabled: bool,
}

/// Face style of the Mii.
#[derive(Copy, Clone, Debug)]
pub struct FaceStyle {
    /// Face shape.
    pub shape: u8,
    /// Skin color.
    pub skin_color: u8,
}

/// Face details of the Mii.
#[derive(Copy, Clone, Debug)]
pub struct FaceDetails {
    /// Face style.
    pub style: FaceStyle,
    /// Wrinkles.
    pub wrinkles: u8,
    /// Makeup.
    pub makeup: u8,
}

/// Hair details of the Mii.
#[derive(Copy, Clone, Debug)]
pub struct HairDetails {
    /// Hair style.
    pub style: u8,
    /// Hair color.
    pub color: u8,
    /// Whether the Mii's hair is flipped.
    pub is_flipped: bool,
}

/// Eye details of the Mii.
#[derive(Copy, Clone, Debug)]
pub struct EyeDetails {
    /// Eye style.
    pub style: u8,
    /// Eye color.
    pub color: u8,
    /// Eye scale.
    pub scale: u8,
    /// Eye scale (y-axis).
    pub y_scale: u8,
    /// Eye rotation.
    pub rotation: u8,
    /// Spacing between the eyes.
    pub x_spacing: u8,
    /// Eye height.
    pub y_position: u8,
}

/// Eyebrow details of the Mii.
#[derive(Copy, Clone, Debug)]
pub struct EyebrowDetails {
    /// Eyebrow style.
    pub style: u8,
    /// Eyebrow color.
    pub color: u8,
    /// Eyebrow scale.
    pub scale: u8,
    /// Eyebrow scale (y-axis).
    pub y_scale: u8,
    /// Eyebrow rotation.
    pub rotation: u8,
    /// Spacing between the eyebrows.
    pub x_spacing: u8,
    /// Eyebrow height.
    pub y_position: u8,
}

/// Nose details of the Mii.
#[derive(Copy, Clone, Debug)]
pub struct NoseDetails {
    /// Nose style.
    pub style: u8,
    /// Nose scale.
    pub scale: u8,
    /// Nose height.
    pub y_position: u8,
}

/// Mouth details of the Mii.
#[derive(Copy, Clone, Debug)]
pub struct MouthDetails {
    /// Mouth style.
    pub style: u8,
    /// Mouth color.
    pub color: u8,
    /// Mouth scale.
    pub scale: u8,
    /// Mouth scale (y-axis).
    pub y_scale: u8,
    /// Mouth height.
    pub y_position: u8,
}

/// Mustache details of the Mii.
#[derive(Copy, Clone, Debug)]
pub struct MustacheDetails {
    /// Mustache style.
    pub mustache_style: u8,
}

/// Beard details of the Mii.
#[derive(Copy, Clone, Debug)]
pub struct BeardDetails {
    /// Beard style.
    pub style: u8,
    /// Beard color.
    pub color: u8,
    /// Beard scale.
    pub scale: u8,
    /// Beard height.
    pub y_position: u8,
}

/// Glasses details of the Mii.
#[derive(Copy, Clone, Debug)]
pub struct GlassesDetails {
    /// Glasses style.
    pub style: u8,
    /// Glasses color.
    pub color: u8,
    /// Glasses scale.
    pub scale: u8,
    /// Glasses height.
    pub y_position: u8,
}

/// Mole details of the Mii.
#[derive(Copy, Clone, Debug)]
pub struct MoleDetails {
    /// Whether the Mii has a mole.
    pub is_enabled: bool,
    /// Mole scale.
    pub scale: u8,
    /// Mole position (x-axis).
    pub x_position: u8,
    /// Mole position (y-axis).
    pub y_position: u8,
}

/// A Mii as the system stores it: packed bit fields (bit 0 is the least
/// significant bit of each field) and UTF-16 names.
#[derive(Copy, Clone, Debug)]
pub struct MiiData {
    /// Options: copying (bit 0), profanity flag (1), region lock (2..4), charset (4..6).
    pub mii_options: u8,
    /// Selector position: page (bits 0..4) and slot (4..8).
    pub mii_pos: u8,
    /// Console identity: origin console in bits 4..7.
    pub console_identity: u8,
    /// Unique system ID.
    pub system_id: u64,
    /// MAC address of the console.
    pub mac: [u8; 6],
    /// Sex, birthday, shirt color and favorite flag.
    pub mii_details: u16,
    /// Name of the Mii, UTF-16, nul-padded.
    pub mii_name: [u16; 10],
    /// Height.
    pub height: u8,
    /// Width.
    pub width: u8,
    /// Sharing flag (bit 0, set when sharing is disabled), face shape and skin color.
    pub face_style: u8,
    /// Wrinkles and makeup.
    pub face_details: u8,
    /// Hair style.
    pub hair_style: u8,
    /// Hair color and flip flag.
    pub hair_details: u8,
    /// Eye details.
    pub eye_details: u32,
    /// Eyebrow details.
    pub eyebrow_details: u32,
    /// Nose details.
    pub nose_details: u16,
    /// Mouth details.
    pub mouth_details: u16,
    /// Mouth height (bits 0..5) and mustache style (5..8).
    pub mustache_details: u16,
    /// Beard details.
    pub beard_details: u16,
    /// Glasses details.
    pub glasses_details: u16,
    /// Mole details.
    pub mole_details: u16,
    /// Name of the Mii's author, UTF-16, nul-padded.
    pub author_name: [u16; 10],
}

/// Full Mii data representation.
#[derive(Clone, Debug)]
pub struct Mii {
    /// Mii options.
    pub options: Options,
    /// Position taken by the Mii on the Mii Selector screen.
    pub selector_position: SelectorPosition,
    /// Console the Mii was created on.
    pub console_identity: ConsoleIdentity,
    /// Unique system ID, not dependant on the MAC address.
    pub system_id: u64,
    /// Console's MAC address.
    pub mac_address: [u8; 6],
    /// General information about the Mii.
    pub details: Details,
    /// Mii name.
    pub name: String,
    /// Mii height.
    pub height: u8,
    /// Mii width.
    pub width: u8,
    /// Face details.
    pub face_details: FaceDetails,
    /// Hair details.
    pub hair_details: HairDetails,
    /// Eyes details.
    pub eye_details: EyeDetails,
    /// Eyebrow details.
    pub eyebrow_details: EyebrowDetails,
    /// Nose details.
    pub nose_details: NoseDetails,
    /// Mouth details.
    pub mouth_details: MouthDetails,
    /// Mustache details.
    pub mustache_details: MustacheDetails,
    /// Beard details.
    pub beard_details: BeardDetails,
    /// Glasses details.
    pub glasses_details: GlassesDetails,
    /// Mole details.
    pub mole_details: MoleDetails,
    /// Name of the Mii's original author.
    pub author_name: String,
}

/// The `width`-bit field at `offset` of `raw`, as a byte.
pub open spec fn f8(raw: nat, offset: nat, width: nat) -> u8 {
    bit_field(raw, offset, width) as u8
}

/// The region lock encoded in bits 2 (low) and 3 (high) of the options.
pub open spec fn region_lock_of(raw: nat) -> RegionLock {
    match (bit_set(raw, 3), bit_set(raw, 2)) {
        (false, false) => RegionLock::NoLock,
        (false, true) => RegionLock::Japan,
        (true, false) => RegionLock::USA,
        (true, true) => RegionLock::Europe,
    }
}

/// The charset encoded in bits 4 (low) and 5 (high) of the options.
pub open spec fn charset_of(raw: nat) -> Charset {
    match (bit_set(raw, 5), bit_set(raw, 4)) {
        (false, false) => Charset::JapanUSAEurope,
        (false, true) => Charset::China,
        (true, false) => Charset::Korea,
        (true, true) => Charset::Taiwan,
    }
}

/// The origin console encoded in bits 4..7 of the console identity: 1 is the Wii,
/// 2 the DSi, 3 the 3DS and every other value the Wii U/Switch.
pub open spec fn origin_console_of(raw: nat) -> OriginConsole {
    match (bit_set(raw, 6), bit_set(raw, 5), bit_set(raw, 4)) {
        (false, false, true) => OriginConsole::Wii,
        (false, true, false) => OriginConsole::DSi,
        (false, true, true) => OriginConsole::N3DS,
        _ => OriginConsole::WiiUSwitch,
    }
}

/// The options decoded from their packed byte.
pub open spec fn options_of(raw: u8) -> Options {
    Options {
        is_copying_allowed: bit_set(raw as nat, 0),
        is_profanity_flag_enabled: bit_set(raw as nat, 1),
        region_lock: region_lock_of(raw as nat),
        charset: charset_of(raw as nat),
    }
}

/// The details decoded from their packed fields (the sharing flag is stored,
/// inverted, in bit 0 of the face style).
pub open spec fn details_of(raw: u16, face_style: u8) -> Details {
    Details {
        sex: if bit_set(raw as nat, 0) { Sex::Female } else { Sex::Male },
        birthday_month: f8(raw as nat, 1, 4),
        birthday_day: f8(raw as nat, 5, 5),
        shirt_color: f8(raw as nat, 10, 4),
        is_favorite: bit_set(raw as nat, 14),
        is_sharing_enabled: !bit_set(face_style as nat, 0),
    }
}

/// The face details decoded from the face style and face details bytes.
pub open spec fn face_details_of(style: u8, details: u8) -> FaceDetails {
    FaceDetails {
        style: FaceStyle { shape: f8(style as nat, 1, 4), skin_color: f8(style as nat, 5, 3) },
        wrinkles: f8(details as nat, 0, 4),
        makeup: f8(details as nat, 4, 4),
    }
}

/// The hair details.
pub open spec fn hair_details_of(style: u8, details: u8) -> HairDetails {
    HairDetails { style, color: f8(details as nat, 0, 3), is_flipped: bit_set(details as nat, 3) }
}

/// The eye details.
pub open spec fn eye_details_of(raw: u32) -> EyeDetails {
    EyeDetails {
        style: f8(raw as nat, 0, 6),
        color: f8(raw as nat, 6, 3),
        scale: f8(raw as nat, 9, 4),
        y_scale: f8(raw as nat, 13, 3),
        rotation: f8(raw as nat, 16, 5),
        x_spacing: f8(raw as nat, 21, 4),
        y_position: f8(raw as nat, 25, 5),
    }
}

/// The eyebrow details (bit 15 is not used).
pub open spec fn eyebrow_details_of(raw: u32) -> EyebrowDetails {
    EyebrowDetails {
        style: f8(raw as nat, 0, 5),
        color: f8(raw as nat, 5, 3),
        scale: f8(raw as nat, 8, 4),
        y_scale: f8(raw as nat, 12, 3),
        rotation: f8(raw as nat, 16, 4),
        x_spacing: f8(raw as nat, 21, 4),
        y_position: f8(raw as nat, 25, 5),
    }
}

/// The nose details.
pub open spec fn nose_details_of(raw: u16) -> NoseDetails {
    NoseDetails { style: f8(raw as nat, 0, 5), scale: f8(raw as nat, 5, 4), y_position: f8(raw as nat, 9, 5) }
}

/// The mouth details; the mouth height is stored in the mustache field.
pub open spec fn mouth_details_of(raw: u16, mustache: u16) -> MouthDetails {
    MouthDetails {
        style: f8(raw as nat, 0, 6),
        color: f8(raw as nat, 6, 3),
        scale: f8(raw as nat, 9, 4),
        y_scale: f8(raw as nat, 13, 3),
        y_position: f8(mustache as nat, 0, 5),
    }
}

/// The beard details: style in bits 0..3, color in 3..6, scale in 6..10 and
/// height in 10..15.
pub open spec fn beard_details_of(raw: u16) -> BeardDetails {
    BeardDetails {
        style: f8(raw as nat, 0, 3),
        color: f8(raw as nat, 3, 3),
        scale: f8(raw as nat, 6, 4),
        y_position: f8(raw as nat, 10, 5),
    }
}

/// The glasses details.
pub open spec fn glasses_details_of(raw: u16) -> GlassesDetails {
    GlassesDetails {
        style: f8(raw as nat, 0, 4),
        color: f8(raw as nat, 4, 3),
        scale: f8(raw as nat, 7, 4),
        y_position: f8(raw as nat, 11, 5),
    }
}

/// The mole details.
pub open spec fn mole_details_of(raw: u16) -> MoleDetails {
    MoleDetails {
        is_enabled: bit_set(raw as nat, 0),
        scale: f8(raw as nat, 1, 4),
        x_position: f8(raw as nat, 5, 5),
        y_position: f8(raw as nat, 10, 5),
    }
}

/// A stored name: its UTF-16 code units decoded (unpaired surrogates becoming
/// U+FFFD) and the nul characters removed.
pub open spec fn name_of(raw: Seq<u16>) -> Seq<char> {
    without_nul(decode_utf16_lossy_spec(raw))
}

/// Reads the `width`-bit field at `offset` of `raw` as a byte.
fn get(raw: u32, offset: u32, width: u32) -> (r: u8)
    requires
        offset < 32,
        1 <= width <= 8,
    ensures
        r == f8(raw as nat, offset as nat, width as nat),
{
    let v = field_u32(raw, offset, width);
    proof {
        vstd::arithmetic::power2::lemma2_to64();
        if width < 8 {
            vstd::arithmetic::power2::lemma_pow2_strictly_increases(width as nat, 8);
        }
    }
    v as u8
}

/// Decodes a stored name.
fn decode_name(raw: &[u16]) -> (s: String)
    ensures
        s@ == name_of(raw@),
{
    let chars = decode_utf16_lossy(raw);
    let kept = remove_nul(chars.as_slice());
    chars_to_string(kept.as_slice())
}

/// Whether `m` is the decoding of `mii_data`: every field of `m` is read from
/// the packed field that holds it.
pub open spec fn decodes(m: Mii, mii_data: MiiData) -> bool {
    &&& m.options == options_of(mii_data.mii_options)
    &&& m.selector_position == (SelectorPosition {
            page_index: f8(mii_data.mii_pos as nat, 0, 4),
            slot_index: f8(mii_data.mii_pos as nat, 4, 4),
        })
    &&& m.console_identity == (ConsoleIdentity {
            origin_console: origin_console_of(mii_data.console_identity as nat),
        })
    &&& m.system_id == mii_data.system_id
    &&& m.mac_address == mii_data.mac
    &&& m.details == details_of(mii_data.mii_details, mii_data.face_style)
    &&& m.name@ == name_of(mii_data.mii_name@)
    &&& m.height == mii_data.height
    &&& m.width == mii_data.width
    &&& m.face_details == face_details_of(mii_data.face_style, mii_data.face_details)
    &&& m.hair_details == hair_details_of(mii_data.hair_style, mii_data.hair_details)
    &&& m.eye_details == eye_details_of(mii_data.eye_details)
    &&& m.eyebrow_details == eyebrow_details_of(mii_data.eyebrow_details)
    &&& m.nose_details == nose_details_of(mii_data.nose_details)
    &&& m.mouth_details == mouth_details_of(mii_data.mouth_details, mii_data.mustache_details)
    &&& m.mustache_details == (MustacheDetails {
            mustache_style: f8(mii_data.mustache_details as nat, 5, 3),
        })
    &&& m.beard_details == beard_details_of(mii_data.beard_details)
    &&& m.glasses_details == glasses_details_of(mii_data.glasses_details)
    &&& m.mole_details == mole_details_of(mii_data.mole_details)
    &&& m.author_name@ == name_of(mii_data.author_name@)
}

impl Mii {
    /// Decodes a Mii from the packed format in which the system stores it.
    pub fn from(mii_data: MiiData) -> (m: Mii)
        ensures
            m.options == options_of(mii_data.mii_options),
            m.selector_position == (SelectorPosition {
                page_index: f8(mii_data.mii_pos as nat, 0, 4),
                slot_index: f8(mii_data.mii_pos as nat, 4, 4),
            }),
            m.console_identity == (ConsoleIdentity {
                origin_console: origin_console_of(mii_data.console_identity as nat),
            }),
            m.system_id == mii_data.system_id,
            m.mac_address == mii_data.mac,
            m.details == details_of(mii_data.mii_details, mii_data.face_style),
            m.name@ == name_of(mii_data.mii_name@),
            m.height == mii_data.height,
            m.width == mii_data.width,
            m.face_details == face_details_of(mii_data.face_style, mii_data.face_details),
            m.hair_details == hair_details_of(mii_data.hair_style, mii_data.hair_details),
            m.eye_details == eye_details_of(mii_data.eye_details),
            m.eyebrow_details == eyebrow_details_of(mii_data.eyebrow_details),
            m.nose_details == nose_details_of(mii_data.nose_details),
            m.mouth_details == mouth_details_of(mii_data.mouth_details, mii_data.mustache_details),
            m.mustache_details == (MustacheDetails {
                mustache_style: f8(mii_data.mustache_details as nat, 5, 3),
            }),
            m.beard_details == beard_details_of(mii_data.beard_details),
            m.glasses_details == glasses_details_of(mii_data.glasses_details),
            m.mole_details == mole_details_of(mii_data.mole_details),
            m.author_name@ == name_of(mii_data.author_name@),
            decodes(m, mii_data),
    {
        let raw_options = mii_data.mii_options as u32;
        let raw_position = mii_data.mii_pos as u32;
        let raw_device = mii_data.console_identity as u32;
        let raw_details = mii_data.mii_details as u32;
        let raw_face_style = mii_data.face_style as u32;
        let raw_face_details = mii_data.face_details as u32;
        let raw_hair_details = mii_data.hair_details as u32;
        let raw_eye_details = mii_data.eye_details;
        let raw_eyebrow_details = mii_data.eyebrow_details;
        let raw_nose_details = mii_data.nose_details as u32;
        let raw_mouth_details = mii_data.mouth_details as u32;
        let raw_mustache_details = mii_data.mustache_details as u32;
        let raw_beard_details = mii_data.beard_details as u32;
        let raw_glasses_details = mii_data.glasses_details as u32;
        let raw_mole_details = mii_data.mole_details as u32;

        let name = decode_name(mii_data.mii_name.as_slice());
        let author_name = decode_name(mii_data.author_name.as_slice());

        let options = Options {
            is_copying_allowed: bit_u32(raw_options, 0),
            is_profanity_flag_enabled: bit_u32(raw_options, 1),
            region_lock: match (bit_u32(raw_options, 3), bit_u32(raw_options, 2)) {
                (false, false) => RegionLock::NoLock,
                (false, true) => RegionLock::Japan,
                (true, false) => RegionLock::USA,
                (true, true) => RegionLock::Europe,
            },
            charset: match (bit_u32(raw_options, 5), bit_u32(raw_options, 4)) {
                (false, false) => Charset::JapanUSAEurope,
                (false, true) => Charset::China,
                (true, false) => Charset::Korea,
                (true, true) => Charset::Taiwan,
            },
        };

        let selector_position = SelectorPosition {
            page_index: get(raw_position, 0, 4),
            slot_index: get(raw_position, 4, 4),
        };

        let console_identity = ConsoleIdentity {
            origin_console: match (
                bit_u32(raw_device, 6),
                bit_u32(raw_device, 5),
                bit_u32(raw_device, 4),
            ) {
                (false, false, true) => OriginConsole::Wii,
                (false, true, false) => OriginConsole::DSi,
                (false, true, true) => OriginConsole::N3DS,
                _ => OriginConsole::WiiUSwitch,
            },
        };

        let details = Details {
            sex: if bit_u32(raw_details, 0) { Sex::Female } else { Sex::Male },
            birthday_month: get(raw_details, 1, 4),
            birthday_day: get(raw_details, 5, 5),
            shirt_color: get(raw_details, 10, 4),
            is_favorite: bit_u32(raw_details, 14),
            is_sharing_enabled: !bit_u32(raw_face_style, 0),
        };

        let face_details = FaceDetails {
            style: FaceStyle {
                shape: get(raw_face_style, 1, 4),
                skin_color: get(raw_face_style, 5, 3),
            },
            wrinkles: get(raw_face_details, 0, 4),
            makeup: get(raw_face_details, 4, 4),
        };

        let hair_details = HairDetails {
            style: mii_data.hair_style,
            color: get(raw_hair_details, 0, 3),
            is_flipped: bit_u32(raw_hair_details, 3),
        };

        let eye_details = EyeDetails {
            style: get(raw_eye_details, 0, 6),
            color: get(raw_eye_details, 6, 3),
            scale: get(raw_eye_details, 9, 4),
            y_scale: get(raw_eye_details, 13, 3),
            rotation: get(raw_eye_details, 16, 5),
            x_spacing: get(raw_eye_details, 21, 4),
            y_position: get(raw_eye_details, 25, 5),
        };

        let eyebrow_details = EyebrowDetails {
            style: get(raw_eyebrow_details, 0, 5),
            color: get(raw_eyebrow_details, 5, 3),
            scale: get(raw_eyebrow_details, 8, 4),
            y_scale: get(raw_eyebrow_details, 12, 3),
            rotation: get(raw_eyebrow_details, 16, 4),
            x_spacing: get(raw_eyebrow_details, 21, 4),
            y_position: get(raw_eyebrow_details, 25, 5),
        };

        let nose_details = NoseDetails {
            style: get(raw_nose_details, 0, 5),
            scale: get(raw_nose_details, 5, 4),
            y_position: get(raw_nose_details, 9, 5),
        };

        let mouth_details = MouthDetails {
            style: get(raw_mouth_details, 0, 6),
            color: get(raw_mouth_details, 6, 3),
            scale: get(raw_mouth_details, 9, 4),
            y_scale: get(raw_mouth_details, 13, 3),
            y_position: get(raw_mustache_details, 0, 5),
        };

        let mustache_details = MustacheDetails { mustache_style: get(raw_mustache_details, 5, 3) };

        let beard_details = BeardDetails {
            style: get(raw_beard_details, 0, 3),
            color: get(raw_beard_details, 3, 3),
            scale: get(raw_beard_details, 6, 4),
            y_position: get(raw_beard_details, 10, 5),
        };

        let glasses_details = GlassesDetails {
            style: get(raw_glasses_details, 0, 4),
            color: get(raw_glasses_details, 4, 3),
            scale: get(raw_glasses_details, 7, 4),
            y_position: get(raw_glasses_details, 11, 5),
        };

        let mole_details = MoleDetails {
            is_enabled: bit_u32(raw_mole_details, 0),
            scale: get(raw_mole_details, 1, 4),
            x_position: get(raw_mole_details, 5, 5),
            y_position: get(raw_mole_details, 10, 5),
        };

        Mii {
            options,
            selector_position,
            console_identity,
            system_id: mii_data.system_id,
            mac_address: mii_data.mac,
            details,
            name,
            height: mii_data.height,
            width: mii_data.width,
            face_details,
            hair_details,
            eye_details,
            eyebrow_details,
            nose_details,
            mouth_details,
            mustache_details,
            beard_details,
            glasses_details,
            mole_details,
            author_name,
        }
    }
}

/// Every decoded field fits in the number of bits that stores it: a birthday
/// month below 16, a birthday day below 32, page and slot indices below 16, and
/// so on for every detail.
pub proof fn decoded_fields_fit_their_widths(raw: nat, offset: nat, width: nat)
    requires
        width <= 8,
    ensures
        f8(raw, offset, width) < pow2(width),
{
    vstd::arithmetic::power2::lemma_pow2_pos(width);
    vstd::arithmetic::power2::lemma2_to64();
    if width < 8 {
        vstd::arithmetic::power2::lemma_pow2_strictly_increases(width, 8);
    }
}

/// The two-bit number stored at bits `2k..2k+2` (here: the region lock at bits 2
/// and 3, the charset at bits 4 and 5) is twice its high bit plus its low bit.
proof fn two_bit_number(raw: nat, low: nat)
    requires
        raw < 256,
        low == 2 || low == 4,
    ensures
        (raw / pow2(low)) % 4 == 2 * ((raw / pow2(low + 1)) % 2) + (raw / pow2(low)) % 2,
{
    vstd::arithmetic::power2::lemma2_to64();
    if low == 2 {
        assert((raw / 4) % 4 == 2 * ((raw / 8) % 2) + (raw / 4) % 2) by (nonlinear_arith)
            requires
                raw < 256,
        ;
    } else {
        assert((raw / 16) % 4 == 2 * ((raw / 32) % 2) + (raw / 16) % 2) by (nonlinear_arith)
            requires
                raw < 256,
        ;
    }
}

/// The options byte of a decoded Mii, read as numbers: bit 0 allows copying,
/// bit 1 is the profanity flag, the two-bit number at bits 2..4 picks the region
/// lock from [none, Japan, USA, Europe] and the one at bits 4..6 the charset from
/// [Japan/USA/Europe, China, Korea, Taiwan].
pub proof fn mii_options_by_number(m: Mii, d: MiiData)
    requires
        decodes(m, d),
    ensures
        m.options.is_copying_allowed == (d.mii_options % 2 == 1),
        m.options.is_profanity_flag_enabled == ((d.mii_options / 2) % 2 == 1),
        (d.mii_options / 4) % 4 == 0 ==> m.options.region_lock == RegionLock::NoLock,
        (d.mii_options / 4) % 4 == 1 ==> m.options.region_lock == RegionLock::Japan,
        (d.mii_options / 4) % 4 == 2 ==> m.options.region_lock == RegionLock::USA,
        (d.mii_options / 4) % 4 == 3 ==> m.options.region_lock == RegionLock::Europe,
        (d.mii_options / 16) % 4 == 0 ==> m.options.charset == Charset::JapanUSAEurope,
        (d.mii_options / 16) % 4 == 1 ==> m.options.charset == Charset::China,
        (d.mii_options / 16) % 4 == 2 ==> m.options.charset == Charset::Korea,
        (d.mii_options / 16) % 4 == 3 ==> m.options.charset == Charset::Taiwan,
{
    vstd::arithmetic::power2::lemma2_to64();
    two_bit_number(d.mii_options as nat, 2);
    two_bit_number(d.mii_options as nat, 4);
}

/// The console identity byte of a decoded Mii, read as a number: the three-bit
/// number at bits 4..7 is 1 for the Wii, 2 for the DSi, 3 for the 3DS, and any
/// other value stands for the Wii U/Switch. The selector position byte holds the
/// page in its low four bits and the slot in its high four.
pub proof fn mii_console_and_position_by_number(m: Mii, d: MiiData)
    requires
        decodes(m, d),
    ensures
        (d.console_identity / 16) % 8 == 1 ==> m.console_identity.origin_console == OriginConsole::Wii,
        (d.console_identity / 16) % 8 == 2 ==> m.console_identity.origin_console == OriginConsole::DSi,
        (d.console_identity / 16) % 8 == 3 ==> m.console_identity.origin_console == OriginConsole::N3DS,
        (d.console_identity / 16) % 8 != 1 && (d.console_identity / 16) % 8 != 2 && (d.console_identity / 16) % 8 != 3
            ==> m.console_identity.origin_console == OriginConsole::WiiUSwitch,
        m.selector_position.page_index == d.mii_pos % 16,
        m.selector_position.slot_index == d.mii_pos / 16,
{
    vstd::arithmetic::power2::lemma2_to64();
    let c = d.console_identity as nat;
    assert((c / 16) % 8 == 4 * ((c / 64) % 2) + 2 * ((c / 32) % 2) + (c / 16) % 2) by (nonlinear_arith)
        requires
            c < 256,
    ;
    let p = d.mii_pos as nat;
    assert(p / 16 < 16 && (p / 16) % 16 == p / 16) by (nonlinear_arith)
        requires
            p < 256,
    ;
}

/// A field read by division is the same field read with a shift and a mask.
proof fn field_by_shift(raw: u32, offset: u32, width: u32, mask: u32)
    requires
        offset < 32,
        1 <= width <= 8,
        mask == pow2(width as nat) - 1,
    ensures
        f8(raw as nat, offset as nat, width as nat) == ((raw >> offset) & mask) as u8,
        bit_field(raw as nat, offset as nat, width as nat) == (raw >> offset) & mask,
{
    vstd::arithmetic::power2::lemma2_to64();
    let shifted = raw >> offset;
    vstd::bits::lemma_u32_shr_is_div(raw, offset);
    vstd::bits::lemma_u32_pow2_no_overflow(width as nat);
    assert(mask == low_bits_mask(width as nat));
    vstd::bits::lemma_u32_low_bits_mask_is_mod(shifted, width as nat);
}

/// Every detail of a decoded Mii, read from the packed data with a shift and a
/// mask as 3dbrew lays the fields out: for example the birthday month is
/// `(mii_details >> 1) & 0xF`, the eye color `(eye_details >> 6) & 0x7`, the
/// beard's height `(beard_details >> 10) & 0x1F`; flags are single bits, and the
/// sharing flag is stored inverted in bit 0 of the face style.
pub proof fn mii_details_by_shift_and_mask(m: Mii, d: MiiData)
    requires
        decodes(m, d),
    ensures
        (m.details.sex == Sex::Female) == ((d.mii_details as u32 & 1u32) != 0),
        m.hair_details.style == d.hair_style,
        m.details.birthday_month == ((d.mii_details as u32 >> 1u32) & 0xFu32) as u8,
        m.details.birthday_day == ((d.mii_details as u32 >> 5u32) & 0x1Fu32) as u8,
        m.details.shirt_color == ((d.mii_details as u32 >> 10u32) & 0xFu32) as u8,
        m.details.is_favorite == (((d.mii_details as u32 >> 14u32) & 0x1u32) != 0),
        m.details.is_sharing_enabled == (((d.face_style as u32 >> 0u32) & 0x1u32) == 0),
        m.face_details.style.shape == ((d.face_style as u32 >> 1u32) & 0xFu32) as u8,
        m.face_details.style.skin_color == ((d.face_style as u32 >> 5u32) & 0x7u32) as u8,
        m.face_details.wrinkles == ((d.face_details as u32 >> 0u32) & 0xFu32) as u8,
        m.face_details.makeup == ((d.face_details as u32 >> 4u32) & 0xFu32) as u8,
        m.hair_details.color == ((d.hair_details as u32 >> 0u32) & 0x7u32) as u8,
        m.hair_details.is_flipped == (((d.hair_details as u32 >> 3u32) & 0x1u32) != 0),
        m.eye_details.style == ((d.eye_details as u32 >> 0u32) & 0x3Fu32) as u8,
        m.eye_details.color == ((d.eye_details as u32 >> 6u32) & 0x7u32) as u8,
        m.eye_details.scale == ((d.eye_details as u32 >> 9u32) & 0xFu32) as u8,
        m.eye_details.y_scale == ((d.eye_details as u32 >> 13u32) & 0x7u32) as u8,
        m.eye_details.rotation == ((d.eye_details as u32 >> 16u32) & 0x1Fu32) as u8,
        m.eye_details.x_spacing == ((d.eye_details as u32 >> 21u32) & 0xFu32) as u8,
        m.eye_details.y_position == ((d.eye_details as u32 >> 25u32) & 0x1Fu32) as u8,
        m.eyebrow_details.style == ((d.eyebrow_details as u32 >> 0u32) & 0x1Fu32) as u8,
        m.eyebrow_details.color == ((d.eyebrow_details as u32 >> 5u32) & 0x7u32) as u8,
        m.eyebrow_details.scale == ((d.eyebrow_details as u32 >> 8u32) & 0xFu32) as u8,
        m.eyebrow_details.y_scale == ((d.eyebrow_details as u32 >> 12u32) & 0x7u32) as u8,
        m.eyebrow_details.rotation == ((d.eyebrow_details as u32 >> 16u32) & 0xFu32) as u8,
        m.eyebrow_details.x_spacing == ((d.eyebrow_details as u32 >> 21u32) & 0xFu32) as u8,
        m.eyebrow_details.y_position == ((d.eyebrow_details as u32 >> 25u32) & 0x1Fu32) as u8,
        m.nose_details.style == ((d.nose_details as u32 >> 0u32) & 0x1Fu32) as u8,
        m.nose_details.scale == ((d.nose_details as u32 >> 5u32) & 0xFu32) as u8,
        m.nose_details.y_position == ((d.nose_details as u32 >> 9u32) & 0x1Fu32) as u8,
        m.mouth_details.style == ((d.mouth_details as u32 >> 0u32) & 0x3Fu32) as u8,
        m.mouth_details.color == ((d.mouth_details as u32 >> 6u32) & 0x7u32) as u8,
        m.mouth_details.scale == ((d.mouth_details as u32 >> 9u32) & 0xFu32) as u8,
        m.mouth_details.y_scale == ((d.mouth_details as u32 >> 13u32) & 0x7u32) as u8,
        m.mouth_details.y_position == ((d.mustache_details as u32 >> 0u32) & 0x1Fu32) as u8,
        m.mustache_details.mustache_style == ((d.mustache_details as u32 >> 5u32) & 0x7u32) as u8,
        m.beard_details.style == ((d.beard_details as u32 >> 0u32) & 0x7u32) as u8,
        m.beard_details.color == ((d.beard_details as u32 >> 3u32) & 0x7u32) as u8,
        m.beard_details.scale == ((d.beard_details as u32 >> 6u32) & 0xFu32) as u8,
        m.beard_details.y_position == ((d.beard_details as u32 >> 10u32) & 0x1Fu32) as u8,
        m.glasses_details.style == ((d.glasses_details as u32 >> 0u32) & 0xFu32) as u8,
        m.glasses_details.color == ((d.glasses_details as u32 >> 4u32) & 0x7u32) as u8,
        m.glasses_details.scale == ((d.glasses_details as u32 >> 7u32) & 0xFu32) as u8,
        m.glasses_details.y_position == ((d.glasses_details as u32 >> 11u32) & 0x1Fu32) as u8,
        m.mole_details.is_enabled == (((d.mole_details as u32 >> 0u32) & 0x1u32) != 0),
        m.mole_details.scale == ((d.mole_details as u32 >> 1u32) & 0xFu32) as u8,
        m.mole_details.x_position == ((d.mole_details as u32 >> 5u32) & 0x1Fu32) as u8,
        m.mole_details.y_position == ((d.mole_details as u32 >> 10u32) & 0x1Fu32) as u8,
{
    vstd::arithmetic::power2::lemma2_to64();
    field_by_shift(d.mii_details as u32, 0u32, 1u32, 1u32);
    let raw_details = d.mii_details as u32;
    assert(raw_details >> 0u32 == raw_details) by (bit_vector);
    field_by_shift(d.mii_details as u32, 1u32, 4u32, 0xFu32);
    field_by_shift(d.mii_details as u32, 5u32, 5u32, 0x1Fu32);
    field_by_shift(d.mii_details as u32, 10u32, 4u32, 0xFu32);
    field_by_shift(d.mii_details as u32, 14u32, 1u32, 0x1u32);
    field_by_shift(d.face_style as u32, 0u32, 1u32, 0x1u32);
    field_by_shift(d.face_style as u32, 1u32, 4u32, 0xFu32);
    field_by_shift(d.face_style as u32, 5u32, 3u32, 0x7u32);
    field_by_shift(d.face_details as u32, 0u32, 4u32, 0xFu32);
    field_by_shift(d.face_details as u32, 4u32, 4u32, 0xFu32);
    field_by_shift(d.hair_details as u32, 0u32, 3u32, 0x7u32);
    field_by_shift(d.hair_details as u32, 3u32, 1u32, 0x1u32);
    field_by_shift(d.eye_details as u32, 0u32, 6u32, 0x3Fu32);
    field_by_shift(d.eye_details as u32, 6u32, 3u32, 0x7u32);
    field_by_shift(d.eye_details as u32, 9u32, 4u32, 0xFu32);
    field_by_shift(d.eye_details as u32, 13u32, 3u32, 0x7u32);
    field_by_shift(d.eye_details as u32, 16u32, 5u32, 0x1Fu32);
    field_by_shift(d.eye_details as u32, 21u32, 4u32, 0xFu32);
    field_by_shift(d.eye_details as u32, 25u32, 5u32, 0x1Fu32);
    field_by_shift(d.eyebrow_details as u32, 0u32, 5u32, 0x1Fu32);
    field_by_shift(d.eyebrow_details as u32, 5u32, 3u32, 0x7u32);
    field_by_shift(d.eyebrow_details as u32, 8u32, 4u32, 0xFu32);
    field_by_shift(d.eyebrow_details as u32, 12u32, 3u32, 0x7u32);
    field_by_shift(d.eyebrow_details as u32, 16u32, 4u32, 0xFu32);
    field_by_shift(d.eyebrow_details as u32, 21u32, 4u32, 0xFu32);
    field_by_shift(d.eyebrow_details as u32, 25u32, 5u32, 0x1Fu32);
    field_by_shift(d.nose_details as u32, 0u32, 5u32, 0x1Fu32);
    field_by_shift(d.nose_details as u32, 5u32, 4u32, 0xFu32);
    field_by_shift(d.nose_details as u32, 9u32, 5u32, 0x1Fu32);
    field_by_shift(d.mouth_details as u32, 0u32, 6u32, 0x3Fu32);
    field_by_shift(d.mouth_details as u32, 6u32, 3u32, 0x7u32);
    field_by_shift(d.mouth_details as u32, 9u32, 4u32, 0xFu32);
    field_by_shift(d.mouth_details as u32, 13u32, 3u32, 0x7u32);
    field_by_shift(d.mustache_details as u32, 0u32, 5u32, 0x1Fu32);
    field_by_shift(d.mustache_details as u32, 5u32, 3u32, 0x7u32);
    field_by_shift(d.beard_details as u32, 0u32, 3u32, 0x7u32);
    field_by_shift(d.beard_details as u32, 3u32, 3u32, 0x7u32);
    field_by_shift(d.beard_details as u32, 6u32, 4u32, 0xFu32);
    field_by_shift(d.beard_details as u32, 10u32, 5u32, 0x1Fu32);
    field_by_shift(d.glasses_details as u32, 0u32, 4u32, 0xFu32);
    field_by_shift(d.glasses_details as u32, 4u32, 3u32, 0x7u32);
    field_by_shift(d.glasses_details as u32, 7u32, 4u32, 0xFu32);
    field_by_shift(d.glasses_details as u32, 11u32, 5u32, 0x1Fu32);
    field_by_shift(d.mole_details as u32, 0u32, 1u32, 0x1u32);
    field_by_shift(d.mole_details as u32, 1u32, 4u32, 0xFu32);
    field_by_shift(d.mole_details as u32, 5u32, 5u32, 0x1Fu32);
    field_by_shift(d.mole_details as u32, 10u32, 5u32, 0x1Fu32);
}

} // verus!

//! Camera service: the configuration of the built-in cameras and what follows
//! from it (the final image size, the buffer a picture needs).
use vstd::prelude::*;
use vstd::std_specs::convert::{FromSpecImpl, TryFromSpecImpl};
use crate::error::{Error, ResultCode, is_failure_code};
use crate::services::gspgpu::FramebufferFormat;
use crate::services::reference::{ServiceCounter, ServiceReference, count_after_acquire, effective_count, must_start, refused_as_active};

verus! {

/// Flip direction of the camera's image.
#[derive(Copy, Clone, Debug, PartialEq, Eq, Structural)]
pub enum FlipMode {
    /// No flip.
    NoFlip,
    /// Horizontal flip.
    Horizontal,
    /// Vertical flip.
    Vertical,
    /// Both horizontal and vertical flip.
    Reverse,
}

impl FlipMode {
    /// The raw value of the variant.
    pub open spec fn raw_spec(self) -> u8 {
        match self {
            FlipMode::NoFlip => 0,
            FlipMode::Horizontal => 1,
            FlipMode::Vertical => 2,
            FlipMode::Reverse => 3,
        }
    }

    /// The variant with the given raw value, if any.
    pub open spec fn from_raw_spec(value: u8) -> Option<FlipMode> {
        if value == 0 {
            Some(FlipMode::NoFlip)
        } else if value == 1 {
            Some(FlipMode::Horizontal)
        } else if value == 2 {
            Some(FlipMode::Vertical)
        } else if value == 3 {
            Some(FlipMode::Reverse)
        } else {
            None
        }
    }

    /// The raw value of the variant.
    pub fn raw(self) -> (r: u8)
        ensures
            r == self.raw_spec(),
    {
        match self {
            FlipMode::NoFlip => 0,
            FlipMode::Horizontal => 1,
            FlipMode::Vertical => 2,
            FlipMode::Reverse => 3,
        }
    }

    /// The variant with the given raw value, if any.
    pub fn from_raw(value: u8) -> (r: Option<FlipMode>)
        ensures
            r == Self::from_raw_spec(value),
    {
        match value {
            0 => Some(FlipMode::NoFlip),
            1 => Some(FlipMode::Horizontal),
            2 => Some(FlipMode::Vertical),
            3 => Some(FlipMode::Reverse),
            _ => None,
        }
    }
}

impl From<FlipMode> for u8 {
    fn from(v: FlipMode) -> (r: u8) {
        v.raw()
    }
}

impl FromSpecImpl<FlipMode> for u8 {
    open spec fn obeys_from_spec() -> bool {
        true
    }

    open spec fn from_spec(v: FlipMode) -> u8 {
        v.raw_spec()
    }
}

/// Size of the camera view.
#[derive(Copy, Clone, Debug, PartialEq, Eq, Structural)]
pub enum ViewSize {
    /// Size of the 3DS' top screen (400 × 240).
    TopLCD,
    /// Size of the 3DS' bottom screen (320 × 240).
    BottomLCD,
    /// VGA display size (640 × 480).
    Vga,
    /// QQVGA display size (160 × 120).
    QQVga,
    /// CIF display size (352 × 288).
    Cif,
    /// QCIF display size (176 × 144).
    QCif,
    /// Nintendo DS Screen size (256 × 192).
    DS,
    /// Nintendo DS Screen size x4 (512 × 384).
    DSX4,
}

impl ViewSize {
    /// The raw value of the variant.
    pub open spec fn raw_spec(self) -> u8 {
        match self {
            ViewSize::TopLCD => 7,
            ViewSize::BottomLCD => 1,
            ViewSize::Vga => 0,
            ViewSize::QQVga => 2,
            ViewSize::Cif => 3,
            ViewSize::QCif => 4,
            ViewSize::DS => 5,
            ViewSize::DSX4 => 6,
        }
    }

    /// The variant with the given raw value, if any.
    pub open spec fn from_raw_spec(value: u8) -> Option<ViewSize> {
        if value == 7 {
            Some(ViewSize::TopLCD)
        } else if value == 1 {
            Some(ViewSize::BottomLCD)
        } else if value == 0 {
            Some(ViewSize::Vga)
        } else if value == 2 {
            Some(ViewSize::QQVga)
        } else if value == 3 {
            Some(ViewSize::Cif)
        } else if value == 4 {
            Some(ViewSize::QCif)
        } else if value == 5 {
            Some(ViewSize::DS)
        } else if value == 6 {
            Some(ViewSize::DSX4)
        } else {
            None
        }
    }

    /// The raw value of the variant.
    pub fn raw(self) -> (r: u8)
        ensures
            r == self.raw_spec(),
    {
        match self {
            ViewSize::TopLCD => 7,
            ViewSize::BottomLCD => 1,
            ViewSize::Vga => 0,
            ViewSize::QQVga => 2,
            ViewSize::Cif => 3,
            ViewSize::QCif => 4,
            ViewSize::DS => 5,
            ViewSize::DSX4 => 6,
        }
    }

    /// The variant with the given raw value, if any.
    pub fn from_raw(value: u8) -> (r: Option<ViewSize>)
        ensures
            r == Self::from_raw_spec(value),
    {
        match value {
            7 => Some(ViewSize::TopLCD),
            1 => Some(ViewSize::BottomLCD),
            0 => Some(ViewSize::Vga),
            2 => Some(ViewSize::QQVga),
            3 => Some(ViewSize::Cif),
            4 => Some(ViewSize::QCif),
            5 => Some(ViewSize::DS),
            6 => Some(ViewSize::DSX4),
            _ => None,
        }
    }
}

impl From<ViewSize> for u8 {
    fn from(v: ViewSize) -> (r: u8) {
        v.raw()
    }
}

impl FromSpecImpl<ViewSize> for u8 {
    open spec fn obeys_from_spec() -> bool {
        true
    }

    open spec fn from_spec(v: ViewSize) -> u8 {
        v.raw_spec()
    }
}

/// Frame rate of the camera.
#[derive(Copy, Clone, Debug, PartialEq, Eq, Structural)]
pub enum FrameRate {
    /// 15 FPS.
    Fps15,
    /// 15 to 5 FPS.
    Fps15To5,
    /// 15 to 2 FPS.
    Fps15To2,
    /// 10 FPS.
    Fps10,
    /// 8.5 FPS.
    Fps8_5,
    /// 5 FPS.
    Fps5,
    /// 20 FPS.
    Fps20,
    /// 20 to 5 FPS.
    Fps20To5,
    /// 30 FPS.
    Fps30,
    /// 30 to 5 FPS.
    Fps30To5,
    /// 15 to 10 FPS.
    Fps15To10,
    /// 20 to 10 FPS.
    Fps20To10,
    /// 30 to 10 FPS.
    Fps30To10,
}

impl FrameRate {
    /// The raw value of the variant.
    pub open spec fn raw_spec(self) -> u8 {
        match self {
            FrameRate::Fps15 => 0,
            FrameRate::Fps15To5 => 1,
            FrameRate::Fps15To2 => 2,
            FrameRate::Fps10 => 3,
            FrameRate::Fps8_5 => 4,
            FrameRate::Fps5 => 5,
            FrameRate::Fps20 => 6,
            FrameRate::Fps20To5 => 7,
            FrameRate::Fps30 => 8,
            FrameRate::Fps30To5 => 9,
            FrameRate::Fps15To10 => 10,
            FrameRate::Fps20To10 => 11,
            FrameRate::Fps30To10 => 12,
        }
    }

    /// The variant with the given raw value, if any.
    pub open spec fn from_raw_spec(value: u8) -> Option<FrameRate> {
        if value == 0 {
            Some(FrameRate::Fps15)
        } else if value == 1 {
            Some(FrameRate::Fps15To5)
        } else if value == 2 {
            Some(FrameRate::Fps15To2)
        } else if value == 3 {
            Some(FrameRate::Fps10)
        } else if value == 4 {
            Some(FrameRate::Fps8_5)
        } else if value == 5 {
            Some(FrameRate::Fps5)
        } else if value == 6 {
            Some(FrameRate::Fps20)
        } else if value == 7 {
            Some(FrameRate::Fps20To5)
        } else if value == 8 {
            Some(FrameRate::Fps30)
        } else if value == 9 {
            Some(FrameRate::Fps30To5)
        } else if value == 10 {
            Some(FrameRate::Fps15To10)
        } else if value == 11 {
            Some(FrameRate::Fps20To10)
        } else if value == 12 {
            Some(FrameRate::Fps30To10)
        } else {
            None
        }
    }

    /// The raw value of the variant.
    pub fn raw(self) -> (r: u8)
        ensures
            r == self.raw_spec(),
    {
        match self {
            FrameRate::Fps15 => 0,
            FrameRate::Fps15To5 => 1,
            FrameRate::Fps15To2 => 2,
            FrameRate::Fps10 => 3,
            FrameRate::Fps8_5 => 4,
            FrameRate::Fps5 => 5,
            FrameRate::Fps20 => 6,
            FrameRate::Fps20To5 => 7,
            FrameRate::Fps30 => 8,
            FrameRate::Fps30To5 => 9,
            FrameRate::Fps15To10 => 10,
            FrameRate::Fps20To10 => 11,
            FrameRate::Fps30To10 => 12,
        }
    }

    /// The variant with the given raw value, if any.
    pub fn from_raw(value: u8) -> (r: Option<FrameRate>)
        ensures
            r == Self::from_raw_spec(value),
    {
        match value {
            0 => Some(FrameRate::Fps15),
            1 => Some(FrameRate::Fps15To5),
            2 => Some(FrameRate::Fps15To2),
            3 => Some(FrameRate::Fps10),
            4 => Some(FrameRate::Fps8_5),
            5 => Some(FrameRate::Fps5),
            6 => Some(FrameRate::Fps20),
            7 => Some(FrameRate::Fps20To5),
            8 => Some(FrameRate::Fps30),
            9 => Some(FrameRate::Fps30To5),
            10 => Some(FrameRate::Fps15To10),
            11 => Some(FrameRate::Fps20To10),
            12 => Some(FrameRate::Fps30To10),
            _ => None,
        }
    }
}

impl From<FrameRate> for u8 {
    fn from(v: FrameRate) -> (r: u8) {
        v.raw()
    }
}

impl FromSpecImpl<FrameRate> for u8 {
    open spec fn obeys_from_spec() -> bool {
        true
    }

    open spec fn from_spec(v: FrameRate) -> u8 {
        v.raw_spec()
    }
}

/// White balance settings.
#[derive(Copy, Clone, Debug, PartialEq, Eq, Structural)]
pub enum WhiteBalance {
    /// Automatic white balance.
    Auto,
    /// Tungsten.
    Temp3200K,
    /// Fluorescent Light.
    Temp4150K,
    /// Daylight.
    Temp5200K,
    /// Cloudy/Horizon.
    Temp6000K,
    /// Shade.
    Temp7000K,
}

impl WhiteBalance {
    /// The raw value of the variant.
    pub open spec fn raw_spec(self) -> u8 {
        match self {
            WhiteBalance::Auto => 0,
            WhiteBalance::Temp3200K => 1,
            WhiteBalance::Temp4150K => 2,
            WhiteBalance::Temp5200K => 3,
            WhiteBalance::Temp6000K => 4,
            WhiteBalance::Temp7000K => 5,
        }
    }

    /// The variant with the given raw value, if any.
    pub open spec fn from_raw_spec(value: u8) -> Option<WhiteBalance> {
        if value == 0 {
            Some(WhiteBalance::Auto)
        } else if value == 1 {
            Some(WhiteBalance::Temp3200K)
        } else if value == 2 {
            Some(WhiteBalance::Temp4150K)
        } else if value == 3 {
            Some(WhiteBalance::Temp5200K)
        } else if value == 4 {
            Some(WhiteBalance::Temp6000K)
        } else if value == 5 {
            Some(WhiteBalance::Temp7000K)
        } else {
            None
        }
    }

    /// The raw value of the variant.
    pub fn raw(self) -> (r: u8)
        ensures
            r == self.raw_spec(),
    {
        match self {
            WhiteBalance::Auto => 0,
            WhiteBalance::Temp3200K => 1,
            WhiteBalance::Temp4150K => 2,
            WhiteBalance::Temp5200K => 3,
            WhiteBalance::Temp6000K => 4,
            WhiteBalance::Temp7000K => 5,
        }
    }

    /// The variant with the given raw value, if any.
    pub fn from_raw(value: u8) -> (r: Option<WhiteBalance>)
        ensures
            r == Self::from_raw_spec(value),
    {
        match value {
            0 => Some(WhiteBalance::Auto),
            1 => Some(WhiteBalance::Temp3200K),
            2 => Some(WhiteBalance::Temp4150K),
            3 => Some(WhiteBalance::Temp5200K),
            4 => Some(WhiteBalance::Temp6000K),
            5 => Some(WhiteBalance::Temp7000K),
            _ => None,
        }
    }
}

impl From<WhiteBalance> for u8 {
    fn from(v: WhiteBalance) -> (r: u8) {
        v.raw()
    }
}

impl FromSpecImpl<WhiteBalance> for u8 {
    open spec fn obeys_from_spec() -> bool {
        true
    }

    open spec fn from_spec(v: WhiteBalance) -> u8 {
        v.raw_spec()
    }
}

/// Photo mode settings.
#[derive(Copy, Clone, Debug, PartialEq, Eq, Structural)]
pub enum PhotoMode {
    /// Normal mode.
    Normal,
    /// Portrait mode.
    Portrait,
    /// Landscape mode.
    Landscape,
    /// Night mode.
    NightView,
    /// Letter mode.
    Letter,
}

impl PhotoMode {
    /// The raw value of the variant.
    pub open spec fn raw_spec(self) -> u8 {
        match self {
            PhotoMode::Normal => 0,
            PhotoMode::Portrait => 1,
            PhotoMode::Landscape => 2,
            PhotoMode::NightView => 3,
            PhotoMode::Letter => 4,
        }
    }

    /// The variant with the given raw value, if any.
    pub open spec fn from_raw_spec(value: u8) -> Option<PhotoMode> {
        if value == 0 {
            Some(PhotoMode::Normal)
        } else if value == 1 {
            Some(PhotoMode::Portrait)
        } else if value == 2 {
            Some(PhotoMode::Landscape)
        } else if value == 3 {
            Some(PhotoMode::NightView)
        } else if value == 4 {
            Some(PhotoMode::Letter)
        } else {
            None
        }
    }

    /// The raw value of the variant.
    pub fn raw(self) -> (r: u8)
        ensures
            r == self.raw_spec(),
    {
        match self {
            PhotoMode::Normal => 0,
            PhotoMode::Portrait => 1,
            PhotoMode::Landscape => 2,
            PhotoMode::NightView => 3,
            PhotoMode::Letter => 4,
        }
    }

    /// The variant with the given raw value, if any.
    pub fn from_raw(value: u8) -> (r: Option<PhotoMode>)
        ensures
            r == Self::from_raw_spec(value),
    {
        match value {
            0 => Some(PhotoMode::Normal),
            1 => Some(PhotoMode::Portrait),
            2 => Some(PhotoMode::Landscape),
            3 => Some(PhotoMode::NightView),
            4 => Some(PhotoMode::Letter),
            _ => None,
        }
    }
}

impl From<PhotoMode> for u8 {
    fn from(v: PhotoMode) -> (r: u8) {
        v.raw()
    }
}

impl FromSpecImpl<PhotoMode> for u8 {
    open spec fn obeys_from_spec() -> bool {
        true
    }

    open spec fn from_spec(v: PhotoMode) -> u8 {
        v.raw_spec()
    }
}

/// Special camera effects.
#[derive(Copy, Clone, Debug, PartialEq, Eq, Structural)]
pub enum Effect {
    /// No effects.
    NoEffect,
    /// Mono effect.
    Mono,
    /// Sepia effect.
    Sepia,
    /// Negative effect.
    Negative,
    /// Negative film effect.
    Negafilm,
    /// Sepia effect.
    Sepia01,
}

impl Effect {
    /// The raw value of the variant.
    pub open spec fn raw_spec(self) -> u8 {
        match self {
            Effect::NoEffect => 0,
            Effect::Mono => 1,
            Effect::Sepia => 2,
            Effect::Negative => 3,
            Effect::Negafilm => 4,
            Effect::Sepia01 => 5,
        }
    }

    /// The variant with the given raw value, if any.
    pub open spec fn from_raw_spec(value: u8) -> Option<Effect> {
        if value == 0 {
            Some(Effect::NoEffect)
        } else if value == 1 {
            Some(Effect::Mono)
        } else if value == 2 {
            Some(Effect::Sepia)
        } else if value == 3 {
            Some(Effect::Negative)
        } else if value == 4 {
            Some(Effect::Negafilm)
        } else if value == 5 {
            Some(Effect::Sepia01)
        } else {
            None
        }
    }

    /// The raw value of the variant.
    pub fn raw(self) -> (r: u8)
        ensures
            r == self.raw_spec(),
    {
        match self {
            Effect::NoEffect => 0,
            Effect::Mono => 1,
            Effect::Sepia => 2,
            Effect::Negative => 3,
            Effect::Negafilm => 4,
            Effect::Sepia01 => 5,
        }
    }

    /// The variant with the given raw value, if any.
    pub fn from_raw(value: u8) -> (r: Option<Effect>)
        ensures
            r == Self::from_raw_spec(value),
    {
        match value {
            0 => Some(Effect::NoEffect),
            1 => Some(Effect::Mono),
            2 => Some(Effect::Sepia),
            3 => Some(Effect::Negative),
            4 => Some(Effect::Negafilm),
            5 => Some(Effect::Sepia01),
            _ => None,
        }
    }
}

impl From<Effect> for u8 {
    fn from(v: Effect) -> (r: u8) {
        v.raw()
    }
}

impl FromSpecImpl<Effect> for u8 {
    open spec fn obeys_from_spec() -> bool {
        true
    }

    open spec fn from_spec(v: Effect) -> u8 {
        v.raw_spec()
    }
}

/// Contrast settings.
#[derive(Copy, Clone, Debug, PartialEq, Eq, Structural)]
pub enum Contrast {
    /// Low contrast.
    Low,
    /// Brightness ratios based on the Y coordinate.
    Normal,
    /// High contrast.
    High,
}

impl Contrast {
    /// The raw value of the variant.
    pub open spec fn raw_spec(self) -> u8 {
        match self {
            Contrast::Low => 4,
            Contrast::Normal => 5,
            Contrast::High => 6,
        }
    }

    /// The variant with the given raw value, if any.
    pub open spec fn from_raw_spec(value: u8) -> Option<Contrast> {
        if value == 4 {
            Some(Contrast::Low)
        } else if value == 5 {
            Some(Contrast::Normal)
        } else if value == 6 {
            Some(Contrast::High)
        } else {
            None
        }
    }

    /// The raw value of the variant.
    pub fn raw(self) -> (r: u8)
        ensures
            r == self.raw_spec(),
    {
        match self {
            Contrast::Low => 4,
            Contrast::Normal => 5,
            Contrast::High => 6,
        }
    }

    /// The variant with the given raw value, if any.
    pub fn from_raw(value: u8) -> (r: Option<Contrast>)
        ensures
            r == Self::from_raw_spec(value),
    {
        match value {
            4 => Some(Contrast::Low),
            5 => Some(Contrast::Normal),
            6 => Some(Contrast::High),
            _ => None,
        }
    }
}

impl From<Contrast> for u8 {
    fn from(v: Contrast) -> (r: u8) {
        v.raw()
    }
}

impl FromSpecImpl<Contrast> for u8 {
    open spec fn obeys_from_spec() -> bool {
        true
    }

    open spec fn from_spec(v: Contrast) -> u8 {
        v.raw_spec()
    }
}

/// Lens correction settings.
#[derive(Copy, Clone, Debug, PartialEq, Eq, Structural)]
pub enum LensCorrection {
    /// No lens correction.
    Off,
    /// Normal lens correction.
    Normal,
    /// Bright lens correction.
    Bright,
}

impl LensCorrection {
    /// The raw value of the variant.
    pub open spec fn raw_spec(self) -> u8 {
        match self {
            LensCorrection::Off => 0,
            LensCorrection::Normal => 1,
            LensCorrection::Bright => 2,
        }
    }

    /// The variant with the given raw value, if any.
    pub open spec fn from_raw_spec(value: u8) -> Option<LensCorrection> {
        if value == 0 {
            Some(LensCorrection::Off)
        } else if value == 1 {
            Some(LensCorrection::Normal)
        } else if value == 2 {
            Some(LensCorrection::Bright)
        } else {
            None
        }
    }

    /// The raw value of the variant.
    pub fn raw(self) -> (r: u8)
        ensures
            r == self.raw_spec(),
    {
        match self {
            LensCorrection::Off => 0,
            LensCorrection::Normal => 1,
            LensCorrection::Bright => 2,
        }
    }

    /// The variant with the given raw value, if any.
    pub fn from_raw(value: u8) -> (r: Option<LensCorrection>)
        ensures
            r == Self::from_raw_spec(value),
    {
        match value {
            0 => Some(LensCorrection::Off),
            1 => Some(LensCorrection::Normal),
            2 => Some(LensCorrection::Bright),
            _ => None,
        }
    }
}

impl From<LensCorrection> for u8 {
    fn from(v: LensCorrection) -> (r: u8) {
        v.raw()
    }
}

impl FromSpecImpl<LensCorrection> for u8 {
    open spec fn obeys_from_spec() -> bool {
        true
    }

    open spec fn from_spec(v: LensCorrection) -> u8 {
        v.raw_spec()
    }
}

/// Image output format.
#[derive(Copy, Clone, Debug, PartialEq, Eq, Structural)]
pub enum OutputFormat {
    /// YUV422 output format. 16 bits per pixel.
    Yuv422,
    /// RGB565 output format. 16 bits per pixel.
    Rgb565,
}

impl OutputFormat {
    /// The raw value of the variant.
    pub open spec fn raw_spec(self) -> u8 {
        match self {
            OutputFormat::Yuv422 => 0,
            OutputFormat::Rgb565 => 1,
        }
    }

    /// The variant with the given raw value, if any.
    pub open spec fn from_raw_spec(value: u8) -> Option<OutputFormat> {
        if value == 0 {
            Some(OutputFormat::Yuv422)
        } else if value == 1 {
            Some(OutputFormat::Rgb565)
        } else {
            None
        }
    }

    /// The raw value of the variant.
    pub fn raw(self) -> (r: u8)
        ensures
            r == self.raw_spec(),
    {
        match self {
            OutputFormat::Yuv422 => 0,
            OutputFormat::Rgb565 => 1,
        }
    }

    /// The variant with the given raw value, if any.
    pub fn from_raw(value: u8) -> (r: Option<OutputFormat>)
        ensures
            r == Self::from_raw_spec(value),
    {
        match value {
            0 => Some(OutputFormat::Yuv422),
            1 => Some(OutputFormat::Rgb565),
            _ => None,
        }
    }
}

impl From<OutputFormat> for u8 {
    fn from(v: OutputFormat) -> (r: u8) {
        v.raw()
    }
}

impl FromSpecImpl<OutputFormat> for u8 {
    open spec fn obeys_from_spec() -> bool {
        true
    }

    open spec fn from_spec(v: OutputFormat) -> u8 {
        v.raw_spec()
    }
}

/// Playable shutter sounds.
#[derive(Copy, Clone, Debug, PartialEq, Eq, Structural)]
pub enum ShutterSound {
    /// Photo shutter sound.
    Normal,
    /// Shutter sound to begin a movie recording.
    Movie,
    /// Shutter sound to finish a movie recording.
    MovieEnd,
}

impl ShutterSound {
    /// The raw value of the variant.
    pub open spec fn raw_spec(self) -> u8 {
        match self {
            ShutterSound::Normal => 0,
            ShutterSound::Movie => 1,
            ShutterSound::MovieEnd => 2,
        }
    }

    /// The variant with the given raw value, if any.
    pub open spec fn from_raw_spec(value: u8) -> Option<ShutterSound> {
        if value == 0 {
            Some(ShutterSound::Normal)
        } else if value == 1 {
            Some(ShutterSound::Movie)
        } else if value == 2 {
            Some(ShutterSound::MovieEnd)
        } else {
            None
        }
    }

    /// The raw value of the variant.
    pub fn raw(self) -> (r: u8)
        ensures
            r == self.raw_spec(),
    {
        match self {
            ShutterSound::Normal => 0,
            ShutterSound::Movie => 1,
            ShutterSound::MovieEnd => 2,
        }
    }

    /// The variant with the given raw value, if any.
    pub fn from_raw(value: u8) -> (r: Option<ShutterSound>)
        ensures
            r == Self::from_raw_spec(value),
    {
        match value {
            0 => Some(ShutterSound::Normal),
            1 => Some(ShutterSound::Movie),
            2 => Some(ShutterSound::MovieEnd),
            _ => None,
        }
    }
}

impl From<ShutterSound> for u8 {
    fn from(v: ShutterSound) -> (r: u8) {
        v.raw()
    }
}

impl FromSpecImpl<ShutterSound> for u8 {
    open spec fn obeys_from_spec() -> bool {
        true
    }

    open spec fn from_spec(v: ShutterSound) -> u8 {
        v.raw_spec()
    }
}

impl ViewSize {
    /// The width and height of each view size.
    pub open spec fn dimensions_spec(self) -> (i16, i16) {
        match self {
            ViewSize::TopLCD => (400, 240),
            ViewSize::BottomLCD => (320, 240),
            ViewSize::Vga => (640, 480),
            ViewSize::QQVga => (160, 120),
            ViewSize::Cif => (352, 288),
            ViewSize::QCif => (176, 144),
            ViewSize::DS => (256, 192),
            ViewSize::DSX4 => (512, 384),
        }
    }

    /// The width and height of the view size.
    pub fn dimensions(self) -> (d: (i16, i16))
        ensures
            d == self.dimensions_spec(),
    {
        match self {
            ViewSize::TopLCD => (400, 240),
            ViewSize::BottomLCD => (320, 240),
            ViewSize::Vga => (640, 480),
            ViewSize::QQVga => (160, 120),
            ViewSize::Cif => (352, 288),
            ViewSize::QCif => (176, 144),
            ViewSize::DS => (256, 192),
            ViewSize::DSX4 => (512, 384),
        }
    }
}

impl From<ViewSize> for (i16, i16) {
    fn from(value: ViewSize) -> (d: (i16, i16)) {
        value.dimensions()
    }
}

impl FromSpecImpl<ViewSize> for (i16, i16) {
    open spec fn obeys_from_spec() -> bool {
        true
    }

    open spec fn from_spec(v: ViewSize) -> (i16, i16) {
        v.dimensions_spec()
    }
}

/// Trimming configuration of the camera's image.
#[derive(Clone, Copy, Debug, PartialEq, Eq, Structural)]
pub enum Trimming {
    /// Trimming configuration relatively to the center of the image.
    Centered { width: i16, height: i16 },
    /// Trimming disabled.
    Off,
}

impl Trimming {
    /// Create a new centered trimming configuration. The pixel area (`width *
    /// height`, taken as a whole number) must be a multiple of 128.
    pub fn new_centered(width: i16, height: i16) -> (t: Trimming)
        requires
            (width * height) % 128 == 0,
        ensures
            t == (Trimming::Centered { width, height }),
    {
        Trimming::Centered { width, height }
    }

    /// Create a new centered trimming configuration with the size of a standard view.
    pub fn new_centered_with_view(size: ViewSize) -> (t: Trimming)
        ensures
            t == (Trimming::Centered { width: size.dimensions_spec().0, height: size.dimensions_spec().1 }),
    {
        let size = size.dimensions();
        Trimming::Centered { width: size.0, height: size.1 }
    }
}

impl TryFrom<FramebufferFormat> for OutputFormat {
    type Error = ();

    fn try_from(value: FramebufferFormat) -> (r: Result<OutputFormat, ()>) {
        match value {
            FramebufferFormat::Rgb565 => Ok(OutputFormat::Rgb565),
            _ => Err(()),
        }
    }
}

impl TryFromSpecImpl<FramebufferFormat> for OutputFormat {
    open spec fn obeys_try_from_spec() -> bool {
        true
    }

    open spec fn try_from_spec(value: FramebufferFormat) -> Result<OutputFormat, ()> {
        match value {
            FramebufferFormat::Rgb565 => Ok(OutputFormat::Rgb565),
            _ => Err(()),
        }
    }
}

impl TryFrom<OutputFormat> for FramebufferFormat {
    type Error = ();

    fn try_from(value: OutputFormat) -> (r: Result<FramebufferFormat, ()>) {
        match value {
            OutputFormat::Rgb565 => Ok(FramebufferFormat::Rgb565),
            _ => Err(()),
        }
    }
}

impl TryFromSpecImpl<OutputFormat> for FramebufferFormat {
    open spec fn obeys_try_from_spec() -> bool {
        true
    }

    open spec fn try_from_spec(value: OutputFormat) -> Result<FramebufferFormat, ()> {
        match value {
            OutputFormat::Rgb565 => Ok(FramebufferFormat::Rgb565),
            _ => Err(()),
        }
    }
}

/// The view size and trimming a camera is set to.
#[derive(Clone, Copy, Debug, PartialEq, Eq, Structural)]
pub struct Configuration {
    /// The view size.
    pub view_size: ViewSize,
    /// The trimming.
    pub trimming: Trimming,
}

impl Configuration {
    /// The configuration of a camera that was just set up: top screen size, no trimming.
    pub fn new() -> (c: Configuration)
        ensures
            c == (Configuration { view_size: ViewSize::TopLCD, trimming: Trimming::Off }),
    {
        Configuration { view_size: ViewSize::TopLCD, trimming: Trimming::Off }
    }
}

impl Default for Configuration {
    fn default() -> (c: Configuration)
        ensures
            c == (Configuration { view_size: ViewSize::TopLCD, trimming: Trimming::Off }),
    {
        Configuration::new()
    }
}

/// The camera selector of each camera, as the system numbers them.
pub const SELECT_NONE: u32 = 0;
/// The outer right camera.
pub const SELECT_OUT1: u32 = 1;
/// The inner camera.
pub const SELECT_IN1: u32 = 2;
/// The outer left camera.
pub const SELECT_OUT2: u32 = 4;
/// Both outer cameras.
pub const SELECT_OUT1_OUT2: u32 = 5;
/// The capture port of a single camera.
pub const PORT_CAM1: u32 = 1;
/// The capture port of the second camera.
pub const PORT_CAM2: u32 = 2;
/// Both capture ports.
pub const PORT_BOTH: u32 = 3;

/// The dimensions of the final image for a configuration: the trimming size, or
/// the view size when trimming is off.
pub open spec fn final_view_size_spec(c: Configuration) -> (i16, i16) {
    match c.trimming {
        Trimming::Centered { width, height } => (width, height),
        Trimming::Off => c.view_size.dimensions_spec(),
    }
}

/// The number of bytes of the final image: two bytes per pixel, twice for both
/// outer cameras.
pub open spec fn final_byte_length_spec(c: Configuration, both: bool) -> nat {
    let (w, h) = final_view_size_spec(c);
    let single = (w as nat) * (h as nat) * 2;
    if both {
        single * 2
    } else {
        single
    }
}

/// What applying a trimming asks of the system: the port, whether trimming is
/// enabled, and (when it is) the trimmed size and the view size.
#[derive(Clone, Copy, Debug)]
pub struct TrimmingRequest {
    /// The camera port.
    pub port: u32,
    /// Whether trimming is enabled.
    pub enabled: bool,
    /// Trimmed width and height.
    pub trim_size: (i16, i16),
    /// View width and height.
    pub view_size: (i16, i16),
}

/// The request that applies a trimming to a camera on `port` with view size `view`.
pub open spec fn trimming_request_spec(port: u32, view: ViewSize, trimming: Trimming) -> TrimmingRequest {
    match trimming {
        Trimming::Centered { width, height } => TrimmingRequest {
            port,
            enabled: true,
            trim_size: (width, height),
            view_size: view.dimensions_spec(),
        },
        Trimming::Off => TrimmingRequest { port, enabled: false, trim_size: (0, 0), view_size: (0, 0) },
    }
}

/// Whether a trimming fits in a view: its size is at most the view's in both
/// directions (always true when trimming is off).
pub open spec fn trimming_fits(view: ViewSize, trimming: Trimming) -> bool {
    match trimming {
        Trimming::Centered { width, height } => width <= view.dimensions_spec().0 && height
            <= view.dimensions_spec().1,
        Trimming::Off => true,
    }
}

/// The functionality common to all cameras.
pub trait Camera {
    /// The configuration the camera is set to.
    spec fn config(&self) -> Configuration;

    /// Whether this camera captures with both outer cameras.
    spec fn is_both(&self) -> bool;

    /// The camera selector.
    spec fn camera_spec(&self) -> u32;

    /// The configuration the camera is set to.
    fn configuration(&self) -> (c: Configuration)
        ensures
            c == self.config(),
    ;

    /// Sets the configuration.
    fn set_configuration(&mut self, c: Configuration)
        ensures
            final(self).config() == c,
            final(self).is_both() == old(self).is_both(),
            final(self).camera_spec() == old(self).camera_spec(),
    ;

    /// The camera selector, as the system numbers it.
    fn camera_as_raw(&self) -> (c: u32)
        ensures
            c == self.camera_spec(),
    ;

    /// The capture port: both ports for both outer cameras, the first otherwise.
    fn port_as_raw(&self) -> (p: u32)
        ensures
            p == (if self.is_both() { PORT_BOTH } else { PORT_CAM1 }),
    ;

    /// Returns the view size of the camera.
    fn view_size(&self) -> (v: ViewSize)
        ensures
            v == self.config().view_size,
    {
        self.configuration().view_size
    }

    /// Returns the trimming configuration currently set.
    fn trimming(&self) -> (t: Trimming)
        ensures
            t == self.config().trimming,
    {
        self.configuration().trimming
    }

    /// Returns whether or not trimming is currently enabled for the camera.
    fn is_trimming(&self) -> (b: bool)
        ensures
            b == (self.config().trimming is Centered),
    {
        match self.trimming() {
            Trimming::Centered { .. } => true,
            Trimming::Off => false,
        }
    }

    /// Returns the dimensions of the final image based on the view size and
    /// trimming set to the camera.
    fn final_view_size(&self) -> (s: (i16, i16))
        ensures
            s == final_view_size_spec(self.config()),
    {
        match self.trimming() {
            Trimming::Centered { width, height } => (width, height),
            Trimming::Off => self.view_size().dimensions(),
        }
    }

    /// Returns the maximum amount of bytes the final image will occupy in memory,
    /// doubled when both outer cameras take the picture.
    fn final_byte_length(&self) -> (n: usize)
        requires
            final_view_size_spec(self.config()).0 >= 0,
            final_view_size_spec(self.config()).1 >= 0,
        ensures
            n == final_byte_length_spec(self.config(), self.is_both()),
    {
        let size = self.final_view_size();
        let w = size.0 as usize;
        let h = size.1 as usize;
        assert(w * h <= 32767 * 32767) by (nonlinear_arith)
            requires
                w <= 32767,
                h <= 32767,
        ;
        let mut res: usize = w * h * 2;
        if self.port_as_raw() == PORT_BOTH {
            res = res * 2;
        }
        res
    }

    /// Sets the trimming, which must fit in the view (a bigger one is a
    /// programming error): asks the system to apply it with `apply`, and records it
    /// when the system accepted it.
    fn set_trimming<F: FnOnce(TrimmingRequest) -> Result<(), Error>>(&mut self, trimming: Trimming, apply: F) -> (r: Result<(), Error>)
        requires
            trimming_fits(old(self).config().view_size, trimming),
            call_requires(apply, (trimming_request_spec(
                if old(self).is_both() { PORT_BOTH } else { PORT_CAM1 },
                old(self).config().view_size,
                trimming,
            ),)),
        ensures
            call_ensures(apply, (trimming_request_spec(
                if old(self).is_both() { PORT_BOTH } else { PORT_CAM1 },
                old(self).config().view_size,
                trimming,
            ),), r),
            r is Ok ==> final(self).config() == (Configuration { trimming, ..old(self).config() }),
            r is Err ==> final(self).config() == old(self).config(),
            final(self).is_both() == old(self).is_both(),
            final(self).camera_spec() == old(self).camera_spec(),
    {
        let port = self.port_as_raw();
        let view = self.view_size();
        let request = match trimming {
            Trimming::Centered { width, height } => TrimmingRequest {
                port,
                enabled: true,
                trim_size: (width, height),
                view_size: view.dimensions(),
            },
            Trimming::Off => TrimmingRequest { port, enabled: false, trim_size: (0, 0), view_size: (0, 0) },
        };
        let result = apply(request);
        if result.is_ok() {
            let mut c = self.configuration();
            c.trimming = trimming;
            self.set_configuration(c);
        }
        result
    }

    /// Sets the view size: asks the system with `apply_size` (given the camera
    /// selector and the size), records the size when the system accepted it, and
    /// then turns trimming off (see [`Camera::set_trimming`]).
    fn set_view_size<F, G>(&mut self, size: ViewSize, apply_size: F, apply_trimming: G) -> (r: Result<(), Error>) where
        F: FnOnce(u32, ViewSize) -> Result<(), Error>,
        G: FnOnce(TrimmingRequest) -> Result<(), Error>,
        requires
            call_requires(apply_size, (old(self).camera_spec(), size)),
            call_requires(apply_trimming, (trimming_request_spec(
                if old(self).is_both() { PORT_BOTH } else { PORT_CAM1 },
                size,
                Trimming::Off,
            ),)),
        ensures
            r is Ok ==> final(self).config() == (Configuration { view_size: size, trimming: Trimming::Off })
                && call_ensures(apply_size, (old(self).camera_spec(), size), Ok::<(), Error>(()))
                && call_ensures(apply_trimming, (trimming_request_spec(
                    if old(self).is_both() { PORT_BOTH } else { PORT_CAM1 },
                    size,
                    Trimming::Off,
                ),), Ok::<(), Error>(())),
            r matches Err(e) ==> (call_ensures(apply_size, (old(self).camera_spec(), size), Err::<(), Error>(e))
                && final(self).config() == old(self).config()) || (call_ensures(apply_size, (old(self).camera_spec(), size), Ok::<(), Error>(()))
                && call_ensures(apply_trimming, (trimming_request_spec(
                    if old(self).is_both() { PORT_BOTH } else { PORT_CAM1 },
                    size,
                    Trimming::Off,
                ),), Err::<(), Error>(e))
                && final(self).config() == (Configuration { view_size: size, ..old(self).config() })),
            final(self).is_both() == old(self).is_both(),
            final(self).camera_spec() == old(self).camera_spec(),
    {
        let camera = self.camera_as_raw();
        let applied = apply_size(camera, size);
        match applied {
            Ok(u) => {
                assert(u == ());
            },
            Err(e) => {
                return Err(e);
            },
        }
        let mut c = self.configuration();
        c.view_size = size;
        self.set_configuration(c);
        let res = self.set_trimming(Trimming::Off, apply_trimming);
        if let Ok(u) = res {
            assert(u == ());
        }
        res
    }

    /// Checks that a buffer of `buffer_len` bytes can hold a picture, returning the
    /// picture's size; a shorter buffer is refused with [`Error::BufferTooShort`].
    fn check_picture_buffer(&self, buffer_len: usize) -> (r: Result<usize, Error>)
        requires
            final_view_size_spec(self.config()).0 >= 0,
            final_view_size_spec(self.config()).1 >= 0,
        ensures
            buffer_len >= final_byte_length_spec(self.config(), self.is_both()) ==> r == Ok::<usize, Error>(
                final_byte_length_spec(self.config(), self.is_both()) as usize,
            ),
            buffer_len < final_byte_length_spec(self.config(), self.is_both()) ==> r == Err::<usize, Error>(
                Error::BufferTooShort {
                    provided: buffer_len,
                    wanted: final_byte_length_spec(self.config(), self.is_both()) as usize,
                },
            ),
    {
        let max_size = self.final_byte_length();
        if buffer_len < max_size {
            return Err(Error::BufferTooShort { provided: buffer_len, wanted: max_size });
        }
        Ok(max_size)
    }

    /// The transfers that receive a picture into a buffer of `buffer_len` bytes:
    /// a shorter buffer than the picture is refused with [`Error::BufferTooShort`];
    /// both outer cameras fill the two halves of the picture's bytes, the first
    /// port the first half; another camera fills all of them through its port.
    fn picture_transfers(&self, buffer_len: usize) -> (r: Result<Vec<Transfer>, Error>)
        requires
            final_view_size_spec(self.config()).0 >= 0,
            final_view_size_spec(self.config()).1 >= 0,
        ensures
            buffer_len < final_byte_length_spec(self.config(), self.is_both()) ==> r == Err::<Vec<Transfer>, Error>(
                Error::BufferTooShort {
                    provided: buffer_len,
                    wanted: final_byte_length_spec(self.config(), self.is_both()) as usize,
                },
            ),
            buffer_len >= final_byte_length_spec(self.config(), self.is_both()) ==> (r matches Ok(v) && v@
                == picture_transfers_spec(final_byte_length_spec(self.config(), self.is_both()) as usize, self.is_both())),
    {
        let max_size = self.check_picture_buffer(buffer_len)?;
        let mut v: Vec<Transfer> = Vec::new();
        if self.port_as_raw() == PORT_BOTH {
            let half = max_size / 2;
            v.push(Transfer { port: PORT_CAM1, offset: 0, len: half });
            v.push(Transfer { port: PORT_CAM2, offset: half, len: half });
        } else {
            v.push(Transfer { port: PORT_CAM1, offset: 0, len: max_size });
        }
        Ok(v)
    }

    /// How a picture is taken into a buffer of `buffer_len` bytes: its transfers
    /// (see [`Camera::picture_transfers`]); both outer cameras first have their
    /// frame timing synchronized and start capturing before the transfers are set
    /// up, while another camera starts capturing after its transfer is set up.
    fn picture_plan(&self, buffer_len: usize) -> (r: Result<PicturePlan, Error>)
        requires
            final_view_size_spec(self.config()).0 >= 0,
            final_view_size_spec(self.config()).1 >= 0,
        ensures
            buffer_len < final_byte_length_spec(self.config(), self.is_both()) ==> r == Err::<PicturePlan, Error>(
                Error::BufferTooShort {
                    provided: buffer_len,
                    wanted: final_byte_length_spec(self.config(), self.is_both()) as usize,
                },
            ),
            buffer_len >= final_byte_length_spec(self.config(), self.is_both()) ==> (r matches Ok(p) && p.transfers@
                == picture_transfers_spec(final_byte_length_spec(self.config(), self.is_both()) as usize, self.is_both())
                && p.synchronize_vsync == self.is_both() && p.start_before_receiving == self.is_both()),
    {
        let transfers = self.picture_transfers(buffer_len)?;
        let both = self.port_as_raw() == PORT_BOTH;
        Ok(PicturePlan { transfers, synchronize_vsync: both, start_before_receiving: both })
    }
}

/// How a picture is taken: the transfers into the buffer, and the order of the
/// capture's steps.
pub struct PicturePlan {
    /// The transfers, in the order they are set up and waited for.
    pub transfers: Vec<Transfer>,
    /// Whether the two outer cameras' frame timing is synchronized first.
    pub synchronize_vsync: bool,
    /// Whether capturing starts before the transfers are set up (otherwise after).
    pub start_before_receiving: bool,
}

/// The first failing code among the results of the waits, if any.
pub open spec fn first_failure(codes: Seq<i32>) -> Option<i32>
    decreases codes.len(),
{
    if codes.len() == 0 {
        None
    } else if is_failure_code(codes[0]) {
        Some(codes[0])
    } else {
        first_failure(codes.drop_first())
    }
}

/// What taking a picture reports once every transfer was waited for (and the
/// capture cleaned up): the error of the first wait that failed, in the order of
/// the transfers, or success.
pub fn picture_wait_outcome(codes: &[i32]) -> (r: Result<(), Error>)
    ensures
        r == (match first_failure(codes@) {
            Some(c) => Err::<(), Error>(Error::Os(c)),
            None => Ok(()),
        }),
{
    let mut i: usize = 0;
    assert(codes@.skip(0) =~= codes@);
    while i < codes.len()
        invariant
            i <= codes@.len(),
            first_failure(codes@) == first_failure(codes@.skip(i as int)),
        decreases codes@.len() - i,
    {
        assert(codes@.skip(i as int).drop_first() =~= codes@.skip(i as int + 1));
        if ResultCode(codes[i]).is_failure() {
            return Err(Error::Os(codes[i]));
        }
        i = i + 1;
    }
    assert(codes@.skip(i as int).len() == 0);
    Ok(())
}

/// One transfer of picture bytes from a capture port into the buffer.
#[derive(Clone, Copy, Debug, PartialEq, Eq, Structural)]
pub struct Transfer {
    /// The port the bytes come from.
    pub port: u32,
    /// Where in the buffer they go.
    pub offset: usize,
    /// How many bytes.
    pub len: usize,
}

/// The transfers of a picture of `size` bytes: two halves for both outer
/// cameras, one whole transfer otherwise.
pub open spec fn picture_transfers_spec(size: usize, both: bool) -> Seq<Transfer> {
    if both {
        seq![
            Transfer { port: PORT_CAM1, offset: 0, len: size / 2 },
            Transfer { port: PORT_CAM2, offset: size / 2, len: size / 2 },
        ]
    } else {
        seq![Transfer { port: PORT_CAM1, offset: 0, len: size }]
    }
}

/// The transfers of a picture stay within the picture's bytes and do not
/// overlap.
pub proof fn picture_transfers_fit(size: usize, both: bool)
    ensures
        forall|i: int| 0 <= i < picture_transfers_spec(size, both).len() ==>
            #[trigger] picture_transfers_spec(size, both)[i].offset + picture_transfers_spec(size, both)[i].len <= size,
        forall|i: int, j: int| 0 <= i < j < picture_transfers_spec(size, both).len() ==>
            #[trigger] picture_transfers_spec(size, both)[i].offset + picture_transfers_spec(size, both)[i].len
                <= #[trigger] picture_transfers_spec(size, both)[j].offset,
{
}

/// Inward-facing camera.
pub struct InwardCam {
    configuration: Configuration,
}

/// Outward-facing right camera.
pub struct OutwardRightCam {
    configuration: Configuration,
}

/// Outward-facing left camera.
pub struct OutwardLeftCam {
    configuration: Configuration,
}

/// Both outer cameras combined, for stereoscopic pictures.
pub struct BothOutwardCam {
    configuration: Configuration,
}

impl Camera for InwardCam {
    closed spec fn config(&self) -> Configuration {
        self.configuration
    }

    open spec fn is_both(&self) -> bool {
        false
    }

    open spec fn camera_spec(&self) -> u32 {
        SELECT_IN1
    }

    fn configuration(&self) -> (c: Configuration) {
        self.configuration
    }

    fn set_configuration(&mut self, c: Configuration) {
        self.configuration = c;
    }

    fn camera_as_raw(&self) -> (c: u32) {
        SELECT_IN1
    }

    fn port_as_raw(&self) -> (p: u32) {
        PORT_CAM1
    }
}

impl Camera for OutwardRightCam {
    closed spec fn config(&self) -> Configuration {
        self.configuration
    }

    open spec fn is_both(&self) -> bool {
        false
    }

    open spec fn camera_spec(&self) -> u32 {
        SELECT_OUT1
    }

    fn configuration(&self) -> (c: Configuration) {
        self.configuration
    }

    fn set_configuration(&mut self, c: Configuration) {
        self.configuration = c;
    }

    fn camera_as_raw(&self) -> (c: u32) {
        SELECT_OUT1
    }

    fn port_as_raw(&self) -> (p: u32) {
        PORT_CAM1
    }
}

impl Camera for OutwardLeftCam {
    closed spec fn config(&self) -> Configuration {
        self.configuration
    }

    open spec fn is_both(&self) -> bool {
        false
    }

    open spec fn camera_spec(&self) -> u32 {
        SELECT_OUT2
    }

    fn configuration(&self) -> (c: Configuration) {
        self.configuration
    }

    fn set_configuration(&mut self, c: Configuration) {
        self.configuration = c;
    }

    fn camera_as_raw(&self) -> (c: u32) {
        SELECT_OUT2
    }

    fn port_as_raw(&self) -> (p: u32) {
        PORT_CAM1
    }
}

impl Camera for BothOutwardCam {
    closed spec fn config(&self) -> Configuration {
        self.configuration
    }

    open spec fn is_both(&self) -> bool {
        true
    }

    open spec fn camera_spec(&self) -> u32 {
        SELECT_OUT1_OUT2
    }

    fn configuration(&self) -> (c: Configuration) {
        self.configuration
    }

    fn set_configuration(&mut self, c: Configuration) {
        self.configuration = c;
    }

    fn camera_as_raw(&self) -> (c: u32) {
        SELECT_OUT1_OUT2
    }

    fn port_as_raw(&self) -> (p: u32) {
        PORT_BOTH
    }
}

/// The configuration every camera starts with: the top screen's size, without
/// trimming.
pub open spec fn top_lcd_untrimmed() -> Configuration {
    Configuration { view_size: ViewSize::TopLCD, trimming: Trimming::Off }
}

/// Handle to the camera service and its cameras.
pub struct Cam {
    /// The live handle of the service that this value holds.
    pub _service_handler: ServiceReference,
    /// Inside-facing camera.
    pub inner_cam: InwardCam,
    /// Outside-facing right camera.
    pub outer_right_cam: OutwardRightCam,
    /// Outside-facing left camera.
    pub outer_left_cam: OutwardLeftCam,
    /// Both outside-facing cameras (mainly used for 3D photos).
    pub both_outer_cams: BothOutwardCam,
}

impl Cam {
    /// Initializes the service with `start` (closing it with `close` after a lost
    /// handle); a single handle may be live at a time. Every camera starts at the
    /// top screen's size without trimming.
    pub fn new<S, E>(counter: &mut ServiceCounter, start: S, close: E) -> (r: Result<Cam, Error>) where
        S: FnOnce() -> Result<(), Error>,
        E: FnOnce(),
        requires
            must_start(effective_count(old(counter)@)) ==> call_requires(start, ()),
            old(counter)@.poisoned ==> call_requires(close, ()),
            old(counter)@.count < usize::MAX,
        ensures
            refused_as_active(effective_count(old(counter)@), false) ==> r matches Err(Error::ServiceAlreadyActive),
            final(counter)@.count == count_after_acquire(effective_count(old(counter)@), false, r is Ok),
            !final(counter)@.poisoned,
            must_start(effective_count(old(counter)@)) ==> (r is Ok ==> call_ensures(start, (), Ok::<(), Error>(()))),
            must_start(effective_count(old(counter)@)) ==> (r matches Err(e) ==> call_ensures(start, (), Err::<(), Error>(e))),
            r matches Ok(c) ==> c.inner_cam.config() == top_lcd_untrimmed() && c.outer_right_cam.config() == top_lcd_untrimmed()
                && c.outer_left_cam.config() == top_lcd_untrimmed() && c.both_outer_cams.config() == top_lcd_untrimmed(),
    {
        let handler = ServiceReference::new(counter, false, start, close)?;
        let configuration = Configuration::new();
        Ok(Cam {
            _service_handler: handler,
            inner_cam: InwardCam { configuration },
            outer_right_cam: OutwardRightCam { configuration },
            outer_left_cam: OutwardLeftCam { configuration },
            both_outer_cams: BothOutwardCam { configuration },
        })
    }
}

/// After a view size is set (trimming then off), the final image has that view's
/// size; a refused size request leaves the view size as it was. `before` and
/// `after` are a camera's configurations around a call of
/// [`Camera::set_view_size`].
pub proof fn set_view_size_sets_final_size(before: Configuration, after: Configuration, size: ViewSize, accepted: bool)
    requires
        accepted ==> after == (Configuration { view_size: size, trimming: Trimming::Off }),
        !accepted ==> after == before,
    ensures
        accepted ==> final_view_size_spec(after) == size.dimensions_spec() && after.view_size == size,
        !accepted ==> after.view_size == before.view_size,
{
}

/// The standard view sizes, in pixels: the top screen 400x240, the bottom screen
/// 320x240, VGA 640x480, QQVGA 160x120, CIF 352x288, QCIF 176x144, the DS screen
/// 256x192 and four times its area 512x384. An untrimmed picture of a view is
/// that size, two bytes per pixel, twice for both outer cameras.
pub proof fn standard_view_sizes(v: ViewSize, both: bool)
    ensures
        v == ViewSize::TopLCD ==> v.dimensions_spec() == (400i16, 240i16),
        v == ViewSize::BottomLCD ==> v.dimensions_spec() == (320i16, 240i16),
        v == ViewSize::Vga ==> v.dimensions_spec() == (640i16, 480i16),
        v == ViewSize::QQVga ==> v.dimensions_spec() == (160i16, 120i16),
        v == ViewSize::Cif ==> v.dimensions_spec() == (352i16, 288i16),
        v == ViewSize::QCif ==> v.dimensions_spec() == (176i16, 144i16),
        v == ViewSize::DS ==> v.dimensions_spec() == (256i16, 192i16),
        v == ViewSize::DSX4 ==> v.dimensions_spec() == (512i16, 384i16),
        final_byte_length_spec(Configuration { view_size: v, trimming: Trimming::Off }, both) == (match v {
            ViewSize::TopLCD => 192000nat,
            ViewSize::BottomLCD => 153600nat,
            ViewSize::Vga => 614400nat,
            ViewSize::QQVga => 38400nat,
            ViewSize::Cif => 202752nat,
            ViewSize::QCif => 50688nat,
            ViewSize::DS => 98304nat,
            ViewSize::DSX4 => 393216nat,
        }) * (if both { 2nat } else { 1nat }),
{
    let c = Configuration { view_size: v, trimming: Trimming::Off };
    let (w, h) = final_view_size_spec(c);
    assert((w as nat) * (h as nat) * 2 == (match v {
        ViewSize::TopLCD => 192000nat,
        ViewSize::BottomLCD => 153600nat,
        ViewSize::Vga => 614400nat,
        ViewSize::QQVga => 38400nat,
        ViewSize::Cif => 202752nat,
        ViewSize::QCif => 50688nat,
        ViewSize::DS => 98304nat,
        ViewSize::DSX4 => 393216nat,
    })) by (nonlinear_arith)
        requires
            (v == ViewSize::TopLCD ==> w == 400 && h == 240),
            (v == ViewSize::BottomLCD ==> w == 320 && h == 240),
            (v == ViewSize::Vga ==> w == 640 && h == 480),
            (v == ViewSize::QQVga ==> w == 160 && h == 120),
            (v == ViewSize::Cif ==> w == 352 && h == 288),
            (v == ViewSize::QCif ==> w == 176 && h == 144),
            (v == ViewSize::DS ==> w == 256 && h == 192),
            (v == ViewSize::DSX4 ==> w == 512 && h == 384),
    ;
}

/// A centered trimming with the size of a view always fits in that view.
pub proof fn view_trimming_fits(size: ViewSize)
    ensures
        trimming_fits(size, Trimming::Centered { width: size.dimensions_spec().0, height: size.dimensions_spec().1 }),
{
}

} // verus!

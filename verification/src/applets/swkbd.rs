//! Software keyboard applet: the keyboard's settings, the layout of the memory it
//! shares with the applet, the text written into its fixed-size fields, and what
//! the applet's answer means.
use vstd::prelude::*;
use vstd::std_specs::convert::FromSpecImpl;
use crate::utf16::{decode_utf16_lossy, decode_utf16_lossy_spec, encode_utf16, encode_utf16_spec, is_valid_utf16};
use crate::text::{chars_to_string, str_to_chars};
use crate::services::ir_user::{round_up, round_up_spec};
use widestring::Utf16String;
use widestring::error::Utf16Error;

verus! {

/// A string of valid UTF-16.
#[verifier::external_type_specification]
#[verifier::external_body]
pub struct ExUtf16String(Utf16String);

/// The error of a failed UTF-16 validation.
#[verifier::external_type_specification]
#[verifier::external_body]
pub struct ExUtf16Error(Utf16Error);

/// The code units that a UTF-16 string holds.
pub uninterp spec fn utf16_string_units(s: Utf16String) -> Seq<u16>;

/// `widestring::Utf16String::from_vec`: takes the units as a string when they are
/// valid UTF-16, and fails otherwise (as the crate documents).
#[verifier::external_body]
fn utf16_string_from_vec(units: Vec<u16>) -> (r: Result<Utf16String, Utf16Error>)
    ensures
        r is Ok <==> is_valid_utf16(units@),
        r matches Ok(s) ==> utf16_string_units(s) == units@,
{
    Utf16String::from_vec(units)
}

/// `widestring::Utf16Str::to_string` (reached through the string's dereference):
/// the characters that the string's units encode.
#[verifier::external_body]
fn utf16_string_to_string(s: &Utf16String) -> (r: String)
    ensures
        r@ == decode_utf16_lossy_spec(utf16_string_units(*s)),
{
    widestring::Utf16Str::to_string(s)
}

/// Units in the hint text field, its nul included.
pub const HINT_TEXT_LEN: usize = 65;

/// Units in each button's text field, its nul included.
pub const BUTTON_TEXT_LEN: usize = 17;

/// Units in the filter callback's message field, its nul included.
pub const CALLBACK_MSG_LEN: usize = 257;

/// Filter flag: the input goes through the filter callback.
pub const FILTER_CALLBACK: u32 = 32;

/// Size of a dictionary word in the shared memory.
pub const DICT_WORD_SIZE: usize = 166;

/// Size of the keyboard's status data.
pub const STATUS_DATA_SIZE: usize = 68;

/// Size of the keyboard's learning data.
pub const LEARNING_DATA_SIZE: usize = 42092;

/// Size of a pointer on the console, to which shared memory sections are aligned.
pub const WORD_SIZE: usize = 4;

/// Alignment of the whole shared memory block.
pub const PAGE_SIZE: usize = 0x1000;

/// Keyboard result: nothing happened yet.
pub const SWKBD_NONE: i32 = -1;
/// Keyboard result: invalid parameters.
pub const SWKBD_INVALID_INPUT: i32 = -2;
/// Keyboard result: out of memory.
pub const SWKBD_OUTOFMEM: i32 = -3;
/// Keyboard result: the only button was pressed.
pub const SWKBD_D0_CLICK: i32 = 0;
/// Keyboard result: the left of two buttons was pressed.
pub const SWKBD_D1_CLICK0: i32 = 1;
/// Keyboard result: the right of two buttons was pressed.
pub const SWKBD_D1_CLICK1: i32 = 2;
/// Keyboard result: the left of three buttons was pressed.
pub const SWKBD_D2_CLICK0: i32 = 3;
/// Keyboard result: the middle of three buttons was pressed.
pub const SWKBD_D2_CLICK1: i32 = 4;
/// Keyboard result: the right of three buttons was pressed.
pub const SWKBD_D2_CLICK2: i32 = 5;
/// Keyboard result: HOME was pressed.
pub const SWKBD_HOMEPRESSED: i32 = 10;
/// Keyboard result: RESET was pressed.
pub const SWKBD_RESETPRESSED: i32 = 11;
/// Keyboard result: POWER was pressed.
pub const SWKBD_POWERPRESSED: i32 = 12;
/// Keyboard result: the parental PIN was right.
pub const SWKBD_PARENTAL_OK: i32 = 20;
/// Keyboard result: the parental PIN was wrong.
pub const SWKBD_PARENTAL_FAIL: i32 = 21;
/// Keyboard result: the filters refused the input.
pub const SWKBD_BANNED_INPUT: i32 = 30;

/// Configuration options for the software keyboard.
#[derive(Copy, Clone, Debug, PartialEq, Eq, Structural)]
pub enum Kind {
    /// Normal keyboard composed of several pages (QWERTY, accents, symbols, mobile).
    Normal,
    /// Only QWERTY keyboard.
    Qwerty,
    /// Only number pad.
    Numpad,
    /// On JPN systems: a keyboard without japanese input capabilities. On any other region: same as `Normal`.
    Western,
}

impl Kind {
    /// The raw value of the variant.
    pub open spec fn raw_spec(self) -> u32 {
        match self {
            Kind::Normal => 0,
            Kind::Qwerty => 1,
            Kind::Numpad => 2,
            Kind::Western => 3,
        }
    }

    /// The variant with the given raw value, if any.
    pub open spec fn from_raw_spec(value: u32) -> Option<Kind> {
        if value == 0 {
            Some(Kind::Normal)
        } else if value == 1 {
            Some(Kind::Qwerty)
        } else if value == 2 {
            Some(Kind::Numpad)
        } else if value == 3 {
            Some(Kind::Western)
        } else {
            None
        }
    }

    /// The raw value of the variant.
    pub fn raw(self) -> (r: u32)
        ensures
            r == self.raw_spec(),
    {
        match self {
            Kind::Normal => 0,
            Kind::Qwerty => 1,
            Kind::Numpad => 2,
            Kind::Western => 3,
        }
    }

    /// The variant with the given raw value, if any.
    pub fn from_raw(value: u32) -> (r: Option<Kind>)
        ensures
            r == Self::from_raw_spec(value),
    {
        match value {
            0 => Some(Kind::Normal),
            1 => Some(Kind::Qwerty),
            2 => Some(Kind::Numpad),
            3 => Some(Kind::Western),
            _ => None,
        }
    }
}

impl From<Kind> for u32 {
    fn from(v: Kind) -> (r: u32) {
        v.raw()
    }
}

impl FromSpecImpl<Kind> for u32 {
    open spec fn obeys_from_spec() -> bool {
        true
    }

    open spec fn from_spec(v: Kind) -> u32 {
        v.raw_spec()
    }
}

/// The result of a filter callback.
#[derive(Copy, Clone, Debug, PartialEq, Eq, Structural)]
pub enum CallbackResult {
    /// The callback yields a positive result.
    Accept,
    /// The callback finds the input invalid, but lets the user try again.
    Retry,
    /// The callback finds the input invalid and closes the software keyboard view.
    Close,
}

impl CallbackResult {
    /// The raw value of the variant.
    pub open spec fn raw_spec(self) -> u32 {
        match self {
            CallbackResult::Accept => 0,
            CallbackResult::Retry => 1,
            CallbackResult::Close => 2,
        }
    }

    /// The variant with the given raw value, if any.
    pub open spec fn from_raw_spec(value: u32) -> Option<CallbackResult> {
        if value == 0 {
            Some(CallbackResult::Accept)
        } else if value == 1 {
            Some(CallbackResult::Retry)
        } else if value == 2 {
            Some(CallbackResult::Close)
        } else {
            None
        }
    }

    /// The raw value of the variant.
    pub fn raw(self) -> (r: u32)
        ensures
            r == self.raw_spec(),
    {
        match self {
            CallbackResult::Accept => 0,
            CallbackResult::Retry => 1,
            CallbackResult::Close => 2,
        }
    }

    /// The variant with the given raw value, if any.
    pub fn from_raw(value: u32) -> (r: Option<CallbackResult>)
        ensures
            r == Self::from_raw_spec(value),
    {
        match value {
            0 => Some(CallbackResult::Accept),
            1 => Some(CallbackResult::Retry),
            2 => Some(CallbackResult::Close),
            _ => None,
        }
    }
}

impl From<CallbackResult> for u32 {
    fn from(v: CallbackResult) -> (r: u32) {
        v.raw()
    }
}

impl FromSpecImpl<CallbackResult> for u32 {
    open spec fn obeys_from_spec() -> bool {
        true
    }

    open spec fn from_spec(v: CallbackResult) -> u32 {
        v.raw_spec()
    }
}

/// Represents which button the user pressed to close the software keyboard.
#[derive(Copy, Clone, Debug, PartialEq, Eq, Structural)]
pub enum Button {
    /// Left button. Usually corresponds to "Cancel".
    Left,
    /// Middle button. Usually corresponds to "I Forgot".
    Middle,
    /// Right button. Usually corresponds to "OK".
    Right,
}

impl Button {
    /// The raw value of the variant.
    pub open spec fn raw_spec(self) -> u32 {
        match self {
            Button::Left => 0,
            Button::Middle => 1,
            Button::Right => 2,
        }
    }

    /// The variant with the given raw value, if any.
    pub open spec fn from_raw_spec(value: u32) -> Option<Button> {
        if value == 0 {
            Some(Button::Left)
        } else if value == 1 {
            Some(Button::Middle)
        } else if value == 2 {
            Some(Button::Right)
        } else {
            None
        }
    }

    /// The raw value of the variant.
    pub fn raw(self) -> (r: u32)
        ensures
            r == self.raw_spec(),
    {
        match self {
            Button::Left => 0,
            Button::Middle => 1,
            Button::Right => 2,
        }
    }

    /// The variant with the given raw value, if any.
    pub fn from_raw(value: u32) -> (r: Option<Button>)
        ensures
            r == Self::from_raw_spec(value),
    {
        match value {
            0 => Some(Button::Left),
            1 => Some(Button::Middle),
            2 => Some(Button::Right),
            _ => None,
        }
    }
}

impl From<Button> for u32 {
    fn from(v: Button) -> (r: u32) {
        v.raw()
    }
}

impl FromSpecImpl<Button> for u32 {
    open spec fn obeys_from_spec() -> bool {
        true
    }

    open spec fn from_spec(v: Button) -> u32 {
        v.raw_spec()
    }
}

/// Password mode of the input.
#[derive(Copy, Clone, Debug, PartialEq, Eq, Structural)]
pub enum PasswordMode {
    /// Regular text.
    NoPassword,
    /// Every character is masked by a dot.
    Hide,
    /// Every character is masked by a dot after some time passes.
    HideDelay,
}

impl PasswordMode {
    /// The raw value of the variant.
    pub open spec fn raw_spec(self) -> u32 {
        match self {
            PasswordMode::NoPassword => 0,
            PasswordMode::Hide => 1,
            PasswordMode::HideDelay => 2,
        }
    }

    /// The variant with the given raw value, if any.
    pub open spec fn from_raw_spec(value: u32) -> Option<PasswordMode> {
        if value == 0 {
            Some(PasswordMode::NoPassword)
        } else if value == 1 {
            Some(PasswordMode::Hide)
        } else if value == 2 {
            Some(PasswordMode::HideDelay)
        } else {
            None
        }
    }

    /// The raw value of the variant.
    pub fn raw(self) -> (r: u32)
        ensures
            r == self.raw_spec(),
    {
        match self {
            PasswordMode::NoPassword => 0,
            PasswordMode::Hide => 1,
            PasswordMode::HideDelay => 2,
        }
    }

    /// The variant with the given raw value, if any.
    pub fn from_raw(value: u32) -> (r: Option<PasswordMode>)
        ensures
            r == Self::from_raw_spec(value),
    {
        match value {
            0 => Some(PasswordMode::NoPassword),
            1 => Some(PasswordMode::Hide),
            2 => Some(PasswordMode::HideDelay),
            _ => None,
        }
    }
}

impl From<PasswordMode> for u32 {
    fn from(v: PasswordMode) -> (r: u32) {
        v.raw()
    }
}

impl FromSpecImpl<PasswordMode> for u32 {
    open spec fn obeys_from_spec() -> bool {
        true
    }

    open spec fn from_spec(v: PasswordMode) -> u32 {
        v.raw_spec()
    }
}

/// Configuration to setup the on-screen buttons to exit the software keyboard.
#[derive(Copy, Clone, Debug, PartialEq, Eq, Structural)]
pub enum ButtonConfig {
    /// 1 Button: considered the right button.
    Right,
    /// 2 Buttons: left and right buttons.
    LeftRight,
    /// 3 Buttons: left, middle and right buttons.
    LeftMiddleRight,
}

impl ButtonConfig {
    /// The raw value of the variant.
    pub open spec fn raw_spec(self) -> i32 {
        match self {
            ButtonConfig::Right => 1,
            ButtonConfig::LeftRight => 2,
            ButtonConfig::LeftMiddleRight => 3,
        }
    }

    /// The variant with the given raw value, if any.
    pub open spec fn from_raw_spec(value: i32) -> Option<ButtonConfig> {
        if value == 1 {
            Some(ButtonConfig::Right)
        } else if value == 2 {
            Some(ButtonConfig::LeftRight)
        } else if value == 3 {
            Some(ButtonConfig::LeftMiddleRight)
        } else {
            None
        }
    }

    /// The raw value of the variant.
    pub fn raw(self) -> (r: i32)
        ensures
            r == self.raw_spec(),
    {
        match self {
            ButtonConfig::Right => 1,
            ButtonConfig::LeftRight => 2,
            ButtonConfig::LeftMiddleRight => 3,
        }
    }

    /// The variant with the given raw value, if any.
    pub fn from_raw(value: i32) -> (r: Option<ButtonConfig>)
        ensures
            r == Self::from_raw_spec(value),
    {
        match value {
            1 => Some(ButtonConfig::Right),
            2 => Some(ButtonConfig::LeftRight),
            3 => Some(ButtonConfig::LeftMiddleRight),
            _ => None,
        }
    }
}

impl From<ButtonConfig> for i32 {
    fn from(v: ButtonConfig) -> (r: i32) {
        v.raw()
    }
}

impl FromSpecImpl<ButtonConfig> for i32 {
    open spec fn obeys_from_spec() -> bool {
        true
    }

    open spec fn from_spec(v: ButtonConfig) -> i32 {
        v.raw_spec()
    }
}

/// Restrictions to enforce rules on the keyboard input.
#[derive(Copy, Clone, Debug, PartialEq, Eq, Structural)]
pub enum ValidInput {
    /// All inputs are accepted.
    Anything,
    /// Empty inputs are not accepted.
    NotEmpty,
    /// Blank inputs (consisting only of whitespaces) are not accepted.
    NotBlank,
    /// Neither empty inputs nor blank inputs are accepted.
    NotEmptyNotBlank,
    /// Input must have a fixed length. Maximum length can be specified with [`SoftwareKeyboard::set_max_text_len()`].
    FixedLen,
}

impl ValidInput {
    /// The raw value of the variant.
    pub open spec fn raw_spec(self) -> u32 {
        match self {
            ValidInput::Anything => 0,
            ValidInput::NotEmpty => 1,
            ValidInput::NotBlank => 3,
            ValidInput::NotEmptyNotBlank => 2,
            ValidInput::FixedLen => 4,
        }
    }

    /// The variant with the given raw value, if any.
    pub open spec fn from_raw_spec(value: u32) -> Option<ValidInput> {
        if value == 0 {
            Some(ValidInput::Anything)
        } else if value == 1 {
            Some(ValidInput::NotEmpty)
        } else if value == 3 {
            Some(ValidInput::NotBlank)
        } else if value == 2 {
            Some(ValidInput::NotEmptyNotBlank)
        } else if value == 4 {
            Some(ValidInput::FixedLen)
        } else {
            None
        }
    }

    /// The raw value of the variant.
    pub fn raw(self) -> (r: u32)
        ensures
            r == self.raw_spec(),
    {
        match self {
            ValidInput::Anything => 0,
            ValidInput::NotEmpty => 1,
            ValidInput::NotBlank => 3,
            ValidInput::NotEmptyNotBlank => 2,
            ValidInput::FixedLen => 4,
        }
    }

    /// The variant with the given raw value, if any.
    pub fn from_raw(value: u32) -> (r: Option<ValidInput>)
        ensures
            r == Self::from_raw_spec(value),
    {
        match value {
            0 => Some(ValidInput::Anything),
            1 => Some(ValidInput::NotEmpty),
            3 => Some(ValidInput::NotBlank),
            2 => Some(ValidInput::NotEmptyNotBlank),
            4 => Some(ValidInput::FixedLen),
            _ => None,
        }
    }
}

impl From<ValidInput> for u32 {
    fn from(v: ValidInput) -> (r: u32) {
        v.raw()
    }
}

impl FromSpecImpl<ValidInput> for u32 {
    open spec fn obeys_from_spec() -> bool {
        true
    }

    open spec fn from_spec(v: ValidInput) -> u32 {
        v.raw_spec()
    }
}

/// Errors the software keyboard can return.
#[derive(Copy, Clone, Debug, PartialEq, Eq, Structural)]
pub enum Error {
    /// Invalid parameters given to the software keyboard.
    InvalidParameters,
    /// The software keyboard ran out of memory.
    OutOfMem,
    /// Home button was pressed while the software keyboard was running.
    HomePressed,
    /// Reset button was pressed while the software keyboard was running.
    ResetPressed,
    /// Power button was pressed while the software keyboard was running.
    PowerPressed,
    /// The parental lock PIN was correct.
    ParentalOk,
    /// The parental lock PIN was incorrect.
    ParentalFail,
    /// Input triggered the filter.
    BannedInput,
    /// An on-screen button was pressed to exit the prompt.
    ButtonPressed,
}

/// The error that a keyboard result stands for, if any: every button press is
/// [`Error::ButtonPressed`].
pub open spec fn error_for_result(value: i32) -> Option<Error> {
    if value == SWKBD_INVALID_INPUT {
        Some(Error::InvalidParameters)
    } else if value == SWKBD_OUTOFMEM {
        Some(Error::OutOfMem)
    } else if value == SWKBD_HOMEPRESSED {
        Some(Error::HomePressed)
    } else if value == SWKBD_RESETPRESSED {
        Some(Error::ResetPressed)
    } else if value == SWKBD_POWERPRESSED {
        Some(Error::PowerPressed)
    } else if value == SWKBD_PARENTAL_OK {
        Some(Error::ParentalOk)
    } else if value == SWKBD_PARENTAL_FAIL {
        Some(Error::ParentalFail)
    } else if value == SWKBD_BANNED_INPUT {
        Some(Error::BannedInput)
    } else if SWKBD_D0_CLICK <= value <= SWKBD_D2_CLICK2 {
        Some(Error::ButtonPressed)
    } else {
        None
    }
}

/// The human-readable text of a keyboard error.
pub open spec fn swkbd_error_text(e: Error) -> Seq<char> {
    match e {
        Error::InvalidParameters => "software keyboard was configured with invalid parameters"@,
        Error::OutOfMem => "software keyboard ran out of memory"@,
        Error::HomePressed => "home button pressed while software keyboard was running"@,
        Error::ResetPressed => "reset button pressed while software keyboard was running"@,
        Error::PowerPressed => "power button pressed while software keyboard was running"@,
        Error::ParentalOk => "parental lock pin was correct"@,
        Error::ParentalFail => "parental lock pin was incorrect"@,
        Error::BannedInput => "input given to the software keyboard triggered the active filters"@,
        Error::ButtonPressed => "on-screen button was pressed to exit the prompt"@,
    }
}

impl Error {
    /// The raw keyboard result of the error.
    pub open spec fn raw_spec(self) -> i32 {
        match self {
            Error::InvalidParameters => SWKBD_INVALID_INPUT,
            Error::OutOfMem => SWKBD_OUTOFMEM,
            Error::HomePressed => SWKBD_HOMEPRESSED,
            Error::ResetPressed => SWKBD_RESETPRESSED,
            Error::PowerPressed => SWKBD_POWERPRESSED,
            Error::ParentalOk => SWKBD_PARENTAL_OK,
            Error::ParentalFail => SWKBD_PARENTAL_FAIL,
            Error::BannedInput => SWKBD_BANNED_INPUT,
            Error::ButtonPressed => SWKBD_D0_CLICK,
        }
    }

    /// The raw keyboard result of the error.
    pub fn raw(self) -> (r: i32)
        ensures
            r == self.raw_spec(),
    {
        match self {
            Error::InvalidParameters => SWKBD_INVALID_INPUT,
            Error::OutOfMem => SWKBD_OUTOFMEM,
            Error::HomePressed => SWKBD_HOMEPRESSED,
            Error::ResetPressed => SWKBD_RESETPRESSED,
            Error::PowerPressed => SWKBD_POWERPRESSED,
            Error::ParentalOk => SWKBD_PARENTAL_OK,
            Error::ParentalFail => SWKBD_PARENTAL_FAIL,
            Error::BannedInput => SWKBD_BANNED_INPUT,
            Error::ButtonPressed => SWKBD_D0_CLICK,
        }
    }

    /// The error that a keyboard result stands for (a result that stands for
    /// none, such as "nothing happened yet", is never converted).
    pub fn from_result(value: i32) -> (e: Error)
        requires
            error_for_result(value) is Some,
        ensures
            Some(e) == error_for_result(value),
    {
        if value == SWKBD_INVALID_INPUT {
            Error::InvalidParameters
        } else if value == SWKBD_OUTOFMEM {
            Error::OutOfMem
        } else if value == SWKBD_HOMEPRESSED {
            Error::HomePressed
        } else if value == SWKBD_RESETPRESSED {
            Error::ResetPressed
        } else if value == SWKBD_POWERPRESSED {
            Error::PowerPressed
        } else if value == SWKBD_PARENTAL_OK {
            Error::ParentalOk
        } else if value == SWKBD_PARENTAL_FAIL {
            Error::ParentalFail
        } else if value == SWKBD_BANNED_INPUT {
            Error::BannedInput
        } else {
            Error::ButtonPressed
        }
    }

    /// The human-readable text of the error (see [`swkbd_error_text`]).
    pub fn to_display_string(&self) -> (s: String)
        ensures
            s@ == swkbd_error_text(*self),
    {
        match self {
            Error::InvalidParameters => String::from_str("software keyboard was configured with invalid parameters"),
            Error::OutOfMem => String::from_str("software keyboard ran out of memory"),
            Error::HomePressed => String::from_str("home button pressed while software keyboard was running"),
            Error::ResetPressed => String::from_str("reset button pressed while software keyboard was running"),
            Error::PowerPressed => String::from_str("power button pressed while software keyboard was running"),
            Error::ParentalOk => String::from_str("parental lock pin was correct"),
            Error::ParentalFail => String::from_str("parental lock pin was incorrect"),
            Error::BannedInput => String::from_str("input given to the software keyboard triggered the active filters"),
            Error::ButtonPressed => String::from_str("on-screen button was pressed to exit the prompt"),
        }
    }
}

impl From<Error> for i32 {
    fn from(e: Error) -> (r: i32) {
        e.raw()
    }
}

impl FromSpecImpl<Error> for i32 {
    open spec fn obeys_from_spec() -> bool {
        true
    }

    open spec fn from_spec(e: Error) -> i32 {
        e.raw_spec()
    }
}

/// Every error converts to a raw result that stands for that same error.
pub proof fn error_result_round_trip(e: Error)
    ensures
        error_for_result(e.raw_spec()) == Some(e),
{
}

/// Keyboard features.
#[derive(Debug, Clone, Copy, PartialEq, Eq, Structural)]
pub struct Features {
    bits: u16,
}

/// Feature: darken the top screen while the keyboard is running.
pub const FEATURE_DARKEN_TOP_SCREEN: u16 = 2;
/// Feature: enable predictive input.
pub const FEATURE_PREDICTIVE_INPUT: u16 = 4;
/// Feature: enable multiline input.
pub const FEATURE_MULTILINE: u16 = 8;
/// Feature: enable fixed-width mode.
pub const FEATURE_FIXED_WIDTH: u16 = 16;
/// Feature: allow the HOME button.
pub const FEATURE_ALLOW_HOME: u16 = 32;
/// Feature: allow the RESET button.
pub const FEATURE_ALLOW_RESET: u16 = 64;
/// Feature: allow the POWER button.
pub const FEATURE_ALLOW_POWER: u16 = 128;
/// Feature: default to the QWERTY page.
pub const FEATURE_DEFAULT_QWERTY: u16 = 512;

impl Features {
    /// The raw bits of the features.
    pub closed spec fn bits_spec(self) -> u16 {
        self.bits
    }

    /// The raw bits of the features.
    pub fn bits(&self) -> (b: u16)
        ensures
            b == self.bits_spec(),
    {
        self.bits
    }

    /// The features among `bits` that exist; the other bits are dropped.
    pub fn from_bits_truncate(bits: u16) -> (f: Features)
        ensures
            f.bits_spec() == bits & 0x2FE,
    {
        Features { bits: bits & 0x2FE }
    }
}

/// Keyboard input filters.
#[derive(Debug, Clone, Copy, PartialEq, Eq, Structural)]
pub struct Filters {
    bits: u8,
}

/// Filter: disallow the use of more than a certain number of digits.
pub const FILTER_DIGITS: u8 = 1;
/// Filter: disallow the use of the `@` sign.
pub const FILTER_AT: u8 = 2;
/// Filter: disallow the use of the `%` sign.
pub const FILTER_PERCENT: u8 = 4;
/// Filter: disallow the use of the `\` sign.
pub const FILTER_BACKSLASH: u8 = 8;
/// Filter: disallow the use of profanity.
pub const FILTER_PROFANITY: u8 = 16;

impl Filters {
    /// The raw bits of the filters.
    pub closed spec fn bits_spec(self) -> u8 {
        self.bits
    }

    /// The raw bits of the filters.
    pub fn bits(&self) -> (b: u8)
        ensures
            b == self.bits_spec(),
    {
        self.bits
    }

    /// The filters among `bits` that exist; the other bits are dropped.
    pub fn from_bits_truncate(bits: u8) -> (f: Filters)
        ensures
            f.bits_spec() == bits & 0x1F,
    {
        Filters { bits: bits & 0x1F }
    }
}

/// The part of the keyboard's state that the library reads and writes; the
/// applet reads the whole state.
#[derive(Clone, Debug)]
pub struct SwkbdState {
    /// Input validation rule.
    pub valid_input: u32,
    /// The features the keyboard is set up with, as the bits of [`Features`];
    /// the system's setup turns them into the state's feature switches.
    pub features: u32,
    /// How the entered text is shown (see [`PasswordMode`]).
    pub password_mode: u32,
    /// The key code of the numpad's left key, 0 for none.
    pub numpad_left_key: i32,
    /// The key code of the numpad's right key, 0 for none.
    pub numpad_right_key: i32,
    /// Input filter flags.
    pub filter_flags: u32,
    /// Which data the keyboard saves: bit 0 its status, bit 1 its learning data.
    pub save_state_flags: u32,
    /// Longest text accepted.
    pub max_text_len: u16,
    /// Number of dictionary words.
    pub dict_word_count: u16,
    /// Most digits accepted.
    pub max_digits: u16,
    /// The texts of the three buttons, each in a field of [`BUTTON_TEXT_LEN`] units.
    pub button_text: Vec<u16>,
    /// Hint text, in a field of [`HINT_TEXT_LEN`] units.
    pub hint_text: Vec<u16>,
    /// Whether each button submits the text.
    pub button_submits_text: Vec<bool>,
    /// Offset of the initial text in the shared memory, or -1.
    pub initial_text_offset: i32,
    /// Offset of the dictionary in the shared memory, or -1.
    pub dict_offset: i32,
    /// Offset of the initial status data in the shared memory, or -1.
    pub initial_status_offset: i32,
    /// Offset of the initial learning data in the shared memory, or -1.
    pub initial_learning_offset: i32,
    /// Size of the shared memory.
    pub shared_memory_size: usize,
    /// The keyboard's result.
    pub result: i32,
    /// Offset of the saved status data in the shared memory, or -1.
    pub status_offset: i32,
    /// Offset of the saved learning data in the shared memory, or -1.
    pub learning_offset: i32,
    /// Offset of the entered text in the shared memory.
    pub text_offset: i32,
    /// Length of the entered text, in units.
    pub text_length: i32,
    /// The filter callback's verdict.
    pub callback_result: i32,
    /// The filter callback's message, in a field of [`CALLBACK_MSG_LEN`] units.
    pub callback_msg: Vec<u16>,
}

impl SwkbdState {
    /// Whether the text fields have their sizes.
    pub open spec fn wf(&self) -> bool {
        &&& self.button_text@.len() == 3 * BUTTON_TEXT_LEN
        &&& self.hint_text@.len() == HINT_TEXT_LEN
        &&& self.button_submits_text@.len() == 4
        &&& self.callback_msg@.len() == CALLBACK_MSG_LEN
    }
}

/// `buf` with a text written into the field of `cap` units at `start`: as many
/// of its units as fit before a final nul, that nul, and the rest of the buffer
/// unchanged.
pub open spec fn written_field(buf: Seq<u16>, start: int, cap: int, units: Seq<u16>) -> Seq<u16> {
    let k = if units.len() < cap - 1 { units.len() as int } else { cap - 1 };
    Seq::new(
        buf.len(),
        |i: int|
            if start <= i < start + k {
                units[i - start]
            } else if i == start + k {
                0u16
            } else {
                buf[i]
            },
    )
}

/// Writing a text into a field keeps the buffer's length, ends the text with a
/// nul inside the field, and leaves everything outside the field unchanged.
pub proof fn written_field_stays_in_field(buf: Seq<u16>, start: int, cap: int, units: Seq<u16>)
    requires
        1 <= cap,
        0 <= start,
        start + cap <= buf.len(),
    ensures
        written_field(buf, start, cap, units).len() == buf.len(),
        exists|k: int| 0 <= k < cap && #[trigger] written_field(buf, start, cap, units)[start + k] == 0u16,
        forall|i: int| 0 <= i < buf.len() && !(start <= i < start + cap) ==> #[trigger] written_field(buf, start, cap, units)[i] == buf[i],
{
    let k = if units.len() < cap - 1 { units.len() as int } else { cap - 1 };
    assert(written_field(buf, start, cap, units)[start + k] == 0u16);
}

/// Writes a text into the field of `cap` units at `start` (see [`written_field`]).
pub fn write_field(buf: &mut Vec<u16>, start: usize, cap: usize, units: &[u16])
    requires
        1 <= cap,
        start + cap <= old(buf)@.len(),
    ensures
        final(buf)@ == written_field(old(buf)@, start as int, cap as int, units@),
{
    let ghost orig = buf@;
    let len = buf.len();
    let k = if units.len() < cap - 1 { units.len() } else { cap - 1 };
    let mut i: usize = 0;
    while i < k
        invariant
            i <= k,
            k < cap,
            k <= units@.len(),
            start + cap <= orig.len(),
            orig.len() == len,
            buf@.len() == orig.len(),
            forall|j: int| 0 <= j < orig.len() ==> #[trigger] buf@[j] == (if start <= j < start + i {
                units@[j - start]
            } else {
                orig[j]
            }),
        decreases k - i,
    {
        buf.set(start + i, units[i]);
        i = i + 1;
    }
    buf.set(start + k, 0);
    assert(buf@ =~= written_field(orig, start as int, cap as int, units@));
}

/// The UTF-16 units of a text.
fn text_units(text: &str) -> (units: Vec<u16>)
    ensures
        units@ == encode_utf16_spec(text@),
{
    let chars = str_to_chars(text);
    encode_utf16(chars.as_slice())
}

/// Where the sections of the memory shared with the keyboard go.
#[derive(Clone, Copy, Debug, PartialEq, Eq, Structural)]
pub struct SharedMemoryLayout {
    /// Offset of the dictionary.
    pub dict_off: usize,
    /// Offset of the initial status data.
    pub status_off: usize,
    /// Offset of the initial learning data.
    pub learning_off: usize,
    /// Offset of the saved status data, when the keyboard saves it.
    pub status_offset: Option<usize>,
    /// Offset of the saved learning data, when the keyboard saves it.
    pub learning_offset: Option<usize>,
    /// Size of the whole block, a multiple of the page size.
    pub size: usize,
}

/// The layout of the shared memory: the text (one unit more than the longest
/// text), then the dictionary, each rounded up to whole words; then, when the
/// keyboard was given initial learning data, initial status and learning data;
/// then the status and learning data that the keyboard saves; the whole rounded
/// up to whole pages.
pub open spec fn layout_spec(max_text_len: u16, dict_word_count: u16, with_initial_learning: bool, save_state_flags: u32) -> SharedMemoryLayout {
    let text = round_up_spec(2 * (max_text_len as nat + 1), WORD_SIZE as nat);
    let dict_off = text;
    let after_dict = dict_off + round_up_spec(DICT_WORD_SIZE as nat * dict_word_count as nat, WORD_SIZE as nat);
    let status_off = after_dict;
    let after_status = status_off + if with_initial_learning { STATUS_DATA_SIZE as nat } else { 0 };
    let learning_off = after_status;
    let after_learning = learning_off + if with_initial_learning { LEARNING_DATA_SIZE as nat } else { 0 };
    let saves_status = save_state_flags & 1 != 0;
    let saves_learning = save_state_flags & 2 != 0;
    let after_saved_status = after_learning + if saves_status { STATUS_DATA_SIZE as nat } else { 0 };
    let after_saved_learning = after_saved_status + if saves_learning { LEARNING_DATA_SIZE as nat } else { 0 };
    SharedMemoryLayout {
        dict_off: dict_off as usize,
        status_off: status_off as usize,
        learning_off: learning_off as usize,
        status_offset: if saves_status { Some(after_learning as usize) } else { None },
        learning_offset: if saves_learning { Some(after_saved_status as usize) } else { None },
        size: round_up_spec(after_saved_learning, PAGE_SIZE as nat) as usize,
    }
}

/// Computes the layout of the shared memory (see [`layout_spec`]).
pub fn shared_memory_layout(max_text_len: u16, dict_word_count: u16, with_initial_learning: bool, save_state_flags: u32) -> (l: SharedMemoryLayout)
    ensures
        l == layout_spec(max_text_len, dict_word_count, with_initial_learning, save_state_flags),
        l.size % PAGE_SIZE == 0,
{
    let text = round_up(2 * (max_text_len as usize + 1), WORD_SIZE);
    let dict_off = text;
    assert(DICT_WORD_SIZE * (dict_word_count as usize) <= 166 * 65535) by (nonlinear_arith)
        requires
            dict_word_count <= 65535,
    ;
    let after_dict = dict_off + round_up(DICT_WORD_SIZE * dict_word_count as usize, WORD_SIZE);
    let status_off = after_dict;
    let after_status = status_off + if with_initial_learning { STATUS_DATA_SIZE } else { 0 };
    let learning_off = after_status;
    let after_learning = learning_off + if with_initial_learning { LEARNING_DATA_SIZE } else { 0 };
    let saves_status = save_state_flags & 1 != 0;
    let saves_learning = save_state_flags & 2 != 0;
    let after_saved_status = after_learning + if saves_status { STATUS_DATA_SIZE } else { 0 };
    let after_saved_learning = after_saved_status + if saves_learning { LEARNING_DATA_SIZE } else { 0 };
    SharedMemoryLayout {
        dict_off,
        status_off,
        learning_off,
        status_offset: if saves_status { Some(after_learning) } else { None },
        learning_offset: if saves_learning { Some(after_saved_status) } else { None },
        size: round_up(after_saved_learning, PAGE_SIZE),
    }
}

/// The layout's sections do not overlap, and fit in the block.
pub proof fn layout_sections_in_order(max_text_len: u16, dict_word_count: u16, with_initial_learning: bool, save_state_flags: u32)
    ensures
        ({
            let l = layout_spec(max_text_len, dict_word_count, with_initial_learning, save_state_flags);
            &&& 2 * (max_text_len as nat + 1) <= l.dict_off
            &&& l.dict_off + DICT_WORD_SIZE * dict_word_count <= l.status_off
            &&& l.status_off <= l.learning_off
            &&& (with_initial_learning ==> l.status_off + STATUS_DATA_SIZE == l.learning_off)
            &&& (l.status_offset matches Some(o) ==> l.learning_off <= o && o + STATUS_DATA_SIZE <= l.size)
            &&& (l.learning_offset matches Some(o) ==> l.learning_off <= o && o + LEARNING_DATA_SIZE <= l.size)
            &&& (l.status_offset matches Some(s) ==> (l.learning_offset matches Some(o) ==> s + STATUS_DATA_SIZE <= o))
            &&& l.size % PAGE_SIZE == 0
        }),
{
    let text = 2 * (max_text_len as nat + 1);
    crate::services::ir_user::round_up_bounds(text, WORD_SIZE as nat);
    crate::services::ir_user::round_up_bounds(DICT_WORD_SIZE as nat * dict_word_count as nat, WORD_SIZE as nat);
    let l = layout_spec(max_text_len, dict_word_count, with_initial_learning, save_state_flags);
    let dict_end = round_up_spec(text, WORD_SIZE as nat) + round_up_spec(DICT_WORD_SIZE as nat * dict_word_count as nat, WORD_SIZE as nat);
    let total = dict_end + (if with_initial_learning { STATUS_DATA_SIZE as nat + LEARNING_DATA_SIZE as nat } else { 0 })
        + (if save_state_flags & 1 != 0 { STATUS_DATA_SIZE as nat } else { 0 })
        + (if save_state_flags & 2 != 0 { LEARNING_DATA_SIZE as nat } else { 0 });
    crate::services::ir_user::round_up_bounds(total, PAGE_SIZE as nat);
}

/// The button that a keyboard result stands for, if any: the left of two or three
/// buttons is the left button, the middle of three the middle one, and the only
/// button or the right of two or three the right one.
pub open spec fn button_for_result(result: i32) -> Option<Button> {
    if result == SWKBD_D1_CLICK0 || result == SWKBD_D2_CLICK0 {
        Some(Button::Left)
    } else if result == SWKBD_D2_CLICK1 {
        Some(Button::Middle)
    } else if result == SWKBD_D0_CLICK || result == SWKBD_D1_CLICK1 || result == SWKBD_D2_CLICK2 {
        Some(Button::Right)
    } else {
        None
    }
}

/// Computes [`button_for_result`].
pub fn button_from_result(result: i32) -> (b: Option<Button>)
    ensures
        b == button_for_result(result),
{
    if result == SWKBD_D1_CLICK0 || result == SWKBD_D2_CLICK0 {
        Some(Button::Left)
    } else if result == SWKBD_D2_CLICK1 {
        Some(Button::Middle)
    } else if result == SWKBD_D0_CLICK || result == SWKBD_D1_CLICK1 || result == SWKBD_D2_CLICK2 {
        Some(Button::Right)
    } else {
        None
    }
}

/// Decodes the text that the keyboard wrote. The keyboard writes valid UTF-16;
/// should a unit be unpaired it is replaced by U+FFFD.
pub fn decode_keyboard_text(units: Vec<u16>) -> (s: String)
    ensures
        s@ == decode_utf16_lossy_spec(units@),
{
    let copy = units.clone();
    match utf16_string_from_vec(units) {
        Ok(text) => utf16_string_to_string(&text),
        Err(_) => {
            let chars = decode_utf16_lossy(copy.as_slice());
            chars_to_string(chars.as_slice())
        },
    }
}

/// What the library does before the keyboard is launched: the layout of the
/// shared memory, and the initial text's units to copy at its start.
pub struct LaunchPlan {
    /// Layout of the shared memory.
    pub layout: SharedMemoryLayout,
    /// The initial text's units, nul-terminated, when there is an initial text.
    pub initial_text: Option<Vec<u16>>,
    /// Whether the filter callback answers the keyboard's messages during the
    /// launch: the message handler is installed before the launch and removed
    /// after it.
    pub install_filter_callback: bool,
}

/// The units of an initial text in the shared memory: at most the longest text
/// accepted, then a nul.
pub open spec fn initial_text_units(text: Seq<char>, max_text_len: u16) -> Seq<u16> {
    let units = encode_utf16_spec(text);
    let k = if units.len() < max_text_len { units.len() as int } else { max_text_len as int };
    units.take(k).push(0u16)
}

/// The key code of a numpad key: its character's value, 0 for none.
pub open spec fn numpad_key_code(key: Option<char>) -> i32 {
    match key {
        Some(k) => k as i32,
        None => 0i32,
    }
}

/// The system's number for the software keyboard applet, the sender of its
/// messages.
pub const APPID_SOFTWARE_KEYBOARD: u32 = 0x401;

/// Whether a message is the keyboard asking the filter callback: it comes from
/// the keyboard and has the size of the keyboard's state (`state_size`, as the
/// system lays the state out).
pub open spec fn is_filter_query(sender: u32, msg_size: usize, state_size: usize) -> bool {
    sender == APPID_SOFTWARE_KEYBOARD && msg_size == state_size
}

/// The state after the filter callback answered with `verdict` and, possibly, a
/// message: the verdict recorded and the message written into its field.
pub open spec fn replied(old_state: SwkbdState, new_state: SwkbdState, verdict: CallbackResult, message: Option<Seq<char>>) -> bool {
    &&& new_state == (SwkbdState {
        callback_result: verdict.raw_spec() as i32,
        callback_msg: new_state.callback_msg,
        ..old_state
    })
    &&& new_state.callback_msg@ == (match message {
        Some(m) => written_field(old_state.callback_msg@, 0, CALLBACK_MSG_LEN as int, encode_utf16_spec(m)),
        None => old_state.callback_msg@,
    })
}

/// Software keyboard applet.
pub struct SoftwareKeyboard {
    state: SwkbdState,
    uses_filter_callback: bool,
    initial_text: Option<String>,
}

impl SoftwareKeyboard {
    /// The keyboard's state.
    pub closed spec fn state_spec(&self) -> SwkbdState {
        self.state
    }

    /// Whether a filter callback is set.
    pub closed spec fn has_filter_callback(&self) -> bool {
        self.uses_filter_callback
    }

    /// The initial text, if any.
    pub closed spec fn initial_text_spec(&self) -> Option<Seq<char>> {
        match self.initial_text {
            Some(t) => Some(t@),
            None => None,
        }
    }

    /// A keyboard over a state that the system initialized, without filter
    /// callback or initial text.
    pub fn from_state(state: SwkbdState) -> (k: SoftwareKeyboard)
        ensures
            k.state_spec() == state,
            !k.has_filter_callback(),
            k.initial_text_spec() is None,
    {
        SoftwareKeyboard { state, uses_filter_callback: false, initial_text: None }
    }

    /// The keyboard's state.
    pub fn state(&self) -> (s: &SwkbdState)
        ensures
            *s == self.state_spec(),
    {
        &self.state
    }

    /// Sets special rules for the text to be entered: the validation rule and the
    /// filters.
    pub fn set_validation(&mut self, validation: ValidInput, filters: Filters)
        ensures
            final(self).state_spec() == (SwkbdState {
                valid_input: validation.raw_spec(),
                filter_flags: filters.bits_spec() as u32,
                ..old(self).state_spec()
            }),
            final(self).has_filter_callback() == old(self).has_filter_callback(),
            final(self).initial_text_spec() == old(self).initial_text_spec(),
    {
        self.state.valid_input = validation.raw();
        self.state.filter_flags = filters.bits() as u32;
    }

    /// Records whether a filter callback checks the input.
    pub fn set_filter_callback(&mut self, present: bool)
        ensures
            final(self).state_spec() == old(self).state_spec(),
            final(self).has_filter_callback() == present,
            final(self).initial_text_spec() == old(self).initial_text_spec(),
    {
        self.uses_filter_callback = present;
    }

    /// Sets the most digits accepted.
    pub fn set_max_digits(&mut self, digits: u16)
        ensures
            final(self).state_spec() == (SwkbdState { max_digits: digits, ..old(self).state_spec() }),
            final(self).has_filter_callback() == old(self).has_filter_callback(),
            final(self).initial_text_spec() == old(self).initial_text_spec(),
    {
        self.state.max_digits = digits;
    }

    /// Sets the initial text.
    pub fn set_initial_text(&mut self, text: Option<String>)
        ensures
            final(self).state_spec() == old(self).state_spec(),
            final(self).has_filter_callback() == old(self).has_filter_callback(),
            final(self).initial_text_spec() == (match text {
                Some(t) => Some(t@),
                None => None::<Seq<char>>,
            }),
    {
        self.initial_text = text;
    }

    /// Sets the hint text: as many of its units as fit before a nul; without a
    /// text, the field is emptied.
    pub fn set_hint_text(&mut self, text: Option<&str>)
        requires
            old(self).state_spec().wf(),
        ensures
            final(self).state_spec() == (SwkbdState {
                hint_text: final(self).state_spec().hint_text,
                ..old(self).state_spec()
            }),
            final(self).state_spec().wf(),
            final(self).state_spec().hint_text@ == (match text {
                Some(t) => written_field(old(self).state_spec().hint_text@, 0, HINT_TEXT_LEN as int, encode_utf16_spec(t@)),
                None => old(self).state_spec().hint_text@.update(0, 0u16),
            }),
            final(self).has_filter_callback() == old(self).has_filter_callback(),
            final(self).initial_text_spec() == old(self).initial_text_spec(),
    {
        match text {
            Some(t) => {
                let units = text_units(t);
                write_field(&mut self.state.hint_text, 0, HINT_TEXT_LEN, units.as_slice());
            },
            None => {
                self.state.hint_text.set(0, 0);
            },
        }
    }

    /// Sets a button's text (as many of its units as fit before a nul) and
    /// whether it submits the entered text.
    pub fn configure_button(&mut self, button: Button, text: &str, submit: bool)
        requires
            old(self).state_spec().wf(),
        ensures
            final(self).state_spec() == (SwkbdState {
                button_text: final(self).state_spec().button_text,
                button_submits_text: final(self).state_spec().button_submits_text,
                ..old(self).state_spec()
            }),
            final(self).state_spec().wf(),
            final(self).state_spec().button_text@ == written_field(
                old(self).state_spec().button_text@,
                button.raw_spec() * BUTTON_TEXT_LEN,
                BUTTON_TEXT_LEN as int,
                encode_utf16_spec(text@),
            ),
            final(self).state_spec().button_submits_text@ == old(self).state_spec().button_submits_text@.update(
                button.raw_spec() as int,
                submit,
            ),
            final(self).has_filter_callback() == old(self).has_filter_callback(),
            final(self).initial_text_spec() == old(self).initial_text_spec(),
    {
        let index = button.raw() as usize;
        let units = text_units(text);
        write_field(&mut self.state.button_text, index * BUTTON_TEXT_LEN, BUTTON_TEXT_LEN, units.as_slice());
        self.state.button_submits_text.set(index, submit);
    }

    /// Sets the longest text accepted, and makes the input of that fixed length.
    pub fn set_max_text_len(&mut self, len: u16)
        ensures
            final(self).state_spec() == (SwkbdState {
                max_text_len: len,
                valid_input: ValidInput::FixedLen.raw_spec(),
                ..old(self).state_spec()
            }),
            final(self).has_filter_callback() == old(self).has_filter_callback(),
            final(self).initial_text_spec() == old(self).initial_text_spec(),
    {
        self.state.max_text_len = len;
        self.state.valid_input = ValidInput::FixedLen.raw();
    }

    /// Turns on the given features of the keyboard (and off all others).
    pub fn set_features(&mut self, features: Features)
        ensures
            final(self).state_spec() == (SwkbdState { features: features.bits_spec() as u32, ..old(self).state_spec() }),
            final(self).has_filter_callback() == old(self).has_filter_callback(),
            final(self).initial_text_spec() == old(self).initial_text_spec(),
    {
        self.state.features = features.bits() as u32;
    }

    /// Sets how the entered text is shown.
    pub fn set_password_mode(&mut self, mode: PasswordMode)
        ensures
            final(self).state_spec() == (SwkbdState { password_mode: mode.raw_spec(), ..old(self).state_spec() }),
            final(self).has_filter_callback() == old(self).has_filter_callback(),
            final(self).initial_text_spec() == old(self).initial_text_spec(),
    {
        self.state.password_mode = mode.raw();
    }

    /// Sets the numpad's left and right keys (only used by numpad keyboards): each
    /// key's character, none for an empty key.
    pub fn set_numpad_keys(&mut self, left_key: Option<char>, right_key: Option<char>)
        ensures
            final(self).state_spec() == (SwkbdState {
                numpad_left_key: numpad_key_code(left_key),
                numpad_right_key: numpad_key_code(right_key),
                ..old(self).state_spec()
            }),
            final(self).has_filter_callback() == old(self).has_filter_callback(),
            final(self).initial_text_spec() == old(self).initial_text_spec(),
    {
        let keys = SoftwareKeyboard::numpad_keys(left_key, right_key);
        self.state.numpad_left_key = keys.0;
        self.state.numpad_right_key = keys.1;
    }

    /// The key codes of the numpad's left and right keys: the characters' values,
    /// 0 for none.
    pub fn numpad_keys(left_key: Option<char>, right_key: Option<char>) -> (keys: (i32, i32))
        ensures
            keys.0 == numpad_key_code(left_key),
            keys.1 == numpad_key_code(right_key),
    {
        let mut keys: (i32, i32) = (0, 0);
        if let Some(k) = left_key {
            keys.0 = k as i32;
        }
        if let Some(k) = right_key {
            keys.1 = k as i32;
        }
        keys
    }

    /// Prepares the state for a launch and returns the plan: the layout of the
    /// shared memory (with `has_dict` telling whether a dictionary is given); the
    /// state records the block's size and the offsets of its sections that are
    /// used, and whether the filter callback is on.
    pub fn prepare_launch(&mut self, has_dict: bool) -> (plan: LaunchPlan)
        ensures
            plan.layout == layout_spec(
                old(self).state_spec().max_text_len,
                old(self).state_spec().dict_word_count,
                old(self).state_spec().initial_learning_offset >= 0,
                old(self).state_spec().save_state_flags,
            ),
            plan.initial_text matches Some(u) ==> old(self).initial_text_spec() matches Some(t) && u@ == initial_text_units(
                t,
                old(self).state_spec().max_text_len,
            ),
            plan.initial_text is None <==> old(self).initial_text_spec() is None,
            plan.install_filter_callback == old(self).has_filter_callback(),
            ({
                let old_state = old(self).state_spec();
                let l = plan.layout;
                final(self).state_spec() == (SwkbdState {
                    shared_memory_size: l.size,
                    status_offset: match l.status_offset {
                        Some(o) => o as i32,
                        None => old_state.status_offset,
                    },
                    learning_offset: match l.learning_offset {
                        Some(o) => o as i32,
                        None => old_state.learning_offset,
                    },
                    initial_text_offset: if old(self).initial_text_spec() is Some { 0 } else { old_state.initial_text_offset },
                    dict_offset: if has_dict { l.dict_off as i32 } else { old_state.dict_offset },
                    initial_status_offset: if old_state.initial_status_offset >= 0 {
                        l.status_off as i32
                    } else {
                        old_state.initial_status_offset
                    },
                    initial_learning_offset: if old_state.initial_learning_offset >= 0 {
                        l.learning_off as i32
                    } else {
                        old_state.initial_learning_offset
                    },
                    filter_flags: if old(self).has_filter_callback() {
                        old_state.filter_flags | FILTER_CALLBACK
                    } else {
                        old_state.filter_flags & !FILTER_CALLBACK
                    },
                    ..old_state
                })
            }),
            final(self).has_filter_callback() == old(self).has_filter_callback(),
            final(self).initial_text_spec() == old(self).initial_text_spec(),
    {
        let layout = shared_memory_layout(
            self.state.max_text_len,
            self.state.dict_word_count,
            self.state.initial_learning_offset >= 0,
            self.state.save_state_flags,
        );
        if let Some(o) = layout.status_offset {
            self.state.status_offset = o as i32;
        }
        if let Some(o) = layout.learning_offset {
            self.state.learning_offset = o as i32;
        }
        self.state.shared_memory_size = layout.size;
        let initial_text = match &self.initial_text {
            Some(text) => {
                self.state.initial_text_offset = 0;
                let units = text_units(text.as_str());
                let max = self.state.max_text_len as usize;
                let mut u = units;
                u.truncate(max);
                u.push(0);
                Some(u)
            },
            None => None,
        };
        if has_dict {
            self.state.dict_offset = layout.dict_off as i32;
        }
        if self.state.initial_status_offset >= 0 {
            self.state.initial_status_offset = layout.status_off as i32;
        }
        if self.state.initial_learning_offset >= 0 {
            self.state.initial_learning_offset = layout.learning_off as i32;
        }
        if self.uses_filter_callback {
            self.state.filter_flags = self.state.filter_flags | FILTER_CALLBACK;
        } else {
            self.state.filter_flags = self.state.filter_flags & !FILTER_CALLBACK;
        }
        LaunchPlan { layout, initial_text, install_filter_callback: self.uses_filter_callback }
    }

    /// Whether a keyboard result is one that a launch can end with: a button
    /// press, or a result that stands for an error.
    pub fn is_known_result(result: i32) -> (known: bool)
        ensures
            known == (button_for_result(result) is Some || error_for_result(result) is Some),
    {
        button_from_result(result).is_some() || result == SWKBD_INVALID_INPUT || result == SWKBD_OUTOFMEM
            || result == SWKBD_HOMEPRESSED || result == SWKBD_RESETPRESSED || result == SWKBD_POWERPRESSED
            || result == SWKBD_PARENTAL_OK || result == SWKBD_PARENTAL_FAIL || result == SWKBD_BANNED_INPUT
    }

    /// What a launch returns, from the keyboard's result and the units of the
    /// entered text: a button press gives the text and the button; any other
    /// result gives the error it stands for.
    pub fn launch_outcome(result: i32, text_units: Vec<u16>) -> (r: Result<(String, Button), Error>)
        requires
            button_for_result(result) is None ==> error_for_result(result) is Some,
        ensures
            button_for_result(result) matches Some(b) ==> (r matches Ok((s, b2)) && b2 == b && s@ == decode_utf16_lossy_spec(text_units@)),
            button_for_result(result) is None ==> r == Err::<(String, Button), Error>(error_for_result(result).unwrap()),
    {
        match button_from_result(result) {
            Some(b) => Ok((decode_keyboard_text(text_units), b)),
            None => Err(Error::from_result(result)),
        }
    }

    /// Answers the keyboard's question to the filter callback: records the
    /// callback's verdict and, when it gives one, its message (as many units as
    /// fit before a nul).
    pub fn filter_reply(state: &mut SwkbdState, result: CallbackResult, message: Option<&str>)
        requires
            old(state).wf(),
        ensures
            *final(state) == (SwkbdState {
                callback_result: result.raw_spec() as i32,
                callback_msg: final(state).callback_msg,
                ..*old(state)
            }),
            final(state).wf(),
            final(state).callback_msg@ == (match message {
                Some(m) => written_field(old(state).callback_msg@, 0, CALLBACK_MSG_LEN as int, encode_utf16_spec(m@)),
                None => old(state).callback_msg@,
            }),
    {
        state.callback_result = result.raw() as i32;
        if let Some(m) = message {
            let units = text_units(m);
            write_field(&mut state.callback_msg, 0, CALLBACK_MSG_LEN, units.as_slice());
        }
    }

    /// Whether a message asks the filter callback (see [`is_filter_query`]); only
    /// then may the message be read as the keyboard's state.
    pub fn asks_filter(sender: u32, msg_size: usize, state_size: usize) -> (asks: bool)
        ensures
            asks == is_filter_query(sender, msg_size, state_size),
    {
        sender == APPID_SOFTWARE_KEYBOARD && msg_size == state_size
    }

    /// Handles a message sent to this application while the keyboard runs with a
    /// filter callback. Only a message from the keyboard with the size of its
    /// state (`state_size`) is a question to the filter: then the entered text is
    /// read with `read_text` (given its offset and length in the shared memory),
    /// decoded, given to `filter`, and the filter's answer written into the
    /// state (see [`SoftwareKeyboard::filter_reply`]); the result tells that the
    /// state must be sent back to the keyboard. Any other message leaves the
    /// state as it is, and neither is called.
    pub fn answer_message<R, F>(
        state: &mut SwkbdState,
        sender: u32,
        msg_size: usize,
        state_size: usize,
        read_text: R,
        filter: F,
    ) -> (answered: bool) where
        R: FnOnce(i32, i32) -> Vec<u16>,
        F: FnOnce(String) -> (CallbackResult, Option<String>),
        requires
            old(state).wf(),
            is_filter_query(sender, msg_size, state_size) ==> call_requires(
                read_text,
                (old(state).text_offset, old(state).text_length),
            ),
            is_filter_query(sender, msg_size, state_size) ==> forall|t: String| call_requires(filter, (t,)),
        ensures
            answered == is_filter_query(sender, msg_size, state_size),
            !answered ==> *final(state) == *old(state),
            final(state).wf(),
            answered ==> exists|units: Vec<u16>, text: String, verdict: CallbackResult, message: Option<String>|
                #[trigger] call_ensures(read_text, (old(state).text_offset, old(state).text_length), units)
                && text@ == decode_utf16_lossy_spec(units@)
                && #[trigger] call_ensures(filter, (text,), (verdict, message))
                && replied(*old(state), *final(state), verdict, match message {
                    Some(m) => Some(m@),
                    None => None,
                }),
    {
        if !SoftwareKeyboard::asks_filter(sender, msg_size, state_size) {
            return false;
        }
        let units = read_text(state.text_offset, state.text_length);
        let text = decode_keyboard_text(units);
        let (verdict, message) = filter(text);
        match &message {
            Some(m) => SoftwareKeyboard::filter_reply(state, verdict, Some(m.as_str())),
            None => SoftwareKeyboard::filter_reply(state, verdict, None),
        }
        true
    }
}

/// Basic keyboard that asks for the parental PIN.
pub struct ParentalLock {
    state: SwkbdState,
}

impl ParentalLock {
    /// The lock's state.
    pub closed spec fn state_spec(&self) -> SwkbdState {
        self.state
    }

    /// A parental lock over a state that the system initialized.
    pub fn from_state(state: SwkbdState) -> (p: ParentalLock)
        ensures
            p.state_spec() == state,
    {
        ParentalLock { state }
    }

    /// The lock's state.
    pub fn state(&self) -> (s: &SwkbdState)
        ensures
            *s == self.state_spec(),
    {
        &self.state
    }

    /// What a launch returns, from the keyboard's result: success when the PIN
    /// was right, the error the result stands for otherwise.
    pub fn launch_outcome(result: i32) -> (r: Result<(), Error>)
        requires
            error_for_result(result) is Some,
        ensures
            result == SWKBD_PARENTAL_OK ==> r is Ok,
            result != SWKBD_PARENTAL_OK ==> r == Err::<(), Error>(error_for_result(result).unwrap()),
    {
        let e = Error::from_result(result);
        match e {
            Error::ParentalOk => Ok(()),
            _ => Err(e),
        }
    }
}

/// A keyboard result is either a button press, which stands for a button, or a
/// result that stands for no button; the button presses are exactly the results
/// that stand for [`Error::ButtonPressed`].
pub proof fn results_split_into_buttons_and_errors(result: i32)
    ensures
        button_for_result(result) is Some <==> error_for_result(result) == Some(Error::ButtonPressed),
{
}

/// The button a keyboard result stands for. The keyboard numbers the clicks of
/// its one-, two- and three-button layouts in turn from 0 (0 for the single
/// button; 1 and 2 for two buttons; 3, 4 and 5 for three), and the `k`-th click
/// of a layout is its `k`-th button from the left, the last being the right
/// button: a lone button is the right one, two buttons are left and right,
/// three are left, middle and right. No other result is a click.
pub proof fn keyboard_clicks_name_buttons_left_to_right(result: i32)
    ensures
        button_for_result(0) == Some(Button::Right),
        button_for_result(1) == Some(Button::Left),
        button_for_result(2) == Some(Button::Right),
        button_for_result(3) == Some(Button::Left),
        button_for_result(4) == Some(Button::Middle),
        button_for_result(5) == Some(Button::Right),
        !(0 <= result <= 5) ==> button_for_result(result) is None,
{
}

/// The error a keyboard result stands for, by the keyboard's numbering: -2 bad
/// parameters, -3 out of memory, 10, 11 and 12 the HOME, RESET and POWER
/// buttons, 20 and 21 a right and a wrong parental PIN, 30 banned input, and any
/// click (0 to 5) a button press; -1 (nothing happened) and every other value
/// stand for no error.
pub proof fn keyboard_results_name_errors(result: i32)
    ensures
        error_for_result(-2i32) == Some(Error::InvalidParameters),
        error_for_result(-3i32) == Some(Error::OutOfMem),
        error_for_result(10) == Some(Error::HomePressed),
        error_for_result(11) == Some(Error::ResetPressed),
        error_for_result(12) == Some(Error::PowerPressed),
        error_for_result(20) == Some(Error::ParentalOk),
        error_for_result(21) == Some(Error::ParentalFail),
        error_for_result(30) == Some(Error::BannedInput),
        0 <= result <= 5 ==> error_for_result(result) == Some(Error::ButtonPressed),
        !(-3 <= result <= 5 || 10 <= result <= 12 || result == 20 || result == 21 || result == 30) || result == -1
            ==> error_for_result(result) is None,
{
}

} // verus!

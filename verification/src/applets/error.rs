//! Error applet: a pop-up that shows an error text on the lower screen, and the
//! meaning of its return code.
use vstd::prelude::*;
use vstd::std_specs::convert::FromSpecImpl;
use crate::utf16::{Utf16Writer, encode_utf16_spec, written_buffer};

verus! {

/// Units in the pop-up's text field.
pub const ERROR_TEXT_LEN: usize = 1900;

/// Return code: unknown.
pub const ERROR_UNKNOWN: i32 = -1;
/// Return code: nothing happened.
pub const ERROR_NONE: i32 = 0;
/// Return code: success.
pub const ERROR_SUCCESS: i32 = 1;
/// Return code: not supported.
pub const ERROR_NOT_SUPPORTED: i32 = 2;
/// Return code: HOME pressed.
pub const ERROR_HOME_BUTTON: i32 = 10;
/// Return code: software reset.
pub const ERROR_SOFTWARE_RESET: i32 = 11;
/// Return code: POWER pressed.
pub const ERROR_POWER_BUTTON: i32 = 12;

/// Determines whether the Error applet will use word wrapping when displaying a
/// message.
#[derive(Copy, Clone, Debug, PartialEq, Eq, Structural)]
pub enum WordWrap {
    /// Error text is centered in the error applet window and does not use word
    /// wrapping.
    Disabled,
    /// Error text starts at the top of the error applet window and uses word
    /// wrapping.
    Enabled,
}

impl WordWrap {
    /// The raw error type of the setting.
    pub open spec fn raw_spec(self) -> u16 {
        match self {
            WordWrap::Disabled => 1,
            WordWrap::Enabled => 0x200,
        }
    }

    /// The raw error type of the setting.
    pub fn raw(self) -> (r: u16)
        ensures
            r == self.raw_spec(),
    {
        match self {
            WordWrap::Disabled => 1,
            WordWrap::Enabled => 0x200,
        }
    }
}

impl From<WordWrap> for u16 {
    fn from(w: WordWrap) -> (r: u16) {
        w.raw()
    }
}

impl FromSpecImpl<WordWrap> for u16 {
    open spec fn obeys_from_spec() -> bool {
        true
    }

    open spec fn from_spec(w: WordWrap) -> u16 {
        w.raw_spec()
    }
}

/// Error returned by an unsuccessful [`PopUp::launch_outcome`].
#[derive(Copy, Clone, Debug, PartialEq, Eq, Structural)]
pub enum Error {
    /// Unknown error occurred.
    Unknown,
    /// Operation not supported.
    NotSupported,
    /// Home button pressed while [`PopUp`] was running.
    HomePressed,
    /// Power button pressed while [`PopUp`] was running.
    PowerPressed,
    /// Reset button pressed while [`PopUp`] was running.
    ResetPressed,
}

/// The human-readable text of an error of the applet.
pub open spec fn popup_error_text(e: Error) -> Seq<char> {
    match e {
        Error::NotSupported => "operation not supported"@,
        Error::HomePressed => "home button pressed while error applet was running"@,
        Error::PowerPressed => "power button pressed while error applet was running"@,
        Error::ResetPressed => "reset button pressed while error applet was running"@,
        Error::Unknown => "an unknown error occurred"@,
    }
}

impl Error {
    /// The human-readable text of the error (see [`popup_error_text`]).
    pub fn to_display_string(&self) -> (s: String)
        ensures
            s@ == popup_error_text(*self),
    {
        match self {
            Error::NotSupported => String::from_str("operation not supported"),
            Error::HomePressed => String::from_str("home button pressed while error applet was running"),
            Error::PowerPressed => String::from_str("power button pressed while error applet was running"),
            Error::ResetPressed => String::from_str("reset button pressed while error applet was running"),
            Error::Unknown => String::from_str("an unknown error occurred"),
        }
    }
}

/// What the applet's return code means: nothing or success is no error, each
/// known code its error, and any other code an unknown error.
pub open spec fn popup_outcome(return_code: i32) -> Result<(), Error> {
    if return_code == ERROR_NONE || return_code == ERROR_SUCCESS {
        Ok(())
    } else if return_code == ERROR_NOT_SUPPORTED {
        Err(Error::NotSupported)
    } else if return_code == ERROR_HOME_BUTTON {
        Err(Error::HomePressed)
    } else if return_code == ERROR_POWER_BUTTON {
        Err(Error::PowerPressed)
    } else if return_code == ERROR_SOFTWARE_RESET {
        Err(Error::ResetPressed)
    } else {
        Err(Error::Unknown)
    }
}

/// The configuration for the error applet's pop-up.
pub struct PopUp {
    word_wrap: WordWrap,
    text: Vec<u16>,
}

impl PopUp {
    /// The pop-up's word wrapping.
    pub closed spec fn word_wrap_spec(&self) -> WordWrap {
        self.word_wrap
    }

    /// The pop-up's text field.
    pub closed spec fn text_spec(&self) -> Seq<u16> {
        self.text@
    }

    /// A pop-up with an empty text.
    pub fn new(word_wrap: WordWrap) -> (p: PopUp)
        ensures
            p.word_wrap_spec() == word_wrap,
            p.text_spec() == Seq::new(ERROR_TEXT_LEN as nat, |i: int| 0u16),
    {
        let mut text: Vec<u16> = Vec::new();
        let mut i: usize = 0;
        while i < ERROR_TEXT_LEN
            invariant
                i <= ERROR_TEXT_LEN,
                text@ == Seq::new(i as nat, |k: int| 0u16),
            decreases ERROR_TEXT_LEN - i,
        {
            text.push(0);
            i = i + 1;
        }
        PopUp { word_wrap, text }
    }

    /// The pop-up's word wrapping.
    pub fn word_wrap(&self) -> (w: WordWrap)
        ensures
            w == self.word_wrap_spec(),
    {
        self.word_wrap
    }

    /// The pop-up's text field.
    pub fn text(&self) -> (t: &[u16])
        ensures
            t@ == self.text_spec(),
    {
        self.text.as_slice()
    }

    /// Writes the text shown by the pop-up from the start of its field, through a
    /// fresh [`Utf16Writer`]: as many units as fit, nul-terminated; `Err(())` when
    /// the text did not fit.
    pub fn write_text(&mut self, s: &str) -> (r: Result<(), ()>)
        requires
            old(self).text_spec().len() == ERROR_TEXT_LEN,
        ensures
            final(self).word_wrap_spec() == old(self).word_wrap_spec(),
            final(self).text_spec() == written_buffer(old(self).text_spec(), 0, encode_utf16_spec(s@)),
            final(self).text_spec().len() == ERROR_TEXT_LEN,
            r is Ok <==> encode_utf16_spec(s@).len() < ERROR_TEXT_LEN,
    {
        let mut buf: Vec<u16> = Vec::new();
        std::mem::swap(&mut buf, &mut self.text);
        let mut writer = Utf16Writer::new(buf);
        let r = writer.write_str(s);
        self.text = writer.into_inner();
        r
    }

    /// What a launch returns, from the applet's return code (see
    /// [`popup_outcome`]).
    pub fn launch_outcome(return_code: i32) -> (r: Result<(), Error>)
        ensures
            r == popup_outcome(return_code),
    {
        if return_code == ERROR_NONE || return_code == ERROR_SUCCESS {
            Ok(())
        } else if return_code == ERROR_NOT_SUPPORTED {
            Err(Error::NotSupported)
        } else if return_code == ERROR_HOME_BUTTON {
            Err(Error::HomePressed)
        } else if return_code == ERROR_POWER_BUTTON {
            Err(Error::PowerPressed)
        } else if return_code == ERROR_SOFTWARE_RESET {
            Err(Error::ResetPressed)
        } else {
            Err(Error::Unknown)
        }
    }
}

} // verus!

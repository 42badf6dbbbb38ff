//! GSPGPU service: framebuffer formats and GPU events.
use vstd::prelude::*;
use vstd::std_specs::convert::FromSpecImpl;

verus! {

/// GSPGPU events that can be waited on.
#[derive(Copy, Clone, Debug, PartialEq, Eq, Structural)]
pub enum Event {
    /// Memory fill 1 completed.
    Psc0,
    /// Memory fill 2 completed.
    Psc1,
    /// Top screen VBlank.
    VBlank0,
    /// Bottom screen VBlank.
    VBlank1,
    /// Display transfer completed.
    PPF,
    /// Command list processing completed.
    P3D,
    /// DMA transfer completed.
    DMA,
}

impl Event {
    /// The raw value of the variant.
    pub open spec fn raw_spec(self) -> u32 {
        match self {
            Event::Psc0 => 0,
            Event::Psc1 => 1,
            Event::VBlank0 => 2,
            Event::VBlank1 => 3,
            Event::PPF => 4,
            Event::P3D => 5,
            Event::DMA => 6,
        }
    }

    /// The variant with the given raw value, if any.
    pub open spec fn from_raw_spec(value: u32) -> Option<Event> {
        if value == 0 {
            Some(Event::Psc0)
        } else if value == 1 {
            Some(Event::Psc1)
        } else if value == 2 {
            Some(Event::VBlank0)
        } else if value == 3 {
            Some(Event::VBlank1)
        } else if value == 4 {
            Some(Event::PPF)
        } else if value == 5 {
            Some(Event::P3D)
        } else if value == 6 {
            Some(Event::DMA)
        } else {
            None
        }
    }

    /// The raw value of the variant.
    pub fn raw(self) -> (r: u32)
        ensures
            r == self.raw_spec(),
    {
        match self {
            Event::Psc0 => 0,
            Event::Psc1 => 1,
            Event::VBlank0 => 2,
            Event::VBlank1 => 3,
            Event::PPF => 4,
            Event::P3D => 5,
            Event::DMA => 6,
        }
    }

    /// The variant with the given raw value, if any.
    pub fn from_raw(value: u32) -> (r: Option<Event>)
        ensures
            r == Self::from_raw_spec(value),
    {
        match value {
            0 => Some(Event::Psc0),
            1 => Some(Event::Psc1),
            2 => Some(Event::VBlank0),
            3 => Some(Event::VBlank1),
            4 => Some(Event::PPF),
            5 => Some(Event::P3D),
            6 => Some(Event::DMA),
            _ => None,
        }
    }
}

impl From<Event> for u32 {
    fn from(v: Event) -> (r: u32) {
        v.raw()
    }
}

impl FromSpecImpl<Event> for u32 {
    open spec fn obeys_from_spec() -> bool {
        true
    }

    open spec fn from_spec(v: Event) -> u32 {
        v.raw_spec()
    }
}

/// Framebuffer formats supported by the 3DS' screens.
#[derive(Copy, Clone, Debug, PartialEq, Eq, Structural)]
pub enum FramebufferFormat {
    /// RGBA8. 4 bytes per pixel.
    Rgba8,
    /// BGR8. 3 bytes per pixel.
    Bgr8,
    /// RGB565. 2 bytes per pixel.
    Rgb565,
    /// RGB5A1. 2 bytes per pixel.
    Rgb5A1,
    /// RGBA4. 2 bytes per pixel.
    Rgba4,
}

impl FramebufferFormat {
    /// The raw value of the variant.
    pub open spec fn raw_spec(self) -> u32 {
        match self {
            FramebufferFormat::Rgba8 => 0,
            FramebufferFormat::Bgr8 => 1,
            FramebufferFormat::Rgb565 => 2,
            FramebufferFormat::Rgb5A1 => 3,
            FramebufferFormat::Rgba4 => 4,
        }
    }

    /// The variant with the given raw value, if any.
    pub open spec fn from_raw_spec(value: u32) -> Option<FramebufferFormat> {
        if value == 0 {
            Some(FramebufferFormat::Rgba8)
        } else if value == 1 {
            Some(FramebufferFormat::Bgr8)
        } else if value == 2 {
            Some(FramebufferFormat::Rgb565)
        } else if value == 3 {
            Some(FramebufferFormat::Rgb5A1)
        } else if value == 4 {
            Some(FramebufferFormat::Rgba4)
        } else {
            None
        }
    }

    /// The raw value of the variant.
    pub fn raw(self) -> (r: u32)
        ensures
            r == self.raw_spec(),
    {
        match self {
            FramebufferFormat::Rgba8 => 0,
            FramebufferFormat::Bgr8 => 1,
            FramebufferFormat::Rgb565 => 2,
            FramebufferFormat::Rgb5A1 => 3,
            FramebufferFormat::Rgba4 => 4,
        }
    }

    /// The variant with the given raw value, if any.
    pub fn from_raw(value: u32) -> (r: Option<FramebufferFormat>)
        ensures
            r == Self::from_raw_spec(value),
    {
        match value {
            0 => Some(FramebufferFormat::Rgba8),
            1 => Some(FramebufferFormat::Bgr8),
            2 => Some(FramebufferFormat::Rgb565),
            3 => Some(FramebufferFormat::Rgb5A1),
            4 => Some(FramebufferFormat::Rgba4),
            _ => None,
        }
    }
}

impl From<FramebufferFormat> for u32 {
    fn from(v: FramebufferFormat) -> (r: u32) {
        v.raw()
    }
}

impl FromSpecImpl<FramebufferFormat> for u32 {
    open spec fn obeys_from_spec() -> bool {
        true
    }

    open spec fn from_spec(v: FramebufferFormat) -> u32 {
        v.raw_spec()
    }
}

impl FramebufferFormat {
    /// The number of bytes of one pixel in each format.
    pub open spec fn pixel_depth_spec(self) -> nat {
        match self {
            FramebufferFormat::Rgba8 => 4,
            FramebufferFormat::Bgr8 => 3,
            FramebufferFormat::Rgb565 => 2,
            FramebufferFormat::Rgb5A1 => 2,
            FramebufferFormat::Rgba4 => 2,
        }
    }

    /// Returns the number of bytes used by one pixel of the format.
    pub fn pixel_depth_bytes(&self) -> (n: usize)
        ensures
            n == self.pixel_depth_spec(),
    {
        match *self {
            FramebufferFormat::Rgba8 => 4,
            FramebufferFormat::Bgr8 => 3,
            FramebufferFormat::Rgb565 => 2,
            FramebufferFormat::Rgb5A1 => 2,
            FramebufferFormat::Rgba4 => 2,
        }
    }

    /// The format with the given raw value, which must be one that the system uses.
    pub fn from(g: u32) -> (f: FramebufferFormat)
        requires
            FramebufferFormat::from_raw_spec(g) is Some,
        ensures
            FramebufferFormat::from_raw_spec(g) == Some(f),
    {
        match FramebufferFormat::from_raw(g) {
            Some(f) => f,
            None => FramebufferFormat::Rgba8,
        }
    }
}

/// Converting a [`FramebufferFormat`] to its raw value and back gives the same variant, and
/// a raw value that stands for a variant converts back to that same raw value.
pub proof fn framebuffer_format_raw_round_trip(v: FramebufferFormat, raw: u32)
    ensures
        FramebufferFormat::from_raw_spec(v.raw_spec()) == Some(v),
        FramebufferFormat::from_raw_spec(raw) matches Some(w) ==> w.raw_spec() == raw,
{
}

} // verus!

//! NDSP (audio) service: the channels that may be handed out, the formats of
//! audio samples, and the errors of the service.
use vstd::prelude::*;
use vstd::std_specs::convert::FromSpecImpl;
use crate::error::Error;
use crate::services::reference::{ServiceCounter, ServiceReference, count_after_acquire, effective_count, must_start, refused_as_active};
use crate::text::{dec_digits, decimal_string};

pub mod wave;

use wave::{Status, Wave};

verus! {

/// The number of audio channels of the DSP.
pub const NUMBER_OF_CHANNELS: u8 = 24;

/// Audio output mode.
#[derive(Copy, Clone, Debug, PartialEq, Eq, Structural)]
pub enum OutputMode {
    /// Single-Channel.
    Mono,
    /// Dual-Channel.
    Stereo,
    /// Surround.
    Surround,
}

impl OutputMode {
    /// The raw value of the variant.
    pub open spec fn raw_spec(self) -> u32 {
        match self {
            OutputMode::Mono => 0,
            OutputMode::Stereo => 1,
            OutputMode::Surround => 2,
        }
    }

    /// The variant with the given raw value, if any.
    pub open spec fn from_raw_spec(value: u32) -> Option<OutputMode> {
        if value == 0 {
            Some(OutputMode::Mono)
        } else if value == 1 {
            Some(OutputMode::Stereo)
        } else if value == 2 {
            Some(OutputMode::Surround)
        } else {
            None
        }
    }

    /// The raw value of the variant.
    pub fn raw(self) -> (r: u32)
        ensures
            r == self.raw_spec(),
    {
        match self {
            OutputMode::Mono => 0,
            OutputMode::Stereo => 1,
            OutputMode::Surround => 2,
        }
    }

    /// The variant with the given raw value, if any.
    pub fn from_raw(value: u32) -> (r: Option<OutputMode>)
        ensures
            r == Self::from_raw_spec(value),
    {
        match value {
            0 => Some(OutputMode::Mono),
            1 => Some(OutputMode::Stereo),
            2 => Some(OutputMode::Surround),
            _ => None,
        }
    }
}

impl From<OutputMode> for u32 {
    fn from(v: OutputMode) -> (r: u32) {
        v.raw()
    }
}

impl FromSpecImpl<OutputMode> for u32 {
    open spec fn obeys_from_spec() -> bool {
        true
    }

    open spec fn from_spec(v: OutputMode) -> u32 {
        v.raw_spec()
    }
}

/// Audio PCM format.
#[derive(Copy, Clone, Debug, PartialEq, Eq, Structural)]
pub enum AudioFormat {
    /// PCM 8bit single-channel.
    PCM8Mono,
    /// PCM 16bit single-channel.
    PCM16Mono,
    /// PCM 8bit dual-channel.
    PCM8Stereo,
    /// PCM 16bit dual-channel.
    PCM16Stereo,
}

impl AudioFormat {
    /// The raw value of the variant.
    pub open spec fn raw_spec(self) -> u16 {
        match self {
            AudioFormat::PCM8Mono => 1,
            AudioFormat::PCM16Mono => 5,
            AudioFormat::PCM8Stereo => 2,
            AudioFormat::PCM16Stereo => 6,
        }
    }

    /// The variant with the given raw value, if any.
    pub open spec fn from_raw_spec(value: u16) -> Option<AudioFormat> {
        if value == 1 {
            Some(AudioFormat::PCM8Mono)
        } else if value == 5 {
            Some(AudioFormat::PCM16Mono)
        } else if value == 2 {
            Some(AudioFormat::PCM8Stereo)
        } else if value == 6 {
            Some(AudioFormat::PCM16Stereo)
        } else {
            None
        }
    }

    /// The raw value of the variant.
    pub fn raw(self) -> (r: u16)
        ensures
            r == self.raw_spec(),
    {
        match self {
            AudioFormat::PCM8Mono => 1,
            AudioFormat::PCM16Mono => 5,
            AudioFormat::PCM8Stereo => 2,
            AudioFormat::PCM16Stereo => 6,
        }
    }

    /// The variant with the given raw value, if any.
    pub fn from_raw(value: u16) -> (r: Option<AudioFormat>)
        ensures
            r == Self::from_raw_spec(value),
    {
        match value {
            1 => Some(AudioFormat::PCM8Mono),
            5 => Some(AudioFormat::PCM16Mono),
            2 => Some(AudioFormat::PCM8Stereo),
            6 => Some(AudioFormat::PCM16Stereo),
            _ => None,
        }
    }
}

impl From<AudioFormat> for u16 {
    fn from(v: AudioFormat) -> (r: u16) {
        v.raw()
    }
}

impl FromSpecImpl<AudioFormat> for u16 {
    open spec fn obeys_from_spec() -> bool {
        true
    }

    open spec fn from_spec(v: AudioFormat) -> u16 {
        v.raw_spec()
    }
}

/// Interpolation used between audio frames.
#[derive(Copy, Clone, Debug, PartialEq, Eq, Structural)]
pub enum InterpolationType {
    /// Polyphase interpolation.
    Polyphase,
    /// Linear interpolation.
    Linear,
    /// No interpolation.
    NoInterpolation,
}

impl InterpolationType {
    /// The raw value of the variant.
    pub open spec fn raw_spec(self) -> u32 {
        match self {
            InterpolationType::Polyphase => 0,
            InterpolationType::Linear => 1,
            InterpolationType::NoInterpolation => 2,
        }
    }

    /// The variant with the given raw value, if any.
    pub open spec fn from_raw_spec(value: u32) -> Option<InterpolationType> {
        if value == 0 {
            Some(InterpolationType::Polyphase)
        } else if value == 1 {
            Some(InterpolationType::Linear)
        } else if value == 2 {
            Some(InterpolationType::NoInterpolation)
        } else {
            None
        }
    }

    /// The raw value of the variant.
    pub fn raw(self) -> (r: u32)
        ensures
            r == self.raw_spec(),
    {
        match self {
            InterpolationType::Polyphase => 0,
            InterpolationType::Linear => 1,
            InterpolationType::NoInterpolation => 2,
        }
    }

    /// The variant with the given raw value, if any.
    pub fn from_raw(value: u32) -> (r: Option<InterpolationType>)
        ensures
            r == Self::from_raw_spec(value),
    {
        match value {
            0 => Some(InterpolationType::Polyphase),
            1 => Some(InterpolationType::Linear),
            2 => Some(InterpolationType::NoInterpolation),
            _ => None,
        }
    }
}

impl From<InterpolationType> for u32 {
    fn from(v: InterpolationType) -> (r: u32) {
        v.raw()
    }
}

impl FromSpecImpl<InterpolationType> for u32 {
    open spec fn obeys_from_spec() -> bool {
        true
    }

    open spec fn from_spec(v: InterpolationType) -> u32 {
        v.raw_spec()
    }
}

impl AudioFormat {
    /// The number of bytes that one sample takes.
    pub open spec fn size_spec(self) -> usize {
        match self {
            AudioFormat::PCM8Mono => 1,
            AudioFormat::PCM16Mono | AudioFormat::PCM8Stereo => 2,
            AudioFormat::PCM16Stereo => 4,
        }
    }

    /// Returns the amount of bytes needed to store one sample: 1 for 8 bit mono, 2
    /// for 16 bit mono and 8 bit stereo, 4 for 16 bit stereo.
    pub fn size(self) -> (n: usize)
        ensures
            n == self.size_spec(),
            n > 0,
    {
        match self {
            AudioFormat::PCM8Mono => 1,
            AudioFormat::PCM16Mono | AudioFormat::PCM8Stereo => 2,
            AudioFormat::PCM16Stereo => 4,
        }
    }
}

/// Error enum returned by NDSP methods.
#[derive(Copy, Clone, Debug, PartialEq, Eq, Structural)]
pub enum NdspError {
    /// Channel ID
    InvalidChannel(u8),
    /// Channel ID
    ChannelAlreadyInUse(u8),
    /// Channel ID
    WaveBusy(u8),
    /// Sample amount requested, Max sample amount
    SampleCountOutOfBounds(usize, usize),
}

/// The human-readable text of an NDSP error.
pub open spec fn ndsp_error_text(e: NdspError) -> Seq<char> {
    match e {
        NdspError::InvalidChannel(id) => "audio Channel with ID "@ + dec_digits(id as nat)
            + " doesn't exist. Valid channels have an ID between 0 and 23"@,
        NdspError::ChannelAlreadyInUse(id) => "audio Channel with ID "@ + dec_digits(id as nat)
            + " is already being used. Drop the other instance if you want to use it here"@,
        NdspError::WaveBusy(id) => "the selected Wave is busy playing on channel "@ + dec_digits(id as nat),
        NdspError::SampleCountOutOfBounds(requested, max) => "the sample count requested is too big (requested = "@
            + dec_digits(requested as nat) + ", maximum = "@ + dec_digits(max as nat) + ")"@,
    }
}

impl NdspError {
    /// The human-readable text of the error (see [`ndsp_error_text`]).
    pub fn to_display_string(&self) -> (s: String)
        ensures
            s@ == ndsp_error_text(*self),
    {
        match self {
            NdspError::InvalidChannel(id) => {
                let n = decimal_string(*id as u64);
                let mut s = String::from_str("audio Channel with ID ");
                s.append(n.as_str());
                s.append(" doesn't exist. Valid channels have an ID between 0 and 23");
                s
            },
            NdspError::ChannelAlreadyInUse(id) => {
                let n = decimal_string(*id as u64);
                let mut s = String::from_str("audio Channel with ID ");
                s.append(n.as_str());
                s.append(" is already being used. Drop the other instance if you want to use it here");
                s
            },
            NdspError::WaveBusy(id) => {
                let n = decimal_string(*id as u64);
                let mut s = String::from_str("the selected Wave is busy playing on channel ");
                s.append(n.as_str());
                s
            },
            NdspError::SampleCountOutOfBounds(requested, max) => {
                let r = decimal_string(*requested as u64);
                let m = decimal_string(*max as u64);
                let mut s = String::from_str("the sample count requested is too big (requested = ");
                s.append(r.as_str());
                s.append(", maximum = ");
                s.append(m.as_str());
                s.append(")");
                s
            },
        }
    }
}

/// What asking for channel `id` gives, when `in_use` tells which channels are
/// handed out: an invalid ID is refused, a channel in use is refused, any other is
/// handed out.
pub open spec fn channel_outcome(in_use: Seq<bool>, id: u8) -> Result<u8, NdspError> {
    if id >= NUMBER_OF_CHANNELS {
        Err(NdspError::InvalidChannel(id))
    } else if in_use[id as int] {
        Err(NdspError::ChannelAlreadyInUse(id))
    } else {
        Ok(id)
    }
}

/// An audio channel handed out by [`Ndsp::channel`].
pub struct Channel {
    id: u8,
}

/// Handler of the DSP service and of its audio channels: a channel is handed out
/// to one holder at a time.
pub struct Ndsp {
    _service_handler: ServiceReference,
    channel_flags: Vec<bool>,
}

impl View for Ndsp {
    type V = Seq<bool>;

    /// Which channels are handed out.
    closed spec fn view(&self) -> Seq<bool> {
        self.channel_flags@
    }
}

impl Ndsp {
    /// Whether the handler tracks one flag per channel.
    pub open spec fn wf(&self) -> bool {
        self@.len() == NUMBER_OF_CHANNELS
    }

    /// Initializes the service with `start` (closing it with `close` after a lost
    /// handle); a single handle may be live at a time. No channel is handed out.
    pub fn new<S, E>(counter: &mut ServiceCounter, start: S, close: E) -> (r: Result<Ndsp, Error>) where
        S: FnOnce() -> Result<(), Error>,
        E: FnOnce(),
        requires
            must_start(effective_count(old(counter)@)) ==> call_requires(start, ()),
            old(counter)@.poisoned ==> call_requires(close, ()),
            old(counter)@.count < usize::MAX,
        ensures
            refused_as_active(effective_count(old(counter)@), false) ==> r matches Err(Error::ServiceAlreadyActive),
            final(counter)@.count == count_after_acquire(effective_count(old(counter)@), false, r is Ok),
            !final(counter)@.poisoned,
            must_start(effective_count(old(counter)@)) ==> (r is Ok ==> call_ensures(start, (), Ok::<(), Error>(()))),
            must_start(effective_count(old(counter)@)) ==> (r matches Err(e) ==> call_ensures(start, (), Err::<(), Error>(e))),
            r matches Ok(n) ==> n.wf() && forall|i: int| 0 <= i < NUMBER_OF_CHANNELS ==> !#[trigger] n@[i],
    {
        let handler = ServiceReference::new(counter, false, start, close)?;
        let mut flags: Vec<bool> = Vec::new();
        let mut i: u8 = 0;
        while i < NUMBER_OF_CHANNELS
            invariant
                i <= NUMBER_OF_CHANNELS,
                flags@.len() == i,
                forall|k: int| 0 <= k < i ==> !#[trigger] flags@[k],
            decreases NUMBER_OF_CHANNELS - i,
        {
            flags.push(false);
            i = i + 1;
        }
        Ok(Ndsp { _service_handler: handler, channel_flags: flags })
    }

    /// Hands out channel `id`: refused with [`NdspError::InvalidChannel`] unless
    /// it is between 0 and 23, and with [`NdspError::ChannelAlreadyInUse`] while
    /// it is handed out.
    pub fn channel(&mut self, id: u8) -> (r: Result<Channel, NdspError>)
        requires
            old(self).wf(),
        ensures
            final(self).wf(),
            match channel_outcome(old(self)@, id) {
                Ok(i) => r matches Ok(c) && c.id_spec() == i && final(self)@ == old(self)@.update(i as int, true),
                Err(e) => r == Err::<Channel, NdspError>(e) && final(self)@ == old(self)@,
            },
    {
        if id >= NUMBER_OF_CHANNELS {
            return Err(NdspError::InvalidChannel(id));
        }
        if self.channel_flags[id as usize] {
            return Err(NdspError::ChannelAlreadyInUse(id));
        }
        self.channel_flags.set(id as usize, true);
        Ok(Channel { id })
    }

    /// Releases the handle once no channel is handed out: every channel is reset
    /// with `reset`, and the service is closed with `close` when it was the last
    /// handle.
    pub fn drop_with<R, E>(self, counter: &mut ServiceCounter, reset: R, close: E) -> (closed: bool) where
        R: Fn(u8),
        E: FnOnce(),
        requires
            self.wf(),
            forall|i: int| 0 <= i < NUMBER_OF_CHANNELS ==> !#[trigger] self@[i],
            forall|i: u8| i < NUMBER_OF_CHANNELS ==> call_requires(reset, (i,)),
            old(counter)@.count > 0,
            old(counter)@.count == 1 ==> call_requires(close, ()),
        ensures
            final(counter)@.count == old(counter)@.count - 1,
            closed == (final(counter)@.count == 0),
            forall|i: u8| i < NUMBER_OF_CHANNELS ==> #[trigger] call_ensures(reset, (i,), ()),
    {
        let mut i: u8 = 0;
        while i < NUMBER_OF_CHANNELS
            invariant
                i <= NUMBER_OF_CHANNELS,
                forall|k: u8| k < NUMBER_OF_CHANNELS ==> call_requires(reset, (k,)),
                forall|k: u8| k < i ==> #[trigger] call_ensures(reset, (k,), ()),
            decreases NUMBER_OF_CHANNELS - i,
        {
            reset(i);
            i = i + 1;
        }
        self._service_handler.release(counter, close)
    }
}

impl Channel {
    /// The channel's ID.
    pub closed spec fn id_spec(&self) -> u8 {
        self.id
    }

    /// Returns the channel's ID.
    pub fn id(&self) -> (i: u8)
        ensures
            i == self.id_spec(),
    {
        self.id
    }

    /// Gives the channel back to its handler, which may hand it out again.
    pub fn release(self, ndsp: &mut Ndsp)
        requires
            old(ndsp).wf(),
            self.id_spec() < NUMBER_OF_CHANNELS,
        ensures
            final(ndsp).wf(),
            final(ndsp)@ == old(ndsp)@.update(self.id_spec() as int, false),
    {
        ndsp.channel_flags.set(self.id as usize, false);
    }

    /// Prepares a wave for this channel's queue: refused with
    /// [`NdspError::WaveBusy`] while the wave is queued or playing; otherwise the
    /// wave records that it is played on this channel, and may be added to the
    /// channel's queue.
    pub fn queue_wave(&mut self, wave: &mut Wave) -> (r: Result<(), NdspError>)
        requires
            Status::from_raw_spec(old(wave).raw_status()) is Some,
        ensures
            final(self).id_spec() == old(self).id_spec(),
            old(wave).is_busy() ==> r == Err::<(), NdspError>(NdspError::WaveBusy(old(self).id_spec())) && *final(wave) == *old(wave),
            !old(wave).is_busy() ==> r is Ok && *final(wave) == old(wave).played_on(old(self).id_spec()),
    {
        let status = wave.status();
        match status {
            Status::Playing | Status::Queued => {
                return Err(NdspError::WaveBusy(self.id));
            },
            _ => {},
        }
        wave.set_channel(self.id);
        Ok(())
    }
}

/// A channel that is handed out is refused until it is released, and is handed
/// out again after its release; a channel ID of 24 or more is always refused.
pub proof fn channel_handed_out_once(in_use: Seq<bool>, id: u8)
    requires
        in_use.len() == NUMBER_OF_CHANNELS,
        channel_outcome(in_use, id) is Ok,
    ensures
        channel_outcome(in_use.update(id as int, true), id) == Err::<u8, NdspError>(NdspError::ChannelAlreadyInUse(id)),
        channel_outcome(in_use.update(id as int, true).update(id as int, false), id) == Ok::<u8, NdspError>(id),
        forall|other: u8| other != id ==> #[trigger] channel_outcome(in_use.update(id as int, true), other) == channel_outcome(in_use, other),
{
    assert(in_use.update(id as int, true).update(id as int, false) == in_use);
}

/// Every channel ID from 24 up is refused as invalid, whatever is handed out.
pub proof fn out_of_range_channel_refused(in_use: Seq<bool>, id: u8)
    requires
        id >= NUMBER_OF_CHANNELS,
    ensures
        channel_outcome(in_use, id) == Err::<u8, NdspError>(NdspError::InvalidChannel(id)),
{
}

} // verus!

//! Audio waves: the sample data of a sound and its playback state.
use vstd::prelude::*;
use vstd::std_specs::convert::TryFromSpecImpl;
use super::{AudioFormat, NdspError};

verus! {

/// Playback status of a [`Wave`].
#[derive(Copy, Clone, Debug, PartialEq, Eq, Structural)]
pub enum Status {
    /// Wave has never been used.
    Free,
    /// Wave is currently queued for usage.
    Queued,
    /// Wave is currently playing.
    Playing,
    /// Wave has finished playing.
    Done,
}

impl Status {
    /// The raw value of the variant.
    pub open spec fn raw_spec(self) -> u8 {
        match self {
            Status::Free => 0,
            Status::Queued => 1,
            Status::Playing => 2,
            Status::Done => 3,
        }
    }

    /// The variant with the given raw value, if any.
    pub open spec fn from_raw_spec(value: u8) -> Option<Status> {
        if value == 0 {
            Some(Status::Free)
        } else if value == 1 {
            Some(Status::Queued)
        } else if value == 2 {
            Some(Status::Playing)
        } else if value == 3 {
            Some(Status::Done)
        } else {
            None
        }
    }

    /// The raw value of the variant.
    pub fn raw(self) -> (r: u8)
        ensures
            r == self.raw_spec(),
    {
        match self {
            Status::Free => 0,
            Status::Queued => 1,
            Status::Playing => 2,
            Status::Done => 3,
        }
    }

    /// The variant with the given raw value, if any.
    pub fn from_raw(value: u8) -> (r: Option<Status>)
        ensures
            r == Self::from_raw_spec(value),
    {
        match value {
            0 => Some(Status::Free),
            1 => Some(Status::Queued),
            2 => Some(Status::Playing),
            3 => Some(Status::Done),
            _ => None,
        }
    }
}

/// Converting a [`Status`] to its raw value and back gives the same variant, and
/// a raw value that stands for a variant converts back to that same raw value.
pub proof fn status_round_trip(v: Status, raw: u8)
    ensures
        Status::from_raw_spec(v.raw_spec()) == Some(v),
        Status::from_raw_spec(raw) matches Some(w) ==> w.raw_spec() == raw,
{
}

impl TryFrom<u8> for Status {
    type Error = &'static str;

    fn try_from(value: u8) -> (r: Result<Status, &'static str>) {
        match Status::from_raw(value) {
            Some(v) => Ok(v),
            None => Err("Invalid Wave Status code"),
        }
    }
}

impl TryFromSpecImpl<u8> for Status {
    open spec fn obeys_try_from_spec() -> bool {
        true
    }

    open spec fn try_from_spec(value: u8) -> Result<Status, &'static str> {
        match Status::from_raw_spec(value) {
            Some(v) => Ok(v),
            None => Err("Invalid Wave Status code"),
        }
    }
}

/// Informational struct holding the raw audio data and playback info.
pub struct Wave {
    buffer: Vec<u8>,
    audio_format: AudioFormat,
    sample_count: u32,
    looping: bool,
    status: u8,
    played_on_channel: Option<u8>,
}

/// The state of a [`Wave`].
pub struct WaveState {
    /// The audio data.
    pub buffer: Seq<u8>,
    /// The format of the audio data.
    pub audio_format: AudioFormat,
    /// The number of samples to be read.
    pub sample_count: u32,
    /// Whether the wave loops.
    pub looping: bool,
    /// The raw playback status, as the DSP reports it.
    pub status: u8,
    /// The channel the wave was last queued on.
    pub played_on_channel: Option<u8>,
}

impl View for Wave {
    type V = WaveState;

    closed spec fn view(&self) -> WaveState {
        WaveState {
            buffer: self.buffer@,
            audio_format: self.audio_format,
            sample_count: self.sample_count,
            looping: self.looping,
            status: self.status,
            played_on_channel: self.played_on_channel,
        }
    }
}

/// The number of whole samples of a format that a buffer holds.
pub open spec fn samples_in(len: nat, format: AudioFormat) -> nat {
    len / (format.size_spec() as nat)
}

impl Wave {
    /// The raw playback status.
    pub open spec fn raw_status(&self) -> u8 {
        self@.status
    }

    /// Whether the wave is queued or playing.
    pub open spec fn is_busy(&self) -> bool {
        self@.status == 1 || self@.status == 2
    }

    /// The wave after it was queued on `channel`.
    pub closed spec fn played_on(self, channel: u8) -> Wave {
        Wave { played_on_channel: Some(channel), ..self }
    }

    /// A wave over `buffer`, reading every whole sample of it, never played.
    pub fn new(buffer: Vec<u8>, audio_format: AudioFormat, looping: bool) -> (w: Wave)
        ensures
            w@.buffer == buffer@,
            w@.audio_format == audio_format,
            w@.sample_count == samples_in(buffer@.len(), audio_format) as u32,
            w@.looping == looping,
            w@.status == 0,
            w@.played_on_channel is None,
    {
        let sample_count = buffer.len() / audio_format.size();
        Wave {
            buffer,
            audio_format,
            sample_count: sample_count as u32,
            looping,
            status: 0,
            played_on_channel: None,
        }
    }

    /// Records the playback status that the DSP reports.
    pub fn update_status(&mut self, raw: u8)
        ensures
            final(self)@ == (WaveState { status: raw, ..old(self)@ }),
    {
        self.status = raw;
    }

    /// Returns the audio data.
    pub fn get_buffer(&self) -> (b: &[u8])
        ensures
            b@ == self@.buffer,
    {
        self.buffer.as_slice()
    }

    /// Returns the audio data for writing: refused with [`NdspError::WaveBusy`]
    /// while the wave is queued or playing.
    pub fn get_raw_buffer_mut(&mut self) -> (r: Result<&mut Vec<u8>, NdspError>)
        requires
            Status::from_raw_spec(old(self)@.status) is Some,
            old(self).is_busy() ==> old(self)@.played_on_channel is Some,
        ensures
            old(self).is_busy() ==> r == Err::<&mut Vec<u8>, NdspError>(NdspError::WaveBusy(old(self)@.played_on_channel.unwrap()))
                && final(self)@ == old(self)@,
            !old(self).is_busy() ==> (r matches Ok(b) && b@ == old(self)@.buffer
                && final(self)@ == (WaveState { buffer: final(b)@, ..old(self)@ })),
    {
        match self.status() {
            Status::Playing | Status::Queued => Err(NdspError::WaveBusy(self.played_on_channel.unwrap())),
            _ => Ok(&mut self.buffer),
        }
    }

    /// Returns this wave's playback status.
    pub fn status(&self) -> (s: Status)
        requires
            Status::from_raw_spec(self@.status) is Some,
        ensures
            Some(s) == Status::from_raw_spec(self@.status),
    {
        Status::from_raw(self.status).unwrap()
    }

    /// Returns the amount of samples to be read.
    pub fn sample_count(&self) -> (n: usize)
        ensures
            n == self@.sample_count,
    {
        self.sample_count as usize
    }

    /// Returns the format of the audio data.
    pub fn format(&self) -> (f: AudioFormat)
        ensures
            f == self@.audio_format,
    {
        self.audio_format
    }

    /// Records the channel the wave is played on.
    pub(crate) fn set_channel(&mut self, id: u8)
        ensures
            *final(self) == old(self).played_on(id),
    {
        self.played_on_channel = Some(id);
    }

    /// Sets the amount of samples to be read: refused with
    /// [`NdspError::WaveBusy`] while the wave is queued or playing, and with
    /// [`NdspError::SampleCountOutOfBounds`] beyond the samples the buffer holds.
    pub fn set_sample_count(&mut self, sample_count: usize) -> (r: Result<(), NdspError>)
        requires
            Status::from_raw_spec(old(self)@.status) is Some,
            old(self).is_busy() ==> old(self)@.played_on_channel is Some,
        ensures
            old(self).is_busy() ==> r == Err::<(), NdspError>(NdspError::WaveBusy(old(self)@.played_on_channel.unwrap()))
                && final(self)@ == old(self)@,
            !old(self).is_busy() && sample_count > samples_in(old(self)@.buffer.len(), old(self)@.audio_format) ==> r == Err::<(), NdspError>(
                NdspError::SampleCountOutOfBounds(sample_count, samples_in(old(self)@.buffer.len(), old(self)@.audio_format) as usize),
            ) && final(self)@ == old(self)@,
            !old(self).is_busy() && sample_count <= samples_in(old(self)@.buffer.len(), old(self)@.audio_format) ==> r is Ok
                && final(self)@ == (WaveState { sample_count: sample_count as u32, ..old(self)@ }),
    {
        match self.status() {
            Status::Playing | Status::Queued => {
                return Err(NdspError::WaveBusy(self.played_on_channel.unwrap()));
            },
            _ => {},
        }
        let max_count = self.buffer.len() / self.audio_format.size();
        if sample_count > max_count {
            return Err(NdspError::SampleCountOutOfBounds(sample_count, max_count));
        }
        self.sample_count = sample_count as u32;
        Ok(())
    }

    /// The channel whose queue must be cleared when the wave goes away while it
    /// is queued or playing.
    pub fn channel_to_clear(&self) -> (c: Option<u8>)
        requires
            Status::from_raw_spec(self@.status) is Some,
            self.is_busy() ==> self@.played_on_channel is Some,
        ensures
            c == (if self.is_busy() { self@.played_on_channel } else { None }),
    {
        match self.status() {
            Status::Free | Status::Done => None,
            _ => self.played_on_channel,
        }
    }
}

} // verus!

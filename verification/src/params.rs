//! The parameter record of an output device and the rules a record must meet.

use vstd::prelude::*;

verus! {

/// Parameters of an output device.
#[derive(Copy, Clone, Debug, PartialEq, Eq, Structural)]
pub struct OutputDeviceParameters {
    /// Sample rate of the audio data, in Hz. Typical values are 11025, 22050,
    /// 44100, 48000 and 96000.
    pub sample_rate: usize,
    /// Amount of audio channels, at least one. The data that the producer
    /// writes is interleaved: with two channels the layout is `LRLRLR..`.
    pub channels_count: usize,
    /// Amount of samples per channel in one period. The buffer handed to the
    /// producer holds `channel_sample_count * channels_count` samples on every
    /// call.
    pub channel_sample_count: usize,
}

/// Why a parameter record is refused.
#[derive(Copy, Clone, Debug, PartialEq, Eq, Structural)]
pub enum ParameterError {
    /// `channels_count` is zero.
    NoChannels,
    /// `sample_rate` is zero.
    ZeroSampleRate,
    /// `channel_sample_count` is zero.
    EmptyPeriod,
    /// One period of samples is longer than [`max_period_samples`].
    PeriodTooLong,
    /// A value does not fit the field that the native interface has for it.
    BeyondNativeRange,
    /// The sample rate is above the highest that the native library takes.
    SampleRateAboveMaximum,
    /// There are more channels than the native library takes.
    ChannelsAboveMaximum,
}

impl ParameterError {
    /// What the error says, in words.
    pub open spec fn message_of(self) -> Seq<char> {
        match self {
            ParameterError::NoChannels => "The channel count must be at least one."@,
            ParameterError::ZeroSampleRate => "The sample rate must be above zero."@,
            ParameterError::EmptyPeriod => "The sample count per channel must be above zero."@,
            ParameterError::PeriodTooLong => "The buffer of one period is too long."@,
            ParameterError::BeyondNativeRange => "A parameter is beyond the range of the native audio interface."@,
            ParameterError::SampleRateAboveMaximum => "The sample rate exceeds the maximum value."@,
            ParameterError::ChannelsAboveMaximum => "The channel count exceeds the maximum value."@,
        }
    }

    /// Says in words why the parameter record is refused.
    pub fn message(&self) -> (text: &'static str)
        ensures
            text@ == self.message_of(),
    {
        match self {
            ParameterError::NoChannels => "The channel count must be at least one.",
            ParameterError::ZeroSampleRate => "The sample rate must be above zero.",
            ParameterError::EmptyPeriod => "The sample count per channel must be above zero.",
            ParameterError::PeriodTooLong => "The buffer of one period is too long.",
            ParameterError::BeyondNativeRange => "A parameter is beyond the range of the native audio interface.",
            ParameterError::SampleRateAboveMaximum => "The sample rate exceeds the maximum value.",
            ParameterError::ChannelsAboveMaximum => "The channel count exceeds the maximum value.",
        }
    }
}

/// The longest period, in samples, that a device accepts: a period of
/// four-byte samples, doubled for a two-part ring, must stay addressable.
pub open spec fn max_period_samples() -> int {
    (usize::MAX / 8) as int
}

impl OutputDeviceParameters {
    /// The length, in samples, of every buffer that the producer fills.
    pub open spec fn samples_per_period(self) -> int {
        self.channel_sample_count * self.channels_count
    }

    /// The first rule that the record breaks, if it breaks one.
    pub open spec fn violation(self) -> Option<ParameterError> {
        if self.channels_count == 0 {
            Some(ParameterError::NoChannels)
        } else if self.sample_rate == 0 {
            Some(ParameterError::ZeroSampleRate)
        } else if self.channel_sample_count == 0 {
            Some(ParameterError::EmptyPeriod)
        } else if self.samples_per_period() > max_period_samples() {
            Some(ParameterError::PeriodTooLong)
        } else {
            None
        }
    }

    /// A record is valid when it breaks no rule.
    pub open spec fn is_valid(self) -> bool {
        self.violation() is None
    }

    /// Checks the record and returns the length of one period in samples.
    pub fn validate(&self) -> (r: Result<usize, ParameterError>)
        ensures
            match self.violation() {
                Some(e) => r == Err::<usize, ParameterError>(e),
                None => r == Ok::<usize, ParameterError>(self.samples_per_period() as usize),
            },
    {
        if self.channels_count == 0 {
            return Err(ParameterError::NoChannels);
        }
        if self.sample_rate == 0 {
            return Err(ParameterError::ZeroSampleRate);
        }
        if self.channel_sample_count == 0 {
            return Err(ParameterError::EmptyPeriod);
        }
        match self.channel_sample_count.checked_mul(self.channels_count) {
            Some(n) => {
                if n > usize::MAX / 8 {
                    Err(ParameterError::PeriodTooLong)
                } else {
                    Ok(n)
                }
            },
            None => Err(ParameterError::PeriodTooLong),
        }
    }

    /// In a valid record no count is above the length of one period, and a
    /// period of samples can be counted in bytes, one ring of two periods too.
    pub proof fn lemma_valid_bounds(self)
        requires
            self.is_valid(),
        ensures
            1 <= self.channels_count <= self.samples_per_period(),
            1 <= self.channel_sample_count <= self.samples_per_period(),
            self.samples_per_period() <= max_period_samples(),
            8 * self.samples_per_period() <= usize::MAX,
    {
        assert(self.channel_sample_count * self.channels_count >= self.channels_count
            && self.channel_sample_count * self.channels_count >= self.channel_sample_count)
            by (nonlinear_arith)
            requires
                self.channel_sample_count >= 1,
                self.channels_count >= 1,
        ;
    }

    /// The length, in samples, of every buffer that the producer fills.
    pub fn buffer_len(&self) -> (n: usize)
        requires
            self.is_valid(),
        ensures
            n == self.samples_per_period(),
            0 < n <= max_period_samples(),
    {
        proof {
            assert(self.channel_sample_count * self.channels_count >= 1) by (nonlinear_arith)
                requires
                    self.channel_sample_count >= 1,
                    self.channels_count >= 1,
            ;
        }
        self.channel_sample_count * self.channels_count
    }
}

} // verus!

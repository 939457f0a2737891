use tinyaudio::lockstep::{
    check, describe, failure_message, result_kind, ring_plan, Half, LockStepFeeder, LockStepPhase,
    LockStepStep, ResultKind, RingPlan, WaveFormat, DS_OK,
};
use tinyaudio::{FatalError, OutputDeviceParameters, ParameterError};

fn typical() -> OutputDeviceParameters {
    OutputDeviceParameters { sample_rate: 44100, channels_count: 2, channel_sample_count: 4410 }
}

/// A stand-in for the hardware ring: it plays its halves in turn, reports
/// the half that starts to play, and records every write against the half
/// that plays at that moment.
struct Ring {
    half_bytes: u32,
    playing: u32,
    data: Vec<i16>,
    written_halves: Vec<u32>,
    writes_into_playing_half: usize,
}

impl Ring {
    fn new(half_bytes: u32) -> Ring {
        Ring {
            half_bytes,
            playing: 1,
            data: vec![0; half_bytes as usize],
            written_halves: Vec::new(),
            writes_into_playing_half: 0,
        }
    }

    fn wait(&mut self) -> u32 {
        self.playing = 1 - self.playing;
        self.playing
    }

    fn write(&mut self, offset_bytes: u32, len_bytes: u32, samples: &[i16]) -> i32 {
        assert_eq!(len_bytes, self.half_bytes);
        assert_eq!(samples.len() * 2, len_bytes as usize);
        assert!(offset_bytes + len_bytes <= 2 * self.half_bytes);
        let playing_from = self.playing * self.half_bytes;
        let playing_to = playing_from + self.half_bytes;
        if offset_bytes < playing_to && playing_from < offset_bytes + len_bytes {
            self.writes_into_playing_half += 1;
        }
        let start = offset_bytes as usize / 2;
        self.data[start..start + samples.len()].copy_from_slice(samples);
        self.written_halves.push(offset_bytes / self.half_bytes);
        DS_OK
    }
}

fn drive(feeder: &mut LockStepFeeder, periods: usize, value: f32, ring: &mut Ring) -> Vec<usize> {
    let mut calls = Vec::new();
    let mut step = LockStepStep::CheckFlag;
    loop {
        step = match step {
            LockStepStep::CheckFlag => feeder.begin_period(calls.len() < periods),
            LockStepStep::Wait => feeder.signalled(ring.wait()),
            LockStepStep::Produce { len } => {
                calls.push(len);
                let buffer = vec![value.to_bits(); len];
                feeder.samples_ready(&buffer)
            }
            LockStepStep::Write { offset_bytes, len_bytes } => {
                let code = ring.write(offset_bytes, len_bytes, feeder.native());
                feeder.write_returned(code)
            }
            LockStepStep::Exit => break,
        };
    }
    calls
}

#[test]
fn feeder_never_writes_into_the_half_that_plays() {
    let mut feeder = LockStepFeeder::new(typical()).unwrap();
    let mut ring = Ring::new(17640);
    let calls = drive(&mut feeder, 50, 0.5, &mut ring);
    assert_eq!(calls, vec![8820; 50]);
    assert_eq!(ring.writes_into_playing_half, 0);
    assert_eq!(ring.written_halves.len(), 50);
    assert_eq!(feeder.phase(), LockStepPhase::Stopped);
}

#[test]
fn halves_are_written_in_turn() {
    let mut feeder = LockStepFeeder::new(typical()).unwrap();
    let mut ring = Ring::new(17640);
    drive(&mut feeder, 6, 0.5, &mut ring);
    // the first signal says that the first half plays: the second is written
    assert_eq!(ring.written_halves, vec![1, 0, 1, 0, 1, 0]);
    assert!(ring.data.iter().all(|&s| s == 16384));
}

#[test]
fn signal_names_the_half_that_plays_and_the_other_is_written() {
    let mut feeder = LockStepFeeder::new(typical()).unwrap();
    assert_eq!(feeder.begin_period(true), LockStepStep::Wait);
    assert_eq!(feeder.signalled(0), LockStepStep::Produce { len: 8820 });
    assert_eq!(feeder.playing(), Some(Half::First));
    assert_eq!(
        feeder.samples_ready(&vec![0; 8820]),
        LockStepStep::Write { offset_bytes: 17640, len_bytes: 17640 }
    );
    assert_eq!(feeder.write_returned(DS_OK), LockStepStep::CheckFlag);
    assert_eq!(feeder.last_written(), Some(Half::Second));

    assert_eq!(feeder.begin_period(true), LockStepStep::Wait);
    assert_eq!(feeder.signalled(1), LockStepStep::Produce { len: 8820 });
    assert_eq!(feeder.playing(), Some(Half::Second));
    assert_eq!(
        feeder.samples_ready(&vec![0; 8820]),
        LockStepStep::Write { offset_bytes: 0, len_bytes: 17640 }
    );
    assert_eq!(feeder.write_returned(DS_OK), LockStepStep::CheckFlag);
    assert_eq!(feeder.last_written(), Some(Half::First));
}

#[test]
fn unknown_signal_ends_the_feeder() {
    let mut feeder = LockStepFeeder::new(typical()).unwrap();
    feeder.begin_period(true);
    assert_eq!(feeder.signalled(258), LockStepStep::Exit);
    assert_eq!(feeder.fault(), Some(FatalError::UnknownSignal { signal: 258 }));
    assert_eq!(feeder.begin_period(true), LockStepStep::Exit);
}

#[test]
fn failed_native_write_ends_the_feeder() {
    let mut feeder = LockStepFeeder::new(typical()).unwrap();
    feeder.begin_period(true);
    feeder.signalled(1);
    feeder.samples_ready(&vec![0; 8820]);
    assert_eq!(feeder.write_returned(-2005401450), LockStepStep::Exit);
    assert_eq!(feeder.fault(), Some(FatalError::NativeCall { code: -2005401450 }));
}

#[test]
fn lock_step_producer_failure_ends_the_feeder() {
    let mut feeder = LockStepFeeder::new(typical()).unwrap();
    feeder.begin_period(true);
    feeder.signalled(0);
    assert_eq!(feeder.producer_failed(), LockStepStep::Exit);
    assert_eq!(feeder.fault(), Some(FatalError::ProducerFailed));
    assert_eq!(feeder.signalled(0), LockStepStep::Exit);
}

#[test]
fn lock_step_report_out_of_turn_ends_the_feeder() {
    let mut feeder = LockStepFeeder::new(typical()).unwrap();
    assert_eq!(feeder.signalled(0), LockStepStep::Exit);
    assert_eq!(feeder.fault(), Some(FatalError::OutOfOrder));
}

#[test]
fn lock_step_lowered_flag_stops_the_feeder() {
    let mut feeder = LockStepFeeder::new(typical()).unwrap();
    assert_eq!(feeder.begin_period(false), LockStepStep::Exit);
    assert_eq!(feeder.phase(), LockStepPhase::Stopped);
    assert_eq!(feeder.fault(), None);
}

#[test]
fn ring_is_planned_as_two_halves_of_one_period() {
    assert_eq!(
        ring_plan(typical()),
        Ok(RingPlan {
            format: WaveFormat {
                format_tag: 1,
                channels: 2,
                samples_per_sec: 44100,
                avg_bytes_per_sec: 176400,
                block_align: 4,
                bits_per_sample: 16,
            },
            half_bytes: 17640,
            ring_bytes: 35280,
            first_notify_offset: 0,
            second_notify_offset: 17640,
        })
    );
}

#[test]
fn ring_is_refused_beyond_the_native_range() {
    let many_channels = OutputDeviceParameters { sample_rate: 44100, channels_count: 32768, channel_sample_count: 1 };
    assert_eq!(ring_plan(many_channels), Err(ParameterError::BeyondNativeRange));
    let most_channels = OutputDeviceParameters { sample_rate: 8000, channels_count: 32767, channel_sample_count: 1 };
    assert!(ring_plan(most_channels).is_ok());
    let fast = OutputDeviceParameters { sample_rate: 2_000_000_000, channels_count: 2, channel_sample_count: 16 };
    assert_eq!(ring_plan(fast), Err(ParameterError::BeyondNativeRange));
    let long = OutputDeviceParameters { sample_rate: 44100, channels_count: 1, channel_sample_count: 0x4000_0000 };
    assert_eq!(ring_plan(long), Err(ParameterError::BeyondNativeRange));
    assert!(matches!(LockStepFeeder::new(long), Err(ParameterError::BeyondNativeRange)));
}

#[test]
fn ring_is_refused_for_invalid_parameters() {
    let params = OutputDeviceParameters { sample_rate: 44100, channels_count: 0, channel_sample_count: 16 };
    assert_eq!(ring_plan(params), Err(ParameterError::NoChannels));
}

#[test]
fn return_codes_are_told_apart() {
    assert_eq!(result_kind(0), ResultKind::NoError);
    assert_eq!(result_kind(0x8878_0096), ResultKind::BufferLost);
    assert_eq!(result_kind(0x8878_0032), ResultKind::InvalidCall);
    assert_eq!(result_kind(0x8007_0057), ResultKind::InvalidParam);
    assert_eq!(result_kind(0x8878_0046), ResultKind::PriorityLevelNeeded);
    assert_eq!(result_kind(0x8878_000A), ResultKind::Allocated);
    assert_eq!(result_kind(0x8878_0078), ResultKind::NoDriver);
    assert_eq!(result_kind(7), ResultKind::OutOfMemory);
    assert_eq!(result_kind(0x8878_00AA), ResultKind::Uninitialized);
    assert_eq!(result_kind(0x8000_4001), ResultKind::Unsupported);
    assert_eq!(result_kind(0x8878_001E), ResultKind::ControlUnavailable);
    assert_eq!(result_kind(0x8878_0064), ResultKind::BadFormat);
    assert_eq!(result_kind(0x1234_5678), ResultKind::Unknown);
}

#[test]
fn only_ok_is_no_error() {
    assert_eq!(check(DS_OK), Ok(()));
    assert_eq!(check(1), Err(1));
    assert_eq!(check(-2005401450), Err(-2005401450));
}

#[test]
fn failure_message_names_the_call_and_the_reason() {
    assert_eq!(describe(ResultKind::BufferLost), "Buffer was lost.");
    assert_eq!(describe(ResultKind::Unknown), "Unknown");
    assert_eq!(
        failure_message("Failed to create render buffer.", 0x8878_0064),
        "Failed to create render buffer.. Reason: The specified wave format is not supported."
    );
    assert_eq!(
        failure_message("Failed to lock the device buffer!", 0xdead_beef),
        "Failed to lock the device buffer!. Reason: Unknown"
    );
}

#[test]
fn halves_are_each_other_s_other() {
    assert_eq!(Half::First.other(), Half::Second);
    assert_eq!(Half::Second.other(), Half::First);
    assert_eq!(Half::First.offset(400), 0);
    assert_eq!(Half::Second.offset(400), 400);
}

use tinyaudio::polling::{
    check, pcm_plan, PcmPlan, PollingFeeder, PollingPhase, PollingStep, MAX_WRITE_ATTEMPTS,
};
use tinyaudio::{FatalError, OutputDeviceParameters, ParameterError};

fn typical() -> OutputDeviceParameters {
    OutputDeviceParameters { sample_rate: 44100, channels_count: 2, channel_sample_count: 4410 }
}

fn bits(samples: &[f32]) -> Vec<u32> {
    samples.iter().map(|x| x.to_bits()).collect()
}

/// A stand-in for the hardware: it records what it is sent and answers each
/// write with the next code of a list, then with success.
struct Sink {
    codes: Vec<i32>,
    writes: Vec<(usize, Vec<i16>)>,
    recoveries: Vec<i32>,
    in_write: bool,
    overlapping_writes: usize,
}

impl Sink {
    fn answering(codes: &[i32]) -> Sink {
        Sink {
            codes: codes.to_vec(),
            writes: Vec::new(),
            recoveries: Vec::new(),
            in_write: false,
            overlapping_writes: 0,
        }
    }

    fn write(&mut self, frames: usize, samples: &[i16]) -> i32 {
        if self.in_write {
            self.overlapping_writes += 1;
        }
        self.in_write = true;
        self.writes.push((frames, samples.to_vec()));
        self.in_write = false;
        if self.codes.is_empty() {
            frames as i32
        } else {
            self.codes.remove(0)
        }
    }
}

/// Drives a feeder as its thread would: the flag stays up for `periods`
/// calls of the producer. Returns the lengths that the producer was called
/// with.
fn drive(
    feeder: &mut PollingFeeder,
    periods: usize,
    producer: &mut dyn FnMut(usize, &mut [f32]) -> bool,
    sink: &mut Sink,
) -> Vec<usize> {
    let mut calls = Vec::new();
    let mut busy = false;
    let mut step = PollingStep::CheckFlag;
    loop {
        step = match step {
            PollingStep::CheckFlag => feeder.begin_period(calls.len() < periods),
            PollingStep::Produce { len } => {
                assert!(!busy, "the producer was entered twice");
                busy = true;
                let mut buffer = vec![0.0f32; len];
                let returned = producer(calls.len(), &mut buffer);
                calls.push(len);
                busy = false;
                if returned {
                    feeder.samples_ready(&bits(&buffer))
                } else {
                    feeder.producer_failed()
                }
            }
            PollingStep::Write { frames } => {
                let code = sink.write(frames, feeder.native());
                feeder.write_returned(code)
            }
            PollingStep::Recover { code } => {
                sink.recoveries.push(code);
                feeder.recovered()
            }
            PollingStep::Exit => break,
        };
    }
    calls
}

#[test]
fn three_periods_of_a_constant_reach_the_sink() {
    let mut feeder = PollingFeeder::new(typical()).unwrap();
    let mut sink = Sink::answering(&[]);
    let calls = drive(
        &mut feeder,
        3,
        &mut |_, buffer| {
            for sample in buffer.iter_mut() {
                *sample = 0.5;
            }
            true
        },
        &mut sink,
    );
    assert_eq!(calls, vec![8820, 8820, 8820]);
    assert_eq!(sink.writes.len(), 3);
    for (frames, samples) in &sink.writes {
        assert_eq!(*frames, 4410);
        assert_eq!(samples.len(), 8820);
        assert!(samples.iter().all(|&s| s == 16384));
    }
    assert_eq!(sink.overlapping_writes, 0);
    assert!(sink.recoveries.is_empty());
    assert_eq!(feeder.phase(), PollingPhase::Stopped);
    assert_eq!(feeder.fault(), None);
}

#[test]
fn producer_gets_one_period_on_every_call() {
    let params = OutputDeviceParameters { sample_rate: 48000, channels_count: 6, channel_sample_count: 100 };
    let mut feeder = PollingFeeder::new(params).unwrap();
    let mut sink = Sink::answering(&[]);
    let calls = drive(&mut feeder, 25, &mut |_, _| true, &mut sink);
    assert_eq!(calls, vec![600; 25]);
}

#[test]
fn failed_write_is_recovered_and_sent_again_unchanged() {
    let mut feeder = PollingFeeder::new(typical()).unwrap();
    let mut sink = Sink::answering(&[-32, -32, 4410]);
    let calls = drive(
        &mut feeder,
        1,
        &mut |_, buffer| {
            for (i, sample) in buffer.iter_mut().enumerate() {
                *sample = if i % 2 == 0 { 0.25 } else { -0.25 };
            }
            true
        },
        &mut sink,
    );
    // the producer ran once, the write three times, with the same samples
    assert_eq!(calls.len(), 1);
    assert_eq!(sink.writes.len(), 3);
    assert_eq!(sink.recoveries, vec![-32, -32]);
    assert_eq!(sink.writes[0].1[0], 8192);
    assert_eq!(sink.writes[0].1[1], -8192);
    assert_eq!(sink.writes[0], sink.writes[1]);
    assert_eq!(sink.writes[1], sink.writes[2]);
    assert_eq!(feeder.fault(), None);
}

#[test]
fn write_that_fails_on_every_attempt_ends_the_feeder() {
    assert_eq!(MAX_WRITE_ATTEMPTS, 10);
    let mut feeder = PollingFeeder::new(typical()).unwrap();
    let mut sink = Sink::answering(&[-32, -32, -32, -32, -32, -32, -32, -32, -32, -77, 4410]);
    let calls = drive(&mut feeder, 5, &mut |_, _| true, &mut sink);
    assert_eq!(calls.len(), 1);
    assert_eq!(sink.writes.len(), 10);
    assert_eq!(sink.recoveries.len(), 9);
    assert_eq!(feeder.fault(), Some(FatalError::RetriesExhausted { code: -77 }));
    assert_eq!(
        feeder.phase(),
        PollingPhase::Failed { error: FatalError::RetriesExhausted { code: -77 } }
    );
}

#[test]
fn ninth_retry_can_still_succeed() {
    let mut feeder = PollingFeeder::new(typical()).unwrap();
    let mut sink = Sink::answering(&[-1, -1, -1, -1, -1, -1, -1, -1, -1, 4410]);
    let calls = drive(&mut feeder, 2, &mut |_, _| true, &mut sink);
    assert_eq!(calls.len(), 2);
    assert_eq!(sink.writes.len(), 11);
    assert_eq!(feeder.fault(), None);
}

#[test]
fn producer_that_fails_on_its_second_call_ends_the_feeder() {
    let mut feeder = PollingFeeder::new(typical()).unwrap();
    let mut sink = Sink::answering(&[]);
    let calls = drive(&mut feeder, 100, &mut |call, _| call == 0, &mut sink);
    // the loop has ended although the flag is still up
    assert_eq!(calls.len(), 2);
    assert_eq!(sink.writes.len(), 1);
    assert_eq!(feeder.fault(), Some(FatalError::ProducerFailed));
    // and the feeder stays ended
    assert_eq!(feeder.begin_period(true), PollingStep::Exit);
    assert_eq!(feeder.fault(), Some(FatalError::ProducerFailed));
}

#[test]
fn lowered_flag_stops_before_anything_is_produced() {
    let mut feeder = PollingFeeder::new(typical()).unwrap();
    let mut sink = Sink::answering(&[]);
    let calls = drive(&mut feeder, 0, &mut |_, _| true, &mut sink);
    assert!(calls.is_empty());
    assert!(sink.writes.is_empty());
    assert_eq!(feeder.phase(), PollingPhase::Stopped);
    // a stopped feeder asks for nothing more
    assert_eq!(feeder.begin_period(true), PollingStep::Exit);
    assert_eq!(feeder.samples_ready(&[0; 8820]), PollingStep::Exit);
    assert_eq!(feeder.write_returned(0), PollingStep::Exit);
    assert_eq!(feeder.recovered(), PollingStep::Exit);
    assert_eq!(feeder.producer_failed(), PollingStep::Exit);
    assert_eq!(feeder.phase(), PollingPhase::Stopped);
}

#[test]
fn buffer_of_another_length_ends_the_feeder() {
    let mut feeder = PollingFeeder::new(typical()).unwrap();
    assert_eq!(feeder.begin_period(true), PollingStep::Produce { len: 8820 });
    assert_eq!(feeder.samples_ready(&[0; 8819]), PollingStep::Exit);
    assert_eq!(feeder.fault(), Some(FatalError::WrongBufferLength));
}

#[test]
fn report_out_of_turn_ends_the_feeder() {
    let mut feeder = PollingFeeder::new(typical()).unwrap();
    assert_eq!(feeder.write_returned(0), PollingStep::Exit);
    assert_eq!(feeder.fault(), Some(FatalError::OutOfOrder));

    let mut feeder = PollingFeeder::new(typical()).unwrap();
    assert_eq!(feeder.begin_period(true), PollingStep::Produce { len: 8820 });
    // the producer runs: no second call is asked for
    assert_eq!(feeder.begin_period(true), PollingStep::Exit);
    assert_eq!(feeder.fault(), Some(FatalError::OutOfOrder));
}

#[test]
fn feeder_walks_through_its_phases() {
    let mut feeder = PollingFeeder::new(typical()).unwrap();
    assert_eq!(feeder.phase(), PollingPhase::Idle);
    assert_eq!(feeder.params(), typical());
    feeder.begin_period(true);
    assert_eq!(feeder.phase(), PollingPhase::Producing);
    assert_eq!(feeder.samples_ready(&[0; 8820]), PollingStep::Write { frames: 4410 });
    assert_eq!(feeder.phase(), PollingPhase::Writing { attempt: 1 });
    assert_eq!(feeder.write_returned(-11), PollingStep::Recover { code: -11 });
    assert_eq!(feeder.phase(), PollingPhase::Recovering { attempt: 1 });
    assert_eq!(feeder.recovered(), PollingStep::Write { frames: 4410 });
    assert_eq!(feeder.phase(), PollingPhase::Writing { attempt: 2 });
    assert_eq!(feeder.write_returned(4410), PollingStep::CheckFlag);
    assert_eq!(feeder.phase(), PollingPhase::Idle);
}

#[test]
fn feeder_is_refused_for_invalid_parameters() {
    let params = OutputDeviceParameters { sample_rate: 0, channels_count: 2, channel_sample_count: 4410 };
    assert!(matches!(PollingFeeder::new(params), Err(ParameterError::ZeroSampleRate)));
}

#[test]
fn plan_asks_for_two_periods_of_room() {
    assert_eq!(
        pcm_plan(typical()),
        Ok(PcmPlan {
            rate: 44100,
            channels: 2,
            period_frames: 4410,
            buffer_frames: 8820,
            avail_min: 4410,
            start_threshold: 4410,
        })
    );
}

#[test]
fn plan_is_refused_for_invalid_parameters() {
    let params = OutputDeviceParameters { sample_rate: 44100, channels_count: 2, channel_sample_count: 0 };
    assert_eq!(pcm_plan(params), Err(ParameterError::EmptyPeriod));
}

#[test]
fn plan_is_refused_beyond_the_native_range() {
    if usize::BITS > 32 {
        let params = OutputDeviceParameters {
            sample_rate: u32::MAX as usize + 1,
            channels_count: 2,
            channel_sample_count: 16,
        };
        assert_eq!(pcm_plan(params), Err(ParameterError::BeyondNativeRange));
    }
}

#[test]
fn negative_code_is_an_error() {
    assert_eq!(check(0), Ok(()));
    assert_eq!(check(4410), Ok(()));
    assert_eq!(check(-32), Err(-32));
    assert_eq!(check(i32::MIN), Err(i32::MIN));
}

use tinyaudio::backend::{BackendKind, Platform};
use tinyaudio::polling::{PollingFeeder, PollingStep};
use tinyaudio::shutdown::{Shutdown, ShutdownStep};
use tinyaudio::{run_output_device, FatalError, OutputDevice, OutputDeviceParameters};

/// A device without hardware. Its feeder runs on the caller's thread, one
/// period per call of `play`, and its sink keeps what it is sent.
struct TestDevice {
    feeder: PollingFeeder,
    shutdown: Shutdown,
    running: bool,
    producer: Box<dyn FnMut(&mut [f32]) -> bool>,
    producer_calls: usize,
    step: PollingStep,
    received: Vec<Vec<i16>>,
    writes_in_flight: usize,
    overlapping_writes: usize,
    feeder_exited: bool,
    released: bool,
}

impl TestDevice {
    fn open(
        kind: BackendKind,
        params: OutputDeviceParameters,
        producer: Box<dyn FnMut(&mut [f32]) -> bool>,
    ) -> Result<TestDevice, String> {
        assert_eq!(kind, BackendKind::PollingFeeder);
        Ok(TestDevice {
            feeder: PollingFeeder::new(params).map_err(|e| e.message().to_string())?,
            shutdown: Shutdown::new(kind),
            running: true,
            producer,
            producer_calls: 0,
            step: PollingStep::CheckFlag,
            received: Vec::new(),
            writes_in_flight: 0,
            overlapping_writes: 0,
            feeder_exited: false,
            released: false,
        })
    }

    /// Lets the feeder run until it has finished one more period, or has
    /// left its loop.
    fn play(&mut self) {
        loop {
            self.step = match self.step {
                PollingStep::CheckFlag => self.feeder.begin_period(self.running),
                PollingStep::Produce { len } => {
                    let mut buffer = vec![0.0f32; len];
                    self.producer_calls += 1;
                    if (self.producer)(&mut buffer) {
                        let bits: Vec<u32> = buffer.iter().map(|x| x.to_bits()).collect();
                        self.feeder.samples_ready(&bits)
                    } else {
                        self.feeder.producer_failed()
                    }
                }
                PollingStep::Write { frames } => {
                    if self.writes_in_flight > 0 {
                        self.overlapping_writes += 1;
                    }
                    self.writes_in_flight += 1;
                    self.received.push(self.feeder.native().clone());
                    self.writes_in_flight -= 1;
                    let step = self.feeder.write_returned(frames as i32);
                    self.step = step;
                    return;
                }
                PollingStep::Recover { .. } => self.feeder.recovered(),
                PollingStep::Exit => {
                    self.feeder_exited = true;
                    return;
                }
            };
        }
    }

    fn shut_down(&mut self) -> Option<FatalError> {
        loop {
            match self.shutdown.step() {
                ShutdownStep::LowerFlag => {
                    self.running = false;
                    self.shutdown.flag_lowered();
                }
                ShutdownStep::JoinFeeder => {
                    // the feeder sees the flag at the top of its loop
                    while !self.feeder_exited {
                        self.play();
                    }
                    self.shutdown.feeder_joined(self.feeder.fault());
                }
                ShutdownStep::StopStream => {
                    self.shutdown.stream_stopped();
                }
                ShutdownStep::Release => {
                    assert!(self.feeder_exited, "released before the feeder had gone");
                    self.released = true;
                    self.shutdown.released(0);
                }
                ShutdownStep::Done => break,
            }
        }
        self.shutdown.outcome()
    }
}

fn typical() -> OutputDeviceParameters {
    OutputDeviceParameters { sample_rate: 44100, channels_count: 2, channel_sample_count: 4410 }
}

fn open(producer: Box<dyn FnMut(&mut [f32]) -> bool>) -> TestDevice {
    let platform = Platform::Linux { polling: true, streaming: false };
    let mut opened = None;
    let handle: OutputDevice<()> = run_output_device(typical(), platform, |kind, params| {
        opened = Some(TestDevice::open(kind, params, producer)?);
        Ok::<(), String>(())
    })
    .unwrap();
    assert!(!handle.is_closed());
    opened.unwrap()
}

#[test]
fn three_periods_of_a_constant_are_played_and_the_device_is_closed() {
    let mut session = open(Box::new(|buffer: &mut [f32]| {
        for sample in buffer.iter_mut() {
            *sample = 0.5;
        }
        true
    }));
    session.play();
    session.play();
    session.play();
    let mut device = OutputDevice::new(session);
    let mut left = None;
    let outcome = device.close_with(|mut session| {
        let outcome = session.shut_down();
        left = Some(session);
        outcome
    });
    assert_eq!(outcome, None);
    assert!(device.is_closed());
    let session = left.unwrap();
    assert_eq!(session.producer_calls, 3);
    assert_eq!(session.received.len(), 3);
    for buffer in &session.received {
        assert_eq!(buffer.len(), 8820);
        assert!(buffer.iter().all(|&sample| sample == 16384));
    }
    assert_eq!(session.overlapping_writes, 0);
    assert!(session.feeder_exited);
    assert!(session.released);
}

#[test]
fn closing_twice_in_a_row_completes_both_times() {
    let mut device = OutputDevice::new(open(Box::new(|_: &mut [f32]| true)));
    let mut shut_downs = 0;
    device.close_with(|mut session| {
        shut_downs += 1;
        session.shut_down()
    });
    device.close_with(|mut session| {
        shut_downs += 1;
        session.shut_down()
    });
    device.close();
    assert_eq!(shut_downs, 1);
    assert!(device.is_closed());
    assert_eq!(device.last_fatal_error(), None);
}

#[test]
fn producer_that_fails_on_its_second_call_is_found_at_the_close() {
    let mut calls = 0;
    let mut session = open(Box::new(move |_: &mut [f32]| {
        calls += 1;
        calls != 2
    }));
    session.play();
    session.play();
    // the feeder has left its loop although the flag is still up
    assert!(session.feeder_exited);
    assert!(session.running);
    session.play();
    assert_eq!(session.producer_calls, 2);
    assert_eq!(session.received.len(), 1);

    let mut device = OutputDevice::new(session);
    let outcome = device.close_with(|mut session| session.shut_down());
    assert_eq!(outcome, Some(FatalError::ProducerFailed));
    assert_eq!(device.last_fatal_error(), Some(FatalError::ProducerFailed));
    assert!(device.is_closed());
}

#[test]
fn many_devices_are_opened_and_closed_in_a_row() {
    for _ in 0..150 {
        let mut device = OutputDevice::new(open(Box::new(|_: &mut [f32]| true)));
        let mut released = false;
        let outcome = device.close_with(|mut session| {
            let outcome = session.shut_down();
            released = session.released && session.feeder_exited;
            outcome
        });
        assert_eq!(outcome, None);
        assert!(released);
        assert!(device.is_closed());
    }
}

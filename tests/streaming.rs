use rtlsdr::device::{DeviceHandle, OpenStep, Request};
use rtlsdr::error::{DeviceState, Operation, SdrError};
use rtlsdr::sample::Sample;
use rtlsdr::stream::{Pull, SampleStream};

fn normalised(c: i16) -> f32 {
    (c + 127) as f32 / 127.0 - 1.0
}

fn configured(frequency: u32, sample_rate: u32) -> DeviceHandle {
    let mut d = DeviceHandle::new();
    assert_eq!(d.begin_open(1), Ok(0));
    assert_eq!(d.open_attempted(0, 1, 0), Ok(OpenStep::Opened(0)));
    for req in [Request::SetFrequency(frequency), Request::SetSampleRate(sample_rate)] {
        assert_eq!(d.prepare(req), Ok(true));
        assert_eq!(d.complete(req, 0), Ok(()));
    }
    d
}

#[test]
fn end_to_end_two_samples() {
    let mut d = configured(100_000_000, 2_048_000);
    let mut stream = SampleStream::new(512);
    assert_eq!(stream.pull(), Pull::Start);
    assert!(stream.started());
    assert_eq!(d.prepare(Request::StartStreaming), Ok(true));
    assert_eq!(d.complete(Request::StartStreaming, 0), Ok(()));
    assert_eq!(stream.deliver(vec![0, 255, 254, 1]), Ok(()));
    let first = stream.pull();
    let second = stream.pull();
    assert_eq!(first, Pull::Sample(Sample { re: -127, im: 128 }));
    assert_eq!(second, Pull::Sample(Sample { re: 127, im: -126 }));
    if let (Pull::Sample(a), Pull::Sample(b)) = (first, second) {
        assert!((normalised(a.re) - -1.0).abs() < 0.01);
        assert!((normalised(a.im) - 1.0055).abs() < 0.01);
        assert!((normalised(b.re) - 1.0).abs() < 0.01);
        assert!((normalised(b.im) - -0.992).abs() < 0.01);
    }
    assert_eq!(stream.pull(), Pull::Wait);
    assert_eq!(stream.pull(), Pull::Wait);
}

#[test]
fn start_latch_fires_once() {
    let mut stream = SampleStream::new(4);
    assert_eq!(stream.pull(), Pull::Start);
    assert_eq!(stream.pull(), Pull::Wait);
    assert_eq!(stream.deliver(vec![127, 127]), Ok(()));
    assert_eq!(stream.pull(), Pull::Sample(Sample { re: 0, im: 0 }));
    assert_eq!(stream.pull(), Pull::Wait);
}

#[test]
fn cancellation_drains_then_ends() {
    let mut d = configured(100_000_000, 2_048_000);
    let mut stream = SampleStream::new(8);
    assert_eq!(stream.pull(), Pull::Start);
    assert_eq!(d.complete(Request::StartStreaming, 0), Ok(()));
    assert_eq!(stream.deliver(vec![1, 2]), Ok(()));
    assert_eq!(d.prepare(Request::StopStreaming), Ok(true));
    assert_eq!(d.complete(Request::StopStreaming, 0), Ok(()));
    stream.acquisition_ended(0);
    assert!(stream.stopped());
    assert_eq!(stream.failure(), None);
    assert_eq!(stream.pull(), Pull::Sample(Sample { re: -126, im: -125 }));
    assert_eq!(stream.pull(), Pull::End);
    assert_eq!(stream.pull(), Pull::End);
    assert_eq!(d.prepare(Request::Close), Ok(true));
    assert_eq!(d.complete(Request::Close, 0), Ok(()));
    assert_eq!(d.state(), DeviceState::Closed);
}

#[test]
fn overflow_fails_the_stream() {
    let mut stream = SampleStream::new(2);
    assert_eq!(stream.pull(), Pull::Start);
    assert_eq!(stream.deliver(vec![0, 0]), Ok(()));
    assert_eq!(stream.deliver(vec![1, 1, 2, 2]), Err(SdrError::Overflow));
    assert_eq!(stream.failure(), Some(SdrError::Overflow));
    assert_eq!(stream.pull(), Pull::Failed(SdrError::Overflow));
    assert_eq!(stream.pull(), Pull::Failed(SdrError::Overflow));
    assert_eq!(stream.deliver(vec![3, 3]), Err(SdrError::Overflow));
}

#[test]
fn driver_failure_during_streaming() {
    let mut stream = SampleStream::new(4);
    assert_eq!(stream.pull(), Pull::Start);
    stream.acquisition_ended(-7);
    let e = SdrError::DriverError { operation: Operation::ReadAsync, code: -7 };
    assert_eq!(stream.failure(), Some(e));
    assert_eq!(stream.pull(), Pull::Failed(e));
}

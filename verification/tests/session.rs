use screencapturekit::config::{InitParams, SCContentFilter, SCStreamConfiguration};
use screencapturekit::sample::{MediaKind, SampleBuffer};
use screencapturekit::stream::{InitializationError, SCStream, StreamState};

fn new_stream(configuration: SCStreamConfiguration) -> SCStream {
    let filter = SCContentFilter::new(InitParams::Display(1));
    SCStream::new(filter, configuration, Ok(7)).expect("native layer accepted the target")
}

fn video(payload: u64, timestamp: u64) -> SampleBuffer {
    SampleBuffer { payload, timestamp, kind: MediaKind::Video }
}

fn audio(payload: u64, timestamp: u64) -> SampleBuffer {
    SampleBuffer { payload, timestamp, kind: MediaKind::Audio }
}

#[test]
fn test_video_capture() {
    let mut stream = new_stream(SCStreamConfiguration::empty());
    let consumer = stream.add_output();
    stream.start_capture();
    let sample = video(1, 1000);
    let failures = stream.deliver_sample(sample, &vec![true]);
    assert_eq!(failures, 0);
    let got = stream.received(consumer);
    assert_eq!(got.len(), 1);
    assert_eq!(got[0].buffer, sample);
    assert_eq!(got[0].buffer.kind, MediaKind::Video);
    stream.stop_capture();
    let failures = stream.deliver_sample(video(2, 2000), &vec![true]);
    assert_eq!(failures, 0);
    assert_eq!(stream.received(consumer).len(), 1);
}

#[test]
fn test_audio_capture() {
    let mut stream = new_stream(SCStreamConfiguration::empty().captures_audio(true));
    let consumer = stream.add_output();
    stream.start_capture();
    stream.deliver_sample(video(1, 100), &vec![true]);
    stream.deliver_sample(audio(2, 150), &vec![true]);
    let got = stream.received(consumer);
    assert!(got.iter().any(|d| d.buffer.kind == MediaKind::Video));
    assert!(got.iter().any(|d| d.buffer.kind == MediaKind::Audio));
}

#[test]
fn test_create_fails_when_native_rejects() {
    let filter = SCContentFilter::new(InitParams::Window(4));
    let config = SCStreamConfiguration::empty();
    let r = SCStream::new(filter, config, Err(InitializationError::PermissionDenied));
    assert_eq!(r.err(), Some(InitializationError::PermissionDenied));
    let filter = SCContentFilter::new(InitParams::Display(9));
    let r = SCStream::new(filter, config, Err(InitializationError::TargetUnavailable));
    assert_eq!(r.err(), Some(InitializationError::TargetUnavailable));
    let filter = SCContentFilter::new(InitParams::Application(2));
    let r = SCStream::new(filter, config, Err(InitializationError::ConfigurationRejected));
    assert_eq!(r.err(), Some(InitializationError::ConfigurationRejected));
}

#[test]
fn test_stop_from_created_without_dispatch() {
    let mut stream = new_stream(SCStreamConfiguration::empty());
    let consumer = stream.add_output();
    assert_eq!(stream.state(), StreamState::Created);
    stream.stop_capture();
    assert_eq!(stream.state(), StreamState::Stopped);
    assert!(stream.is_handle_released());
    assert_eq!(stream.received(consumer).len(), 0);
}

#[test]
fn test_nothing_delivered_after_stop() {
    let mut stream = new_stream(SCStreamConfiguration::empty());
    let consumer = stream.add_output();
    stream.start_capture();
    stream.deliver_sample(video(1, 10), &vec![true]);
    stream.stop_capture();
    let failures = stream.deliver_sample(video(2, 20), &vec![true]);
    assert_eq!(failures, 0);
    assert_eq!(stream.received(consumer).len(), 1);
    assert!(!stream.report_error());
    assert!(!stream.has_error_fired());
}

#[test]
fn test_order_preserved() {
    let mut stream = new_stream(SCStreamConfiguration::empty());
    let consumer = stream.add_output();
    stream.start_capture();
    let first = video(1, 10);
    let second = video(2, 20);
    let third = video(3, 30);
    stream.deliver_sample(first, &vec![true]);
    stream.deliver_sample(second, &vec![true]);
    stream.deliver_sample(third, &vec![true]);
    let got = stream.received(consumer);
    assert_eq!(got.len(), 3);
    assert_eq!(got[0].buffer, first);
    assert_eq!(got[1].buffer, second);
    assert_eq!(got[2].buffer, third);
}

#[test]
fn test_failing_consumer_isolated() {
    let mut stream = new_stream(SCStreamConfiguration::empty());
    let failing = stream.add_output();
    let healthy = stream.add_output();
    stream.start_capture();
    let sample = video(5, 50);
    let failures = stream.deliver_sample(sample, &vec![false, true]);
    assert_eq!(failures, 1);
    let first = stream.received(failing);
    assert_eq!(first.len(), 1);
    assert_eq!(first[0].buffer, sample);
    assert!(!first[0].accepted);
    let second = stream.received(healthy);
    assert_eq!(second.len(), 1);
    assert_eq!(second[0].buffer, sample);
    assert!(second[0].accepted);
}

#[test]
fn test_failure_count_over_several_consumers() {
    let mut stream = new_stream(SCStreamConfiguration::empty());
    stream.add_output();
    stream.add_output();
    stream.add_output();
    stream.start_capture();
    let failures = stream.deliver_sample(video(1, 10), &vec![false, false, true]);
    assert_eq!(failures, 2);
}

#[test]
fn test_nothing_delivered_before_start() {
    let mut stream = new_stream(SCStreamConfiguration::empty());
    let consumer = stream.add_output();
    let failures = stream.deliver_sample(video(1, 10), &vec![true]);
    assert_eq!(failures, 0);
    assert_eq!(stream.received(consumer).len(), 0);
    assert_eq!(stream.state(), StreamState::Created);
}

#[test]
fn test_error_fires_exactly_once() {
    let mut stream = new_stream(SCStreamConfiguration::empty());
    stream.start_capture();
    assert!(stream.report_error());
    assert!(stream.has_error_fired());
    assert!(!stream.report_error());
    assert!(!stream.report_error());
    assert!(stream.has_error_fired());
}

#[test]
fn test_error_does_not_fire_before_start() {
    let mut stream = new_stream(SCStreamConfiguration::empty());
    assert!(!stream.report_error());
    assert!(!stream.has_error_fired());
    stream.start_capture();
    assert!(stream.report_error());
}

#[test]
fn test_start_is_idempotent() {
    let mut stream = new_stream(SCStreamConfiguration::empty());
    let consumer = stream.add_output();
    stream.start_capture();
    stream.deliver_sample(video(1, 10), &vec![true]);
    stream.start_capture();
    assert_eq!(stream.state(), StreamState::Capturing);
    assert_eq!(stream.received(consumer).len(), 1);
}

#[test]
fn test_late_consumer_sees_only_subsequent_buffers() {
    let mut stream = new_stream(SCStreamConfiguration::empty());
    let early = stream.add_output();
    stream.start_capture();
    let first = video(1, 10);
    stream.deliver_sample(first, &vec![true]);
    let late = stream.add_output();
    let second = video(2, 20);
    stream.deliver_sample(second, &vec![true, true]);
    assert_eq!(stream.received(early).len(), 2);
    assert_eq!(stream.received(early)[0].buffer, first);
    assert_eq!(stream.received(early)[1].buffer, second);
    assert_eq!(stream.received(late).len(), 1);
    assert_eq!(stream.received(late)[0].buffer, second);
}

#[test]
fn test_no_audio_delivered_when_audio_disabled() {
    let mut stream = new_stream(SCStreamConfiguration::empty().captures_audio(false));
    let consumer = stream.add_output();
    stream.start_capture();
    stream.deliver_sample(video(1, 10), &vec![true]);
    stream.deliver_sample(video(2, 20), &vec![true]);
    stream.stop_capture();
    assert!(stream
        .received(consumer)
        .iter()
        .all(|d| d.buffer.kind != MediaKind::Audio));
}

#[test]
fn test_stop_is_idempotent() {
    let mut stream = new_stream(SCStreamConfiguration::empty());
    stream.start_capture();
    stream.stop_capture();
    assert!(stream.is_handle_released());
    stream.stop_capture();
    assert_eq!(stream.state(), StreamState::Stopped);
    assert!(stream.is_handle_released());
}

#[test]
fn test_deliver_with_no_consumers() {
    let mut stream = new_stream(SCStreamConfiguration::empty());
    stream.start_capture();
    let failures = stream.deliver_sample(video(1, 10), &vec![]);
    assert_eq!(failures, 0);
    assert_eq!(stream.output_len(), 0);
}

#[test]
fn test_configuration_builder() {
    let base = SCStreamConfiguration::empty();
    assert_eq!(base.width, 0);
    assert_eq!(base.height, 0);
    assert_eq!(base.frames_per_second, 0);
    assert!(!base.captures_audio);
    let with_audio = base.captures_audio(true);
    assert!(with_audio.captures_audio);
    assert_eq!(with_audio.width, 0);
    assert!(!base.captures_audio);
}

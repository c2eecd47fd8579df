//! The activation handshake, the capture state machine, buffer decoding and
//! file replay chunking.

use frosk::capture::decode_samples;
use frosk::capture::CaptureAction;
use frosk::capture::CaptureDriver;
use frosk::capture::CaptureError;
use frosk::capture::CaptureInput;
use frosk::capture::CaptureState;
use frosk::capture::Handler;
use frosk::capture::MacOsCapturer;

#[test]
fn completion_before_wait_still_proceeds() {
    // The callback fires before the waiting thread ever checks the flag; the
    // check still sees completion, so the wait loop is never entered and the
    // thread proceeds.
    let mut handler = Handler::new();
    handler.activate_completed();
    let mut wait_iterations = 0;
    while !handler.is_completed() {
        wait_iterations += 1;
        if wait_iterations > 1000 {
            panic!("the waiting thread would deadlock");
        }
    }
    assert_eq!(wait_iterations, 0);
}

#[test]
fn completion_flag_starts_unset() {
    let handler = Handler::new();
    assert!(!handler.is_completed());
}

#[test]
fn healthy_session_walks_through_the_states() {
    let mut d = CaptureDriver::new();
    assert_eq!(d.state(), CaptureState::Idle);

    assert_eq!(d.step(CaptureInput::RequestActivation), CaptureAction::IssueActivation);
    assert_eq!(d.state(), CaptureState::ActivationRequested);

    assert_eq!(
        d.step(CaptureInput::ActivationResult { ok: true }),
        CaptureAction::InitializeClient
    );
    assert_eq!(d.state(), CaptureState::ActivationCompleted { ok: true });

    assert_eq!(d.step(CaptureInput::InitializeResult { ok: true }), CaptureAction::StartStream);
    assert_eq!(d.state(), CaptureState::StreamInitialized);

    assert_eq!(d.step(CaptureInput::StartResult { ok: true }), CaptureAction::PollPacket);
    assert_eq!(d.state(), CaptureState::Streaming);

    // No frames ready: wait again; frames ready: read the buffer.
    assert_eq!(d.step(CaptureInput::PacketSize { frames: 0 }), CaptureAction::WaitForBuffer);
    assert_eq!(d.step(CaptureInput::WaitResult { signaled: true }), CaptureAction::PollPacket);
    assert_eq!(d.step(CaptureInput::PacketSize { frames: 441 }), CaptureAction::ReadBuffer);
    assert_eq!(d.state(), CaptureState::Streaming);

    assert_eq!(d.step(CaptureInput::Stop), CaptureAction::StopStream);
    assert_eq!(d.state(), CaptureState::Draining);
}

#[test]
fn wait_timeout_is_a_fatal_stall() {
    let mut d = CaptureDriver::new();
    d.step(CaptureInput::RequestActivation);
    d.step(CaptureInput::ActivationResult { ok: true });
    d.step(CaptureInput::InitializeResult { ok: true });
    d.step(CaptureInput::StartResult { ok: true });
    assert_eq!(
        d.step(CaptureInput::WaitResult { signaled: false }),
        CaptureAction::Report { error: CaptureError::WaitTimeout }
    );
    assert_eq!(d.state(), CaptureState::Failed { error: CaptureError::WaitTimeout });
}

#[test]
fn failed_activation_is_fatal() {
    let mut d = CaptureDriver::new();
    d.step(CaptureInput::RequestActivation);
    assert_eq!(
        d.step(CaptureInput::ActivationResult { ok: false }),
        CaptureAction::Report { error: CaptureError::ActivationFailed }
    );
    assert_eq!(d.state(), CaptureState::ActivationCompleted { ok: false });
    assert_eq!(
        d.step(CaptureInput::InitializeResult { ok: true }),
        CaptureAction::Report { error: CaptureError::ActivationFailed }
    );
    assert_eq!(d.state(), CaptureState::Failed { error: CaptureError::ActivationFailed });
}

#[test]
fn failed_initialization_and_start_are_fatal() {
    let mut d = CaptureDriver::new();
    d.step(CaptureInput::RequestActivation);
    d.step(CaptureInput::ActivationResult { ok: true });
    assert_eq!(
        d.step(CaptureInput::InitializeResult { ok: false }),
        CaptureAction::Report { error: CaptureError::InitializationFailed }
    );
    assert_eq!(d.state(), CaptureState::Failed { error: CaptureError::InitializationFailed });

    let mut d = CaptureDriver::new();
    d.step(CaptureInput::RequestActivation);
    d.step(CaptureInput::ActivationResult { ok: true });
    d.step(CaptureInput::InitializeResult { ok: true });
    assert_eq!(
        d.step(CaptureInput::StartResult { ok: false }),
        CaptureAction::Report { error: CaptureError::StartFailed }
    );
    assert_eq!(d.state(), CaptureState::Failed { error: CaptureError::StartFailed });
}

#[test]
fn device_failure_while_streaming_is_fatal() {
    let mut d = CaptureDriver::new();
    d.step(CaptureInput::RequestActivation);
    d.step(CaptureInput::ActivationResult { ok: true });
    d.step(CaptureInput::InitializeResult { ok: true });
    d.step(CaptureInput::StartResult { ok: true });
    assert_eq!(
        d.step(CaptureInput::DeviceFailure),
        CaptureAction::Report { error: CaptureError::DeviceError }
    );
    assert_eq!(d.state(), CaptureState::Failed { error: CaptureError::DeviceError });
}

#[test]
fn inputs_that_do_not_apply_are_ignored() {
    let mut d = CaptureDriver::new();
    assert_eq!(d.step(CaptureInput::PacketSize { frames: 3 }), CaptureAction::Ignore);
    assert_eq!(d.state(), CaptureState::Idle);
}

#[test]
fn decode_reads_little_endian_samples() {
    let bytes: Vec<u8> = vec![
        0x01, 0x00, 0x00, 0x00, // 1
        0xff, 0xff, 0xff, 0xff, // -1
        0x00, 0x00, 0x00, 0x80, // i32::MIN
        0xff, 0xff, 0xff, 0x7f, // i32::MAX
        0x40, 0xe2, 0x01, 0x00, // 123456
    ];
    let samples = decode_samples(&bytes);
    assert_eq!(samples, vec![1, -1, i32::MIN, i32::MAX, 123456]);
}

#[test]
fn decode_of_an_empty_buffer_is_empty() {
    let samples = decode_samples(&[]);
    assert!(samples.is_empty());
}

#[test]
fn replay_cuts_the_recording_into_even_chunks() {
    let samples: Vec<i32> = (0..23).collect();
    let chunks = MacOsCapturer::replay_chunks(&samples, 10);
    assert_eq!(chunks.len(), 3);
    assert_eq!(chunks[0], (0..10).collect::<Vec<i32>>());
    assert_eq!(chunks[1], (10..20).collect::<Vec<i32>>());
    assert_eq!(chunks[2], (20..23).collect::<Vec<i32>>());

    let exact: Vec<i32> = (0..20).collect();
    let even = MacOsCapturer::replay_chunks(&exact, 10);
    assert_eq!(even.len(), 2);
    assert_eq!(even[1].len(), 10);

    let empty = MacOsCapturer::replay_chunks(&Vec::new(), 10);
    assert!(empty.is_empty());
}

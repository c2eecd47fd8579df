//! The platform capture driver's logic: the asynchronous activation
//! handshake, the streaming state machine, and the decoding of raw capture
//! buffers into samples.
//!
//! The operating-system calls themselves (interface activation, the audio
//! client, kernel events) live outside this crate.  What is verified here is
//! every decision the driver takes: when the activation wait may proceed, how
//! the session moves between states on each outcome the platform reports, and
//! how a raw little-endian byte buffer turns into samples without ever reading
//! past its end.

use vstd::prelude::*;

verus! {

/// The shared completion flag behind the one-shot activation callback.
///
/// The platform invokes the callback once, on its own thread, when the
/// interface activation finishes; the requesting thread blocks until the flag
/// is set.  The flag is checked before each wait, never only reacted to on
/// notify, so the handshake tolerates the callback firing before the wait
/// begins.
pub struct Handler {
    completed: bool,
}

impl Handler {
    /// Whether the activation callback has fired.
    pub closed spec fn spec_completed(self) -> bool {
        self.completed
    }

    /// A fresh handler: the callback has not fired yet.
    pub fn new() -> (h: Handler)
        ensures
            !h.spec_completed(),
    {
        Handler { completed: false }
    }

    /// The activation callback: records completion.  Once set, the flag stays
    /// set, so a wait that starts after the callback still proceeds.
    pub fn activate_completed(&mut self)
        ensures
            final(self).spec_completed(),
    {
        self.completed = true;
    }

    /// The check a waiting thread makes before each wait: proceed exactly
    /// when the callback has fired.
    pub fn is_completed(&self) -> (b: bool)
        ensures
            b == self.spec_completed(),
    {
        self.completed
    }
}

/// The fatal ways a capture session can end.
#[derive(Clone, Copy, Debug, PartialEq, Eq, Structural)]
pub enum CaptureError {
    /// The platform reported that interface activation failed.
    ActivationFailed,
    /// The audio client could not be initialized for the capture format.
    InitializationFailed,
    /// The stream could not be started.
    StartFailed,
    /// The bounded wait for the buffer-ready event timed out: the stream has
    /// stalled and cannot self-heal.
    WaitTimeout,
    /// The platform reported a device error while streaming.
    DeviceError,
}

/// The capture session's states, in the order a healthy session passes
/// through them.
#[derive(Clone, Copy, Debug, PartialEq, Eq, Structural)]
pub enum CaptureState {
    /// Nothing requested yet.
    Idle,
    /// The asynchronous interface activation has been issued; the session
    /// waits for its completion callback.
    ActivationRequested,
    /// The activation callback fired and its result was fetched.
    ActivationCompleted { ok: bool },
    /// The audio client is initialized with the capture format and the
    /// buffer-ready event is registered.
    StreamInitialized,
    /// Samples are flowing.
    Streaming,
    /// The session is shutting down.
    Draining,
    /// The session ended with a fatal error.
    Failed { error: CaptureError },
}

/// What the platform (or the caller) reports to the driver.
#[derive(Clone, Copy, Debug, PartialEq, Eq, Structural)]
pub enum CaptureInput {
    /// The caller asks for a capture session.
    RequestActivation,
    /// The activation callback fired and the activation result was fetched:
    /// `ok` says whether an audio client was produced.
    ActivationResult { ok: bool },
    /// The audio client finished (or failed) initialization, format setup and
    /// event registration.
    InitializeResult { ok: bool },
    /// Starting the stream succeeded or failed.
    StartResult { ok: bool },
    /// The bounded wait on the buffer-ready event returned: `signaled` is
    /// false on timeout.
    WaitResult { signaled: bool },
    /// The platform reported how many frames are ready to be read.
    PacketSize { frames: u32 },
    /// The platform reported a device error while streaming.
    DeviceFailure,
    /// The caller asks the session to stop.
    Stop,
}

/// What the surrounding (unverified) loop must do next.
#[derive(Clone, Copy, Debug, PartialEq, Eq, Structural)]
pub enum CaptureAction {
    /// Issue the asynchronous activation request and wait on the handler.
    IssueActivation,
    /// Initialize the audio client, set the capture format, register the
    /// buffer-ready event.
    InitializeClient,
    /// Start the stream.
    StartStream,
    /// Ask the platform how many frames are ready.
    PollPacket,
    /// Read the ready buffer, decode it, deliver the chunk, release the
    /// buffer, then wait for the next buffer-ready signal.
    ReadBuffer,
    /// Wait (with a bounded timeout) on the buffer-ready event.
    WaitForBuffer,
    /// Stop the stream and drop the session.
    StopStream,
    /// Report the fatal error carried by the state and stop the stream.
    Report { error: CaptureError },
    /// Nothing: the input does not apply to the current state.
    Ignore,
}

/// The driver's transition function: the state after `input` arrives in
/// `state`.  Any outcome the platform can report is covered; an input that
/// does not apply to the current state leaves it unchanged.
pub open spec fn spec_next(state: CaptureState, input: CaptureInput) -> CaptureState {
    match (state, input) {
        (CaptureState::Idle, CaptureInput::RequestActivation) => CaptureState::ActivationRequested,
        (CaptureState::ActivationRequested, CaptureInput::ActivationResult { ok }) =>
            CaptureState::ActivationCompleted { ok },
        (CaptureState::ActivationCompleted { ok: false }, _) => CaptureState::Failed {
            error: CaptureError::ActivationFailed,
        },
        (CaptureState::ActivationCompleted { ok: true }, CaptureInput::InitializeResult { ok }) =>
            if ok {
                CaptureState::StreamInitialized
            } else {
                CaptureState::Failed { error: CaptureError::InitializationFailed }
            },
        (CaptureState::StreamInitialized, CaptureInput::StartResult { ok }) =>
            if ok {
                CaptureState::Streaming
            } else {
                CaptureState::Failed { error: CaptureError::StartFailed }
            },
        (CaptureState::Streaming, CaptureInput::WaitResult { signaled }) =>
            if signaled {
                CaptureState::Streaming
            } else {
                CaptureState::Failed { error: CaptureError::WaitTimeout }
            },
        (CaptureState::Streaming, CaptureInput::PacketSize { frames }) => CaptureState::Streaming,
        (CaptureState::Streaming, CaptureInput::DeviceFailure) => CaptureState::Failed {
            error: CaptureError::DeviceError,
        },
        (_, CaptureInput::Stop) => CaptureState::Draining,
        (s, _) => s,
    }
}

/// The action that accompanies each transition.
pub open spec fn spec_action(state: CaptureState, input: CaptureInput) -> CaptureAction {
    match (state, input) {
        (CaptureState::Idle, CaptureInput::RequestActivation) => CaptureAction::IssueActivation,
        (CaptureState::ActivationRequested, CaptureInput::ActivationResult { ok }) =>
            if ok {
                CaptureAction::InitializeClient
            } else {
                CaptureAction::Report { error: CaptureError::ActivationFailed }
            },
        (CaptureState::ActivationCompleted { ok: false }, _) => CaptureAction::Report {
            error: CaptureError::ActivationFailed,
        },
        (CaptureState::ActivationCompleted { ok: true }, CaptureInput::InitializeResult { ok }) =>
            if ok {
                CaptureAction::StartStream
            } else {
                CaptureAction::Report { error: CaptureError::InitializationFailed }
            },
        (CaptureState::StreamInitialized, CaptureInput::StartResult { ok }) =>
            if ok {
                CaptureAction::PollPacket
            } else {
                CaptureAction::Report { error: CaptureError::StartFailed }
            },
        (CaptureState::Streaming, CaptureInput::WaitResult { signaled }) =>
            if signaled {
                CaptureAction::PollPacket
            } else {
                CaptureAction::Report { error: CaptureError::WaitTimeout }
            },
        (CaptureState::Streaming, CaptureInput::PacketSize { frames }) =>
            if frames == 0 {
                CaptureAction::WaitForBuffer
            } else {
                CaptureAction::ReadBuffer
            },
        (CaptureState::Streaming, CaptureInput::DeviceFailure) => CaptureAction::Report {
            error: CaptureError::DeviceError,
        },
        (_, CaptureInput::Stop) => CaptureAction::StopStream,
        (_, _) => CaptureAction::Ignore,
    }
}

/// The capture driver: the session state, advanced one reported outcome at a
/// time.  The surrounding loop performs each returned action against the
/// platform and feeds the outcome back in.
pub struct CaptureDriver {
    state: CaptureState,
}

impl CaptureDriver {
    /// The current session state.
    pub closed spec fn spec_state(self) -> CaptureState {
        self.state
    }

    /// A driver with no session yet.
    pub fn new() -> (d: CaptureDriver)
        ensures
            d.spec_state() == CaptureState::Idle,
    {
        CaptureDriver { state: CaptureState::Idle }
    }

    /// The current session state.
    pub fn state(&self) -> (s: CaptureState)
        ensures
            s == self.spec_state(),
    {
        self.state
    }

    /// Advances the session by one reported outcome and says what to do next,
    /// exactly as the transition tables `spec_next` and `spec_action` lay
    /// down.
    pub fn step(&mut self, input: CaptureInput) -> (action: CaptureAction)
        ensures
            final(self).spec_state() == spec_next(old(self).spec_state(), input),
            action == spec_action(old(self).spec_state(), input),
    {
        let (next, action): (CaptureState, CaptureAction) = match (self.state, input) {
            (CaptureState::Idle, CaptureInput::RequestActivation) => (
                CaptureState::ActivationRequested,
                CaptureAction::IssueActivation,
            ),
            (CaptureState::ActivationRequested, CaptureInput::ActivationResult { ok }) => (
                CaptureState::ActivationCompleted { ok },
                if ok {
                    CaptureAction::InitializeClient
                } else {
                    CaptureAction::Report { error: CaptureError::ActivationFailed }
                },
            ),
            (CaptureState::ActivationCompleted { ok: false }, _) => (
                CaptureState::Failed { error: CaptureError::ActivationFailed },
                CaptureAction::Report { error: CaptureError::ActivationFailed },
            ),
            (
                CaptureState::ActivationCompleted { ok: true },
                CaptureInput::InitializeResult { ok },
            ) => if ok {
                (CaptureState::StreamInitialized, CaptureAction::StartStream)
            } else {
                (
                    CaptureState::Failed { error: CaptureError::InitializationFailed },
                    CaptureAction::Report { error: CaptureError::InitializationFailed },
                )
            },
            (CaptureState::StreamInitialized, CaptureInput::StartResult { ok }) => if ok {
                (CaptureState::Streaming, CaptureAction::PollPacket)
            } else {
                (
                    CaptureState::Failed { error: CaptureError::StartFailed },
                    CaptureAction::Report { error: CaptureError::StartFailed },
                )
            },
            (CaptureState::Streaming, CaptureInput::WaitResult { signaled }) => if signaled {
                (CaptureState::Streaming, CaptureAction::PollPacket)
            } else {
                (
                    CaptureState::Failed { error: CaptureError::WaitTimeout },
                    CaptureAction::Report { error: CaptureError::WaitTimeout },
                )
            },
            (CaptureState::Streaming, CaptureInput::PacketSize { frames }) => (
                CaptureState::Streaming,
                if frames == 0 {
                    CaptureAction::WaitForBuffer
                } else {
                    CaptureAction::ReadBuffer
                },
            ),
            (CaptureState::Streaming, CaptureInput::DeviceFailure) => (
                CaptureState::Failed { error: CaptureError::DeviceError },
                CaptureAction::Report { error: CaptureError::DeviceError },
            ),
            (_, CaptureInput::Stop) => (CaptureState::Draining, CaptureAction::StopStream),
            (s, _) => (s, CaptureAction::Ignore),
        };
        self.state = next;
        action
    }
}

/// The unsigned value of four little-endian bytes.
pub open spec fn le_u32_value(b0: u8, b1: u8, b2: u8, b3: u8) -> int {
    (b0 as int) + 256 * (b1 as int) + 65536 * (b2 as int) + 16777216 * (b3 as int)
}

/// The same four bytes read as a signed two's-complement value.
pub open spec fn le_i32_value(b0: u8, b1: u8, b2: u8, b3: u8) -> int {
    if le_u32_value(b0, b1, b2, b3) < 0x8000_0000 {
        le_u32_value(b0, b1, b2, b3)
    } else {
        le_u32_value(b0, b1, b2, b3) - 0x1_0000_0000
    }
}

/// The sample at position `i` of a little-endian capture buffer.
pub open spec fn le_sample(bytes: Seq<u8>, i: int) -> int
    recommends
        0 <= i,
        4 * i + 4 <= bytes.len(),
{
    le_i32_value(bytes[4 * i], bytes[4 * i + 1], bytes[4 * i + 2], bytes[4 * i + 3])
}

/// Decodes a raw capture buffer: each 4-byte little-endian block becomes one
/// signed 32-bit sample.  Exactly `bytes.len() / 4` blocks are read, so the
/// decoder never touches memory past the frames the platform returned.
pub fn decode_samples(bytes: &[u8]) -> (samples: Vec<i32>)
    requires
        bytes@.len() % 4 == 0,
    ensures
        samples@.len() == bytes@.len() / 4,
        forall|i: int|
            0 <= i < samples@.len() ==> (samples@[i] as int) == le_sample(bytes@, i),
{
    let n = bytes.len() / 4;
    let mut samples: Vec<i32> = Vec::with_capacity(n);
    let mut i: usize = 0;
    while i < n
        invariant
            i <= n,
            n == bytes@.len() / 4,
            bytes@.len() % 4 == 0,
            bytes@.len() <= usize::MAX,
            samples@.len() == i,
            forall|j: int| 0 <= j < i ==> (samples@[j] as int) == le_sample(bytes@, j),
        decreases n - i,
    {
        proof {
            assert(bytes@.len() == 4 * n);
        }
        let b0 = bytes[4 * i] as u32;
        let b1 = bytes[4 * i + 1] as u32;
        let b2 = bytes[4 * i + 2] as u32;
        let b3 = bytes[4 * i + 3] as u32;
        let unsigned: u32 = b0 + 256 * b1 + 65536 * b2 + 16777216 * b3;
        let sample: i32 = if unsigned >= 0x8000_0000 {
            ((unsigned as i64) - 0x1_0000_0000) as i32
        } else {
            unsigned as i32
        };
        samples.push(sample);
        i = i + 1;
    }
    samples
}

/// A capture source that replays a prerecorded sample stream.
///
/// The samples are cut into chunks of a fixed size, which the surrounding
/// loop then delivers to the consumer at a fixed pacing interval; it
/// terminates after the last chunk.
pub struct MacOsCapturer {}

impl MacOsCapturer {
    /// Cuts the recording into consecutive chunks of `chunk_size` samples
    /// (the last chunk keeps whatever remains).  Concatenating the chunks in
    /// order gives back exactly the recording.
    pub fn replay_chunks(samples: &Vec<i32>, chunk_size: usize) -> (chunks: Vec<Vec<i32>>)
        requires
            chunk_size > 0,
        ensures
            crate::dsp::concat_chunks(chunks.deep_view()) == samples@,
            forall|i: int|
                0 <= i < chunks.deep_view().len() ==> chunks.deep_view()[i].len() <= chunk_size,
            forall|i: int|
                0 <= i < chunks.deep_view().len() - 1 ==> chunks.deep_view()[i].len()
                    == chunk_size,
            forall|i: int| 0 <= i < chunks.deep_view().len() ==> chunks.deep_view()[i].len() > 0,
    {
        let n = samples.len();
        let mut chunks: Vec<Vec<i32>> = Vec::new();
        let mut pos: usize = 0;
        while pos < n
            invariant
                pos <= n,
                n == samples@.len(),
                chunk_size > 0,
                crate::dsp::concat_chunks(chunks.deep_view()) == samples@.take(pos as int),
                forall|i: int|
                    0 <= i < chunks.deep_view().len() ==> chunks.deep_view()[i].len()
                        <= chunk_size,
                forall|i: int|
                    0 <= i < chunks.deep_view().len() ==> chunks.deep_view()[i].len() > 0,
                forall|i: int|
                    0 <= i < chunks.deep_view().len() - 1 ==> chunks.deep_view()[i].len()
                        == chunk_size,
                pos < n ==> forall|i: int|
                    0 <= i < chunks.deep_view().len() ==> chunks.deep_view()[i].len()
                        == chunk_size,
            decreases n - pos,
        {
            let remaining = n - pos;
            let take = if remaining < chunk_size {
                remaining
            } else {
                chunk_size
            };
            let mut chunk: Vec<i32> = Vec::with_capacity(take);
            let mut j: usize = 0;
            while j < take
                invariant
                    j <= take,
                    pos + take <= n,
                    n == samples@.len(),
                    chunk@ == samples@.subrange(pos as int, pos + j),
                decreases take - j,
            {
                chunk.push(samples[pos + j]);
                proof {
                    assert(chunk@ =~= samples@.subrange(pos as int, pos + j + 1));
                }
                j = j + 1;
            }
            let ghost old_chunks = chunks.deep_view();
            chunks.push(chunk);
            proof {
                assert(chunks.deep_view() =~~= old_chunks.push(samples@.subrange(
                    pos as int,
                    pos + take,
                )));
                assert(chunks.deep_view().drop_last() =~~= old_chunks);
                assert(crate::dsp::concat_chunks(chunks.deep_view()) =~= samples@.take(
                    (pos + take) as int,
                ));
            }
            pos = pos + take;
        }
        proof {
            assert(samples@.take(n as int) =~= samples@);
        }
        chunks
    }
}

} // verus!

use vstd::prelude::*;

use crate::retry::{Acquisition, RetryPolicy, acquisition_after, sat_inc};

verus! {

/// Pause at the end of every capture tick, in milliseconds (about thirty frames a second).
pub const CAPTURE_TICK_MS: u64 = 33;

/// Pause between two attempts to bind the outbound channel, in milliseconds.
pub const CHANNEL_BIND_RETRY_MS: u64 = 1000;

/// Pause between two attempts to open the camera, in milliseconds.
pub const CAMERA_RETRY_MS: u64 = 1000;

/// Requested frame width, in pixels.
pub const FRAME_WIDTH: u32 = 640;

/// Requested frame height, in pixels.
pub const FRAME_HEIGHT: u32 = 480;

/// Where the capture agent stands: which outside operation it waits on.
#[derive(Clone, Copy, Debug, PartialEq, Eq, Structural)]
pub enum CapturePhase {
    BindingChannel,
    ChannelBackoff,
    OpeningCamera,
    CameraBackoff,
    Reading,
    Encoding,
    Sending,
    Pausing,
}

/// The outcome of the operation that the agent asked for last.
#[derive(Clone, Copy, Debug, PartialEq, Eq, Structural)]
pub enum CaptureEvent {
    ChannelBound,
    ChannelFailed,
    CameraOpened,
    CameraFailed,
    FrameCaptured,
    EmptyFrame,
    ReadFailed,
    EncodeFailed,
    Sent,
    WouldBlock,
    SendFailed,
    Slept,
}

/// The next outside operation to perform.
#[derive(Debug, PartialEq, Eq)]
pub enum CaptureAction {
    /// Bind the send endpoint of the channel.
    BindChannel,
    /// Open the camera and request this resolution; a refused request is ignored.
    OpenCamera { width: u32, height: u32 },
    /// Read one frame from the camera.
    ReadFrame,
    /// Compress the frame just read.
    EncodeFrame,
    /// Hand these bytes to the channel; with `dont_wait` the send never blocks.
    SendFrame { payload: Vec<u8>, dont_wait: bool },
    /// Sleep this many milliseconds.
    Sleep { ms: u64 },
}

/// The decisions of the capture agent, with what it has done so far.
#[derive(Clone, Copy, Debug)]
pub struct CaptureAgent {
    pub phase: CapturePhase,
    pub channel: Acquisition,
    pub camera: Acquisition,
    /// Whether a camera is currently held.
    pub camera_open: bool,
    /// Finished ticks.
    pub ticks: u64,
    /// Frames handed over to the channel.
    pub sent: u64,
    /// Captured frames that were not handed over (encode or send failure).
    pub dropped: u64,
    /// Successful camera acquisitions.
    pub camera_opens: u64,
}

/// Whether `e` is an outcome of the operation that phase `p` waits on.
pub open spec fn capture_accepts(p: CapturePhase, e: CaptureEvent) -> bool {
    match p {
        CapturePhase::BindingChannel => e == CaptureEvent::ChannelBound || e
            == CaptureEvent::ChannelFailed,
        CapturePhase::OpeningCamera => e == CaptureEvent::CameraOpened || e
            == CaptureEvent::CameraFailed,
        CapturePhase::Reading => e == CaptureEvent::FrameCaptured || e == CaptureEvent::EmptyFrame
            || e == CaptureEvent::ReadFailed,
        CapturePhase::Encoding => e == CaptureEvent::EncodeFailed,
        CapturePhase::Sending => e == CaptureEvent::Sent || e == CaptureEvent::WouldBlock || e
            == CaptureEvent::SendFailed,
        CapturePhase::ChannelBackoff | CapturePhase::CameraBackoff | CapturePhase::Pausing => e
            == CaptureEvent::Slept,
    }
}

/// The agent with `phase` replaced and `ticks` advanced: the end of a tick.
pub open spec fn end_tick(a: CaptureAgent) -> CaptureAgent {
    CaptureAgent { phase: CapturePhase::Pausing, ticks: sat_inc(a.ticks), ..a }
}

/// The agent after event `e`, for an accepted event.
pub open spec fn capture_next(a: CaptureAgent, e: CaptureEvent) -> CaptureAgent {
    match e {
        CaptureEvent::ChannelBound => CaptureAgent {
            phase: CapturePhase::OpeningCamera,
            channel: acquisition_after(a.channel, true),
            ..a
        },
        CaptureEvent::ChannelFailed => CaptureAgent {
            phase: CapturePhase::ChannelBackoff,
            channel: acquisition_after(a.channel, false),
            ..a
        },
        CaptureEvent::CameraOpened => CaptureAgent {
            phase: if a.camera_opens == 0 {
                CapturePhase::Reading
            } else {
                CapturePhase::Pausing
            },
            camera: acquisition_after(a.camera, true),
            camera_open: true,
            camera_opens: sat_inc(a.camera_opens),
            ticks: if a.camera_opens == 0 {
                a.ticks
            } else {
                sat_inc(a.ticks)
            },
            ..a
        },
        CaptureEvent::CameraFailed => CaptureAgent {
            phase: CapturePhase::CameraBackoff,
            camera: acquisition_after(a.camera, false),
            ..a
        },
        CaptureEvent::FrameCaptured => CaptureAgent { phase: CapturePhase::Encoding, ..a },
        CaptureEvent::EmptyFrame => end_tick(a),
        CaptureEvent::ReadFailed => CaptureAgent {
            phase: CapturePhase::OpeningCamera,
            camera_open: false,
            ..a
        },
        CaptureEvent::EncodeFailed => end_tick(CaptureAgent { dropped: sat_inc(a.dropped), ..a }),
        CaptureEvent::Sent => end_tick(CaptureAgent { sent: sat_inc(a.sent), ..a }),
        CaptureEvent::WouldBlock | CaptureEvent::SendFailed => end_tick(
            CaptureAgent { dropped: sat_inc(a.dropped), ..a },
        ),
        CaptureEvent::Slept => CaptureAgent {
            phase: match a.phase {
                CapturePhase::ChannelBackoff => CapturePhase::BindingChannel,
                CapturePhase::CameraBackoff => CapturePhase::OpeningCamera,
                _ => CapturePhase::Reading,
            },
            ..a
        },
    }
}

/// The operation that the agent asks for in its phase. A sending agent asks
/// to send its payload, which only `on_encoded` hands out: nothing is said here.
pub open spec fn capture_request(a: CaptureAgent) -> CaptureAction {
    match a.phase {
        CapturePhase::BindingChannel => CaptureAction::BindChannel,
        CapturePhase::ChannelBackoff => CaptureAction::Sleep { ms: a.channel.policy.interval_ms },
        CapturePhase::OpeningCamera => CaptureAction::OpenCamera {
            width: FRAME_WIDTH,
            height: FRAME_HEIGHT,
        },
        CapturePhase::CameraBackoff => CaptureAction::Sleep { ms: a.camera.policy.interval_ms },
        CapturePhase::Reading => CaptureAction::ReadFrame,
        CapturePhase::Encoding => CaptureAction::EncodeFrame,
        CapturePhase::Pausing => CaptureAction::Sleep { ms: CAPTURE_TICK_MS },
        CapturePhase::Sending => arbitrary(),
    }
}

/// The agent after a sequence of accepted events.
pub open spec fn capture_run(a: CaptureAgent, events: Seq<CaptureEvent>) -> CaptureAgent
    decreases events.len(),
{
    if events.len() == 0 {
        a
    } else {
        capture_run(capture_next(a, events[0]), events.drop_first())
    }
}

/// Whether every event of the sequence is accepted by the agent it reaches.
pub open spec fn capture_all_accepted(a: CaptureAgent, events: Seq<CaptureEvent>) -> bool
    decreases events.len(),
{
    if events.len() == 0 {
        true
    } else {
        capture_accepts(a.phase, events[0]) && capture_all_accepted(
            capture_next(a, events[0]),
            events.drop_first(),
        )
    }
}

/// Whether no agent reached strictly before the end of the sequence is reading.
pub open spec fn capture_no_read_before_end(a: CaptureAgent, events: Seq<CaptureEvent>) -> bool
    decreases events.len(),
{
    if events.len() <= 1 {
        true
    } else {
        capture_next(a, events[0]).phase != CapturePhase::Reading && capture_no_read_before_end(
            capture_next(a, events[0]),
            events.drop_first(),
        )
    }
}

impl CaptureAgent {
    /// The retry policies are fixed and never give up.
    pub open spec fn wf(&self) -> bool {
        &&& self.channel.policy.interval_ms == CHANNEL_BIND_RETRY_MS
        &&& self.channel.policy.max_failures is None
        &&& self.camera.policy.interval_ms == CAMERA_RETRY_MS
        &&& self.camera.policy.max_failures is None
    }

    /// A fresh agent; its first request is to bind the channel.
    pub fn new() -> (r: (CaptureAgent, CaptureAction))
        ensures
            r.0.wf(),
            r.0.phase == CapturePhase::BindingChannel,
            r.0.channel.failures == 0,
            r.0.camera.failures == 0,
            !r.0.camera_open,
            r.0.ticks == 0,
            r.0.sent == 0,
            r.0.dropped == 0,
            r.0.camera_opens == 0,
            r.1 == capture_request(r.0),
    {
        let agent = CaptureAgent {
            phase: CapturePhase::BindingChannel,
            channel: Acquisition::new(RetryPolicy::fixed(CHANNEL_BIND_RETRY_MS)),
            camera: Acquisition::new(RetryPolicy::fixed(CAMERA_RETRY_MS)),
            camera_open: false,
            ticks: 0,
            sent: 0,
            dropped: 0,
            camera_opens: 0,
        };
        (agent, CaptureAction::BindChannel)
    }

    /// Whether `e` is an outcome of the operation this agent waits on.
    pub fn accepts(&self, e: CaptureEvent) -> (r: bool)
        ensures
            r == capture_accepts(self.phase, e),
    {
        match self.phase {
            CapturePhase::BindingChannel => e == CaptureEvent::ChannelBound || e
                == CaptureEvent::ChannelFailed,
            CapturePhase::OpeningCamera => e == CaptureEvent::CameraOpened || e
                == CaptureEvent::CameraFailed,
            CapturePhase::Reading => e == CaptureEvent::FrameCaptured || e
                == CaptureEvent::EmptyFrame || e == CaptureEvent::ReadFailed,
            CapturePhase::Encoding => e == CaptureEvent::EncodeFailed,
            CapturePhase::Sending => e == CaptureEvent::Sent || e == CaptureEvent::WouldBlock || e
                == CaptureEvent::SendFailed,
            CapturePhase::ChannelBackoff | CapturePhase::CameraBackoff | CapturePhase::Pausing => e
                == CaptureEvent::Slept,
        }
    }

    fn finish_tick(&mut self)
        ensures
            *final(self) == end_tick(*old(self)),
    {
        self.phase = CapturePhase::Pausing;
        if self.ticks < u64::MAX {
            self.ticks = self.ticks + 1;
        }
    }

    /// Takes the outcome of the last operation and returns the next one.
    pub fn step(&mut self, e: CaptureEvent) -> (r: CaptureAction)
        requires
            old(self).wf(),
            capture_accepts(old(self).phase, e),
        ensures
            final(self).wf(),
            *final(self) == capture_next(*old(self), e),
            final(self).phase != CapturePhase::Sending,
            r == capture_request(*final(self)),
    {
        match e {
            CaptureEvent::ChannelBound => {
                let _ = self.channel.record(true);
                self.phase = CapturePhase::OpeningCamera;
                CaptureAction::OpenCamera { width: FRAME_WIDTH, height: FRAME_HEIGHT }
            },
            CaptureEvent::ChannelFailed => {
                let _ = self.channel.record(false);
                self.phase = CapturePhase::ChannelBackoff;
                CaptureAction::Sleep { ms: self.channel.policy.interval_ms }
            },
            CaptureEvent::CameraOpened => {
                let _ = self.camera.record(true);
                self.camera_open = true;
                let first = self.camera_opens == 0;
                if self.camera_opens < u64::MAX {
                    self.camera_opens = self.camera_opens + 1;
                }
                if first {
                    self.phase = CapturePhase::Reading;
                    CaptureAction::ReadFrame
                } else {
                    self.finish_tick();
                    CaptureAction::Sleep { ms: CAPTURE_TICK_MS }
                }
            },
            CaptureEvent::CameraFailed => {
                let _ = self.camera.record(false);
                self.phase = CapturePhase::CameraBackoff;
                CaptureAction::Sleep { ms: self.camera.policy.interval_ms }
            },
            CaptureEvent::FrameCaptured => {
                self.phase = CapturePhase::Encoding;
                CaptureAction::EncodeFrame
            },
            CaptureEvent::EmptyFrame => {
                self.finish_tick();
                CaptureAction::Sleep { ms: CAPTURE_TICK_MS }
            },
            CaptureEvent::ReadFailed => {
                self.camera_open = false;
                self.phase = CapturePhase::OpeningCamera;
                CaptureAction::OpenCamera { width: FRAME_WIDTH, height: FRAME_HEIGHT }
            },
            CaptureEvent::Sent => {
                if self.sent < u64::MAX {
                    self.sent = self.sent + 1;
                }
                self.finish_tick();
                CaptureAction::Sleep { ms: CAPTURE_TICK_MS }
            },
            CaptureEvent::EncodeFailed | CaptureEvent::WouldBlock | CaptureEvent::SendFailed => {
                if self.dropped < u64::MAX {
                    self.dropped = self.dropped + 1;
                }
                self.finish_tick();
                CaptureAction::Sleep { ms: CAPTURE_TICK_MS }
            },
            CaptureEvent::Slept => {
                match self.phase {
                    CapturePhase::ChannelBackoff => {
                        self.phase = CapturePhase::BindingChannel;
                        CaptureAction::BindChannel
                    },
                    CapturePhase::CameraBackoff => {
                        self.phase = CapturePhase::OpeningCamera;
                        CaptureAction::OpenCamera { width: FRAME_WIDTH, height: FRAME_HEIGHT }
                    },
                    _ => {
                        self.phase = CapturePhase::Reading;
                        CaptureAction::ReadFrame
                    },
                }
            },
        }
    }

    /// Takes the compressed frame and asks for it to be sent without blocking,
    /// byte for byte as it was encoded.
    pub fn on_encoded(&mut self, payload: Vec<u8>) -> (r: CaptureAction)
        requires
            old(self).wf(),
            old(self).phase == CapturePhase::Encoding,
        ensures
            final(self).wf(),
            *final(self) == (CaptureAgent { phase: CapturePhase::Sending, ..*old(self) }),
            r == (CaptureAction::SendFrame { payload, dont_wait: true }),
    {
        self.phase = CapturePhase::Sending;
        CaptureAction::SendFrame { payload, dont_wait: true }
    }
}

/// An empty frame is swallowed: the tick ends and the loop goes on to the next
/// read, with the same camera and channel and no new acquisition.
pub proof fn lemma_empty_frame_swallowed(a: CaptureAgent)
    requires
        a.wf(),
        a.phase == CapturePhase::Reading,
        a.ticks < u64::MAX,
    ensures
        capture_next(a, CaptureEvent::EmptyFrame).ticks == a.ticks + 1,
        capture_next(a, CaptureEvent::EmptyFrame).camera_open == a.camera_open,
        capture_next(a, CaptureEvent::EmptyFrame).camera_opens == a.camera_opens,
        capture_next(a, CaptureEvent::EmptyFrame).channel == a.channel,
        capture_request(capture_next(a, CaptureEvent::EmptyFrame)) == (CaptureAction::Sleep {
            ms: CAPTURE_TICK_MS,
        }),
        capture_next(capture_next(a, CaptureEvent::EmptyFrame), CaptureEvent::Slept).phase
            == CapturePhase::Reading,
{
}

/// Whatever the channel answers to a send (taken, would block, failed), the
/// frame is never retried and the loop goes on: the tick ends with the usual
/// pause and the next read follows, with the same camera and channel.
pub proof fn lemma_send_outcome_keeps_running(a: CaptureAgent, e: CaptureEvent)
    requires
        a.wf(),
        a.phase == CapturePhase::Sending,
        capture_accepts(a.phase, e),
        a.ticks < u64::MAX,
    ensures
        capture_next(a, e).phase == CapturePhase::Pausing,
        capture_next(a, e).ticks == a.ticks + 1,
        capture_next(a, e).camera_open == a.camera_open,
        capture_next(a, e).camera_opens == a.camera_opens,
        capture_next(a, e).channel == a.channel,
        capture_request(capture_next(a, e)) == (CaptureAction::Sleep { ms: CAPTURE_TICK_MS }),
        capture_next(capture_next(a, e), CaptureEvent::Slept).phase == CapturePhase::Reading,
{
}

/// The states met between a read failure and the next read: the camera is
/// being opened again, or it was opened once and the tick is ending.
pub open spec fn reacquiring(s: CaptureAgent, base: u64) -> bool {
    ||| (s.phase == CapturePhase::OpeningCamera || s.phase == CapturePhase::CameraBackoff)
        && s.camera_opens == base
    ||| (s.phase == CapturePhase::Pausing || s.phase == CapturePhase::Reading) && s.camera_opens
        == sat_inc(base) && s.camera_open
}

proof fn lemma_reacquiring_until_read(s: CaptureAgent, base: u64, events: Seq<CaptureEvent>)
    requires
        reacquiring(s, base),
        events.len() > 0 ==> s.phase != CapturePhase::Reading,
        capture_all_accepted(s, events),
        capture_no_read_before_end(s, events),
        capture_run(s, events).phase == CapturePhase::Reading,
    ensures
        capture_run(s, events).camera_opens == sat_inc(base),
        capture_run(s, events).camera_open,
    decreases events.len(),
{
    if events.len() > 0 {
        let n = capture_next(s, events[0]);
        assert(reacquiring(n, base));
        lemma_reacquiring_until_read(n, base, events.drop_first());
    }
}

/// A camera read failure leads to exactly one completed camera acquisition
/// before the next read is attempted: whatever happens between the failure and
/// the next read, the count of acquisitions has grown by one and a camera is held.
pub proof fn lemma_read_failure_reacquires_once(a: CaptureAgent, events: Seq<CaptureEvent>)
    requires
        a.wf(),
        a.phase == CapturePhase::Reading,
        events.len() > 0,
        events[0] == CaptureEvent::ReadFailed,
        capture_all_accepted(a, events),
        capture_no_read_before_end(a, events),
        capture_run(a, events).phase == CapturePhase::Reading,
    ensures
        capture_run(a, events).camera_opens == sat_inc(a.camera_opens),
        capture_run(a, events).camera_open,
{
    let s = capture_next(a, events[0]);
    assert(!s.camera_open && s.phase == CapturePhase::OpeningCamera);
    lemma_reacquiring_until_read(s, a.camera_opens, events.drop_first());
}

} // verus!

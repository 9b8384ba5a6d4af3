use edge_stream::capture::{
    CaptureAction, CaptureAgent, CaptureEvent, CapturePhase, CAMERA_RETRY_MS,
    CAPTURE_TICK_MS, CHANNEL_BIND_RETRY_MS, FRAME_HEIGHT, FRAME_WIDTH,
};
use std::collections::VecDeque;

fn feed(agent: &mut CaptureAgent, e: CaptureEvent) -> CaptureAction {
    assert!(agent.accepts(e), "event {:?} in phase {:?}", e, agent.phase);
    agent.step(e)
}

fn running_agent() -> CaptureAgent {
    let (mut agent, first) = CaptureAgent::new();
    assert_eq!(first, CaptureAction::BindChannel);
    assert_eq!(
        feed(&mut agent, CaptureEvent::ChannelBound),
        CaptureAction::OpenCamera { width: FRAME_WIDTH, height: FRAME_HEIGHT }
    );
    assert_eq!(feed(&mut agent, CaptureEvent::CameraOpened), CaptureAction::ReadFrame);
    agent
}

#[test]
fn startup_retries_channel_and_camera_every_second() {
    let (mut agent, _) = CaptureAgent::new();
    for _ in 0..3 {
        assert_eq!(
            feed(&mut agent, CaptureEvent::ChannelFailed),
            CaptureAction::Sleep { ms: CHANNEL_BIND_RETRY_MS }
        );
        assert_eq!(feed(&mut agent, CaptureEvent::Slept), CaptureAction::BindChannel);
    }
    assert_eq!(agent.channel.failures, 3);
    feed(&mut agent, CaptureEvent::ChannelBound);
    for _ in 0..2 {
        assert_eq!(
            feed(&mut agent, CaptureEvent::CameraFailed),
            CaptureAction::Sleep { ms: CAMERA_RETRY_MS }
        );
        assert_eq!(
            feed(&mut agent, CaptureEvent::Slept),
            CaptureAction::OpenCamera { width: 640, height: 480 }
        );
    }
    assert_eq!(feed(&mut agent, CaptureEvent::CameraOpened), CaptureAction::ReadFrame);
    assert!(agent.camera_open);
    assert_eq!(agent.camera_opens, 1);
    assert_eq!(CHANNEL_BIND_RETRY_MS, 1000);
    assert_eq!(CAMERA_RETRY_MS, 1000);
}

#[test]
fn frame_is_sent_without_blocking_byte_for_byte() {
    let mut agent = running_agent();
    assert_eq!(feed(&mut agent, CaptureEvent::FrameCaptured), CaptureAction::EncodeFrame);
    let bytes = vec![0xff, 0xd8, 0x00, 0x10, 0xff, 0xd9];
    assert_eq!(
        agent.on_encoded(bytes.clone()),
        CaptureAction::SendFrame { payload: bytes, dont_wait: true }
    );
    assert_eq!(feed(&mut agent, CaptureEvent::Sent), CaptureAction::Sleep { ms: 33 });
    assert_eq!(agent.sent, 1);
    assert_eq!(agent.ticks, 1);
    assert_eq!(feed(&mut agent, CaptureEvent::Slept), CaptureAction::ReadFrame);
}

#[test]
fn would_block_drops_frame_and_loop_goes_on() {
    let mut agent = running_agent();
    feed(&mut agent, CaptureEvent::FrameCaptured);
    agent.on_encoded(vec![1, 2, 3]);
    assert_eq!(
        feed(&mut agent, CaptureEvent::WouldBlock),
        CaptureAction::Sleep { ms: CAPTURE_TICK_MS }
    );
    assert_eq!(agent.dropped, 1);
    assert_eq!(agent.sent, 0);
    assert_eq!(feed(&mut agent, CaptureEvent::Slept), CaptureAction::ReadFrame);
    assert!(agent.camera_open);
    assert_eq!(agent.camera_opens, 1);
}

#[test]
fn send_error_and_encode_error_drop_frame() {
    let mut agent = running_agent();
    feed(&mut agent, CaptureEvent::FrameCaptured);
    agent.on_encoded(vec![9]);
    feed(&mut agent, CaptureEvent::SendFailed);
    feed(&mut agent, CaptureEvent::Slept);
    feed(&mut agent, CaptureEvent::FrameCaptured);
    assert_eq!(
        feed(&mut agent, CaptureEvent::EncodeFailed),
        CaptureAction::Sleep { ms: CAPTURE_TICK_MS }
    );
    assert_eq!(agent.dropped, 2);
    assert_eq!(agent.ticks, 2);
}

#[test]
fn empty_frames_are_swallowed() {
    let mut agent = running_agent();
    for i in 1..=5u64 {
        assert_eq!(feed(&mut agent, CaptureEvent::EmptyFrame), CaptureAction::Sleep { ms: 33 });
        assert_eq!(agent.ticks, i);
        assert_eq!(feed(&mut agent, CaptureEvent::Slept), CaptureAction::ReadFrame);
    }
    assert_eq!(agent.camera_opens, 1);
    assert!(agent.camera_open);
    assert_eq!(agent.channel.failures, 0);
}

#[test]
fn read_failure_reacquires_camera_once_before_next_read() {
    let mut agent = running_agent();
    assert_eq!(
        feed(&mut agent, CaptureEvent::ReadFailed),
        CaptureAction::OpenCamera { width: 640, height: 480 }
    );
    assert!(!agent.camera_open);
    assert_eq!(agent.phase, CapturePhase::OpeningCamera);
    feed(&mut agent, CaptureEvent::CameraFailed);
    feed(&mut agent, CaptureEvent::Slept);
    assert_eq!(agent.camera_opens, 1);
    assert_eq!(feed(&mut agent, CaptureEvent::CameraOpened), CaptureAction::Sleep { ms: 33 });
    assert_eq!(agent.camera_opens, 2);
    assert_eq!(feed(&mut agent, CaptureEvent::Slept), CaptureAction::ReadFrame);
    assert!(agent.camera_open);
}

#[test]
fn unexpected_event_is_not_accepted() {
    let agent = running_agent();
    assert!(!agent.accepts(CaptureEvent::Sent));
    assert!(!agent.accepts(CaptureEvent::Slept));
    assert!(agent.accepts(CaptureEvent::EmptyFrame));
}

fn synthetic_frame(i: u32) -> Vec<u8> {
    (0..16u32).map(|k| ((i * 31 + k * 7) % 251) as u8).collect()
}

#[test]
fn hundred_frames_against_slow_consumer() {
    // The transport holds at most two frames; the consumer takes none during
    // the first 50 ticks and one per tick afterwards.
    let capacity = 2;
    let mut queue: VecDeque<Vec<u8>> = VecDeque::new();
    let mut delivered: Vec<Vec<u8>> = Vec::new();
    let mut produced: Vec<Vec<u8>> = Vec::new();
    let mut agent = running_agent();
    let mut sleeps = 0;
    for tick in 0..100u32 {
        assert_eq!(feed(&mut agent, CaptureEvent::FrameCaptured), CaptureAction::EncodeFrame);
        let frame = synthetic_frame(tick);
        produced.push(frame.clone());
        let action = agent.on_encoded(frame);
        let outcome = match action {
            CaptureAction::SendFrame { payload, dont_wait } => {
                assert!(dont_wait);
                if queue.len() < capacity {
                    queue.push_back(payload);
                    CaptureEvent::Sent
                } else {
                    CaptureEvent::WouldBlock
                }
            }
            other => panic!("unexpected {:?}", other),
        };
        match feed(&mut agent, outcome) {
            CaptureAction::Sleep { ms } => {
                assert_eq!(ms, 33);
                sleeps += 1;
            }
            other => panic!("unexpected {:?}", other),
        }
        if tick >= 50 {
            if let Some(m) = queue.pop_front() {
                delivered.push(m);
            }
        }
        assert_eq!(feed(&mut agent, CaptureEvent::Slept), CaptureAction::ReadFrame);
    }
    while let Some(m) = queue.pop_front() {
        delivered.push(m);
    }
    assert_eq!(sleeps, 100);
    assert_eq!(agent.ticks, 100);
    assert!(delivered.len() < 100);
    assert_eq!(agent.sent as usize, delivered.len());
    assert_eq!(agent.sent + agent.dropped, 100);
    assert!(agent.dropped > 0);
    // Every delivered frame is one that was produced, unchanged, in order.
    let mut next = 0;
    for d in &delivered {
        while next < produced.len() && &produced[next] != d {
            next += 1;
        }
        assert!(next < produced.len());
        next += 1;
    }
}

use vstd::prelude::*;

use crate::config::{InputShape, dims_product};
use crate::retry::{Acquisition, RetryPolicy, acquisition_after, sat_inc};

verus! {

/// Pause between two attempts to connect the inbound channel, in milliseconds.
pub const CONNECT_RETRY_MS: u64 = 2000;

/// Pause between two attempts to load the model, in milliseconds.
pub const MODEL_RETRY_MS: u64 = 5000;

/// Pause after a failed receive, in milliseconds.
pub const RECEIVE_RETRY_MS: u64 = 1000;

/// Where the inference agent stands: which outside operation it waits on.
#[derive(Clone, Copy, Debug, PartialEq, Eq, Structural)]
pub enum InferencePhase {
    Connecting,
    ConnectBackoff,
    LoadingModel,
    ModelBackoff,
    Receiving,
    ReceiveBackoff,
    Inferring,
}

/// The outcome of the operation that the agent asked for last. A received
/// frame is handed over through `on_received` instead.
#[derive(Clone, Copy, Debug, PartialEq, Eq, Structural)]
pub enum InferenceEvent {
    Connected,
    ConnectFailed,
    ModelLoaded,
    ModelFailed,
    ReceiveFailed,
    InferenceDone,
    InferenceFailed,
    Slept,
}

/// The next outside operation to perform.
#[derive(Debug, PartialEq, Eq)]
pub enum InferenceAction {
    /// Create the receive endpoint and connect it.
    Connect,
    /// Load and check the model, with basic graph optimisation.
    LoadModel,
    /// Wait for the next frame; with `blocking` the call returns only with a
    /// frame or an error.
    Receive { blocking: bool },
    /// Run the model on these bytes, laid out in the input shape.
    RunModel { input: Vec<u8> },
    /// Sleep this many milliseconds.
    Sleep { ms: u64 },
}

/// The decisions of the inference agent, with what it has done so far.
#[derive(Clone, Copy, Debug)]
pub struct InferenceAgent {
    pub phase: InferencePhase,
    pub channel: Acquisition,
    pub model: Acquisition,
    /// Whether a model session is held.
    pub model_loaded: bool,
    /// Number of bytes of a frame that fits the model's input.
    pub input_len: usize,
    /// Finished loop iterations (one per receive attempt).
    pub iterations: u64,
    /// Frames whose inference succeeded.
    pub results: u64,
    /// Frames whose size does not fit the input shape.
    pub mismatched: u64,
    /// Frames whose inference failed.
    pub failed: u64,
    /// Successful model loads.
    pub model_loads: u64,
}

/// Whether `e` is an outcome of the operation that phase `p` waits on.
pub open spec fn inference_accepts(p: InferencePhase, e: InferenceEvent) -> bool {
    match p {
        InferencePhase::Connecting => e == InferenceEvent::Connected || e
            == InferenceEvent::ConnectFailed,
        InferencePhase::LoadingModel => e == InferenceEvent::ModelLoaded || e
            == InferenceEvent::ModelFailed,
        InferencePhase::Receiving => e == InferenceEvent::ReceiveFailed,
        InferencePhase::Inferring => e == InferenceEvent::InferenceDone || e
            == InferenceEvent::InferenceFailed,
        InferencePhase::ConnectBackoff | InferencePhase::ModelBackoff
        | InferencePhase::ReceiveBackoff => e == InferenceEvent::Slept,
    }
}

/// The agent after event `e`, for an accepted event.
pub open spec fn inference_next(a: InferenceAgent, e: InferenceEvent) -> InferenceAgent {
    match e {
        InferenceEvent::Connected => InferenceAgent {
            phase: InferencePhase::LoadingModel,
            channel: acquisition_after(a.channel, true),
            ..a
        },
        InferenceEvent::ConnectFailed => InferenceAgent {
            phase: InferencePhase::ConnectBackoff,
            channel: acquisition_after(a.channel, false),
            ..a
        },
        InferenceEvent::ModelLoaded => InferenceAgent {
            phase: InferencePhase::Receiving,
            model: acquisition_after(a.model, true),
            model_loaded: true,
            model_loads: sat_inc(a.model_loads),
            ..a
        },
        InferenceEvent::ModelFailed => InferenceAgent {
            phase: InferencePhase::ModelBackoff,
            model: acquisition_after(a.model, false),
            ..a
        },
        InferenceEvent::ReceiveFailed => InferenceAgent {
            phase: InferencePhase::ReceiveBackoff,
            iterations: sat_inc(a.iterations),
            ..a
        },
        InferenceEvent::InferenceDone => InferenceAgent {
            phase: InferencePhase::Receiving,
            results: sat_inc(a.results),
            iterations: sat_inc(a.iterations),
            ..a
        },
        InferenceEvent::InferenceFailed => InferenceAgent {
            phase: InferencePhase::Receiving,
            failed: sat_inc(a.failed),
            iterations: sat_inc(a.iterations),
            ..a
        },
        InferenceEvent::Slept => InferenceAgent {
            phase: match a.phase {
                InferencePhase::ConnectBackoff => InferencePhase::Connecting,
                InferencePhase::ModelBackoff => InferencePhase::LoadingModel,
                _ => InferencePhase::Receiving,
            },
            ..a
        },
    }
}

/// The agent after receiving a frame of `len` bytes.
pub open spec fn inference_on_frame(a: InferenceAgent, len: nat) -> InferenceAgent {
    if len == a.input_len {
        InferenceAgent { phase: InferencePhase::Inferring, ..a }
    } else {
        InferenceAgent {
            mismatched: sat_inc(a.mismatched),
            iterations: sat_inc(a.iterations),
            ..a
        }
    }
}

/// The operation that the agent asks for in its phase. An inferring agent
/// asks to run the model on its frame, which only `on_received` hands out:
/// nothing is said here.
pub open spec fn inference_request(a: InferenceAgent) -> InferenceAction {
    match a.phase {
        InferencePhase::Connecting => InferenceAction::Connect,
        InferencePhase::ConnectBackoff => InferenceAction::Sleep {
            ms: a.channel.policy.interval_ms,
        },
        InferencePhase::LoadingModel => InferenceAction::LoadModel,
        InferencePhase::ModelBackoff => InferenceAction::Sleep { ms: a.model.policy.interval_ms },
        InferencePhase::Receiving => InferenceAction::Receive { blocking: true },
        InferencePhase::ReceiveBackoff => InferenceAction::Sleep { ms: RECEIVE_RETRY_MS },
        InferencePhase::Inferring => arbitrary(),
    }
}

impl InferenceAgent {
    /// The retry policies are fixed and never give up.
    pub open spec fn wf(&self) -> bool {
        &&& self.channel.policy.interval_ms == CONNECT_RETRY_MS
        &&& self.channel.policy.max_failures is None
        &&& self.model.policy.interval_ms == MODEL_RETRY_MS
        &&& self.model.policy.max_failures is None
    }

    /// A fresh agent for frames of the given shape; its first request is to connect.
    pub fn new(shape: &InputShape) -> (r: (InferenceAgent, InferenceAction))
        requires
            shape.wf(),
        ensures
            r.0.wf(),
            r.0.phase == InferencePhase::Connecting,
            r.0.input_len as int == dims_product(shape@),
            r.0.channel.failures == 0,
            r.0.model.failures == 0,
            !r.0.model_loaded,
            r.0.iterations == 0,
            r.0.results == 0,
            r.0.mismatched == 0,
            r.0.failed == 0,
            r.0.model_loads == 0,
            r.1 == inference_request(r.0),
    {
        let agent = InferenceAgent {
            phase: InferencePhase::Connecting,
            channel: Acquisition::new(RetryPolicy::fixed(CONNECT_RETRY_MS)),
            model: Acquisition::new(RetryPolicy::fixed(MODEL_RETRY_MS)),
            model_loaded: false,
            input_len: shape.elements(),
            iterations: 0,
            results: 0,
            mismatched: 0,
            failed: 0,
            model_loads: 0,
        };
        (agent, InferenceAction::Connect)
    }

    /// Whether `e` is an outcome of the operation this agent waits on.
    pub fn accepts(&self, e: InferenceEvent) -> (r: bool)
        ensures
            r == inference_accepts(self.phase, e),
    {
        match self.phase {
            InferencePhase::Connecting => e == InferenceEvent::Connected || e
                == InferenceEvent::ConnectFailed,
            InferencePhase::LoadingModel => e == InferenceEvent::ModelLoaded || e
                == InferenceEvent::ModelFailed,
            InferencePhase::Receiving => e == InferenceEvent::ReceiveFailed,
            InferencePhase::Inferring => e == InferenceEvent::InferenceDone || e
                == InferenceEvent::InferenceFailed,
            InferencePhase::ConnectBackoff | InferencePhase::ModelBackoff
            | InferencePhase::ReceiveBackoff => e == InferenceEvent::Slept,
        }
    }

    /// Takes the outcome of the last operation and returns the next one.
    pub fn step(&mut self, e: InferenceEvent) -> (r: InferenceAction)
        requires
            old(self).wf(),
            inference_accepts(old(self).phase, e),
        ensures
            final(self).wf(),
            *final(self) == inference_next(*old(self), e),
            final(self).phase != InferencePhase::Inferring,
            r == inference_request(*final(self)),
    {
        match e {
            InferenceEvent::Connected => {
                let _ = self.channel.record(true);
                self.phase = InferencePhase::LoadingModel;
                InferenceAction::LoadModel
            },
            InferenceEvent::ConnectFailed => {
                let _ = self.channel.record(false);
                self.phase = InferencePhase::ConnectBackoff;
                InferenceAction::Sleep { ms: self.channel.policy.interval_ms }
            },
            InferenceEvent::ModelLoaded => {
                let _ = self.model.record(true);
                self.model_loaded = true;
                if self.model_loads < u64::MAX {
                    self.model_loads = self.model_loads + 1;
                }
                self.phase = InferencePhase::Receiving;
                InferenceAction::Receive { blocking: true }
            },
            InferenceEvent::ModelFailed => {
                let _ = self.model.record(false);
                self.phase = InferencePhase::ModelBackoff;
                InferenceAction::Sleep { ms: self.model.policy.interval_ms }
            },
            InferenceEvent::ReceiveFailed => {
                self.count_iteration();
                self.phase = InferencePhase::ReceiveBackoff;
                InferenceAction::Sleep { ms: RECEIVE_RETRY_MS }
            },
            InferenceEvent::InferenceDone => {
                if self.results < u64::MAX {
                    self.results = self.results + 1;
                }
                self.count_iteration();
                self.phase = InferencePhase::Receiving;
                InferenceAction::Receive { blocking: true }
            },
            InferenceEvent::InferenceFailed => {
                if self.failed < u64::MAX {
                    self.failed = self.failed + 1;
                }
                self.count_iteration();
                self.phase = InferencePhase::Receiving;
                InferenceAction::Receive { blocking: true }
            },
            InferenceEvent::Slept => {
                match self.phase {
                    InferencePhase::ConnectBackoff => {
                        self.phase = InferencePhase::Connecting;
                        InferenceAction::Connect
                    },
                    InferencePhase::ModelBackoff => {
                        self.phase = InferencePhase::LoadingModel;
                        InferenceAction::LoadModel
                    },
                    _ => {
                        self.phase = InferencePhase::Receiving;
                        InferenceAction::Receive { blocking: true }
                    },
                }
            },
        }
    }

    fn count_iteration(&mut self)
        ensures
            *final(self) == (InferenceAgent {
                iterations: sat_inc(old(self).iterations),
                ..*old(self)
            }),
    {
        if self.iterations < u64::MAX {
            self.iterations = self.iterations + 1;
        }
    }

    /// Takes a received frame: one that fits the input shape goes to the
    /// model unchanged; any other is dropped and the next frame is awaited.
    pub fn on_received(&mut self, frame: Vec<u8>) -> (r: InferenceAction)
        requires
            old(self).wf(),
            old(self).phase == InferencePhase::Receiving,
        ensures
            final(self).wf(),
            *final(self) == inference_on_frame(*old(self), frame@.len()),
            frame@.len() == old(self).input_len ==> r == (InferenceAction::RunModel {
                input: frame,
            }),
            frame@.len() != old(self).input_len ==> r == (InferenceAction::Receive {
                blocking: true,
            }),
    {
        if frame.len() == self.input_len {
            self.phase = InferencePhase::Inferring;
            InferenceAction::RunModel { input: frame }
        } else {
            if self.mismatched < u64::MAX {
                self.mismatched = self.mismatched + 1;
            }
            self.count_iteration();
            InferenceAction::Receive { blocking: true }
        }
    }
}

/// A frame whose size does not fit the input shape is swallowed: the loop goes
/// on receiving, the iteration count grows and the model session is kept.
pub proof fn lemma_shape_mismatch_swallowed(a: InferenceAgent, len: nat)
    requires
        a.wf(),
        a.phase == InferencePhase::Receiving,
        len != a.input_len,
        a.iterations < u64::MAX,
    ensures
        inference_on_frame(a, len).phase == InferencePhase::Receiving,
        inference_on_frame(a, len).iterations == a.iterations + 1,
        inference_on_frame(a, len).model_loaded == a.model_loaded,
        inference_on_frame(a, len).model_loads == a.model_loads,
        inference_on_frame(a, len).channel == a.channel,
        inference_request(inference_on_frame(a, len)) == (InferenceAction::Receive {
            blocking: true,
        }),
{
}

/// Receiving blocks: the agent asks for a blocking receive, and while it
/// receives nothing moves it on but a frame or a failed receive; after a
/// failed receive it pauses and then receives again on the same endpoint.
pub proof fn lemma_receive_waits(a: InferenceAgent, e: InferenceEvent)
    requires
        a.wf(),
        a.phase == InferencePhase::Receiving,
        inference_accepts(a.phase, e),
    ensures
        inference_request(a) == (InferenceAction::Receive { blocking: true }),
        e == InferenceEvent::ReceiveFailed,
        inference_request(inference_next(a, e)) == (InferenceAction::Sleep {
            ms: RECEIVE_RETRY_MS,
        }),
        inference_next(inference_next(a, e), InferenceEvent::Slept).phase
            == InferencePhase::Receiving,
        inference_next(inference_next(a, e), InferenceEvent::Slept).channel == a.channel,
{
}

/// An inference failure never costs the model session: the agent goes back to
/// receiving with the same session.
pub proof fn lemma_inference_failure_keeps_session(a: InferenceAgent)
    requires
        a.wf(),
        a.phase == InferencePhase::Inferring,
    ensures
        inference_next(a, InferenceEvent::InferenceFailed).phase == InferencePhase::Receiving,
        inference_next(a, InferenceEvent::InferenceFailed).model_loaded == a.model_loaded,
        inference_next(a, InferenceEvent::InferenceFailed).model_loads == a.model_loads,
{
}

/// The agent after a sequence of accepted events.
pub open spec fn inference_run(a: InferenceAgent, events: Seq<InferenceEvent>) -> InferenceAgent
    decreases events.len(),
{
    if events.len() == 0 {
        a
    } else {
        inference_run(inference_next(a, events[0]), events.drop_first())
    }
}

/// Whether every event of the sequence is accepted by the agent it reaches.
pub open spec fn inference_all_accepted(a: InferenceAgent, events: Seq<InferenceEvent>) -> bool
    decreases events.len(),
{
    if events.len() == 0 {
        true
    } else {
        inference_accepts(a.phase, events[0]) && inference_all_accepted(
            inference_next(a, events[0]),
            events.drop_first(),
        )
    }
}

/// `n` failed model loads, each followed by its pause, then a load that succeeds.
pub open spec fn load_attempts(n: nat) -> Seq<InferenceEvent>
    decreases n,
{
    if n == 0 {
        seq![InferenceEvent::ModelLoaded]
    } else {
        seq![InferenceEvent::ModelFailed, InferenceEvent::Slept] + load_attempts((n - 1) as nat)
    }
}

/// A failed model load asks for a pause of the model backoff and then for a
/// new load, with nothing loaded in between.
pub proof fn lemma_model_failure_backs_off(a: InferenceAgent)
    requires
        a.wf(),
        a.phase == InferencePhase::LoadingModel,
    ensures
        inference_request(inference_next(a, InferenceEvent::ModelFailed)) == (
        InferenceAction::Sleep { ms: MODEL_RETRY_MS }),
        inference_next(inference_next(a, InferenceEvent::ModelFailed), InferenceEvent::Slept).phase
            == InferencePhase::LoadingModel,
        inference_next(inference_next(a, InferenceEvent::ModelFailed), InferenceEvent::Slept).wf(),
        inference_next(
            inference_next(a, InferenceEvent::ModelFailed),
            InferenceEvent::Slept,
        ).model_loads == a.model_loads,
{
}

/// However many loads fail first, the agent keeps retrying and ends with
/// exactly one more successful load, a held session and a receiving loop.
pub proof fn lemma_model_retry_then_load(a: InferenceAgent, n: nat)
    requires
        a.wf(),
        a.phase == InferencePhase::LoadingModel,
    ensures
        inference_all_accepted(a, load_attempts(n)),
        inference_run(a, load_attempts(n)).phase == InferencePhase::Receiving,
        inference_run(a, load_attempts(n)).model_loaded,
        inference_run(a, load_attempts(n)).model_loads == sat_inc(a.model_loads),
        inference_run(a, load_attempts(n)).model.failures == 0,
        inference_run(a, load_attempts(n)).channel == a.channel,
    decreases n,
{
    let ev = load_attempts(n);
    if n == 0 {
        assert(ev =~= seq![InferenceEvent::ModelLoaded]);
        assert(ev.drop_first() =~= Seq::<InferenceEvent>::empty());
        let a1 = inference_next(a, InferenceEvent::ModelLoaded);
        assert(inference_run(a1, Seq::<InferenceEvent>::empty()) == a1);
        assert(inference_all_accepted(a1, Seq::<InferenceEvent>::empty()));
    } else {
        let rest = load_attempts((n - 1) as nat);
        let a1 = inference_next(a, InferenceEvent::ModelFailed);
        let a2 = inference_next(a1, InferenceEvent::Slept);
        assert(ev[0] == InferenceEvent::ModelFailed);
        assert(ev.drop_first()[0] == InferenceEvent::Slept);
        assert(ev.drop_first().drop_first() =~= rest);
        lemma_model_retry_then_load(a2, (n - 1) as nat);
        assert(inference_run(a1, ev.drop_first()) == inference_run(a2, rest));
        assert(inference_all_accepted(a1, ev.drop_first()));
    }
}

} // verus!

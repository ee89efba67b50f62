//! The per-connection stream engine.
//!
//! A stream request produces one of two outcomes: a temporary redirect to
//! the session's human-facing detail page, or an open multipart response
//! backed by a background driver.  The admission decision and the driver's
//! state machine live here, fully specified; the asynchronous shell around
//! them (the subscription, the timer, the bounded writer channel) performs
//! the actions this module decides.

use vstd::prelude::*;

use crate::browser_engine::WellKnownBrowserEngine;
use crate::whoami::WhoAmI;
use crate::SvgFrame;

verus! {

/// The stream query parameters, each optional.
pub struct StreamSenderConfigParams {
    pub double_frame: Option<bool>,
    pub as_bot: Option<bool>,
    pub keep_alive: Option<u64>,
    pub delayed_start: Option<u64>,
}

/// The resolved configuration of one open stream.
#[derive(Debug)]
pub struct StreamSenderConfig {
    pub session_log_id: String,
    pub initial_frame: SvgFrame,
    pub should_double: bool,
    pub keep_alive_ms: u64,
    pub delayed_start_ms: u64,
}

/// What the caller hands the engine: identifiers, the redirect target for
/// humans, the frame rendered at join time, and the topic to subscribe to.
pub struct StreamSenderRequest {
    pub session_log_id: String,
    pub redirect_path: String,
    pub initial_frame: SvgFrame,
    pub pubsub_channel: String,
}

#[derive(Debug)]
pub struct StreamSender {
    pub config: StreamSenderConfig,
}

impl StreamSender {
    pub fn new(config: StreamSenderConfig) -> (r: Self)
        ensures
            r.config == config,
    {
        StreamSender { config }
    }
}

/// The admission outcome of a stream request.
#[derive(Debug)]
pub enum StreamPlan {
    /// A human client without the `as_bot` override: redirect to the
    /// session's detail page.
    Redirect(String),
    /// Proceed: open the multipart response with this configuration and
    /// subscribe to this topic.
    Stream(StreamSender, String),
}

/// Whether the request is redirected: the client is a human and the
/// `as_bot` override is not set.
pub open spec fn spec_should_redirect(params: StreamSenderConfigParams, whoami: WhoAmI) -> bool {
    whoami == WhoAmI::Human && params.as_bot != Some(true)
}

/// Whether parts are doubled: the explicit query override, else the
/// detected engine's need.
pub open spec fn spec_should_double(
    params: StreamSenderConfigParams,
    engine: WellKnownBrowserEngine,
) -> bool {
    match params.double_frame {
        Some(b) => b,
        None => engine is Blink,
    }
}

/// Decides a stream request: redirect humans to the detail page, otherwise
/// resolve the configuration (keep-alive default 30000 ms, delayed start
/// default 0 ms, double-frame per override or engine).
pub fn plan_stream(
    params: StreamSenderConfigParams,
    whoami: WhoAmI,
    engine: WellKnownBrowserEngine,
    request: StreamSenderRequest,
) -> (r: StreamPlan)
    ensures
        spec_should_redirect(params, whoami) ==> (r matches StreamPlan::Redirect(p) && p@
            == request.redirect_path@),
        !spec_should_redirect(params, whoami) ==> (r matches StreamPlan::Stream(s, topic) && {
            &&& s.config.session_log_id@ == request.session_log_id@
            &&& s.config.initial_frame == request.initial_frame
            &&& s.config.should_double == spec_should_double(params, engine)
            &&& s.config.keep_alive_ms == match params.keep_alive {
                Some(v) => v,
                None => 30000u64,
            }
            &&& s.config.delayed_start_ms == match params.delayed_start {
                Some(v) => v,
                None => 0u64,
            }
            &&& topic@ == request.pubsub_channel@
        }),
{
    let is_human = matches!(whoami, WhoAmI::Human);
    let as_bot = matches!(params.as_bot, Some(true));
    if is_human && !as_bot {
        return StreamPlan::Redirect(request.redirect_path);
    }
    let should_double = match params.double_frame {
        Some(b) => b,
        None => engine.is_x_multipart_replace_double_frame(),
    };
    let keep_alive_ms = match params.keep_alive {
        Some(v) => v,
        None => 30000,
    };
    let delayed_start_ms = match params.delayed_start {
        Some(v) => v,
        None => 0,
    };
    let config = StreamSenderConfig {
        session_log_id: request.session_log_id,
        initial_frame: request.initial_frame,
        should_double,
        keep_alive_ms,
        delayed_start_ms,
    };
    StreamPlan::Stream(StreamSender::new(config), request.pubsub_channel)
}

/// The driver's state: running until terminated, holding the frame last
/// written out (initially the frame already emitted at join).
pub enum DriverStatus {
    Running,
    Terminated,
}

pub struct StreamDriver {
    pub last_frame: SvgFrame,
    pub status: DriverStatus,
}

/// One input to the driver loop.
pub enum DriverEvent {
    /// A bus message arrived; `None` where its payload did not decode into
    /// a frame.
    BusMessage(Option<SvgFrame>),
    /// The periodic keep-alive timer ticked.
    KeepAliveTick,
    /// The bus subscription ended.
    BusClosed,
    /// The response writer is gone (an enqueue failed).
    WriterClosed,
}

/// What the shell must do after a step.
pub enum DriverAction {
    /// Enqueue this frame's part to the writer.
    Emit(SvgFrame),
    /// Nothing: stay in the loop.
    Ignore,
    /// Release the subscription, drop the writer, reclaim resources.  No
    /// shutdown frame is emitted.
    Terminate,
}

/// The driver's transition function: on a decodable bus message the frame
/// is emitted and remembered; an undecodable one is logged and skipped; a
/// keep-alive tick re-emits the last frame; the bus ending or the writer
/// going away terminates the driver.
pub open spec fn spec_step(d: StreamDriver, event: DriverEvent) -> (StreamDriver, DriverAction) {
    match event {
        DriverEvent::BusMessage(Some(f)) => (
            StreamDriver { last_frame: f, status: DriverStatus::Running },
            DriverAction::Emit(f),
        ),
        DriverEvent::BusMessage(None) => (d, DriverAction::Ignore),
        DriverEvent::KeepAliveTick => (d, DriverAction::Emit(d.last_frame)),
        DriverEvent::BusClosed => (
            StreamDriver { last_frame: d.last_frame, status: DriverStatus::Terminated },
            DriverAction::Terminate,
        ),
        DriverEvent::WriterClosed => (
            StreamDriver { last_frame: d.last_frame, status: DriverStatus::Terminated },
            DriverAction::Terminate,
        ),
    }
}

impl StreamDriver {
    /// A fresh driver: `last_frame` is the frame already written out at
    /// join time.
    pub fn new(initial_frame: SvgFrame) -> (r: Self)
        ensures
            r.last_frame == initial_frame,
            r.status is Running,
    {
        StreamDriver { last_frame: initial_frame, status: DriverStatus::Running }
    }

    /// One loop iteration.
    pub fn step(&mut self, event: DriverEvent) -> (r: DriverAction)
        requires
            old(self).status is Running,
        ensures
            (*final(self), r) == spec_step(*old(self), event),
    {
        match event {
            DriverEvent::BusMessage(Some(f)) => {
                self.last_frame = f.clone();
                proof {
                    assert(*self == StreamDriver {
                        last_frame: self.last_frame,
                        status: DriverStatus::Running,
                    });
                }
                DriverAction::Emit(f)
            },
            DriverEvent::BusMessage(None) => DriverAction::Ignore,
            DriverEvent::KeepAliveTick => DriverAction::Emit(self.last_frame.clone()),
            DriverEvent::BusClosed => {
                self.status = DriverStatus::Terminated;
                DriverAction::Terminate
            },
            DriverEvent::WriterClosed => {
                self.status = DriverStatus::Terminated;
                DriverAction::Terminate
            },
        }
    }
}

/// The actions of a driver run over a sequence of events.
pub open spec fn spec_run(d: StreamDriver, events: Seq<DriverEvent>) -> Seq<DriverAction>
    decreases events.len(),
{
    if events.len() == 0 {
        Seq::empty()
    } else {
        let (d1, a) = spec_step(d, events[0]);
        seq![a] + spec_run(d1, events.drop_first())
    }
}

/// A run over `N` decoded publishes (no keep-alive, no disconnect) emits
/// exactly those `N` frames, in order, and never terminates: together with
/// the transcript law of the multipart module, the subscriber observes
/// exactly `N + 1` emissions (initial plus one per publish).
pub proof fn lemma_run_of_publishes(d: StreamDriver, events: Seq<DriverEvent>)
    requires
        forall|i: int|
            0 <= i < events.len() ==> (#[trigger] events[i] matches DriverEvent::BusMessage(m)
                && m is Some),
    ensures
        spec_run(d, events).len() == events.len(),
        forall|i: int|
            0 <= i < events.len() ==> #[trigger] spec_run(d, events)[i] == DriverAction::Emit(
                events[i]->BusMessage_0->Some_0,
            ),
    decreases events.len(),
{
    if events.len() > 0 {
        assert(events[0] matches DriverEvent::BusMessage(m) && m is Some);
        let (d1, a) = spec_step(d, events[0]);
        assert(forall|i: int|
            0 <= i < events.drop_first().len() ==> events.drop_first()[i] == events[i + 1]);
        lemma_run_of_publishes(d1, events.drop_first());
        assert forall|i: int|
            0 <= i < events.len() implies #[trigger] spec_run(d, events)[i] == DriverAction::Emit(
            events[i]->BusMessage_0->Some_0,
        ) by {
            if i > 0 {
                assert(spec_run(d1, events.drop_first())[i - 1] == DriverAction::Emit(
                    events.drop_first()[i - 1]->BusMessage_0->Some_0,
                ));
            }
        }
    }
}

} // verus!

use realtime_svg::api::stream::{plan_public_stream, plan_user_stream};
use realtime_svg::args::ArgMap;
use realtime_svg::browser_engine::WellKnownBrowserEngine;
use realtime_svg::multipart::encode_stream_frame;
use realtime_svg::session_data::SessionData;
use realtime_svg::stream::{
    plan_stream, DriverAction, DriverEvent, StreamDriver, StreamPlan, StreamSenderConfigParams,
    StreamSenderRequest,
};
use realtime_svg::whoami::WhoAmI;
use realtime_svg::SvgFrame;

fn request() -> StreamSenderRequest {
    StreamSenderRequest {
        session_log_id: "demo".to_string(),
        redirect_path: "/session/demo".to_string(),
        initial_frame: SvgFrame::new("<svg>hi</svg>".to_string()),
        pubsub_channel: "demo".to_string(),
    }
}

fn no_params() -> StreamSenderConfigParams {
    StreamSenderConfigParams { double_frame: None, as_bot: None, keep_alive: None, delayed_start: None }
}

#[test]
fn human_is_redirected_to_detail_page() {
    let plan = plan_stream(no_params(), WhoAmI::Human, WellKnownBrowserEngine::Unknown, request());
    match plan {
        StreamPlan::Redirect(path) => assert_eq!(path, "/session/demo"),
        StreamPlan::Stream(..) => panic!("human without as_bot must be redirected"),
    }
}

#[test]
fn bot_gets_stream_with_defaults() {
    let plan = plan_stream(no_params(), WhoAmI::Bot, WellKnownBrowserEngine::Unknown, request());
    match plan {
        StreamPlan::Stream(sender, topic) => {
            assert_eq!(topic, "demo");
            assert_eq!(sender.config.keep_alive_ms, 30000);
            assert_eq!(sender.config.delayed_start_ms, 0);
            assert!(!sender.config.should_double);
            assert_eq!(sender.config.initial_frame.content, "<svg>hi</svg>");
        }
        StreamPlan::Redirect(_) => panic!("bot must stream"),
    }
}

#[test]
fn as_bot_override_bypasses_redirect() {
    let params = StreamSenderConfigParams { as_bot: Some(true), ..no_params() };
    let plan = plan_stream(params, WhoAmI::Human, WellKnownBrowserEngine::Unknown, request());
    assert!(matches!(plan, StreamPlan::Stream(..)));
}

#[test]
fn blink_engine_turns_doubling_on() {
    let plan = plan_stream(no_params(), WhoAmI::Unknown, WellKnownBrowserEngine::Blink, request());
    match plan {
        StreamPlan::Stream(sender, _) => assert!(sender.config.should_double),
        StreamPlan::Redirect(_) => panic!("unknown client must stream"),
    }
}

#[test]
fn explicit_double_frame_overrides_engine() {
    let params = StreamSenderConfigParams { double_frame: Some(false), ..no_params() };
    let plan = plan_stream(params, WhoAmI::Bot, WellKnownBrowserEngine::Blink, request());
    match plan {
        StreamPlan::Stream(sender, _) => assert!(!sender.config.should_double),
        StreamPlan::Redirect(_) => panic!("bot must stream"),
    }
}

fn demo_session() -> SessionData {
    let mut args = ArgMap::new();
    args.insert("x".to_string(), "\"hi\"".to_string());
    SessionData::new("<svg>{{x}}</svg>".to_string(), args)
}

#[test]
fn public_stream_of_absent_session_is_not_found() {
    let r = plan_public_stream(
        "demo".to_string(),
        None,
        no_params(),
        WhoAmI::Bot,
        WellKnownBrowserEngine::Unknown,
    );
    assert_eq!(r.unwrap_err().status_code(), 404);
}

#[test]
fn public_stream_renders_initial_frame_and_names_topic() {
    let plan = plan_public_stream(
        "demo".to_string(),
        Some(demo_session()),
        no_params(),
        WhoAmI::Bot,
        WellKnownBrowserEngine::Unknown,
    )
    .unwrap();
    match plan {
        StreamPlan::Stream(sender, topic) => {
            assert_eq!(topic, "demo");
            assert_eq!(sender.config.initial_frame.content, "<svg>hi</svg>");
            assert_eq!(sender.config.session_log_id, "demo");
        }
        StreamPlan::Redirect(_) => panic!("bot must stream"),
    }
}

#[test]
fn public_stream_redirects_humans() {
    let plan = plan_public_stream(
        "demo".to_string(),
        Some(demo_session()),
        no_params(),
        WhoAmI::Human,
        WellKnownBrowserEngine::Unknown,
    )
    .unwrap();
    match plan {
        StreamPlan::Redirect(path) => assert_eq!(path, "/session/demo"),
        StreamPlan::Stream(..) => panic!("human without as_bot must be redirected"),
    }
}

#[test]
fn owned_stream_authorizes_subject() {
    // Alice's token cannot stream bob's session, whatever is stored.
    let r = plan_user_stream(
        "alice",
        "bob",
        "demo".to_string(),
        Some(demo_session()),
        no_params(),
        WhoAmI::Bot,
        WellKnownBrowserEngine::Unknown,
    );
    assert_eq!(r.unwrap_err().status_code(), 403);
}

#[test]
fn owned_stream_of_absent_session_is_not_found() {
    let r = plan_user_stream(
        "alice",
        "alice",
        "demo".to_string(),
        None,
        no_params(),
        WhoAmI::Bot,
        WellKnownBrowserEngine::Unknown,
    );
    assert_eq!(r.unwrap_err().status_code(), 404);
}

#[test]
fn owned_stream_topic_is_the_owned_key() {
    let plan = plan_user_stream(
        "alice",
        "alice",
        "demo".to_string(),
        Some(demo_session()),
        no_params(),
        WhoAmI::Bot,
        WellKnownBrowserEngine::Unknown,
    )
    .unwrap();
    match plan {
        StreamPlan::Stream(sender, topic) => {
            // The topic is the owned key itself: never a public session of
            // the same bare name.
            assert_eq!(topic, "user:alice:session:demo");
            assert_eq!(sender.config.session_log_id, "alice:demo");
            assert_eq!(sender.config.initial_frame.content, "<svg>hi</svg>");
        }
        StreamPlan::Redirect(_) => panic!("bot must stream"),
    }
}

#[test]
fn driver_emits_decoded_publishes_and_remembers_last() {
    let initial = SvgFrame::new("<svg>0</svg>".to_string());
    let mut driver = StreamDriver::new(initial);
    let update = SvgFrame::new("<svg>ok</svg>".to_string());

    match driver.step(DriverEvent::BusMessage(Some(update.clone()))) {
        DriverAction::Emit(f) => assert_eq!(f.content, "<svg>ok</svg>"),
        _ => panic!("a decoded publish must be emitted"),
    }
    // A keep-alive tick re-emits the last frame.
    match driver.step(DriverEvent::KeepAliveTick) {
        DriverAction::Emit(f) => assert_eq!(f.content, "<svg>ok</svg>"),
        _ => panic!("keep-alive must re-emit the last frame"),
    }
}

#[test]
fn driver_skips_undecodable_payload() {
    let mut driver = StreamDriver::new(SvgFrame::new("<svg>0</svg>".to_string()));
    assert!(matches!(driver.step(DriverEvent::BusMessage(None)), DriverAction::Ignore));
    // The last frame is unchanged.
    match driver.step(DriverEvent::KeepAliveTick) {
        DriverAction::Emit(f) => assert_eq!(f.content, "<svg>0</svg>"),
        _ => panic!("keep-alive must re-emit the last frame"),
    }
}

#[test]
fn driver_terminates_on_bus_end_and_writer_loss() {
    let mut a = StreamDriver::new(SvgFrame::new("<svg/>".to_string()));
    assert!(matches!(a.step(DriverEvent::BusClosed), DriverAction::Terminate));
    let mut b = StreamDriver::new(SvgFrame::new("<svg/>".to_string()));
    assert!(matches!(b.step(DriverEvent::WriterClosed), DriverAction::Terminate));
}

#[test]
fn update_fan_out_reaches_both_subscribers() {
    // Two independent drivers (one per connection) each observe the same
    // publish and emit byte-identical parts.
    let mut first = StreamDriver::new(SvgFrame::new("<svg>hi</svg>".to_string()));
    let mut second = StreamDriver::new(SvgFrame::new("<svg>hi</svg>".to_string()));
    let update = SvgFrame::new("<svg>ok</svg>".to_string());

    let parts: Vec<String> = [&mut first, &mut second]
        .into_iter()
        .map(|d| match d.step(DriverEvent::BusMessage(Some(update.clone()))) {
            DriverAction::Emit(f) => encode_stream_frame(&f, false),
            _ => panic!("publish must be emitted"),
        })
        .collect();
    assert_eq!(parts[0], parts[1]);
    assert!(parts[0].contains("<svg>ok</svg>"));
}

use alkonost::channel::{Backpressure, ChannelSendError, SendStep, TrySendOutcome, BACKPRESSURE_SPAN};
use alkonost::chat_manager::{self, ChatManagerState, ManagerAction};
use alkonost::chat_params::{chat_url, endpoint_url, AdParam, ChatParams};
use alkonost::controller::{route, IncMessages as Command};
use alkonost::decision::Decision;
use alkonost::detector_manager::{DetectorManager, IncMessages as DetectorIn, OutMessages as DetectorOut};
use alkonost::params::DetectorParams;
use alkonost::params_extractor::{ExtractingResult, ParamsExtractingError, ParamsExtractor};
use alkonost::poller::{
    Continuation, IncMessages as PollerIn, OutMessages as PollerOut, PollResponse, PollerCommand, PollerEvent,
    PollerPhase, PollerState, RequestSettings,
};
use alkonost::stream_finder::{self, discovery_result, discovery_url, StreamFinderState, VideoList};
use alkonost::types::{Action, IdEntry, MessageContent, User};
use alkonost::text::decimal_string;
use alkonost::youtube_regexes::YoutubeRegexes;

fn settings() -> RequestSettings {
    RequestSettings {
        user_agent: "agent".to_string(),
        browser_name: "Firefox".to_string(),
        browser_version: "100.0".to_string(),
    }
}

fn post(id: &str, user: &str, text: &str, timestamp: u64) -> Action {
    Action::NewMessage {
        id: IdEntry { id: id.to_string(), timestamp },
        message: MessageContent::SimpleMessage {
            author: User { name: None, channel_id: user.to_string(), badges: None },
            message: text.to_string(),
        },
    }
}

#[test]
fn backpressure_turns_on_when_full_and_off_after_span() {
    let (state, step) = Backpressure::Off.after_try_send(TrySendOutcome::Full(7u32));
    assert_eq!(state, Backpressure::On { until_switching_off: BACKPRESSURE_SPAN });
    assert!(matches!(step, SendStep::SendBlocking(7)));
    let mut state = state;
    for k in 0..BACKPRESSURE_SPAN {
        assert!(state.is_blocking());
        let (next, result) = state.after_blocking_send::<u32>(Ok(()));
        assert!(result.is_ok());
        state = next;
        if k + 1 < BACKPRESSURE_SPAN {
            assert_eq!(state, Backpressure::On { until_switching_off: BACKPRESSURE_SPAN - k - 1 });
        }
    }
    assert_eq!(state, Backpressure::Off);
    assert!(!state.is_blocking());
}

#[test]
fn backpressure_hands_back_messages_of_closed_channels() {
    let (state, step) = Backpressure::Off.after_try_send(TrySendOutcome::Closed("m".to_string()));
    assert_eq!(state, Backpressure::Off);
    match step {
        SendStep::Finished(Err(ChannelSendError::Closed(m))) => assert_eq!(m, "m"),
        other => panic!("unexpected {:?}", other),
    }
    let (state, step) = Backpressure::Off.after_try_send(TrySendOutcome::<u8>::Sent);
    assert_eq!(state, Backpressure::Off);
    assert!(matches!(step, SendStep::Finished(Ok(()))));
    let (_, result) = Backpressure::On { until_switching_off: 3 }.after_blocking_send(Err(5u8));
    assert!(matches!(result, Err(ChannelSendError::Closed(5))));
}

#[test]
fn poller_emits_init_batches_then_end() {
    let mut poller = PollerState::new("chan".to_string(), "vid".to_string(), settings(), "c0".to_string());
    let (out, cmd) = poller.step(PollerEvent::RequestFailed);
    assert!(out.is_none());
    assert_eq!(cmd, PollerCommand::Wait);
    let (out, cmd) = poller.step(PollerEvent::Started);
    assert!(matches!(out, Some(PollerOut::ChatInit { .. })));
    assert_eq!(cmd, PollerCommand::PollAfter(0));
    let response = PollResponse::Chat {
        continuation: Some(Continuation { timeout_ms: 1500, continuation: "c1".to_string() }),
        actions: vec![post("m1", "u", "hi", 1)],
    };
    let (out, cmd) = poller.step(PollerEvent::Response(response));
    match out {
        Some(PollerOut::NewBatch { channel, video_id, actions }) => {
            assert_eq!(channel, "chan");
            assert_eq!(video_id, "vid");
            assert_eq!(actions.len(), 1);
        }
        other => panic!("unexpected {:?}", other),
    }
    assert_eq!(cmd, PollerCommand::PollAfter(1500));
    assert_eq!(poller.continuation, "c1");
    let empty = PollResponse::Chat {
        continuation: Some(Continuation { timeout_ms: 10, continuation: "c2".to_string() }),
        actions: vec![],
    };
    let (out, cmd) = poller.step(PollerEvent::Response(empty));
    assert!(out.is_none());
    assert_eq!(cmd, PollerCommand::PollAfter(10));
    let (out, _) = poller.step(PollerEvent::Control(PollerIn::UpdateUserAgent("new".to_string())));
    assert!(out.is_none());
    assert_eq!(poller.request_settings.user_agent, "new");
    let (out, _) = poller.step(PollerEvent::Control(PollerIn::Ping));
    assert!(out.is_none());
    let ended = PollResponse::Chat { continuation: None, actions: vec![post("m2", "u", "bye", 2)] };
    let (out, cmd) = poller.step(PollerEvent::Response(ended));
    assert!(matches!(out, Some(PollerOut::StreamEnded { .. })));
    assert_eq!(cmd, PollerCommand::Stop);
    assert_eq!(poller.phase, PollerPhase::Finished);
    let (out, cmd) = poller.step(PollerEvent::Started);
    assert!(out.is_none());
    assert_eq!(cmd, PollerCommand::Stop);
}

#[test]
fn poller_gives_up_on_third_failure() {
    let mut poller = PollerState::new("c".to_string(), "v".to_string(), settings(), String::new());
    poller.step(PollerEvent::Started);
    for _ in 0..2 {
        let (out, cmd) = poller.step(PollerEvent::RequestFailed);
        assert!(out.is_none());
        assert_eq!(cmd, PollerCommand::PollAfter(100));
    }
    let (out, cmd) = poller.step(PollerEvent::RequestFailed);
    assert!(matches!(out, Some(PollerOut::StreamEnded { .. })));
    assert_eq!(cmd, PollerCommand::Stop);
}

#[test]
fn poller_success_resets_failures_and_close_ends() {
    let mut poller = PollerState::new("c".to_string(), "v".to_string(), settings(), String::new());
    poller.step(PollerEvent::Started);
    poller.step(PollerEvent::RequestFailed);
    poller.step(PollerEvent::RequestFailed);
    let ok = PollResponse::Chat {
        continuation: Some(Continuation { timeout_ms: 0, continuation: "x".to_string() }),
        actions: vec![],
    };
    poller.step(PollerEvent::Response(ok));
    assert_eq!(poller.poll_errors_count, 0);
    let (out, cmd) = poller.step(PollerEvent::Response(PollResponse::Unparseable));
    assert!(matches!(out, Some(PollerOut::StreamEnded { .. })));
    assert_eq!(cmd, PollerCommand::Stop);
    let mut other = PollerState::new("c".to_string(), "v".to_string(), settings(), String::new());
    other.step(PollerEvent::Started);
    let (out, cmd) = other.step(PollerEvent::Control(PollerIn::Close));
    assert!(matches!(out, Some(PollerOut::StreamEnded { .. })));
    assert_eq!(cmd, PollerCommand::Stop);
}

fn init(channel: &str, video: &str) -> DetectorIn {
    DetectorIn::ChatPoller(PollerOut::ChatInit { channel: channel.to_string(), video_id: video.to_string() })
}

fn ended(channel: &str, video: &str) -> DetectorIn {
    DetectorIn::ChatPoller(PollerOut::StreamEnded { channel: channel.to_string(), video_id: video.to_string() })
}

fn batch(channel: &str, video: &str, actions: Vec<Action>) -> DetectorIn {
    DetectorIn::ChatPoller(PollerOut::NewBatch { channel: channel.to_string(), video_id: video.to_string(), actions })
}

#[test]
fn detector_manager_routes_lifecycle() {
    let mut manager = DetectorManager::init();
    let out = manager.handle(batch("c", "v", vec![post("m", "u", "x", 1)])).unwrap();
    assert!(out.is_empty());
    let out = manager.handle(init("c", "v")).unwrap();
    assert!(matches!(&out[..], [DetectorOut::NewChat { .. }]));
    let out = manager.handle(batch("c", "v", vec![post("m", "u", "x", 1), post("n", "w", "y", 2)])).unwrap();
    match &out[..] {
        [DetectorOut::DetectorResult { video_id, processed_messages, decisions }] => {
            assert_eq!(video_id, "v");
            assert_eq!(*processed_messages, 2);
            assert!(decisions.is_empty());
        }
        _ => panic!("unexpected output"),
    }
    let out = manager.handle(ended("c", "v")).unwrap();
    assert!(matches!(&out[..], [DetectorOut::ChatClosed { .. }]));
    let out = manager.handle(ended("c", "v")).unwrap();
    assert!(out.is_empty());
    let out = manager.handle(batch("c", "v", vec![post("m", "u", "x", 1)])).unwrap();
    assert!(out.is_empty());
    assert!(manager.handle(DetectorIn::Close).is_none());
}

#[test]
fn detector_manager_reevaluates_on_new_params() {
    let mut manager = DetectorManager::init();
    manager.handle(init("c", "v"));
    manager.handle(init("c", "w"));
    let actions: Vec<Action> = (0..5u64).map(|k| post(&format!("m{}", k), "u", "hello", k * 1_000_000)).collect();
    let mut loose = DetectorParams::default();
    loose.avg_delay_threshold = 500;
    let out = manager.handle(DetectorIn::UpdateParams { channel: "c".to_string(), params: loose }).unwrap();
    assert!(out.is_empty());
    let out = manager.handle(batch("c", "v", actions)).unwrap();
    match &out[..] {
        [DetectorOut::DetectorResult { decisions, .. }] => assert!(decisions.is_empty()),
        _ => panic!("unexpected output"),
    }
    let out = manager.handle(DetectorIn::UpdateParams { channel: "c".to_string(), params: loose }).unwrap();
    assert!(out.is_empty());
    let out = manager
        .handle(DetectorIn::UpdateParams { channel: "c".to_string(), params: DetectorParams::default() })
        .unwrap();
    match &out[..] {
        [DetectorOut::DetectorResult { video_id, processed_messages, decisions }] => {
            assert_eq!(video_id, "v");
            assert_eq!(*processed_messages, 0);
            assert_eq!(decisions.len(), 1);
            assert_eq!(decisions[0].channel, "u");
            assert!(matches!(decisions[0].decision, Decision::TooFast(_)));
        }
        _ => panic!("unexpected output"),
    }
    let out = manager
        .handle(DetectorIn::UpdateParams { channel: "unknown".to_string(), params: DetectorParams::default() })
        .unwrap();
    assert!(out.is_empty());
}

#[test]
fn stream_finder_tracks_channels() {
    let mut finder = StreamFinderState::new(60_000, settings());
    assert!(finder.handle(stream_finder::IncMessages::AddChannel("UC1".to_string())));
    assert!(finder.handle(stream_finder::IncMessages::AddChannel("UC2".to_string())));
    assert!(finder.handle(stream_finder::IncMessages::AddChannel("UC1".to_string())));
    let channels = finder.channels();
    assert_eq!(channels.len(), 2);
    assert_eq!(channels[0], ("UC1".to_string(), "https://www.youtube.com/channel/UC1/videos?view=57".to_string()));
    assert!(finder.handle(stream_finder::IncMessages::RemoveChannel("UC1".to_string())));
    assert_eq!(finder.channels().len(), 1);
    assert!(finder.handle(stream_finder::IncMessages::UpdatePollInterval(5)));
    assert_eq!(finder.poll_interval_ms, 5);
    assert!(finder.handle(stream_finder::IncMessages::UpdateBrowserNameAndVersion {
        name: "Chrome".to_string(),
        version: "1".to_string(),
    }));
    assert_eq!(finder.request_settings.browser_name, "Chrome");
    assert_eq!(finder.request_settings.browser_version, "1");
    assert!(!finder.handle(stream_finder::IncMessages::Close));
}

#[test]
fn discovery_url_and_failed_discovery() {
    assert_eq!(discovery_url("abc"), "https://www.youtube.com/channel/abc/videos?view=57");
    let found = discovery_result("c".to_string(), Some(VideoList { streams: vec!["v1".to_string()] }));
    assert_eq!(found.streams, vec!["v1".to_string()]);
    let failed = discovery_result("c".to_string(), None);
    assert_eq!(failed.channel, "c");
    assert!(failed.streams.is_empty());
}

#[test]
fn chat_manager_starts_only_new_pollers() {
    let mut manager = ChatManagerState::new(settings());
    manager.poller_started("v1".to_string());
    let action = manager.handle(chat_manager::IncMessages::FoundStreams {
        channel: "c".to_string(),
        streams: vec!["v1".to_string(), "v2".to_string(), "v2".to_string(), "v3".to_string()],
    });
    match action {
        ManagerAction::StartPollers { channel, video_ids } => {
            assert_eq!(channel, "c");
            assert_eq!(video_ids, vec!["v2".to_string(), "v3".to_string()]);
        }
        other => panic!("unexpected {:?}", other),
    }
    manager.poller_gone(&"v1".to_string());
    assert!(manager.inprogress_chats.is_empty());
    match manager.handle(chat_manager::IncMessages::UpdateBrowserNameAndVersion {
        name: "Edge".to_string(),
        version: "9".to_string(),
    }) {
        ManagerAction::Broadcast(PollerIn::UpdateBrowserNameAndVersion { name, version }) => {
            assert_eq!(name, "Edge");
            assert_eq!(version, "9");
        }
        other => panic!("unexpected {:?}", other),
    }
    assert_eq!(manager.request_settings.browser_name, "Edge");
    assert_eq!(manager.request_settings.browser_version, "9");
    assert!(matches!(manager.handle(chat_manager::IncMessages::Close), ManagerAction::Stop));
    assert!(matches!(chat_manager::liveness_ping(), PollerIn::Ping));
}

#[test]
fn controller_routes_commands() {
    assert!(route(Command::Close).is_none());
    let r = route(Command::UpdateUserAgent("ua".to_string())).unwrap();
    assert!(matches!(r.to_stream_finder, Some(stream_finder::IncMessages::UpdateUserAgent(ref a)) if a == "ua"));
    assert!(matches!(r.to_chat_manager, Some(chat_manager::IncMessages::UpdateUserAgent(ref a)) if a == "ua"));
    assert!(r.to_detector.is_none());
    let r = route(Command::UpdateDetectorParams { channel: "c".to_string(), new_params: DetectorParams::default() })
        .unwrap();
    assert!(r.to_stream_finder.is_none());
    assert!(matches!(r.to_detector, Some(DetectorIn::UpdateParams { .. })));
    let r = route(Command::AddChannel("c".to_string())).unwrap();
    assert!(matches!(r.to_stream_finder, Some(stream_finder::IncMessages::AddChannel(_))));
    assert!(r.to_chat_manager.is_none());
}

const CHAT_PAGE: &str = r#"<script>var ytcfg = {"INNERTUBE_API_KEY":"KEY123","gl":"JP","remoteHost":"1.2.3.4","visitorData":"Cgt%3D","clientVersion":"2.2023.01","timeZone":"Europe/Berlin"};
{"liveChatRenderer":{"continuations":[{"reloadContinuationData":{"continuation":"first"}},{"reloadContinuationData":{"continuation":"0ofMyA%3D-last","clickTrackingParams":"x"}}]}}</script>"#;

#[test]
fn regexes_extract_page_values() {
    assert!(YoutubeRegexes::is_chat_enabled(CHAT_PAGE));
    assert!(!YoutubeRegexes::is_chat_enabled("nothing here"));
    assert_eq!(YoutubeRegexes::extract_gl(CHAT_PAGE).as_deref(), Some("JP"));
    assert_eq!(YoutubeRegexes::extract_remote_host(CHAT_PAGE).as_deref(), Some("1.2.3.4"));
    assert_eq!(YoutubeRegexes::extract_visitor_data(CHAT_PAGE).as_deref(), Some("Cgt%3D"));
    assert_eq!(YoutubeRegexes::extract_client_version(CHAT_PAGE).as_deref(), Some("2.2023.01"));
    assert_eq!(YoutubeRegexes::extract_time_zone(CHAT_PAGE).as_deref(), Some("Europe/Berlin"));
    assert_eq!(YoutubeRegexes::extract_chat_key(CHAT_PAGE).as_deref(), Some("KEY123"));
    assert_eq!(YoutubeRegexes::extract_last_continuation(CHAT_PAGE).as_deref(), Some("0ofMyA%3D-last"));
    assert_eq!(YoutubeRegexes::extract_gl("no values"), None);
    let page = "x ytInitialData = {\"a\":1};</script>\ny ytInitialData = {\"b\":2};</script>";
    assert_eq!(YoutubeRegexes::extract_video_list(page).as_deref(), Some(r#"{"b":2}"#));
}

#[test]
fn params_extractor_reads_chat_page() {
    match ParamsExtractor::extract_chat_params_at("vid", CHAT_PAGE, &settings(), 1_700_000_000_123, -120) {
        Ok(ExtractingResult::Extracted { chat_params, chat_key }) => {
            assert_eq!(chat_key, "KEY123");
            assert_eq!(chat_params.gl, "JP");
            assert_eq!(chat_params.continuation, "0ofMyA%3D-last");
            assert_eq!(chat_params.time_zone, "Europe/Berlin");
            assert_eq!(chat_params.user_agent, "agent");
            assert_eq!(chat_params.original_url, "https://www.youtube.com/live_chat?is_popout=1&v=vid");
            assert_eq!(chat_params.ad_params[0].value, "1700000000123");
            assert_eq!(chat_params.ad_params[3].value, "-120");
        }
        _ => panic!("expected parameters"),
    }
    assert!(matches!(
        ParamsExtractor::extract_chat_params("vid", "plain page", &settings()),
        Ok(ExtractingResult::ChatDisabled)
    ));
    assert!(matches!(
        ParamsExtractor::extract_chat_params("vid", "liveChatRenderer only", &settings()),
        Err(ParamsExtractingError::ExtractGl(_))
    ));
    let no_key = CHAT_PAGE.replace("INNERTUBE_API_KEY", "OTHER");
    assert!(matches!(
        ParamsExtractor::extract_chat_params("vid", &no_key, &settings()),
        Err(ParamsExtractingError::ChatKey(_))
    ));
    let no_zone = CHAT_PAGE.replace("timeZone", "zone");
    match ParamsExtractor::extract_chat_params("vid", &no_zone, &settings()) {
        Ok(ExtractingResult::Extracted { chat_params, .. }) => assert_eq!(chat_params.time_zone, "Asia/Tokyo"),
        _ => panic!("expected parameters"),
    }
}

#[test]
fn chat_params_hold_fixed_ad_signals() {
    let p = ChatParams::init(
        "US".to_string(),
        "1.1.1.1".to_string(),
        "vd".to_string(),
        "ua".to_string(),
        "2.0".to_string(),
        "abc",
        "UTC".to_string(),
        "Firefox".to_string(),
        "1".to_string(),
        0,
        540,
        "cont".to_string(),
    );
    let keys: Vec<&str> = p.ad_params.iter().map(|a| a.key.as_str()).collect();
    assert_eq!(
        keys,
        vec![
            "dt", "flash", "frm", "u_tz", "u_his", "u_java", "u_h", "u_w", "u_ah", "u_aw", "u_cd", "u_nplug",
            "u_nmime", "bc", "bih", "biw", "brdim", "vis", "wgl", "ca_type"
        ]
    );
    assert_eq!(p.ad_params[0].value, "0");
    assert_eq!(p.ad_params[3].value, "540");
    assert_eq!(p.ad_params[16].value, "1529,857,1529,857,1536,0,1536,864,1536,464");
    let mut p = p;
    p.update_continuation("next".to_string());
    assert_eq!(p.continuation, "next");
    let a = AdParam::new("k", "v");
    assert_eq!((a.key.as_str(), a.value.as_str()), ("k", "v"));
    assert_eq!(chat_url("xyz"), "https://www.youtube.com/live_chat?is_popout=1&v=xyz");
    assert_eq!(endpoint_url("K"), "https://www.youtube.com/youtubei/v1/live_chat/get_live_chat?key=K");
}

#[test]
fn params_extractor_names_each_missing_value() {
    let cases = [
        ("remoteHost", "RemoteHost"),
        ("visitorData", "VisitorData"),
        ("clientVersion", "ClientVersion"),
        ("reloadContinuationData", "Continuation"),
    ];
    for (field, expected) in cases {
        let page = CHAT_PAGE.replace(field, "removed");
        let r = ParamsExtractor::extract_chat_params_at("vid", &page, &settings(), 0, 0);
        let name = match r {
            Err(ParamsExtractingError::RemoteHost(p)) => {
                assert_eq!(p, page);
                "RemoteHost"
            }
            Err(ParamsExtractingError::VisitorData(_)) => "VisitorData",
            Err(ParamsExtractingError::ClientVersion(_)) => "ClientVersion",
            Err(ParamsExtractingError::Continuation(_)) => "Continuation",
            _ => "other",
        };
        assert_eq!(name, expected);
    }
}

#[test]
fn blocking_send_result_keeps_the_message() {
    assert!(matches!(alkonost::channel::blocking_result::<u8>(Ok(())), Ok(())));
    assert!(matches!(alkonost::channel::blocking_result(Err(9u8)), Err(ChannelSendError::Closed(9))));
}

#[test]
fn decimal_strings() {
    assert_eq!(decimal_string(0), "0");
    assert_eq!(decimal_string(7), "7");
    assert_eq!(decimal_string(1_700_000_000_123), "1700000000123");
    assert_eq!(decimal_string(-540), "-540");
    assert_eq!(decimal_string(i64::MIN), "-9223372036854775808");
    assert_eq!(decimal_string(i64::MAX), "9223372036854775807");
}

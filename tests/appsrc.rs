use ts_appsrc::element::{
    Activation, AppSrc, AppSrcState, FlowError, LoopDecision, PrepareError, QueryAnswer,
    QueryKind, Settings, StateChange, TaskAction, UpstreamEvent,
};
use ts_appsrc::items::{Buffer, ClockReading, Event, StartIds, StreamItem};

fn buf(tag: u8) -> Buffer {
    Buffer { data: vec![tag], pts: None, dts: None }
}

fn ids() -> StartIds {
    StartIds { stream_hi: 0x0123abcd, stream_lo: 0xff, group_id: 5 }
}

fn start_event() -> Event {
    Event::StreamStart { stream_id: b"0123abcd000000ff".to_vec(), group_id: 5 }
}

fn started(max_buffers: u32, caps: Option<&str>, do_timestamp: bool) -> AppSrc {
    let mut src = AppSrc::new();
    let mut settings = Settings::default();
    settings.max_buffers = max_buffers;
    settings.caps = caps.map(|c| c.to_string());
    settings.do_timestamp = do_timestamp;
    src.set_settings(settings);
    assert_eq!(src.prepare(), Ok(()));
    assert_eq!(src.start(), TaskAction::Start);
    src
}

fn forward(prelude: Vec<Event>, item: StreamItem) -> Activation {
    Activation::Forward { prelude, item }
}

#[test]
fn capacity_two_scenario() {
    let mut src = started(2, Some("video/x-raw"), false);
    assert!(src.push_buffer(buf(b'A'), None));
    assert!(src.push_buffer(buf(b'B'), None));
    assert!(!src.push_buffer(buf(b'C'), None));
    let caps = Event::Caps { caps: "video/x-raw".to_string() };
    assert_eq!(
        src.pull_item(ids()),
        forward(vec![start_event(), caps, Event::Segment], StreamItem::Buffer(buf(b'A')))
    );
    assert_eq!(src.handle_flow_result(Ok(())), LoopDecision::Continue);
    assert_eq!(src.pull_item(ids()), forward(vec![], StreamItem::Buffer(buf(b'B'))));
    assert_eq!(src.handle_flow_result(Ok(())), LoopDecision::Continue);
    assert_eq!(src.pull_item(ids()), Activation::Pending);
}

#[test]
fn submission_order_kept() {
    let mut src = started(10, None, false);
    for tag in 0..5u8 {
        assert!(src.push_buffer(buf(tag), None));
    }
    assert_eq!(
        src.pull_item(ids()),
        forward(vec![start_event(), Event::Segment], StreamItem::Buffer(buf(0)))
    );
    for tag in 1..5u8 {
        assert_eq!(src.pull_item(ids()), forward(vec![], StreamItem::Buffer(buf(tag))));
    }
    assert_eq!(src.pull_item(ids()), Activation::Pending);
}

#[test]
fn overflow_keeps_queued_items() {
    let mut src = started(3, None, false);
    let results: Vec<bool> = (0..6u8).map(|t| src.push_buffer(buf(t), None)).collect();
    assert_eq!(results, vec![true, true, true, false, false, false]);
    assert!(!src.end_of_stream());
    for tag in 0..3u8 {
        match src.pull_item(ids()) {
            Activation::Forward { item, .. } => assert_eq!(item, StreamItem::Buffer(buf(tag))),
            other => panic!("unexpected {:?}", other),
        }
    }
    assert_eq!(src.pull_item(ids()), Activation::Pending);
}

#[test]
fn capacity_one_holds_one_item() {
    let mut src = started(1, None, false);
    assert!(src.push_buffer(buf(1), None));
    assert!(!src.push_buffer(buf(2), None));
    assert!(matches!(src.pull_item(ids()), Activation::Forward { .. }));
    assert!(src.push_buffer(buf(3), None));
}

#[test]
fn timestamp_without_clock_rejected() {
    let mut src = started(4, None, true);
    assert!(!src.push_buffer(buf(1), None));
    assert_eq!(src.pull_item(ids()), Activation::Pending);
}

#[test]
fn timestamp_with_clock_stamps_arrival() {
    let mut src = started(4, None, true);
    let b = Buffer { data: vec![9], pts: Some(7), dts: Some(3) };
    assert!(src.push_buffer(b, Some(ClockReading { now: 1000, base_time: 400 })));
    let stamped = Buffer { data: vec![9], pts: None, dts: Some(600) };
    match src.pull_item(ids()) {
        Activation::Forward { item, .. } => assert_eq!(item, StreamItem::Buffer(stamped)),
        other => panic!("unexpected {:?}", other),
    }
}

#[test]
fn stamp_before_base_time_has_no_dts() {
    let b = buf(1).stamp(ClockReading { now: 5, base_time: 10 });
    assert_eq!(b, Buffer { data: vec![1], pts: None, dts: None });
}

#[test]
fn end_of_stream_forwarded_after_prelude() {
    let mut src = started(4, None, false);
    assert!(src.end_of_stream());
    assert_eq!(
        src.pull_item(ids()),
        forward(vec![start_event(), Event::Segment], StreamItem::Event(Event::Eos))
    );
    assert_eq!(src.handle_flow_result(Ok(())), LoopDecision::Continue);
    assert_eq!(src.pull_item(ids()), Activation::Pending);
    assert!(src.is_task_running());
}

#[test]
fn flush_rejects_until_flush_stop() {
    let mut src = started(4, None, false);
    assert!(src.push_buffer(buf(1), None));
    assert_eq!(src.flush_start(), TaskAction::Cancel);
    assert_eq!(src.state(), AppSrcState::RejectBuffers);
    assert!(!src.push_buffer(buf(2), None));
    assert!(!src.end_of_stream());
    assert_eq!(src.pull_item(ids()), Activation::Idle);
    assert_eq!(src.flush_stop(), TaskAction::Restart);
    assert!(src.push_buffer(buf(3), None));
    assert!(src.end_of_stream());
}

#[test]
fn flush_stop_owes_segment_only() {
    let mut src = started(4, Some("audio/x-raw"), false);
    assert!(src.push_buffer(buf(1), None));
    assert!(matches!(src.pull_item(ids()), Activation::Forward { .. }));
    assert!(src.push_buffer(buf(2), None));
    src.flush_start();
    assert_eq!(src.flush_stop(), TaskAction::Restart);
    assert!(src.push_buffer(buf(3), None));
    assert_eq!(
        src.pull_item(ids()),
        forward(vec![Event::Segment], StreamItem::Buffer(buf(3)))
    );
    assert_eq!(
        src.src_query(QueryKind::Caps),
        QueryAnswer::Caps { negotiated: Some("audio/x-raw".to_string()) }
    );
}

#[test]
fn flush_stop_when_started_is_noop() {
    let mut src = started(4, None, false);
    assert!(src.push_buffer(buf(1), None));
    assert_eq!(src.flush_stop(), TaskAction::Keep);
    assert!(matches!(src.pull_item(ids()), Activation::Forward { .. }));
}

#[test]
fn stop_then_restart_owes_full_prelude() {
    let mut src = started(4, Some("video/x-raw"), false);
    assert!(src.push_buffer(buf(1), None));
    assert!(matches!(src.pull_item(ids()), Activation::Forward { .. }));
    assert!(src.push_buffer(buf(2), None));
    assert_eq!(src.stop(), TaskAction::Stop);
    assert_eq!(src.src_query(QueryKind::Caps), QueryAnswer::Caps { negotiated: None });
    assert!(!src.push_buffer(buf(3), None));
    assert_eq!(src.prepare(), Ok(()));
    assert_eq!(src.start(), TaskAction::Start);
    assert!(src.push_buffer(buf(4), None));
    let caps = Event::Caps { caps: "video/x-raw".to_string() };
    assert_eq!(
        src.pull_item(ids()),
        forward(vec![start_event(), caps, Event::Segment], StreamItem::Buffer(buf(4)))
    );
}

#[test]
fn pause_keeps_queue() {
    let mut src = started(4, None, false);
    assert!(src.push_buffer(buf(1), None));
    assert_eq!(src.pause(), TaskAction::Pause);
    assert_eq!(src.state(), AppSrcState::Paused);
    assert_eq!(src.pull_item(ids()), Activation::Idle);
    assert!(src.push_buffer(buf(2), None));
    assert_eq!(src.start(), TaskAction::Start);
    assert_eq!(src.start(), TaskAction::Keep);
    match src.pull_item(ids()) {
        Activation::Forward { item, .. } => assert_eq!(item, StreamItem::Buffer(buf(1))),
        other => panic!("unexpected {:?}", other),
    }
}

#[test]
fn prepare_rejects_zero_max_buffers() {
    let mut src = AppSrc::new();
    let mut settings = Settings::default();
    settings.max_buffers = 0;
    src.set_settings(settings);
    assert_eq!(src.prepare(), Err(PrepareError::InvalidMaxBuffers));
    assert!(!src.end_of_stream());
}

#[test]
fn new_element_rejects_items() {
    let mut src = AppSrc::new();
    assert_eq!(src.state(), AppSrcState::RejectBuffers);
    assert_eq!(src.settings().max_buffers, 10);
    assert!(!src.settings().do_timestamp);
    assert!(!src.push_buffer(buf(1), None));
    assert!(!src.end_of_stream());
    assert_eq!(src.pull_item(ids()), Activation::Idle);
}

#[test]
fn unprepare_drops_channel() {
    let mut src = started(4, None, false);
    src.stop();
    src.unprepare();
    assert!(!src.end_of_stream());
    assert!(!src.is_task_running());
}

#[test]
fn flow_results_decide_loop() {
    let mut src = started(4, None, false);
    assert_eq!(src.handle_flow_result(Err(FlowError::Eos)), LoopDecision::PushEosAndStop);
    assert!(!src.is_task_running());
    assert_eq!(src.handle_flow_result(Err(FlowError::Flushing)), LoopDecision::Stop);
    assert_eq!(
        src.handle_flow_result(Err(FlowError::NotLinked)),
        LoopDecision::Fail(FlowError::NotLinked)
    );
    assert_eq!(
        src.handle_flow_result(Err(FlowError::NotNegotiated)),
        LoopDecision::Fail(FlowError::NotNegotiated)
    );
}

#[test]
fn src_events_handled() {
    let mut src = started(4, None, false);
    assert_eq!(src.src_event(UpstreamEvent::Reconfigure), (true, TaskAction::Keep));
    assert_eq!(src.src_event(UpstreamEvent::Latency), (true, TaskAction::Keep));
    assert_eq!(src.src_event(UpstreamEvent::Other), (false, TaskAction::Keep));
    assert_eq!(src.src_event(UpstreamEvent::FlushStart), (true, TaskAction::Cancel));
    assert!(!src.push_buffer(buf(1), None));
    assert_eq!(src.src_event(UpstreamEvent::FlushStop), (true, TaskAction::Restart));
    assert!(src.push_buffer(buf(1), None));
}

#[test]
fn src_queries_answered() {
    let src = AppSrc::new();
    assert_eq!(
        src.src_query(QueryKind::Latency),
        QueryAnswer::Latency { live: true, min: 0, max: None }
    );
    assert_eq!(
        src.src_query(QueryKind::Scheduling),
        QueryAnswer::Scheduling { sequential: true, push_mode: true, min_size: 1, max_size: -1, align: 0 }
    );
    assert_eq!(src.src_query(QueryKind::Caps), QueryAnswer::Caps { negotiated: None });
    assert_eq!(src.src_query(QueryKind::Other), QueryAnswer::NotHandled);
}

#[test]
fn state_changes_drive_lifecycle() {
    let mut src = AppSrc::new();
    assert_eq!(src.change_state_before(StateChange::NullToReady), Ok(TaskAction::Keep));
    let out = src.change_state_after(StateChange::ReadyToPaused);
    assert!(out.no_preroll);
    assert_eq!(out.action, TaskAction::Keep);
    assert_eq!(src.change_state_after(StateChange::PausedToPlaying).action, TaskAction::Start);
    assert_eq!(src.state(), AppSrcState::Started);
    assert_eq!(src.change_state_before(StateChange::PlayingToPaused), Ok(TaskAction::Pause));
    assert!(src.change_state_after(StateChange::PlayingToPaused).no_preroll);
    assert_eq!(src.change_state_after(StateChange::PausedToReady).action, TaskAction::Stop);
    assert_eq!(src.state(), AppSrcState::RejectBuffers);
    assert_eq!(src.change_state_before(StateChange::ReadyToNull), Ok(TaskAction::Stop));
}

#[test]
fn state_change_reports_prepare_error() {
    let mut src = AppSrc::new();
    let mut settings = Settings::default();
    settings.max_buffers = 0;
    src.set_settings(settings);
    assert_eq!(
        src.change_state_before(StateChange::NullToReady),
        Err(PrepareError::InvalidMaxBuffers)
    );
}

use screen_demo_lib::display::monitor_info_from_bounds;
use screen_demo_lib::display::MonitorInfo;
use screen_demo_lib::session::{
    parse_display_id, Quality, SessionContext, SessionStatus, StartError, StopError,
};

fn one_display() -> Vec<MonitorInfo> {
    vec![monitor_info_from_bounds(0, 0, 0, 1920, 1080, true)]
}

fn two_displays() -> Vec<MonitorInfo> {
    vec![
        monitor_info_from_bounds(0, 0, 0, 1920, 1080, false),
        monitor_info_from_bounds(1, 1920, 0, 3840, 1200, true),
    ]
}

#[test]
fn start_arms_the_session() {
    let mut ctx = SessionContext::new();
    let displays = one_display();
    let cfg = ctx.request_start(&displays, None, None).unwrap();
    assert_eq!(ctx.status, SessionStatus::Armed);
    assert!(ctx.clicks.listening);
    assert!(!ctx.should_stop);
    assert_eq!(cfg.display_index, 0);
    assert_eq!(cfg.width, 1920);
    assert_eq!(cfg.height, 1080);
    assert_eq!(cfg.frame_rate, 30);
    assert_eq!(cfg.bitrate, 10_000_000);
    assert_eq!(cfg.quality, Quality::High);
}

#[test]
fn second_start_while_armed_is_refused() {
    let mut ctx = SessionContext::new();
    let displays = one_display();
    ctx.request_start(&displays, None, None).unwrap();
    let second = ctx.request_start(&displays, None, None);
    assert_eq!(second.unwrap_err(), StartError::AlreadyRecording);
    assert_eq!(ctx.status, SessionStatus::Armed);
}

#[test]
fn start_after_full_stop_succeeds() {
    let mut ctx = SessionContext::new();
    let displays = one_display();
    ctx.request_start(&displays, None, None).unwrap();
    ctx.begin_capture("a.mp4".to_string());
    let path = ctx.begin_stop().unwrap();
    assert_eq!(path, "a.mp4");
    ctx.check_artifact(4096).unwrap();
    let url = ctx.deliver(8000);
    assert_eq!(url, "http://localhost:8000");
    assert_eq!(ctx.status, SessionStatus::Delivering);
    // The prior session is delivering, not armed or stopping: a new start
    // runs the reclaimer and arms again.
    let again = ctx.request_start(&displays, None, None);
    assert!(again.is_ok());
    assert_eq!(ctx.status, SessionStatus::Armed);
}

#[test]
fn stop_while_idle_errors_and_reclaims() {
    let mut ctx = SessionContext::new();
    let r = ctx.begin_stop();
    assert_eq!(r.unwrap_err(), StopError::NotRecording);
    assert_eq!(ctx.status, SessionStatus::Idle);
    assert!(!ctx.should_stop);
    assert!(!ctx.encoder_active);
    assert!(ctx.get_mouse_positions().is_empty());
    assert!(ctx.server_ports.is_empty());
}

#[test]
fn stop_without_artifact_path_errors() {
    let mut ctx = SessionContext::new();
    let displays = one_display();
    ctx.request_start(&displays, None, None).unwrap();
    // No begin_capture ran, so no output path was ever derived.
    let r = ctx.begin_stop();
    assert_eq!(r.unwrap_err(), StopError::NoArtifactPath);
    assert_eq!(ctx.status, SessionStatus::Idle);
}

#[test]
fn empty_artifact_is_the_hard_failure() {
    let mut ctx = SessionContext::new();
    let displays = one_display();
    ctx.request_start(&displays, None, None).unwrap();
    ctx.begin_capture("b.mp4".to_string());
    ctx.begin_stop().unwrap();
    let r = ctx.check_artifact(0);
    assert_eq!(r.unwrap_err(), StopError::EmptyArtifact);
    assert_eq!(ctx.status, SessionStatus::Idle);
}

#[test]
fn invalid_display_selector_is_refused() {
    let mut ctx = SessionContext::new();
    let displays = one_display();
    let r = ctx.request_start(&displays, Some(5), None);
    assert_eq!(r.unwrap_err(), StartError::InvalidDisplay);
    assert_eq!(ctx.status, SessionStatus::Idle);
}

#[test]
fn no_displays_is_refused() {
    let mut ctx = SessionContext::new();
    let displays: Vec<MonitorInfo> = Vec::new();
    let r = ctx.request_start(&displays, None, None);
    assert_eq!(r.unwrap_err(), StartError::NoDisplays);
}

#[test]
fn default_selection_picks_the_primary_display() {
    let mut ctx = SessionContext::new();
    let displays = two_displays();
    let cfg = ctx.request_start(&displays, None, None).unwrap();
    assert_eq!(cfg.display_index, 1);
    assert_eq!(cfg.origin_x, 1920);
    assert_eq!(ctx.origin_x, 1920);
}

#[test]
fn explicit_selection_is_zero_based() {
    let mut ctx = SessionContext::new();
    let displays = two_displays();
    let cfg = ctx.request_start(&displays, Some(0), None).unwrap();
    assert_eq!(cfg.display_index, 0);
    assert_eq!(cfg.origin_x, 0);
}

#[test]
fn quality_strings_parse_with_high_default() {
    let mut ctx = SessionContext::new();
    let displays = one_display();
    let cfg = ctx.request_start(&displays, None, Some("low".to_string())).unwrap();
    assert_eq!(cfg.quality, Quality::Low);
    ctx.reclaim();
    let cfg = ctx
        .request_start(&displays, None, Some("medium".to_string()))
        .unwrap();
    assert_eq!(cfg.quality, Quality::Medium);
    ctx.reclaim();
    let cfg = ctx
        .request_start(&displays, None, Some("ultra".to_string()))
        .unwrap();
    assert_eq!(cfg.quality, Quality::High);
    ctx.reclaim();
    let cfg = ctx.request_start(&displays, None, None).unwrap();
    assert_eq!(cfg.quality, Quality::High);
}

#[test]
fn reclaim_is_idempotent() {
    let mut ctx = SessionContext::new();
    let displays = one_display();
    ctx.request_start(&displays, None, None).unwrap();
    ctx.begin_capture("c.mp4".to_string());
    ctx.reclaim();
    let status1 = ctx.status;
    let serial1 = ctx.next_serial;
    let ports1 = ctx.server_ports.clone();
    ctx.reclaim();
    assert_eq!(ctx.status, status1);
    assert_eq!(ctx.next_serial, serial1);
    assert_eq!(ctx.server_ports, ports1);
    assert!(!ctx.should_stop);
    assert!(!ctx.encoder_active);
    assert!(ctx.encoding_finished);
    // The artifact record outlives reclamation: delivery owns the file.
    assert!(ctx.artifact.is_some());
}

#[test]
fn stop_wait_deadline_depends_on_artifact_presence() {
    assert_eq!(screen_demo_lib::session::stop_wait_deadline_ms(true), 5000);
    assert_eq!(screen_demo_lib::session::stop_wait_deadline_ms(false), 15000);
}

#[test]
fn a_delivery_failure_reclaims_and_reports() {
    let mut ctx = SessionContext::new();
    let displays = one_display();
    ctx.request_start(&displays, None, None).unwrap();
    ctx.begin_capture("d.mp4".to_string());
    ctx.begin_stop().unwrap();
    ctx.check_artifact(4096).unwrap();
    // No port could be bound: the stop flow surfaces the failure and the
    // reclaimer runs.
    let e = ctx.on_delivery_failure();
    assert_eq!(e, StopError::DeliveryFailed);
    assert_eq!(ctx.status, SessionStatus::Idle);
    assert!(ctx.server_ports.is_empty());
}

#[test]
fn textual_display_ids_parse_to_indices() {
    assert_eq!(parse_display_id("0"), Ok(0));
    assert_eq!(parse_display_id("3"), Ok(3));
    assert_eq!(parse_display_id("abc"), Err(StartError::InvalidDisplay));
    assert_eq!(parse_display_id(""), Err(StartError::InvalidDisplay));
    assert_eq!(parse_display_id("-1"), Err(StartError::InvalidDisplay));
    assert_eq!(
        parse_display_id("99999999999999999999999999"),
        Err(StartError::InvalidDisplay)
    );
}

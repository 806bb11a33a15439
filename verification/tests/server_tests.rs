use screen_demo_lib::delivery::DeliveryError;
use screen_demo_lib::server::{
    cors_allow_methods, cors_origin, parse_range_header, plan_request, response_body, PortProber,
    BASE_PORT, MAX_PORT,
};

#[test]
fn port_probing_starts_at_the_base_and_increments() {
    let mut p = PortProber::new();
    assert_eq!(p.current(), BASE_PORT);
    assert_eq!(p.on_bind_failure().unwrap(), 8001);
    assert_eq!(p.on_bind_failure().unwrap(), 8002);
    assert_eq!(p.current(), 8002);
}

#[test]
fn port_probing_reports_exhaustion_past_the_bound() {
    let mut p = PortProber { next_port: MAX_PORT - 1 };
    assert_eq!(p.on_bind_failure().unwrap(), MAX_PORT);
    assert_eq!(p.on_bind_failure().unwrap_err(), DeliveryError::NoAvailablePort);
    assert_eq!(p.current(), MAX_PORT);
}

#[test]
fn range_header_parses_bounds() {
    assert_eq!(parse_range_header(b"bytes=100-199", 1000), Some((100, 199)));
    assert_eq!(parse_range_header(b"bytes=0-0", 1000), Some((0, 0)));
    // A missing start defaults to 0, a missing end to the last byte.
    assert_eq!(parse_range_header(b"bytes=-", 1000), Some((0, 999)));
    assert_eq!(parse_range_header(b"bytes=100-", 1000), Some((100, 999)));
    assert_eq!(parse_range_header(b"bytes=-199", 1000), Some((0, 199)));
    // Malformed numerals take the same defaults.
    assert_eq!(parse_range_header(b"bytes=abc-199", 1000), Some((0, 199)));
    assert_eq!(
        parse_range_header(b"bytes=100-18446744073709551616", 1000),
        Some((100, 999))
    );
}

#[test]
fn range_header_rejects_other_shapes() {
    assert_eq!(parse_range_header(b"items=1-2", 1000), None);
    assert_eq!(parse_range_header(b"bytes=5", 1000), None);
    assert_eq!(parse_range_header(b"bytes=1-2-3", 1000), None);
    assert_eq!(parse_range_header(b"", 1000), None);
    assert_eq!(parse_range_header(b"bytes", 1000), None);
}

#[test]
fn range_request_gets_partial_content() {
    // A 100-byte window of a 1000-byte file: 206 with the exact window.
    let plan = plan_request(false, Some(b"bytes=100-199"), 1000);
    assert_eq!(plan.status, 206);
    assert_eq!(plan.body_start, 100);
    assert_eq!(plan.body_len, 100);
    assert_eq!(plan.content_range.as_deref(), Some("bytes 100-199/1000"));
    let data: Vec<u8> = (0..1000u64).map(|i| (i % 251) as u8).collect();
    let body = response_body(&data, &plan);
    assert_eq!(body.len(), 100);
    assert_eq!(&body[..], &data[100..200]);
}

#[test]
fn plain_request_gets_the_whole_file() {
    let plan = plan_request(false, None, 1000);
    assert_eq!(plan.status, 200);
    assert_eq!(plan.body_start, 0);
    assert_eq!(plan.body_len, 1000);
    assert!(plan.content_range.is_none());
    let data = vec![7u8; 1000];
    let body = response_body(&data, &plan);
    assert_eq!(body, data);
}

#[test]
fn options_probe_gets_an_empty_success() {
    let plan = plan_request(true, Some(b"bytes=1-2"), 1000);
    assert_eq!(plan.status, 204);
    assert_eq!(plan.body_len, 0);
    assert!(plan.content_range.is_none());
}

#[test]
fn unsatisfiable_ranges_fall_back_to_the_whole_file() {
    // End past the file.
    let plan = plan_request(false, Some(b"bytes=500-1500"), 1000);
    assert_eq!(plan.status, 200);
    assert_eq!(plan.body_len, 1000);
    // Start past the end bound.
    let plan = plan_request(false, Some(b"bytes=300-200"), 1000);
    assert_eq!(plan.status, 200);
    // A header of another shape.
    let plan = plan_request(false, Some(b"lines=1-2"), 1000);
    assert_eq!(plan.status, 200);
}

#[test]
fn cors_headers_name_the_front_end_origin() {
    assert_eq!(cors_origin(true), "http://localhost:1420");
    assert_eq!(cors_origin(false), "http://tauri.localhost");
    assert_eq!(cors_allow_methods(), "GET, OPTIONS");
}

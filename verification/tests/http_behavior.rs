use control_core::http::handle_request;
use control_core::http::parse_request_line;
use control_core::http::render_response;
use control_core::http::route;
use control_core::intent::apply_intent;
use control_core::intent::pin_is_active;
use control_core::intent::ActuatorIntent;
use control_core::intent::PinLevel;
use control_core::signal::actuator_step;
use control_core::signal::ActuatorSignal;

#[test]
fn parses_a_well_formed_request_line() {
    let raw = b"GET /on HTTP/1.1\r\nHost: device\r\n\r\n";
    let line = parse_request_line(&raw[..]).unwrap();
    assert_eq!(line.method, b"GET".to_vec());
    assert_eq!(line.target, b"/on".to_vec());
}

#[test]
fn rejects_a_line_without_spaces() {
    assert!(parse_request_line(&b"GET/on\r\n"[..]).is_none());
}

#[test]
fn rejects_an_empty_method_or_target() {
    assert!(parse_request_line(&b" /on HTTP/1.1\r\n"[..]).is_none());
    assert!(parse_request_line(&b"GET  HTTP/1.1\r\n"[..]).is_none());
}

#[test]
fn rejects_a_line_without_crlf() {
    assert!(parse_request_line(&b"GET /on HTTP/1.1"[..]).is_none());
    assert!(parse_request_line(&b"GET /on HTTP/1.1\r"[..]).is_none());
}

#[test]
fn routes_the_two_configured_paths() {
    assert_eq!(route(&b"GET"[..], &b"/on"[..]), Some(ActuatorIntent::TurnOn));
    assert_eq!(route(&b"GET"[..], &b"/off"[..]), Some(ActuatorIntent::TurnOff));
}

#[test]
fn routes_nothing_else() {
    assert_eq!(route(&b"POST"[..], &b"/on"[..]), None);
    assert_eq!(route(&b"GET"[..], &b"/onn"[..]), None);
    assert_eq!(route(&b"GET"[..], &b"/of"[..]), None);
    assert_eq!(route(&b"GET"[..], &b"/"[..]), None);
    assert_eq!(route(&b"get"[..], &b"/on"[..]), None);
}

#[test]
fn matched_request_posts_and_returns_200() {
    let mut sig = ActuatorSignal::new();
    let status = handle_request(&mut sig, &b"GET /on HTTP/1.1\r\n\r\n"[..]);
    assert_eq!(status, 200);
    assert_eq!(sig.take_next(), Some(ActuatorIntent::TurnOn));
}

#[test]
fn unmatched_request_posts_nothing_and_returns_404() {
    let mut sig = ActuatorSignal::new();
    let status = handle_request(&mut sig, &b"GET /reset HTTP/1.1\r\n\r\n"[..]);
    assert_eq!(status, 404);
    assert_eq!(sig.take_next(), None);
}

#[test]
fn malformed_request_posts_nothing_and_returns_404() {
    let mut sig = ActuatorSignal::new();
    let status = handle_request(&mut sig, &b"\r\n"[..]);
    assert_eq!(status, 404);
    assert_eq!(sig.take_next(), None);
}

#[test]
fn responses_are_rendered_exactly() {
    assert_eq!(render_response(200), b"HTTP/1.1 200 OK\r\n\r\n".to_vec());
    assert_eq!(render_response(404), b"HTTP/1.1 404 Not Found\r\n\r\n".to_vec());
}

#[test]
fn on_then_off_with_no_consumption_ends_inactive() {
    // Two requests race ahead of the actuator task: the later one wins the
    // slot, and the actuator ends in the inactive level.
    let mut sig = ActuatorSignal::new();
    assert_eq!(handle_request(&mut sig, &b"GET /on HTTP/1.1\r\n\r\n"[..]), 200);
    assert_eq!(handle_request(&mut sig, &b"GET /off HTTP/1.1\r\n\r\n"[..]), 200);
    let level = actuator_step(&mut sig, PinLevel::Low);
    assert!(!pin_is_active(level));
}

#[test]
fn applying_both_routes_in_turn_moves_the_pin() {
    let mut level = PinLevel::High;
    level = apply_intent(level, ActuatorIntent::TurnOn);
    assert!(pin_is_active(level));
    level = apply_intent(level, ActuatorIntent::TurnOff);
    assert!(!pin_is_active(level));
}

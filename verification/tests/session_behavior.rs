use control_core::pool::WorkerPool;
use control_core::session::conn_step;
use control_core::session::default_timeouts;
use control_core::session::phase_timeout;
use control_core::session::ConnEvent;
use control_core::session::ConnPhase;
use control_core::session::ConnVerdict;
use control_core::session::KEEP_CONNECTIONS_ALIVE;

#[test]
fn default_timeouts_match_the_reference_build() {
    let t = default_timeouts();
    assert_eq!(t.start_read_request_ms, 5000);
    assert_eq!(t.persistent_start_read_request_ms, 1000);
    assert_eq!(t.read_request_ms, 1000);
    assert_eq!(t.write_ms, 1000);
}

#[test]
fn each_phase_is_guarded_by_its_own_timeout() {
    let t = default_timeouts();
    assert_eq!(phase_timeout(&t, ConnPhase::AwaitFirstRequest), 5000);
    assert_eq!(phase_timeout(&t, ConnPhase::AwaitNextRequest), 1000);
    assert_eq!(phase_timeout(&t, ConnPhase::ReadingRequest), 1000);
    assert_eq!(phase_timeout(&t, ConnPhase::WritingResponse), 1000);
}

#[test]
fn a_timeout_in_any_phase_closes_the_connection() {
    for phase in [
        ConnPhase::AwaitFirstRequest,
        ConnPhase::AwaitNextRequest,
        ConnPhase::ReadingRequest,
        ConnPhase::WritingResponse,
    ] {
        assert_eq!(conn_step(phase, ConnEvent::TimedOut, true), ConnVerdict::Close);
        assert_eq!(conn_step(phase, ConnEvent::TimedOut, false), ConnVerdict::Close);
    }
}

#[test]
fn a_connection_moves_through_read_and_write() {
    let step = conn_step(ConnPhase::AwaitFirstRequest, ConnEvent::ReadBegan, true);
    assert_eq!(step, ConnVerdict::Proceed(ConnPhase::ReadingRequest));
    let step = conn_step(ConnPhase::ReadingRequest, ConnEvent::RequestComplete, true);
    assert_eq!(step, ConnVerdict::Proceed(ConnPhase::WritingResponse));
}

#[test]
fn keep_alive_decides_what_follows_a_response() {
    let kept = conn_step(ConnPhase::WritingResponse, ConnEvent::WriteComplete, true);
    assert_eq!(kept, ConnVerdict::Proceed(ConnPhase::AwaitNextRequest));
    let closed = conn_step(ConnPhase::WritingResponse, ConnEvent::WriteComplete, false);
    assert_eq!(closed, ConnVerdict::Close);
    assert!(KEEP_CONNECTIONS_ALIVE);
}

#[test]
fn a_peer_close_ends_the_connection() {
    let step = conn_step(ConnPhase::AwaitNextRequest, ConnEvent::PeerClosed, true);
    assert_eq!(step, ConnVerdict::Close);
}

#[test]
fn a_silent_connection_times_out_without_touching_its_neighbour() {
    // Two slots each hold a connection; the one on slot 0 never sends a
    // byte, so its initial-read timeout closes it. The connection on slot 1
    // is untouched.
    let mut pool = WorkerPool::new(2);
    let silent = pool.arrive().expect("a free slot accepts");
    let other = pool.arrive().expect("a free slot accepts");
    let verdict = conn_step(ConnPhase::AwaitFirstRequest, ConnEvent::TimedOut, true);
    assert_eq!(verdict, ConnVerdict::Close);
    pool.complete(silent);
    assert!(!pool.is_slot_busy(silent));
    assert!(pool.is_slot_busy(other));
    assert_eq!(pool.queued(), 0);
}

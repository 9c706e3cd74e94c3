use botcontrol::controller::{complete_connect, connect_udp, SocketSetup};
use botcontrol::monitor::{
    LivenessMonitor, MonitorAction, ReceiveOutcome, LIVENESS_TIMEOUT_NANOS, POLL_INTERVAL_NANOS,
    RECEIVE_BUFFER_SIZE,
};
use botcontrol::state::StateManager;
use botcontrol::status::ConnectionStatus;

fn connecting_state() -> StateManager {
    let mut state = StateManager::new();
    assert!(connect_udp(&mut state, "127.0.0.1", 9999).is_ok());
    assert_eq!(
        complete_connect(&mut state, SocketSetup::Ready),
        Ok(ConnectionStatus::Connecting)
    );
    state
}

#[test]
fn timing_constants() {
    assert_eq!(LIVENESS_TIMEOUT_NANOS, 3_000_000_000);
    assert_eq!(POLL_INTERVAL_NANOS, 10_000_000);
    assert_eq!(RECEIVE_BUFFER_SIZE, 65536);
}

#[test]
fn monitor_starts_at_the_given_instant() {
    let monitor = LivenessMonitor::start(42);
    assert_eq!(monitor.last_packet_time, 42);
    assert!(!monitor.is_overdue(42));
}

#[test]
fn overdue_is_strictly_after_the_timeout() {
    let monitor = LivenessMonitor::start(1_000);
    assert!(!monitor.is_overdue(1_000 + LIVENESS_TIMEOUT_NANOS - 1));
    assert!(!monitor.is_overdue(1_000 + LIVENESS_TIMEOUT_NANOS));
    assert!(monitor.is_overdue(1_000 + LIVENESS_TIMEOUT_NANOS + 1));
    assert!(monitor.is_overdue(u64::MAX));
}

#[test]
fn clock_that_ran_backwards_counts_as_no_silence() {
    let mut state = connecting_state();
    let mut monitor = LivenessMonitor::start(u64::MAX);
    assert!(!monitor.is_overdue(0));
    let buffer = [0u8; 4];
    let action = monitor.poll(&mut state, ReceiveOutcome::WouldBlock, &buffer, 0);
    assert_eq!(action, MonitorAction::Wait);
    assert_eq!(state.connection, ConnectionStatus::Connecting);
    assert_eq!(monitor.last_packet_time, u64::MAX);
}

#[test]
fn packet_is_forwarded_whole() {
    let mut state = connecting_state();
    let mut monitor = LivenessMonitor::start(0);
    let buffer = [1u8, 2, 3, 4, 5, 6, 7, 8];
    let action = monitor.poll(&mut state, ReceiveOutcome::Received(5), &buffer, 77);
    assert_eq!(action, MonitorAction::Forward(&[1u8, 2, 3, 4, 5]));
    assert_eq!(action.status_event(), None);
    assert!(action.continues());
    assert_eq!(monitor.last_packet_time, 77);
    assert_eq!(state.connection, ConnectionStatus::Connecting);
}

#[test]
fn empty_and_full_packets() {
    let mut state = connecting_state();
    let mut monitor = LivenessMonitor::start(0);
    let buffer = vec![9u8; RECEIVE_BUFFER_SIZE];
    let empty = monitor.poll(&mut state, ReceiveOutcome::Received(0), &buffer, 1);
    assert_eq!(empty, MonitorAction::Forward(&[]));
    let full = monitor.poll(
        &mut state,
        ReceiveOutcome::Received(RECEIVE_BUFFER_SIZE),
        &buffer,
        2,
    );
    match full {
        MonitorAction::Forward(payload) => {
            assert_eq!(payload.len(), 65536);
            assert_eq!(payload, &buffer[..]);
        }
        _ => panic!("a packet is forwarded"),
    }
    assert_eq!(monitor.last_packet_time, 2);
}

#[test]
fn packet_resets_the_silence_even_when_overdue() {
    let mut state = connecting_state();
    let mut monitor = LivenessMonitor::start(0);
    let buffer = [0u8; 2];
    let late = 10 * LIVENESS_TIMEOUT_NANOS;
    let action = monitor.poll(&mut state, ReceiveOutcome::Received(2), &buffer, late);
    assert_eq!(action, MonitorAction::Forward(&[0u8, 0]));
    assert_eq!(state.connection, ConnectionStatus::Connecting);
    let next = monitor.poll(&mut state, ReceiveOutcome::WouldBlock, &buffer, late + 1);
    assert_eq!(next, MonitorAction::Wait);
}

#[test]
fn nothing_waiting_within_the_timeout_waits() {
    let mut state = connecting_state();
    let mut monitor = LivenessMonitor::start(500);
    let buffer = [0u8; 1];
    let action = monitor.poll(
        &mut state,
        ReceiveOutcome::WouldBlock,
        &buffer,
        500 + LIVENESS_TIMEOUT_NANOS,
    );
    assert_eq!(action, MonitorAction::Wait);
    assert_eq!(action.status_event(), None);
    assert!(action.continues());
    assert_eq!(state.connection, ConnectionStatus::Connecting);
    assert_eq!(monitor.last_packet_time, 500);
}

#[test]
fn nothing_waiting_after_the_timeout_stops() {
    let mut state = connecting_state();
    let mut monitor = LivenessMonitor::start(500);
    let buffer = [0u8; 1];
    let action = monitor.poll(
        &mut state,
        ReceiveOutcome::WouldBlock,
        &buffer,
        501 + LIVENESS_TIMEOUT_NANOS,
    );
    assert_eq!(action, MonitorAction::Stop);
    assert_eq!(
        action.status_event(),
        Some(ConnectionStatus::Disconnected)
    );
    assert!(!action.continues());
    assert_eq!(state.connection, ConnectionStatus::Disconnected);
    assert_eq!(state.settings.robot_port, 6969);
    assert_eq!(state.settings.camera_url, "rtsp://localhost:8554");
}

#[test]
fn receive_error_while_connecting_disconnects_at_once() {
    let mut state = connecting_state();
    assert_eq!(state.connection, ConnectionStatus::Connecting);
    let mut monitor = LivenessMonitor::start(0);
    let buffer = [0u8; 1];
    let action = monitor.poll(&mut state, ReceiveOutcome::Failed, &buffer, 1);
    assert_eq!(action, MonitorAction::Stop);
    assert_eq!(
        action.status_event(),
        Some(ConnectionStatus::Disconnected)
    );
    assert_eq!(state.connection, ConnectionStatus::Disconnected);
    assert_eq!(monitor.last_packet_time, 0);
}

#[test]
fn silent_link_is_dropped_between_3_s_and_3_01_s() {
    let mut state = connecting_state();
    let start: u64 = 123_456;
    let mut monitor = LivenessMonitor::start(start);
    let buffer = [0u8; 16];
    let mut now = start;
    let mut polls = 0u32;
    loop {
        let action = monitor.poll(&mut state, ReceiveOutcome::WouldBlock, &buffer, now);
        polls += 1;
        if !action.continues() {
            assert_eq!(action, MonitorAction::Stop);
            break;
        }
        assert_eq!(action, MonitorAction::Wait);
        assert_eq!(state.connection, ConnectionStatus::Connecting);
        now += POLL_INTERVAL_NANOS;
        assert!(polls < 1_000);
    }
    let elapsed = now - start;
    assert!(elapsed > LIVENESS_TIMEOUT_NANOS);
    assert!(elapsed <= LIVENESS_TIMEOUT_NANOS + POLL_INTERVAL_NANOS);
    assert_eq!(elapsed, 3_010_000_000);
    assert_eq!(polls, 302);
    assert_eq!(state.connection, ConnectionStatus::Disconnected);
}

#[test]
fn packet_just_inside_the_timeout_keeps_the_link() {
    let mut state = connecting_state();
    let mut monitor = LivenessMonitor::start(0);
    let buffer = [7u8; 32];
    let period = LIVENESS_TIMEOUT_NANOS - POLL_INTERVAL_NANOS;
    let mut now: u64 = 0;
    let mut packets = 0u32;
    while packets < 200 {
        now += POLL_INTERVAL_NANOS;
        let outcome = if now % period == 0 {
            packets += 1;
            ReceiveOutcome::Received(32)
        } else {
            ReceiveOutcome::WouldBlock
        };
        let action = monitor.poll(&mut state, outcome, &buffer, now);
        assert!(action.continues());
        assert_eq!(action.status_event(), None);
        assert_eq!(state.connection, ConnectionStatus::Connecting);
    }
    assert_eq!(monitor.last_packet_time, 200 * period);
}

#[test]
fn echo_peer_once_a_second_keeps_the_link_connecting() {
    let mut state = StateManager::new();
    assert_eq!(
        connect_udp(&mut state, "127.0.0.1", 9999),
        Ok(String::from("127.0.0.1:9999"))
    );
    assert_eq!(
        complete_connect(&mut state, SocketSetup::Ready),
        Ok(ConnectionStatus::Connecting)
    );
    let mut monitor = LivenessMonitor::start(0);
    let mut buffer = vec![0u8; RECEIVE_BUFFER_SIZE];
    let second: u64 = 1_000_000_000;
    let mut now: u64 = 0;
    let mut sent: Vec<usize> = Vec::new();
    let mut received: Vec<usize> = Vec::new();
    while now < 20 * second {
        now += POLL_INTERVAL_NANOS;
        let outcome = if now % second == 0 {
            let length = 1 + (now / second) as usize * 3;
            for (i, byte) in buffer.iter_mut().take(length).enumerate() {
                *byte = (i % 251) as u8;
            }
            sent.push(length);
            ReceiveOutcome::Received(length)
        } else {
            ReceiveOutcome::WouldBlock
        };
        match monitor.poll(&mut state, outcome, &buffer, now) {
            MonitorAction::Forward(payload) => {
                assert_eq!(payload, &buffer[..payload.len()]);
                received.push(payload.len());
            }
            MonitorAction::Wait => {}
            MonitorAction::Stop => panic!("the link was dropped"),
        }
        assert_eq!(state.connection, ConnectionStatus::Connecting);
    }
    assert_eq!(sent.len(), 20);
    assert_eq!(received, sent);
}

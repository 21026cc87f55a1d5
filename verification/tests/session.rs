use gt7_telemetry::errors::{CryptError, DatagramError, PacketError, ShortRead};
use gt7_telemetry::flags::Flags;
use gt7_telemetry::packet::{Float32, Packet};
use gt7_telemetry::session::{
    Action, Input, Session, SessionState, KEEPALIVE_INTERVAL, RECEIVE_PORT, SEND_PORT,
};

fn record(packet_id: i32) -> Packet {
    let zero = Float32::from_bits(0);
    Packet {
        position: [zero; 3],
        velocity: [zero; 3],
        rotation: [zero; 3],
        relative_orientation_to_north: zero,
        angular_velocity: [zero; 3],
        body_height: zero,
        engine_rpm: zero,
        gas_level: zero,
        gas_capacity: zero,
        meters_per_second: zero,
        turbo_boost: zero,
        oil_pressure: zero,
        water_temperature: zero,
        oil_temperature: zero,
        tire_fl_surface_temperature: zero,
        tire_fr_surface_temperature: zero,
        tire_rl_surface_temperature: zero,
        tire_rr_surface_temperature: zero,
        packet_id,
        lap_count: 0,
        laps_in_race: 0,
        best_lap_time: 0,
        last_lap_time: 0,
        time_of_day_progression: 0,
        qualifying_position: 0,
        num_cars_pre_race: 0,
        alert_rpm_min: 0,
        alert_rpm_max: 0,
        calculated_max_speed: 0,
        flags: Flags::from_bits_retain(0),
        current_gear: 0,
        suggested_gear: 0,
        throttle: 0,
        brake: 0,
        road_plane: [zero; 3],
        road_plane_distance: zero,
        wheel_fl_rps: zero,
        wheel_fr_rps: zero,
        wheel_rl_rps: zero,
        wheel_rr_rps: zero,
        tire_fl_radius: zero,
        tire_fr_radius: zero,
        tire_rl_radius: zero,
        tire_rr_radius: zero,
        tire_fl_suspension_height: zero,
        tire_fr_suspension_height: zero,
        tire_rl_suspension_height: zero,
        tire_rr_suspension_height: zero,
        clutch_pedal: zero,
        clutch_engagement: zero,
        rpm_from_clutch_to_gearbox: zero,
        transmission_top_speed: zero,
        gear_ratios: [zero; 7],
        car_code: 0,
    }
}

fn keepalives(action: &Action) -> u32 {
    match action {
        Action::SendKeepalive => 1,
        Action::Deliver { keepalive: true, .. } => 1,
        _ => 0,
    }
}

const BAD_MAGIC: DatagramError = DatagramError::Crypt(CryptError::InvalidMagicValue());

#[test]
fn ports_and_interval() {
    assert_eq!(RECEIVE_PORT, 33740);
    assert_eq!(SEND_PORT, 33739);
    assert_eq!(KEEPALIVE_INTERVAL, 100);
}

#[test]
fn starts_with_a_keepalive() {
    let mut session = Session::new();
    assert_eq!(session.state(), SessionState::Unstarted);
    assert_eq!(session.step(Input::SocketReady), Action::SendKeepalive);
    assert_eq!(session.state(), SessionState::Streaming);
    assert_eq!(session.since_keepalive(), 0);
}

#[test]
fn two_hundred_and_fifty_records_three_keepalives() {
    let mut session = Session::new();
    let mut sent = keepalives(&session.step(Input::SocketReady));
    assert_eq!(sent, 1);
    for count in 1..=250 {
        let action = session.step(Input::Decoded(Ok(record(count))));
        assert_eq!(
            action,
            Action::Deliver { record: record(count), keepalive: count == 100 || count == 200 }
        );
        sent += keepalives(&action);
    }
    assert_eq!(sent, 3);
    assert_eq!(session.since_keepalive(), 50);
    assert_eq!(session.state(), SessionState::Streaming);
}

#[test]
fn packet_id_does_not_set_the_cadence() {
    let mut session = Session::new();
    session.step(Input::SocketReady);
    // A record whose own number is a multiple of the interval is no reason
    // to send anything.
    assert_eq!(
        session.step(Input::Decoded(Ok(record(100)))),
        Action::Deliver { record: record(100), keepalive: false }
    );
}

#[test]
fn dropped_datagrams_do_not_count() {
    let mut session = Session::new();
    let mut sent = keepalives(&session.step(Input::SocketReady));
    let mut delivered = 0;
    for round in 0..300 {
        for _ in 0..3 {
            let action = session.step(Input::Decoded(Err(BAD_MAGIC)));
            assert_eq!(action, Action::Discard(BAD_MAGIC));
            sent += keepalives(&action);
        }
        sent += keepalives(&session.step(Input::WouldBlock));
        sent += keepalives(&session.step(Input::IoError));
        let action = session.step(Input::Decoded(Ok(record(round))));
        delivered += 1;
        sent += keepalives(&action);
        assert_eq!(sent, 1 + delivered / 100);
    }
    assert_eq!(sent, 4);
    assert_eq!(session.since_keepalive(), 0);
}

#[test]
fn ninety_nine_failures_bring_no_keepalive() {
    let mut session = Session::new();
    session.step(Input::SocketReady);
    for _ in 0..99 {
        session.step(Input::Decoded(Err(BAD_MAGIC)));
    }
    assert_eq!(session.since_keepalive(), 0);
    assert_eq!(
        session.step(Input::Decoded(Ok(record(1)))),
        Action::Deliver { record: record(1), keepalive: false }
    );
    assert_eq!(session.since_keepalive(), 1);
}

#[test]
fn decoder_failure_is_dropped_with_its_error() {
    let mut session = Session::new();
    session.step(Input::SocketReady);
    let short = DatagramError::Packet(PacketError::UnexpectedSequence(ShortRead {
        needed: 408,
        available: 12,
    }));
    assert_eq!(session.step(Input::Decoded(Err(short))), Action::Discard(short));
    let magic = DatagramError::Packet(PacketError::UnexpectedMagicValue());
    assert_eq!(session.step(Input::Decoded(Err(magic))), Action::Discard(magic));
    assert_eq!(session.state(), SessionState::Streaming);
}

#[test]
fn would_block_waits_and_io_error_reports() {
    let mut session = Session::new();
    session.step(Input::SocketReady);
    assert_eq!(session.step(Input::WouldBlock), Action::Wait);
    assert_eq!(session.step(Input::IoError), Action::Report);
    assert_eq!(session.state(), SessionState::Streaming);
}

#[test]
fn failed_setup_is_fatal() {
    let mut session = Session::new();
    assert_eq!(session.step(Input::SetupFailed), Action::Abort);
    assert_eq!(session.state(), SessionState::Stopped);
    assert_eq!(session.step(Input::SocketReady), Action::Ignore);
    assert_eq!(session.state(), SessionState::Stopped);
}

#[test]
fn stop_closes() {
    let mut session = Session::new();
    session.step(Input::SocketReady);
    session.step(Input::Decoded(Ok(record(1))));
    assert_eq!(session.step(Input::Stop), Action::Close);
    assert_eq!(session.state(), SessionState::Stopped);
    assert_eq!(session.step(Input::Decoded(Ok(record(2)))), Action::Ignore);
    assert_eq!(session.step(Input::Stop), Action::Ignore);
    assert_eq!(session.since_keepalive(), 1);
}

#[test]
fn stop_before_start() {
    let mut session = Session::new();
    assert_eq!(session.step(Input::Stop), Action::Close);
    assert_eq!(session.state(), SessionState::Stopped);
}

#[test]
fn nothing_is_taken_before_start() {
    let mut session = Session::new();
    assert_eq!(session.step(Input::Decoded(Ok(record(1)))), Action::Ignore);
    assert_eq!(session.step(Input::WouldBlock), Action::Ignore);
    assert_eq!(session.step(Input::IoError), Action::Ignore);
    assert_eq!(session.state(), SessionState::Unstarted);
    assert_eq!(session.since_keepalive(), 0);
}

#[test]
fn a_streaming_session_does_not_start_again() {
    let mut session = Session::new();
    session.step(Input::SocketReady);
    assert_eq!(session.step(Input::SocketReady), Action::Ignore);
    assert_eq!(session.step(Input::SetupFailed), Action::Ignore);
    assert_eq!(session.state(), SessionState::Streaming);
}

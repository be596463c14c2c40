use bike_bt::Address;
use bike_bt::BikeBt;
use bike_bt::ConnectAnswer;
use bike_bt::ConnectAttempt;
use bike_bt::ConnectError;
use bike_bt::ConnectFailure;
use bike_bt::ConnectProgress;
use bike_bt::ConnectStep;
use bike_bt::ConnectedDevice;
use bike_bt::DeviceConnectionError;
use bike_bt::Disconnect;

type Reply = Result<ConnectAnswer, DeviceConnectionError>;

fn handle() -> BikeBt {
    BikeBt::new(true, true).unwrap()
}

fn refusal(text: &str) -> Reply {
    Err(DeviceConnectionError::new(text.to_string()))
}

fn run(address: Address, replies: Vec<Reply>) -> (ConnectProgress, Vec<ConnectStep>) {
    let mut asked = Vec::new();
    let mut attempt = handle().connect(address);
    asked.push(attempt.step);
    for reply in replies {
        match attempt.advance(reply) {
            ConnectProgress::Pending(next) => {
                attempt = next;
                asked.push(attempt.step);
            }
            ended => return (ended, asked),
        }
    }
    (ConnectProgress::Pending(attempt), asked)
}

fn at(step: ConnectStep) -> ConnectAttempt {
    ConnectAttempt { address: Address::new(9), step }
}

#[test]
fn connect_starts_by_resolving() {
    let attempt = handle().connect(Address::new(0xAABB));
    assert_eq!(attempt.address, Address::new(0xAABB));
    assert_eq!(attempt.step, ConnectStep::Resolve);
}

#[test]
fn connect_pairs_trusts_and_connects_a_new_device() {
    let address = Address::new(0x0011_2233_4455);
    let (ended, asked) = run(
        address,
        vec![
            Ok(ConnectAnswer::Done),
            Ok(ConnectAnswer::Flag(false)),
            Ok(ConnectAnswer::Done),
            Ok(ConnectAnswer::Flag(false)),
            Ok(ConnectAnswer::Done),
            Ok(ConnectAnswer::Flag(false)),
            Ok(ConnectAnswer::Done),
            Ok(ConnectAnswer::Flag(true)),
            Ok(ConnectAnswer::Name(Some("Trainer-01".to_string()))),
        ],
    );
    assert_eq!(
        ended,
        ConnectProgress::Established(ConnectedDevice::new(address, "Trainer-01".to_string()))
    );
    assert_eq!(
        asked,
        vec![
            ConnectStep::Resolve,
            ConnectStep::QueryPaired,
            ConnectStep::Pair,
            ConnectStep::QueryTrusted,
            ConnectStep::Trust,
            ConnectStep::QueryConnected,
            ConnectStep::Connect,
            ConnectStep::Confirm,
            ConnectStep::QueryName,
        ]
    );
}

#[test]
fn connect_skips_what_the_device_has_already() {
    let address = Address::new(3);
    let (ended, asked) = run(
        address,
        vec![
            Ok(ConnectAnswer::Done),
            Ok(ConnectAnswer::Flag(true)),
            Ok(ConnectAnswer::Flag(true)),
            Ok(ConnectAnswer::Flag(true)),
            Ok(ConnectAnswer::Flag(true)),
            Ok(ConnectAnswer::Name(Some("Bike".to_string()))),
        ],
    );
    assert_eq!(
        ended,
        ConnectProgress::Established(ConnectedDevice::new(address, "Bike".to_string()))
    );
    assert_eq!(
        asked,
        vec![
            ConnectStep::Resolve,
            ConnectStep::QueryPaired,
            ConnectStep::QueryTrusted,
            ConnectStep::QueryConnected,
            ConnectStep::Confirm,
            ConnectStep::QueryName,
        ]
    );
}

#[test]
fn connect_that_is_not_confirmed_fails() {
    let (ended, asked) = run(
        Address::new(4),
        vec![
            Ok(ConnectAnswer::Done),
            Ok(ConnectAnswer::Flag(false)),
            Ok(ConnectAnswer::Done),
            Ok(ConnectAnswer::Flag(false)),
            Ok(ConnectAnswer::Done),
            Ok(ConnectAnswer::Flag(false)),
            Ok(ConnectAnswer::Done),
            Ok(ConnectAnswer::Flag(false)),
        ],
    );
    assert_eq!(
        ended,
        ConnectProgress::Failed(ConnectError::ConnectionNotConfirmed(DeviceConnectionError::new(
            "Device connection was not successful".to_string()
        )))
    );
    assert_eq!(asked.last(), Some(&ConnectStep::Confirm));
}

#[test]
fn connect_without_a_name_fails() {
    let progress = at(ConnectStep::QueryName).advance(Ok(ConnectAnswer::Name(None)));
    assert_eq!(
        progress,
        ConnectProgress::Failed(ConnectError::NoDeviceName(DeviceConnectionError::new(
            "Device has no name".to_string()
        )))
    );
}

#[test]
fn connect_with_an_empty_name_fails() {
    let progress = at(ConnectStep::QueryName).advance(Ok(ConnectAnswer::Name(Some(String::new()))));
    assert_eq!(
        progress,
        ConnectProgress::Failed(ConnectError::NoDeviceName(DeviceConnectionError::new(
            "Device has no name".to_string()
        )))
    );
}

#[test]
fn connect_with_an_empty_name_fails_at_the_end_of_an_attempt() {
    let (ended, asked) = run(
        Address::new(8),
        vec![
            Ok(ConnectAnswer::Done),
            Ok(ConnectAnswer::Flag(true)),
            Ok(ConnectAnswer::Flag(true)),
            Ok(ConnectAnswer::Flag(true)),
            Ok(ConnectAnswer::Flag(true)),
            Ok(ConnectAnswer::Name(Some(String::new()))),
        ],
    );
    match ended {
        ConnectProgress::Failed(error) => {
            assert_eq!(error.kind(), ConnectFailure::NoDeviceName);
            assert_eq!(error.to_string(), "Device has no name");
        }
        other => panic!("the attempt did not fail: {:?}", other),
    }
    assert_eq!(asked.last(), Some(&ConnectStep::QueryName));
}

#[test]
fn connect_keeps_a_name_of_one_character() {
    let progress =
        at(ConnectStep::QueryName).advance(Ok(ConnectAnswer::Name(Some(" ".to_string()))));
    assert_eq!(
        progress,
        ConnectProgress::Established(ConnectedDevice::new(Address::new(9), " ".to_string()))
    );
}

#[test]
fn connect_refusals_by_step() {
    let cases = [
        (ConnectStep::Resolve, ConnectFailure::DeviceResolutionFailed),
        (ConnectStep::QueryPaired, ConnectFailure::PairingFailed),
        (ConnectStep::Pair, ConnectFailure::PairingFailed),
        (ConnectStep::QueryTrusted, ConnectFailure::TrustFailed),
        (ConnectStep::Trust, ConnectFailure::TrustFailed),
        (ConnectStep::QueryConnected, ConnectFailure::ConnectFailed),
        (ConnectStep::Connect, ConnectFailure::ConnectFailed),
        (ConnectStep::Confirm, ConnectFailure::ConnectFailed),
        (ConnectStep::QueryName, ConnectFailure::NoDeviceName),
    ];
    for (step, failure) in cases {
        match at(step).advance(refusal("org.bluez.Error.Failed")) {
            ConnectProgress::Failed(error) => {
                assert_eq!(error.kind(), failure, "step {:?}", step);
                assert_eq!(error.to_string(), "org.bluez.Error.Failed");
            }
            other => panic!("step {:?} went on: {:?}", step, other),
        }
    }
}

#[test]
fn connect_stops_at_the_first_refusal() {
    let (ended, asked) =
        run(Address::new(5), vec![Ok(ConnectAnswer::Done), Ok(ConnectAnswer::Flag(false)), refusal("auth")]);
    assert_eq!(
        ended,
        ConnectProgress::Failed(ConnectError::PairingFailed(DeviceConnectionError::new(
            "auth".to_string()
        )))
    );
    assert_eq!(asked, vec![ConnectStep::Resolve, ConnectStep::QueryPaired, ConnectStep::Pair]);
}

#[test]
fn connect_unknown_address_fails_at_once() {
    let (ended, asked) = run(Address::new(6), vec![refusal("unknown device")]);
    assert_eq!(
        ended,
        ConnectProgress::Failed(ConnectError::DeviceResolutionFailed(DeviceConnectionError::new(
            "unknown device".to_string()
        )))
    );
    assert_eq!(asked, vec![ConnectStep::Resolve]);
}

#[test]
fn connect_ignores_an_answer_that_does_not_fit() {
    let steps = [
        (ConnectStep::Resolve, ConnectAnswer::Flag(true)),
        (ConnectStep::QueryPaired, ConnectAnswer::Done),
        (ConnectStep::Pair, ConnectAnswer::Name(None)),
        (ConnectStep::Confirm, ConnectAnswer::Done),
        (ConnectStep::QueryName, ConnectAnswer::Flag(true)),
    ];
    for (step, answer) in steps {
        assert_eq!(at(step).advance(Ok(answer)), ConnectProgress::Pending(at(step)));
    }
}

#[test]
fn connect_asks_again_after_a_device_read_as_connected() {
    assert_eq!(
        at(ConnectStep::QueryConnected).advance(Ok(ConnectAnswer::Flag(true))),
        ConnectProgress::Pending(at(ConnectStep::Confirm))
    );
    assert_eq!(
        at(ConnectStep::QueryConnected).advance(Ok(ConnectAnswer::Flag(false))),
        ConnectProgress::Pending(at(ConnectStep::Connect))
    );
}

#[test]
fn disconnect_of_a_device_that_is_not_connected() {
    let session = ConnectedDevice::new(Address::new(1), "Bike".to_string());
    assert_eq!(session.disconnect::<()>(Ok(false)), Disconnect::Finished(Ok(())));
}

#[test]
fn disconnect_of_a_connected_device_is_issued() {
    let session = ConnectedDevice::new(Address::new(1), "Bike".to_string());
    assert_eq!(session.disconnect::<()>(Ok(true)), Disconnect::Issue);
    assert_eq!(session.disconnected::<String>(Ok(())), Ok(()));
    assert_eq!(session.disconnected(Err("busy".to_string())), Err(()));
}

#[test]
fn disconnect_fails_where_the_state_cannot_be_read() {
    let session = ConnectedDevice::new(Address::new(1), "Bike".to_string());
    assert_eq!(session.disconnect(Err("gone")), Disconnect::Finished(Err(())));
}

#[test]
fn services_are_passed_on() {
    let session = ConnectedDevice::new(Address::new(1), "Bike".to_string());
    let uuids = vec![
        "00001826-0000-1000-8000-00805f9b34fb".to_string(),
        "00001818-0000-1000-8000-00805f9b34fb".to_string(),
    ];
    assert_eq!(
        session.get_gatt_services(Ok(Some(vec![
            "00001826-0000-1000-8000-00805f9b34fb".to_string(),
            "00001818-0000-1000-8000-00805f9b34fb".to_string(),
        ]))),
        Ok(uuids)
    );
    assert_eq!(session.get_gatt_services(Ok(None)), Ok(Vec::new()));
    assert_eq!(
        session.get_gatt_services(Err(DeviceConnectionError::new("timeout".to_string()))),
        Err(DeviceConnectionError::new("timeout".to_string()))
    );
}

#[test]
fn session_keeps_address_and_name() {
    let session = ConnectedDevice::new(Address::new(77), "Trainer-01".to_string());
    assert_eq!(session.address, Address::new(77));
    assert_eq!(session.name, "Trainer-01");
}

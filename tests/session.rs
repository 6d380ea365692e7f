use netcfg_ble::commands::{ConfigureRun, ConfigureStep, configure_messages};
use netcfg_ble::connection::{ConnPhase, ConnectAction, ConnectSession};
use netcfg_ble::gatt::{
    can_subscribe, check_connected, check_service, find_characteristics, no_notify_event,
    notify_error_event, on_notification, write_mode, CharInfo, WriteMode, SERVICE_UUID,
    STATUS_UUID, WRITE_UUID,
};
use netcfg_ble::matcher::{contains_marker, matches_advertisement, matches_device_name};
use netcfg_ble::retry::{connect_policy, write_policy, Attempt, Retrier};
use netcfg_ble::scan::{describe_device, scan_wait_ms, sort_by_signal, DeviceInfo};
use netcfg_ble::writer::{PacketWriter, WriteStep};

fn ch(uuid: u128, write: bool, wwr: bool, notify: bool, indicate: bool, read: bool) -> CharInfo {
    CharInfo { uuid, write, write_without_response: wwr, notify, indicate, read }
}

fn device(id: &str, rssi: Option<i16>) -> DeviceInfo {
    DeviceInfo { id: id.to_string(), name: id.to_string(), rssi, matched: false }
}

#[test]
fn matcher_examples() {
    assert!(matches_device_name("MyNetCfg-1234"));
    assert!(matches_device_name("NETCFG"));
    assert!(!matches_device_name("netcf"));
    assert!(!matches_device_name("other"));
    assert!(contains_marker(&[0x01, 0xAB, 0x0A, 0x02]));
    assert!(!contains_marker(&[0x0A, 0xAB]));
    assert!(!contains_marker(&[0xAB]));
    assert!(!contains_marker(&[]));
    assert!(matches_advertisement("x", &vec![vec![0x01, 0xAB, 0x0A, 0x02]], &vec![]));
    assert!(matches_advertisement("x", &vec![vec![1]], &vec![vec![0xAB, 0x0A]]));
    assert!(matches_advertisement("MyNetCfg-1234", &vec![], &vec![]));
    assert!(!matches_advertisement("other", &vec![], &vec![vec![0x00, 0x00]]));
}

#[test]
fn describe_device_names_and_matches() {
    let d = describe_device("id-1".to_string(), None, Some(-40), &vec![], &vec![vec![0xAB, 0x0A]]);
    assert_eq!(d.name, "Unknown");
    assert_eq!(d.id, "id-1");
    assert_eq!(d.rssi, Some(-40));
    assert!(d.matched);
    let e = describe_device("id-2".to_string(), Some("other".to_string()), None, &vec![], &vec![]);
    assert_eq!(e.name, "other");
    assert!(!e.matched);
}

#[test]
fn scan_timeout_defaults_and_zero() {
    assert_eq!(scan_wait_ms(None), 3000);
    assert_eq!(scan_wait_ms(Some(0)), 0);
    assert_eq!(scan_wait_ms(Some(1500)), 1500);
    assert_eq!(sort_by_signal(Vec::new()), Vec::new());
}

#[test]
fn scan_results_strongest_first_unknown_last() {
    let sorted = sort_by_signal(vec![
        device("a", None),
        device("b", Some(-80)),
        device("c", Some(-30)),
        device("d", Some(-55)),
        device("e", None),
    ]);
    let rssi: Vec<Option<i16>> = sorted.iter().map(|d| d.rssi).collect();
    assert_eq!(rssi, vec![Some(-30), Some(-55), Some(-80), None, None]);
    assert_eq!(sorted[0].id, "c");
    assert_eq!(sorted.len(), 5);
}

#[test]
fn characteristics_are_found_by_uuid_and_capability() {
    let chars = vec![
        ch(WRITE_UUID, false, false, false, false, true),
        ch(WRITE_UUID, true, false, false, false, false),
        ch(STATUS_UUID, false, false, false, false, false),
        ch(STATUS_UUID, false, false, true, false, false),
    ];
    let (w, s) = find_characteristics(&chars).unwrap();
    assert_eq!(w, chars[1]);
    assert_eq!(s, chars[3]);
    assert_eq!(write_mode(&w), WriteMode::WithResponse);
    assert!(can_subscribe(&s));
    assert_eq!(
        find_characteristics(&vec![chars[3]]),
        Err("Write characteristic not found".to_string())
    );
    assert_eq!(
        find_characteristics(&vec![chars[1], chars[2]]),
        Err("Status characteristic not found".to_string())
    );
    let read_only = ch(STATUS_UUID, false, false, false, false, true);
    assert!(!can_subscribe(&read_only));
    assert_eq!(
        write_mode(&ch(WRITE_UUID, true, true, false, false, false)),
        WriteMode::WithoutResponse
    );
}

#[test]
fn service_and_connection_checks() {
    assert_eq!(check_service(&vec![1, SERVICE_UUID]), Ok(()));
    assert_eq!(check_service(&vec![WRITE_UUID]), Err("NETCFG_BLE service not found".to_string()));
    assert_eq!(check_connected(false, false), Err("No device connected".to_string()));
    assert_eq!(check_connected(true, false), Err("Device is not connected".to_string()));
    assert_eq!(check_connected(true, true), Ok(()));
}

#[test]
fn notifications_from_other_sources_are_ignored() {
    assert_eq!(on_notification(WRITE_UUID, &[0x00, 0x01]), None);
    assert_eq!(on_notification(STATUS_UUID, &[0x00]), None);
    let e = on_notification(STATUS_UUID, &[0x04, 0x01]).unwrap();
    assert_eq!((e.code, e.name.as_str(), e.hex.as_str()), (0x0104, "SUCCESS", "0x0104"));
    let n = notify_error_event("stream closed".to_string());
    assert_eq!((n.code, n.name.as_str(), n.hex.as_str()), (0, "NOTIFY_ERROR", "stream closed"));
    let q = no_notify_event();
    assert_eq!((q.code, q.name.as_str(), q.hex.as_str()), (0, "STATUS_CHAR_NO_NOTIFY", "0x0000"));
}

#[test]
fn connect_gives_up_after_three_failures() {
    let mut r = Retrier::new(connect_policy());
    assert_eq!(r.record(Err("e1".to_string())), Attempt::RetryAfter(500));
    assert_eq!(r.record(Err("e2".to_string())), Attempt::RetryAfter(500));
    assert_eq!(r.record(Err("e3".to_string())), Attempt::GaveUp("e3".to_string()));
    let mut s = Retrier::new(connect_policy());
    assert_eq!(s.record(Err("e1".to_string())), Attempt::RetryAfter(500));
    assert_eq!(s.record(Ok(())), Attempt::Succeeded);
    assert_eq!(s.failures, 0);
    assert_eq!(write_policy().delay_ms, 100);
}

/// Drives a writer against a transport whose outcomes are scripted per try,
/// and returns the packets that reached the device plus the final result.
fn drive(packets: Vec<Vec<u8>>, mut outcomes: Vec<Result<(), String>>) -> (Vec<Vec<u8>>, Result<(), String>, usize) {
    let mut w = PacketWriter::new(packets);
    let mut delivered = Vec::new();
    let mut tries = 0;
    outcomes.reverse();
    while let Some(p) = w.current() {
        let p = p.clone();
        tries += 1;
        let outcome = outcomes.pop().unwrap_or(Ok(()));
        if outcome.is_ok() {
            delivered.push(p);
        }
        match w.on_write_result(outcome) {
            WriteStep::Sent { pacing_ms } => assert_eq!(pacing_ms, 100),
            WriteStep::RetryAfter { delay_ms } => assert_eq!(delay_ms, 100),
            WriteStep::Abort { error } => return (delivered, Err(error), tries),
        }
    }
    assert!(w.is_done());
    (delivered, Ok(()), tries)
}

#[test]
fn write_succeeds_on_third_try_without_duplicates() {
    let packets = vec![vec![1u8, 2, 0], vec![2u8, 2, 0]];
    let (delivered, result, tries) = drive(
        packets.clone(),
        vec![Err("busy".to_string()), Err("busy".to_string()), Ok(()), Ok(())],
    );
    assert_eq!(result, Ok(()));
    assert_eq!(delivered, packets);
    assert_eq!(tries, 4);
}

#[test]
fn write_aborts_after_three_failures_on_one_packet() {
    let packets = vec![vec![1u8, 3, 0], vec![2u8, 3, 0], vec![3u8, 3, 0]];
    let (delivered, result, tries) = drive(
        packets.clone(),
        vec![Ok(()), Err("a".to_string()), Err("b".to_string()), Err("c".to_string())],
    );
    assert_eq!(result, Err("c".to_string()));
    assert_eq!(delivered, vec![packets[0].clone()]);
    assert_eq!(tries, 4);
}

#[test]
fn configure_stops_at_password_failure_without_rollback() {
    let messages = configure_messages("home", "secret").unwrap();
    let mut run = ConfigureRun::new(messages.clone());
    let mut sent = Vec::new();
    let mut outcome = Ok(());
    let mut results = vec![Ok(()), Ok(()), Err("write failed".to_string()), Ok(())].into_iter();
    while let Some(m) = run.current() {
        let m = m.clone();
        let r = results.next().unwrap();
        if r.is_ok() {
            sent.push(m);
        }
        match run.on_message_result(r) {
            ConfigureStep::Continue => {}
            ConfigureStep::Finished => break,
            ConfigureStep::Aborted { error } => {
                outcome = Err(error);
                break;
            }
        }
    }
    assert_eq!(outcome, Err("write failed".to_string()));
    assert_eq!(sent, messages[..2].to_vec());
    assert!(run.current().is_none());
    assert!(run.failed);
    assert_eq!(run.next, 2);
}

#[test]
fn configure_finishes_after_four_messages() {
    let messages = configure_messages("home", "secret").unwrap();
    let mut run = ConfigureRun::new(messages);
    assert_eq!(run.on_message_result(Ok(())), ConfigureStep::Continue);
    assert_eq!(run.on_message_result(Ok(())), ConfigureStep::Continue);
    assert_eq!(run.on_message_result(Ok(())), ConfigureStep::Continue);
    assert_eq!(run.on_message_result(Ok(())), ConfigureStep::Finished);
    assert!(run.current().is_none());
}

fn full_chars() -> Vec<CharInfo> {
    vec![
        ch(WRITE_UUID, false, true, false, false, false),
        ch(STATUS_UUID, false, false, false, true, false),
    ]
}

#[test]
fn connect_skips_connecting_when_link_is_up() {
    let mut s = ConnectSession::new();
    assert_eq!(s.phase, ConnPhase::Disconnected);
    assert_eq!(s.on_link_checked(true), ConnectAction::Discover { settle_ms: 200 });
    assert_eq!(s.phase, ConnPhase::ServiceDiscovery);
    let setup = s.on_discovered(&vec![SERVICE_UUID], &full_chars()).unwrap();
    assert_eq!(s.phase, ConnPhase::Ready);
    assert_eq!(setup.write, full_chars()[0]);
    assert_eq!(setup.status, full_chars()[1]);
    assert!(setup.subscribe);
}

#[test]
fn connect_retries_then_succeeds() {
    let mut s = ConnectSession::new();
    assert_eq!(s.on_link_checked(false), ConnectAction::Connect);
    assert_eq!(s.phase, ConnPhase::Connecting);
    assert_eq!(s.on_connect_result(Err("x".to_string())), ConnectAction::RetryAfter(500));
    assert_eq!(s.on_connect_result(Ok(())), ConnectAction::Discover { settle_ms: 200 });
    assert_eq!(s.phase, ConnPhase::ServiceDiscovery);
}

#[test]
fn connect_surfaces_last_error_after_three_failures() {
    let mut s = ConnectSession::new();
    s.on_link_checked(false);
    assert_eq!(s.on_connect_result(Err("one".to_string())), ConnectAction::RetryAfter(500));
    assert_eq!(s.on_connect_result(Err("two".to_string())), ConnectAction::RetryAfter(500));
    assert_eq!(s.on_connect_result(Err("three".to_string())), ConnectAction::Fail("three".to_string()));
    assert_eq!(s.phase, ConnPhase::Failed);
}

#[test]
fn discovery_without_service_or_notify() {
    let mut s = ConnectSession::new();
    s.on_link_checked(true);
    assert_eq!(
        s.on_discovered(&vec![WRITE_UUID], &full_chars()),
        Err("NETCFG_BLE service not found".to_string())
    );
    assert_eq!(s.phase, ConnPhase::Failed);

    let mut t = ConnectSession::new();
    t.on_link_checked(true);
    let chars = vec![
        ch(WRITE_UUID, true, false, false, false, false),
        ch(STATUS_UUID, false, false, false, false, true),
    ];
    let setup = t.on_discovered(&vec![SERVICE_UUID], &chars).unwrap();
    assert!(!setup.subscribe);

    let mut u = ConnectSession::new();
    u.on_link_checked(true);
    assert_eq!(
        u.on_discovered(&vec![SERVICE_UUID], &vec![chars[1]]),
        Err("Write characteristic not found".to_string())
    );
}

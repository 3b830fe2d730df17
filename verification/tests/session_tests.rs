use keychron_monitor::keychron_hid::{BusType, DeviceDescriptor};
use keychron_monitor::report::{Report, TryMerge};
use keychron_monitor::session::{
    Action, Candidate, Event, Session, TransportError, POWER_RESET, RETRY_INTERVAL_SECS,
};

fn usb(product_id: u16) -> DeviceDescriptor {
    DeviceDescriptor {
        vendor_id: 0x3434,
        product_id,
        usage: 1,
        usage_page: 0xffc1,
        bus_type: BusType::Usb,
    }
}

fn mouse_at(position: usize) -> Candidate {
    Candidate { position, descriptor: usb(0xd037) }
}

fn listening() -> Session {
    Session::Listening { candidate: mouse_at(0), status: Report::default() }
}

fn frame(payload: &[u8]) -> Event {
    let mut bytes = vec![0xb4u8];
    bytes.extend_from_slice(payload);
    Event::Frame(bytes)
}

#[test]
fn constants_of_the_session() {
    assert_eq!(RETRY_INTERVAL_SECS, 5);
    assert_eq!(POWER_RESET, 255);
}

#[test]
fn new_session_discovers() {
    let s = Session::new();
    assert_eq!(s, Session::Discovering);
    assert!(!s.needs_install());
    assert_eq!(s.status(), None);
}

#[test]
fn discovery_retries_while_nothing_is_found() {
    let mut s = Session::new();
    for round in 0..1000 {
        let found = if round % 2 == 0 { vec![] } else { vec![usb(0xd000)] };
        assert_eq!(s.step(&Event::Enumerated(found)), Action::Wait);
        assert_eq!(s, Session::Discovering);
        assert_eq!(s.step(&Event::RetryElapsed), Action::Enumerate);
        assert_eq!(s, Session::Discovering);
    }
}

#[test]
fn discovery_proceeds_once_a_candidate_is_present() {
    let mut s = Session::new();
    assert_eq!(s.step(&Event::Enumerated(vec![])), Action::Wait);
    assert_eq!(s.step(&Event::RetryElapsed), Action::Enumerate);
    let found = vec![usb(0xd000), usb(0xd028), usb(0xd037)];
    assert_eq!(s.step(&Event::Enumerated(found)), Action::Open(mouse_at(2)));
    assert_eq!(s, Session::Opening { candidate: mouse_at(2), needs_install: false });
}

#[test]
fn single_receiver_is_opened() {
    let mut s = Session::new();
    let receiver = Candidate { position: 0, descriptor: usb(0xd028) };
    assert_eq!(s.step(&Event::Enumerated(vec![usb(0xd028)])), Action::Open(receiver));
}

#[test]
fn opened_device_is_listened_to_from_a_fresh_status() {
    let mut s = Session::Opening { candidate: mouse_at(1), needs_install: false };
    assert_eq!(s.step(&Event::Opened), Action::Listen);
    assert_eq!(s, Session::Listening { candidate: mouse_at(1), status: Report::default() });
    assert_eq!(s.status(), Some(Report::default()));
}

#[test]
fn permission_denied_then_remediation_resumes() {
    let mut s = Session::new();
    assert_eq!(s.step(&Event::Enumerated(vec![usb(0xd037)])), Action::Open(mouse_at(0)));
    assert!(!s.needs_install());
    assert_eq!(
        s.step(&Event::OpenFailed(TransportError::PermissionDenied)),
        Action::AwaitRemediation
    );
    assert!(s.needs_install());
    assert_eq!(s.step(&Event::Remediated(true)), Action::Open(mouse_at(0)));
    assert!(!s.needs_install());
    assert_eq!(s.step(&Event::Opened), Action::Listen);
    assert!(!s.needs_install());
    assert_eq!(s, listening());
}

#[test]
fn failed_remediation_keeps_waiting() {
    let mut s = Session::Opening { candidate: mouse_at(0), needs_install: true };
    assert_eq!(s.step(&Event::Remediated(false)), Action::AwaitRemediation);
    assert!(s.needs_install());
    assert_eq!(s.step(&Event::RetryElapsed), Action::Open(mouse_at(0)));
    assert!(s.needs_install());
    assert_eq!(
        s.step(&Event::OpenFailed(TransportError::PermissionDenied)),
        Action::AwaitRemediation
    );
    assert!(s.needs_install());
    assert_eq!(s.step(&Event::Opened), Action::Listen);
    assert!(!s.needs_install());
}

#[test]
fn other_open_failures_are_fatal() {
    for error in [TransportError::Disconnected, TransportError::Other] {
        let mut s = Session::Opening { candidate: mouse_at(0), needs_install: false };
        assert_eq!(s.step(&Event::OpenFailed(error)), Action::Exit);
        assert_eq!(s, Session::Fatal);
    }
}

#[test]
fn frames_are_merged_and_published() {
    let mut s = listening();
    let action = s.step(&frame(&[229, 3]));
    let mut expected = Report::default();
    expected.profile.current = 3;
    assert_eq!(action, Action::Publish(expected));
    let action = s.step(&frame(&[225, 1, 0, 2, 3, 4, 5, 6]));
    expected.light.mode = 1;
    expected.light.speed = 2;
    expected.light.brightness = 3;
    expected.light.rgb = [4, 5, 6];
    assert_eq!(action, Action::Publish(expected));
    assert_eq!(s.status(), Some(expected));
}

#[test]
fn unknown_tag_is_published_unchanged() {
    let mut s = listening();
    assert_eq!(s.step(&frame(&[200, 1, 2])), Action::Publish(Report::default()));
    assert_eq!(s, listening());
}

#[test]
fn malformed_and_empty_frames_are_passed_over() {
    let mut s = listening();
    assert_eq!(s.step(&Event::Frame(vec![])), Action::Read);
    assert_eq!(s.step(&Event::Frame(vec![0xb4])), Action::Read);
    assert_eq!(s.step(&frame(&[6, 1, 2, 3])), Action::Read);
    assert_eq!(s.step(&frame(&[229])), Action::Read);
    assert_eq!(s, listening());
}

#[test]
fn power_reset_is_published_and_restarts_the_session() {
    let mut s = listening();
    assert_eq!(s.step(&frame(&[229, 3])), Action::Publish(s.status().unwrap()));
    let mut expected = Report::default();
    expected.profile.current = 3;
    expected.work_mode = 1;
    expected.connect = 2;
    expected.power.value = 255;
    expected.power.state = true;
    expected.dpi.level = [4, 4, 4];
    expected.dpi.level_num = 6;
    expected.polling_rate.level = [5, 5, 5];
    let action = s.step(&frame(&[226, 1, 2, 1, 255, 4, 5, 6]));
    assert_eq!(action, Action::PublishAndTearDown(expected));
    assert_eq!(action.status().unwrap().power.value, 255);
    assert_eq!(s, Session::Resetting);
    assert_eq!(s.status(), None);
    assert_eq!(s.step(&Event::TornDown), Action::Enumerate);
    assert_eq!(s, Session::Discovering);
    assert_eq!(s.step(&Event::Enumerated(vec![usb(0xd037)])), Action::Open(mouse_at(0)));
    assert_eq!(s.step(&Event::Opened), Action::Listen);
    assert_eq!(s.status(), Some(Report::default()));
}

#[test]
fn power_reset_of_older_firmware_restarts_too() {
    let mut s = listening();
    let mut expected = Report::default();
    expected.power.value = 255;
    let action = s.step(&frame(&[1, 0, 140, 1, 0, 0, 255, 0, 0, 0]));
    assert_eq!(action, Action::PublishAndTearDown(expected));
    assert_eq!(s, Session::Resetting);
}

#[test]
fn power_below_the_reset_value_is_published() {
    let mut s = listening();
    let action = s.step(&frame(&[226, 0, 0, 0, 254, 0, 0, 0]));
    let mut expected = Report::default();
    expected.power.value = 254;
    assert_eq!(action, Action::Publish(expected));
}

#[test]
fn every_merge_is_published_with_all_payloads_merged() {
    let payloads: [&[u8]; 4] = [
        &[229, 3],
        &[225, 1, 0, 2, 3, 4, 5, 6],
        &[226, 1, 2, 1, 90, 4, 5, 6],
        &[200],
    ];
    let mut s = listening();
    let mut expected = Report::default();
    for payload in payloads {
        let mut bytes = vec![payload[0]];
        bytes.extend_from_slice(payload);
        bytes.extend_from_slice(&[0xee; 3]);
        let shorter = &bytes[..payload.len() + 1];
        expected.merge(payload).unwrap();
        let action = s.step(&Event::Frame(shorter.to_vec()));
        assert_eq!(action, Action::Publish(expected));
        assert_eq!(action.status(), Some(expected));
        assert_eq!(s.status(), Some(expected));
    }
    assert_eq!(expected.profile.current, 3);
    assert_eq!(expected.light.rgb, [4, 5, 6]);
    assert_eq!(expected.power.value, 90);
}

#[test]
fn actions_that_publish_nothing_hand_on_no_status() {
    for action in [
        Action::Enumerate,
        Action::Wait,
        Action::Open(mouse_at(0)),
        Action::AwaitRemediation,
        Action::Listen,
        Action::Read,
        Action::TearDown,
        Action::Exit,
        Action::Ignore,
    ] {
        assert_eq!(action.status(), None);
    }
}

#[test]
fn disconnect_restarts_the_session() {
    let mut s = listening();
    assert_eq!(s.step(&Event::ReadFailed(TransportError::Disconnected)), Action::TearDown);
    assert_eq!(s, Session::Resetting);
    assert_eq!(s.step(&frame(&[229, 3])), Action::Ignore);
    assert_eq!(s.step(&Event::TornDown), Action::Enumerate);
    assert_eq!(s, Session::Discovering);
}

#[test]
fn other_read_and_write_failures_are_fatal() {
    for event in [
        Event::ReadFailed(TransportError::Other),
        Event::ReadFailed(TransportError::PermissionDenied),
        Event::WriteFailed(TransportError::Other),
        Event::WriteFailed(TransportError::Disconnected),
        Event::WriteFailed(TransportError::PermissionDenied),
    ] {
        let mut s = listening();
        assert_eq!(s.step(&event), Action::Exit);
        assert_eq!(s, Session::Fatal);
    }
}

#[test]
fn fatal_is_final() {
    let mut s = Session::Fatal;
    for event in [
        Event::Enumerated(vec![usb(0xd037)]),
        Event::RetryElapsed,
        Event::Opened,
        Event::Remediated(true),
        Event::TornDown,
        frame(&[229, 3]),
    ] {
        assert_eq!(s.step(&event), Action::Exit);
        assert_eq!(s, Session::Fatal);
    }
}

#[test]
fn events_out_of_place_are_ignored() {
    let mut s = Session::Discovering;
    assert_eq!(s.step(&Event::Opened), Action::Ignore);
    assert_eq!(s.step(&frame(&[229, 3])), Action::Ignore);
    assert_eq!(s.step(&Event::Remediated(true)), Action::Ignore);
    assert_eq!(s, Session::Discovering);
    let mut s = listening();
    assert_eq!(s.step(&Event::Enumerated(vec![usb(0xd037)])), Action::Ignore);
    assert_eq!(s.step(&Event::RetryElapsed), Action::Ignore);
    assert_eq!(s, listening());
}

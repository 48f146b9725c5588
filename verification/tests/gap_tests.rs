use papajbadge::att::INVALID_CONNHANDLE;
use papajbadge::attr_table::AttributeRegistry;
use papajbadge::devinfo::{devinfo_init, DeviceInfoService};
use papajbadge::events::{AppEvent, EventQueue};
use papajbadge::gap_role::{
    system_id_of, GapEvent, GapReaction, GapRole, GapRoleState, FAST_ADV_DURATION, FAST_ADV_INTERVAL,
    SLOW_ADV_DURATION, SLOW_ADV_INTERVAL,
};

const ADDR: [u8; 6] = [0x11, 0x22, 0x33, 0x44, 0x55, 0x66];

fn info_service() -> DeviceInfoService {
    devinfo_init(&mut AttributeRegistry::new()).unwrap()
}

#[test]
fn fresh_role() {
    let role = GapRole::new();
    assert_eq!(role.get_last_state(), GapRoleState::Init);
    assert_eq!(role.get_connection(), INVALID_CONNHANDLE);
}

#[test]
fn system_id_moves_upper_bytes_to_the_end() {
    assert_eq!(system_id_of(&ADDR), [0x11, 0x22, 0x33, 0x00, 0x00, 0x44, 0x55, 0x66]);
}

#[test]
fn start_captures_the_system_id() {
    let mut role = GapRole::new();
    let mut q = EventQueue::new();
    let mut info = info_service();
    let r = role.on_state_change(GapRoleState::Started, GapEvent::Other, 160, &ADDR, &mut info, &mut q);
    assert_eq!(r, GapReaction::Idle);
    assert_eq!(info.get_system_id(), [0x11, 0x22, 0x33, 0x00, 0x00, 0x44, 0x55, 0x66]);
    assert_eq!(role.get_last_state(), GapRoleState::Started);
    assert_eq!(q.try_receive(), None);
}

#[test]
fn link_established_enqueues_exactly_one_connected_event() {
    let mut role = GapRole::new();
    let mut q = EventQueue::new();
    let mut info = info_service();
    let _ = role.on_state_change(GapRoleState::Advertising, GapEvent::Other, 160, &ADDR, &mut info, &mut q);
    let r = role.on_state_change(
        GapRoleState::Connected,
        GapEvent::LinkEstablished { connection: 0x0042 },
        160,
        &ADDR,
        &mut info,
        &mut q,
    );
    assert_eq!(r, GapReaction::Idle);
    assert_eq!(role.get_connection(), 0x0042);
    assert_eq!(q.try_receive(), Some(AppEvent::Connected(0x0042)));
    assert_eq!(q.try_receive(), None);
}

#[test]
fn connected_state_without_link_message_enqueues_nothing() {
    let mut role = GapRole::new();
    let mut q = EventQueue::new();
    let mut info = info_service();
    let r = role.on_state_change(GapRoleState::Connected, GapEvent::Other, 160, &ADDR, &mut info, &mut q);
    assert_eq!(r, GapReaction::Idle);
    assert_eq!(role.get_connection(), INVALID_CONNHANDLE);
    assert_eq!(role.get_last_state(), GapRoleState::Connected);
    assert_eq!(q.try_receive(), None);
}

#[test]
fn link_loss_restarts_fast_advertising_and_reports_the_stale_handle() {
    let mut role = GapRole::new();
    let mut q = EventQueue::new();
    let mut info = info_service();
    let _ = role.on_state_change(
        GapRoleState::Connected,
        GapEvent::LinkEstablished { connection: 7 },
        160,
        &ADDR,
        &mut info,
        &mut q,
    );
    assert_eq!(q.try_receive(), Some(AppEvent::Connected(7)));
    let r = role.on_state_change(GapRoleState::Waiting, GapEvent::Other, 1600, &ADDR, &mut info, &mut q);
    assert_eq!(r, GapReaction::Advertise { interval: FAST_ADV_INTERVAL, duration: FAST_ADV_DURATION });
    assert_eq!(r, GapReaction::Advertise { interval: 32, duration: 30000 });
    assert_eq!(q.try_receive(), Some(AppEvent::Disconnected(7)));
    assert_eq!(q.try_receive(), None);
    assert_eq!(role.get_connection(), 7);
    assert_eq!(role.get_last_state(), GapRoleState::Waiting);
}

#[test]
fn leaving_connected_for_started_is_a_link_loss_and_keeps_the_system_id() {
    let mut role = GapRole::new();
    let mut q = EventQueue::new();
    let mut info = info_service();
    let _ = role.on_state_change(
        GapRoleState::Connected,
        GapEvent::LinkEstablished { connection: 9 },
        160,
        &ADDR,
        &mut info,
        &mut q,
    );
    let r = role.on_state_change(GapRoleState::Started, GapEvent::Other, 160, &ADDR, &mut info, &mut q);
    assert_eq!(r, GapReaction::Advertise { interval: 32, duration: 30000 });
    assert_eq!(info.get_system_id(), [0u8; 8]);
}

#[test]
fn fast_advertising_timeout_falls_back_to_slow() {
    let mut role = GapRole::new();
    let mut q = EventQueue::new();
    let mut info = info_service();
    let _ = role.on_state_change(GapRoleState::Advertising, GapEvent::Other, 32, &ADDR, &mut info, &mut q);
    let r = role.on_state_change(GapRoleState::Waiting, GapEvent::Other, 32, &ADDR, &mut info, &mut q);
    assert_eq!(r, GapReaction::Advertise { interval: SLOW_ADV_INTERVAL, duration: SLOW_ADV_DURATION });
    assert_eq!(r, GapReaction::Advertise { interval: 1600, duration: 0 });
    assert_eq!(q.try_receive(), None);
}

#[test]
fn slow_advertising_timeout_does_nothing() {
    let mut role = GapRole::new();
    let mut q = EventQueue::new();
    let mut info = info_service();
    let _ = role.on_state_change(GapRoleState::Advertising, GapEvent::Other, 1600, &ADDR, &mut info, &mut q);
    let r = role.on_state_change(GapRoleState::Waiting, GapEvent::Other, 1600, &ADDR, &mut info, &mut q);
    assert_eq!(r, GapReaction::Idle);
}

#[test]
fn states_without_a_rule_are_unhandled() {
    let mut role = GapRole::new();
    let mut q = EventQueue::new();
    let mut info = info_service();
    assert_eq!(
        role.on_state_change(GapRoleState::Waiting, GapEvent::Other, 32, &ADDR, &mut info, &mut q),
        GapReaction::Unhandled
    );
    assert_eq!(
        role.on_state_change(GapRoleState::Error, GapEvent::Other, 32, &ADDR, &mut info, &mut q),
        GapReaction::Unhandled
    );
    assert_eq!(
        role.on_state_change(GapRoleState::Init, GapEvent::Other, 32, &ADDR, &mut info, &mut q),
        GapReaction::Unhandled
    );
    assert_eq!(
        role.on_state_change(GapRoleState::ConnectedAdvertising, GapEvent::Other, 32, &ADDR, &mut info, &mut q),
        GapReaction::Unhandled
    );
    assert_eq!(
        role.on_state_change(GapRoleState::Advertising, GapEvent::Other, 32, &ADDR, &mut info, &mut q),
        GapReaction::Idle
    );
    assert_eq!(q.try_receive(), None);
}

#[test]
fn full_queue_drops_the_connected_event_but_keeps_the_handle() {
    let mut role = GapRole::new();
    let mut q = EventQueue::new();
    let mut info = info_service();
    assert!(q.try_send(AppEvent::Subscribed(1, 2)));
    assert!(q.try_send(AppEvent::Subscribed(1, 3)));
    assert!(q.try_send(AppEvent::Subscribed(1, 4)));
    let _ = role.on_state_change(
        GapRoleState::Connected,
        GapEvent::LinkEstablished { connection: 5 },
        160,
        &ADDR,
        &mut info,
        &mut q,
    );
    assert_eq!(role.get_connection(), 5);
    assert_eq!(q.try_receive(), Some(AppEvent::Subscribed(1, 2)));
    assert_eq!(q.try_receive(), Some(AppEvent::Subscribed(1, 3)));
    assert_eq!(q.try_receive(), Some(AppEvent::Subscribed(1, 4)));
    assert_eq!(q.try_receive(), None);
}

#[test]
fn raw_states_have_their_names() {
    assert_eq!(GapRoleState::from_raw(0), GapRoleState::Init);
    assert_eq!(GapRoleState::from_raw(1), GapRoleState::Started);
    assert_eq!(GapRoleState::from_raw(2), GapRoleState::Advertising);
    assert_eq!(GapRoleState::from_raw(3), GapRoleState::Waiting);
    assert_eq!(GapRoleState::from_raw(4), GapRoleState::Connected);
    assert_eq!(GapRoleState::from_raw(5), GapRoleState::ConnectedAdvertising);
    assert_eq!(GapRoleState::from_raw(6), GapRoleState::Error);
    assert_eq!(GapRoleState::from_raw(7), GapRoleState::Other(7));
    assert_eq!(GapRoleState::from_raw(0xFFFF_FFFF), GapRoleState::Other(0xFFFF_FFFF));
}

#[test]
fn only_the_link_established_message_carries_a_handle() {
    assert_eq!(GapEvent::from_message(0x05, 9), GapEvent::LinkEstablished { connection: 9 });
    assert_eq!(GapEvent::from_message(0x06, 9), GapEvent::Other);
    assert_eq!(GapEvent::from_message(0x07, 9), GapEvent::Other);
}

#[test]
fn unnamed_state_after_a_link_is_a_link_loss() {
    let mut role = GapRole::new();
    let mut q = EventQueue::new();
    let mut info = info_service();
    let _ = role.on_state_change(
        GapRoleState::Connected,
        GapEvent::LinkEstablished { connection: 3 },
        160,
        &ADDR,
        &mut info,
        &mut q,
    );
    let r = role.on_state_change(GapRoleState::Other(42), GapEvent::Other, 160, &ADDR, &mut info, &mut q);
    assert_eq!(r, GapReaction::Advertise { interval: 32, duration: 30000 });
    assert_eq!(role.get_last_state(), GapRoleState::Other(42));
    let r = role.on_state_change(GapRoleState::Other(42), GapEvent::Other, 160, &ADDR, &mut info, &mut q);
    assert_eq!(r, GapReaction::Unhandled);
    assert_eq!(q.try_receive(), Some(AppEvent::Connected(3)));
    assert_eq!(q.try_receive(), Some(AppEvent::Disconnected(3)));
    assert_eq!(q.try_receive(), None);
}

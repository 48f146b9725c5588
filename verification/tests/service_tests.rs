use papajbadge::att::{
    ATT_ERR_ATTR_NOT_FOUND, ATT_ERR_ATTR_NOT_LONG, ATT_ERR_INVALID_VALUE, ATT_ERR_INVALID_VALUE_SIZE, ATT_SUCCESS,
};
use papajbadge::attr_table::{AttrValue, Attribute, AttributeRegistry};
use papajbadge::blinky_service::{blinky_init, BLINKY_CMD_UUID, BLINKY_CONF_UUID, BLINKY_DATA_UUID};
use papajbadge::bridge::{BridgeAction, EventBridge};
use papajbadge::current_time::DateTime;
use papajbadge::current_time_service::{current_time_init, CURRENT_TIME_UUID};
use papajbadge::devinfo::{devinfo_init, SERIAL_NUMBER_UUID, SYSTEM_ID_UUID, TEMP_UUID};
use papajbadge::events::{AppEvent, EventQueue};
use papajbadge::notifier::{Notifier, NotifierAction, NotifierInput};
use papajbadge::subscription::SubscriptionRegistry;

fn attr(type_uuid: u16) -> Attribute {
    Attribute { type_uuid, permissions: 0x03, handle: 0, value: AttrValue::Handler }
}

fn noon() -> DateTime {
    DateTime { year: 2025, month: 6, day: 15, hour: 12, minute: 0, second: 30, millisecond: 250 }
}

#[test]
fn blinky_table_is_bit_exact() {
    let mut handles = AttributeRegistry::new();
    let mut subs = SubscriptionRegistry::new(4);
    let svc = blinky_init(&mut handles, &mut subs).unwrap();
    let t = svc.attributes();
    assert_eq!(t.len(), 6);
    assert_eq!(
        t.get(0),
        Some(Attribute { type_uuid: 0x2800, permissions: 0x01, handle: 1, value: AttrValue::ServiceUuid(0xFFE0) })
    );
    assert_eq!(
        t.get(1),
        Some(Attribute { type_uuid: 0x2803, permissions: 0x01, handle: 2, value: AttrValue::Properties(0x12) })
    );
    assert_eq!(
        t.get(2),
        Some(Attribute { type_uuid: 0xFFE1, permissions: 0x01, handle: 3, value: AttrValue::Handler })
    );
    assert_eq!(
        t.get(3),
        Some(Attribute { type_uuid: 0x2902, permissions: 0x03, handle: 4, value: AttrValue::ClientConfig })
    );
    assert_eq!(
        t.get(4),
        Some(Attribute { type_uuid: 0x2803, permissions: 0x01, handle: 5, value: AttrValue::Properties(0x08) })
    );
    assert_eq!(
        t.get(5),
        Some(Attribute { type_uuid: 0xFFE3, permissions: 0x02, handle: 6, value: AttrValue::Handler })
    );
    assert!(svc.is_on());
}

#[test]
fn blinky_init_clears_the_registry() {
    let mut handles = AttributeRegistry::new();
    let mut subs = SubscriptionRegistry::new(4);
    assert_eq!(subs.write(1, BLINKY_DATA_UUID, &[1, 0]), ATT_SUCCESS);
    let _ = blinky_init(&mut handles, &mut subs).unwrap();
    assert!(!subs.read(1, BLINKY_DATA_UUID));
}

#[test]
fn blinky_read() {
    let mut handles = AttributeRegistry::new();
    let mut subs = SubscriptionRegistry::new(4);
    let svc = blinky_init(&mut handles, &mut subs).unwrap();
    let mut out = vec![9u8, 9, 9];
    assert_eq!(svc.on_read(1, &attr(BLINKY_DATA_UUID), &mut out, 0), ATT_SUCCESS);
    assert_eq!(out, vec![0x01]);
    assert_eq!(svc.on_read(1, &attr(BLINKY_DATA_UUID), &mut out, 1), ATT_ERR_ATTR_NOT_LONG);
    assert_eq!(svc.on_read(1, &attr(BLINKY_CMD_UUID), &mut out, 0), ATT_ERR_ATTR_NOT_FOUND);
    assert_eq!(svc.on_read(1, &attr(0x2902), &mut out, 0), ATT_ERR_ATTR_NOT_FOUND);
    assert_eq!(svc.on_read(1, &attr(0x1234), &mut out, 5), ATT_ERR_ATTR_NOT_LONG);
    assert_eq!(out, vec![0x01]);
}

#[test]
fn blinky_command_write() {
    let mut handles = AttributeRegistry::new();
    let mut subs = SubscriptionRegistry::new(4);
    let mut q = EventQueue::new();
    let mut svc = blinky_init(&mut handles, &mut subs).unwrap();
    let cmd = attr(BLINKY_CMD_UUID);
    assert_eq!(svc.on_write(1, &cmd, &[0x00], 0, &mut subs, &mut q), ATT_SUCCESS);
    assert!(!svc.is_on());
    let mut out = Vec::new();
    assert_eq!(svc.on_read(1, &attr(BLINKY_DATA_UUID), &mut out, 0), ATT_SUCCESS);
    assert_eq!(out, vec![0x00]);
    // any other command is accepted and ignored
    assert_eq!(svc.on_write(1, &cmd, &[0x07], 0, &mut subs, &mut q), ATT_SUCCESS);
    assert!(!svc.is_on());
    assert_eq!(svc.on_write(1, &cmd, &[0x01, 0xAA], 0, &mut subs, &mut q), ATT_SUCCESS);
    assert!(svc.is_on());
    assert_eq!(svc.on_write(1, &cmd, &[], 0, &mut subs, &mut q), ATT_ERR_INVALID_VALUE_SIZE);
    assert_eq!(svc.on_write(1, &cmd, &[0x00], 3, &mut subs, &mut q), ATT_ERR_ATTR_NOT_LONG);
    assert!(svc.is_on());
    assert_eq!(q.try_receive(), None);
}

#[test]
fn blinky_reserved_and_unknown_writes() {
    let mut handles = AttributeRegistry::new();
    let mut subs = SubscriptionRegistry::new(4);
    let mut q = EventQueue::new();
    let mut svc = blinky_init(&mut handles, &mut subs).unwrap();
    assert_eq!(svc.on_write(1, &attr(BLINKY_CONF_UUID), &[1, 2, 3], 0, &mut subs, &mut q), ATT_SUCCESS);
    assert_eq!(svc.on_write(1, &attr(BLINKY_DATA_UUID), &[1], 0, &mut subs, &mut q), ATT_ERR_ATTR_NOT_FOUND);
    assert_eq!(svc.on_write(1, &attr(0x1234), &[1], 9, &mut subs, &mut q), ATT_ERR_ATTR_NOT_FOUND);
    assert!(svc.is_on());
    assert_eq!(q.try_receive(), None);
}

#[test]
fn blinky_client_config_write_announces_the_subscription() {
    let mut handles = AttributeRegistry::new();
    let mut subs = SubscriptionRegistry::new(4);
    let mut q = EventQueue::new();
    let mut svc = blinky_init(&mut handles, &mut subs).unwrap();
    let cccd = attr(0x2902);
    assert_eq!(svc.on_write(3, &cccd, &[0x01, 0x00], 0, &mut subs, &mut q), ATT_SUCCESS);
    assert!(subs.read(3, BLINKY_DATA_UUID));
    assert_eq!(q.try_receive(), Some(AppEvent::Subscribed(3, BLINKY_DATA_UUID)));
    assert_eq!(svc.on_write(3, &cccd, &[0x00, 0x00], 0, &mut subs, &mut q), ATT_SUCCESS);
    assert!(!subs.read(3, BLINKY_DATA_UUID));
    assert_eq!(q.try_receive(), Some(AppEvent::Unsubscribed(3, BLINKY_DATA_UUID)));
    assert_eq!(q.try_receive(), None);
}

#[test]
fn blinky_malformed_client_config_write_tells_nobody() {
    let mut handles = AttributeRegistry::new();
    let mut subs = SubscriptionRegistry::new(4);
    let mut q = EventQueue::new();
    let mut svc = blinky_init(&mut handles, &mut subs).unwrap();
    let cccd = attr(0x2902);
    assert_eq!(svc.on_write(3, &cccd, &[0x01, 0x00], 0, &mut subs, &mut q), ATT_SUCCESS);
    assert_eq!(q.try_receive(), Some(AppEvent::Subscribed(3, BLINKY_DATA_UUID)));
    assert_eq!(svc.on_write(3, &cccd, &[0x01], 0, &mut subs, &mut q), ATT_ERR_INVALID_VALUE_SIZE);
    assert_eq!(svc.on_write(3, &cccd, &[0x00, 0x00, 0x00], 0, &mut subs, &mut q), ATT_ERR_INVALID_VALUE_SIZE);
    assert_eq!(svc.on_write(3, &cccd, &[0x02, 0x00], 0, &mut subs, &mut q), ATT_ERR_INVALID_VALUE);
    assert_eq!(svc.on_write(3, &cccd, &[0x00, 0x00], 1, &mut subs, &mut q), ATT_ERR_ATTR_NOT_LONG);
    assert!(subs.read(3, BLINKY_DATA_UUID));
    assert_eq!(q.try_receive(), None);
}

#[test]
fn subscribe_then_notify_then_switch_off() {
    let mut handles = AttributeRegistry::new();
    let mut subs = SubscriptionRegistry::new(4);
    let mut q = EventQueue::new();
    let mut bridge = EventBridge::new();
    let mut svc = blinky_init(&mut handles, &mut subs).unwrap();
    let conn = 0x0010;

    // the central subscribes to 0xFFE1
    let cccd = svc.attributes().get(3).unwrap();
    assert_eq!(cccd.type_uuid, 0x2902);
    assert_eq!(svc.on_write(conn, &cccd, &[0x01, 0x00], 0, &mut subs, &mut q), ATT_SUCCESS);
    assert_eq!(
        bridge.pump(&mut q, &mut subs),
        Some(BridgeAction::SpawnNotifier { connection: conn, characteristic: 0xFFE1 })
    );
    let mut task = Notifier::new(conn, 0xFFE1);

    // the first tick notifies the current state
    assert_eq!(
        task.step(NotifierInput::Tick, &subs),
        NotifierAction::Notify { connection: conn, characteristic: 0xFFE1 }
    );
    let payload = svc.notification_payload();
    assert_eq!(payload.len(), 2);
    assert_eq!(payload, [0x01, 0x00]);
    assert_eq!(svc.attributes().handle_of(BLINKY_DATA_UUID), Some(3));
    assert_eq!(svc.data_handle(), 3);

    // the central switches the light off
    let cmd = svc.attributes().get(5).unwrap();
    assert_eq!(svc.on_write(conn, &cmd, &[0x00], 0, &mut subs, &mut q), ATT_SUCCESS);
    assert_eq!(
        task.step(NotifierInput::Tick, &subs),
        NotifierAction::Notify { connection: conn, characteristic: 0xFFE1 }
    );
    assert_eq!(svc.notification_payload(), [0x00, 0x00]);
}

#[test]
fn current_time_table_is_bit_exact() {
    let mut handles = AttributeRegistry::new();
    let mut subs = SubscriptionRegistry::new(4);
    let svc = current_time_init(&mut handles, &mut subs, noon()).unwrap();
    let t = svc.attributes();
    assert_eq!(t.len(), 4);
    assert_eq!(
        t.get(0),
        Some(Attribute { type_uuid: 0x2800, permissions: 0x01, handle: 1, value: AttrValue::ServiceUuid(0x1805) })
    );
    assert_eq!(
        t.get(1),
        Some(Attribute { type_uuid: 0x2803, permissions: 0x01, handle: 2, value: AttrValue::Properties(0x1A) })
    );
    assert_eq!(
        t.get(2),
        Some(Attribute { type_uuid: 0x2A2B, permissions: 0x03, handle: 3, value: AttrValue::Handler })
    );
    assert_eq!(
        t.get(3),
        Some(Attribute { type_uuid: 0x2902, permissions: 0x03, handle: 4, value: AttrValue::ClientConfig })
    );
}

#[test]
fn current_time_read() {
    let mut handles = AttributeRegistry::new();
    let mut subs = SubscriptionRegistry::new(4);
    let mut svc = current_time_init(&mut handles, &mut subs, noon()).unwrap();
    let mut out = Vec::new();
    assert_eq!(svc.on_read(1, &attr(CURRENT_TIME_UUID), &mut out, 0), ATT_SUCCESS);
    // 2025 = 0x07E9; the day of the week is always 3
    assert_eq!(out, vec![0xE9, 0x07, 6, 15, 12, 0, 30, 3, 0, 0]);
    assert_eq!(svc.on_read(1, &attr(CURRENT_TIME_UUID), &mut out, 2), ATT_ERR_ATTR_NOT_LONG);
    assert_eq!(svc.on_read(1, &attr(0x2902), &mut out, 0), ATT_ERR_ATTR_NOT_FOUND);
    assert_eq!(out.len(), 10);
}

#[test]
fn short_time_write_is_rejected_then_zero_fields_are_clamped() {
    let mut handles = AttributeRegistry::new();
    let mut subs = SubscriptionRegistry::new(4);
    let mut q = EventQueue::new();
    let mut svc = current_time_init(&mut handles, &mut subs, noon()).unwrap();
    let time = attr(CURRENT_TIME_UUID);

    assert_eq!(
        svc.on_write(1, &time, &[0xE9, 0x07, 1, 2, 3, 4, 5, 6, 7], 0, &mut subs, &mut q),
        ATT_ERR_INVALID_VALUE_SIZE
    );
    assert_eq!(ATT_ERR_INVALID_VALUE_SIZE, 0x0D);
    assert_eq!(svc.get_clock(), noon());

    assert_eq!(svc.on_write(1, &time, &[0, 0, 0, 0, 23, 59, 58, 1, 9, 1], 0, &mut subs, &mut q), ATT_SUCCESS);
    assert_eq!(
        svc.get_clock(),
        DateTime { year: 2037, month: 1, day: 1, hour: 23, minute: 59, second: 58, millisecond: 0 }
    );
    let mut out = Vec::new();
    assert_eq!(svc.on_read(1, &time, &mut out, 0), ATT_SUCCESS);
    // 2037 = 0x07F5
    assert_eq!(out, vec![0xF5, 0x07, 1, 1, 23, 59, 58, 3, 0, 0]);
    assert_eq!(q.try_receive(), None);
}

#[test]
fn current_time_write_keeps_good_fields_and_ignores_extra_bytes() {
    let mut handles = AttributeRegistry::new();
    let mut subs = SubscriptionRegistry::new(4);
    let mut q = EventQueue::new();
    let mut svc = current_time_init(&mut handles, &mut subs, noon()).unwrap();
    let time = attr(CURRENT_TIME_UUID);
    // 2026 = 0x07EA
    assert_eq!(
        svc.on_write(1, &time, &[0xEA, 0x07, 12, 31, 1, 2, 3, 7, 0, 0, 0xFF], 0, &mut subs, &mut q),
        ATT_SUCCESS
    );
    assert_eq!(
        svc.get_clock(),
        DateTime { year: 2026, month: 12, day: 31, hour: 1, minute: 2, second: 3, millisecond: 0 }
    );
    assert_eq!(svc.on_write(1, &time, &[0; 10], 1, &mut subs, &mut q), ATT_ERR_ATTR_NOT_LONG);
    assert_eq!(svc.on_write(1, &attr(0x1234), &[0; 10], 0, &mut subs, &mut q), ATT_ERR_ATTR_NOT_FOUND);
    assert_eq!(svc.get_clock().year, 2026);
}

#[test]
fn current_time_client_config_write() {
    let mut handles = AttributeRegistry::new();
    let mut subs = SubscriptionRegistry::new(4);
    let mut q = EventQueue::new();
    let mut svc = current_time_init(&mut handles, &mut subs, noon()).unwrap();
    let cccd = attr(0x2902);
    assert_eq!(svc.on_write(2, &cccd, &[0x01, 0x00], 0, &mut subs, &mut q), ATT_SUCCESS);
    assert!(subs.read(2, CURRENT_TIME_UUID));
    assert_eq!(q.try_receive(), Some(AppEvent::Subscribed(2, CURRENT_TIME_UUID)));
    // every rejection reads as a wrong size to the central
    assert_eq!(svc.on_write(2, &cccd, &[0x05, 0x00], 0, &mut subs, &mut q), ATT_ERR_INVALID_VALUE_SIZE);
    assert_eq!(svc.on_write(2, &cccd, &[0x00], 0, &mut subs, &mut q), ATT_ERR_INVALID_VALUE_SIZE);
    assert!(subs.read(2, CURRENT_TIME_UUID));
    assert_eq!(q.try_receive(), None);
}

#[test]
fn clock_reading_and_setting() {
    let mut handles = AttributeRegistry::new();
    let mut subs = SubscriptionRegistry::new(4);
    let mut svc = current_time_init(&mut handles, &mut subs, noon()).unwrap();
    let later = DateTime { year: 2030, month: 2, day: 3, hour: 4, minute: 5, second: 6, millisecond: 7 };
    let ct = svc.rtc_get_time(later);
    assert_eq!((ct.year, ct.month, ct.day, ct.hours, ct.minutes, ct.seconds), (2030, 2, 3, 4, 5, 6));
    assert_eq!((ct.day_of_week, ct.fractions256, ct.adjust_reason), (3, 0, 0));
    assert_eq!(svc.get_clock(), later);
    let mut wish = ct;
    wish.year = 1999;
    wish.day = 0;
    let setting = svc.rtc_set_time(wish);
    assert_eq!(
        setting,
        DateTime { year: 2037, month: 2, day: 1, hour: 4, minute: 5, second: 6, millisecond: 0 }
    );
    assert_eq!(svc.get_clock(), setting);
}

#[test]
fn device_information_reads() {
    let mut handles = AttributeRegistry::new();
    let mut svc = devinfo_init(&mut handles).unwrap();
    assert_eq!(svc.attributes().len(), 7);
    assert_eq!(
        svc.attributes().get(0),
        Some(Attribute { type_uuid: 0x2800, permissions: 0x01, handle: 1, value: AttrValue::ServiceUuid(0x180A) })
    );
    assert_eq!(
        svc.attributes().get(2),
        Some(Attribute { type_uuid: 0x2A23, permissions: 0x01, handle: 3, value: AttrValue::Stored(0) })
    );
    assert_eq!(
        svc.attributes().get(6),
        Some(Attribute { type_uuid: 0x2A6E, permissions: 0x01, handle: 7, value: AttrValue::Handler })
    );
    let mut out = Vec::new();
    assert_eq!(svc.on_read(1, &attr(SYSTEM_ID_UUID), &mut out, 0), ATT_SUCCESS);
    assert_eq!(out, vec![0u8; 8]);
    svc.set_system_id([0x11, 0x22, 0x33, 0, 0, 0x44, 0x55, 0x66]);
    assert_eq!(svc.on_read(1, &attr(SYSTEM_ID_UUID), &mut out, 0), ATT_SUCCESS);
    assert_eq!(out, vec![0x11, 0x22, 0x33, 0, 0, 0x44, 0x55, 0x66]);
    assert_eq!(svc.on_read(1, &attr(SERIAL_NUMBER_UUID), &mut out, 0), ATT_SUCCESS);
    assert_eq!(out, b"No. 9527".to_vec());
    assert_eq!(svc.on_read(1, &attr(TEMP_UUID), &mut out, 0), ATT_SUCCESS);
    assert_eq!(out, 3200i16.to_le_bytes().to_vec());
    assert_eq!(svc.on_read(1, &attr(TEMP_UUID), &mut out, 1), ATT_ERR_ATTR_NOT_LONG);
    assert_eq!(svc.on_read(1, &attr(0x2A00), &mut out, 0), ATT_ERR_ATTR_NOT_FOUND);
    assert_eq!(svc.on_read(1, &attr(0x2A00), &mut out, 4), ATT_ERR_ATTR_NOT_FOUND);
    assert_eq!(out, vec![0x80, 0x0C]);
}

#[test]
fn services_share_the_handle_space() {
    let mut handles = AttributeRegistry::new();
    let mut subs = SubscriptionRegistry::new(4);
    let info = devinfo_init(&mut handles).unwrap();
    let blinky = blinky_init(&mut handles, &mut subs).unwrap();
    let time = current_time_init(&mut handles, &mut subs, noon()).unwrap();
    assert_eq!(info.attributes().get(0).map(|a| a.handle), Some(1));
    assert_eq!(blinky.attributes().get(0).map(|a| a.handle), Some(8));
    assert_eq!(blinky.attributes().handle_of(BLINKY_DATA_UUID), Some(10));
    assert_eq!(blinky.data_handle(), 10);
    assert_eq!(time.time_handle(), 16);
    assert_eq!(time.attributes().get(0).map(|a| a.handle), Some(14));
    assert_eq!(time.attributes().get(3).map(|a| a.handle), Some(17));
}

/// Advertising and scan response data.
pub mod advertising;
/// Status codes, permission and property bits, well-known attribute types.
pub mod att;
/// Attribute tables of services and the registry that gives out handles.
pub mod attr_table;
/// The built-in chiptune.
pub mod audio;
/// The control service of the blinking light.
pub mod blinky_service;
/// The event loop's decisions.
pub mod bridge;
/// The Current Time value and the calendar it is converted from and to.
pub mod current_time;
/// The Current Time service.
pub mod current_time_service;
/// The device information service.
pub mod devinfo;
/// Application events and the bounded queue that carries them.
pub mod events;
/// The peripheral role's state machine.
pub mod gap_role;
/// The task that pushes a characteristic's value to a subscribed connection.
pub mod notifier;
/// What the services' write handlers share.
pub mod router;
/// Per-connection notification settings.
pub mod subscription;

use netman::error::Error;

#[test]
fn error_display_dbus() {
    let e = Error::DBus("connection refused".into());
    assert!(e.message().contains("D-Bus error"));
}

#[test]
fn error_display_nm_unavailable() {
    let e = Error::NmUnavailable;
    assert!(e.message().contains("NetworkManager"));
}

#[test]
fn error_display_device_not_found() {
    let e = Error::DeviceNotFound("wlan0".into());
    assert!(e.message().contains("wlan0"));
}

#[test]
fn error_display_connection_not_found() {
    let e = Error::ConnectionNotFound("Home WiFi".into());
    assert!(e.message().contains("Home WiFi"));
}

#[test]
fn error_display_operation_failed() {
    let e = Error::OperationFailed("timeout".into());
    assert!(e.message().contains("timeout"));
}

#[test]
fn error_messages_exact() {
    assert_eq!(Error::DBus("x".into()).message(), "D-Bus error: x");
    assert_eq!(
        Error::AccessPointNotFound("ap".into()).message(),
        "access point not found: ap"
    );
    assert_eq!(Error::InvalidState("s".into()).message(), "invalid state: s");
    assert_eq!(
        Error::NmUnavailable.message(),
        "NetworkManager is not running or not reachable"
    );
}

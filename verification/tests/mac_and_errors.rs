use net_config::error::strip_quotes;
use net_config::{DeviceError, MacAddr, NetworkInterfaceError, TapError, VmmError};

#[test]
fn mac_parse_str_reads_six_octets() {
    let mac = MacAddr::parse_str("01:23:45:67:89:0a").unwrap();
    assert_eq!(mac.get_bytes(), &[0x01, 0x23, 0x45, 0x67, 0x89, 0x0a]);
    let mac = MacAddr::parse_str("ff:FF:aB:Cd:00:9e").unwrap();
    assert_eq!(mac.get_bytes(), &[0xff, 0xff, 0xab, 0xcd, 0x00, 0x9e]);
}

#[test]
fn mac_parse_str_refuses_other_shapes() {
    for text in [
        "",
        "01:23:45:67:89",
        "01:23:45:67:89:0a:0b",
        "01:23:45:67:89:0",
        "01:23:45:67:89:0a:",
        ":01:23:45:67:89:0a",
        "01-23-45-67-89-0a",
        "0123456789:0a:0b",
        "01:23:45:67:89:0g",
        "01:23:45:67:89: a",
        "1:023:45:67:89:0a",
        "01:23:45:67:89:0\u{e9}",
    ] {
        assert_eq!(MacAddr::parse_str(text), None, "{:?}", text);
    }
}

#[test]
fn mac_to_string_is_lower_case_with_colons() {
    assert_eq!(MacAddr::from_bytes([0x01, 0x23, 0x45, 0x67, 0x89, 0x0a]).to_string(), "01:23:45:67:89:0a");
    assert_eq!(MacAddr::from_bytes([0; 6]).to_string(), "00:00:00:00:00:00");
    assert_eq!(MacAddr::from_bytes([0xff; 6]).to_string(), "ff:ff:ff:ff:ff:ff");
    assert_eq!(MacAddr::from_bytes([0xAB, 0xCD, 0xEF, 0x10, 0x9f, 0xf9]).to_string(), "ab:cd:ef:10:9f:f9");
}

#[test]
fn mac_text_round_trip() {
    for bytes in [[0u8, 1, 2, 3, 4, 5], [0x9a, 0xbc, 0xde, 0xf0, 0x12, 0x34], [255, 254, 16, 15, 160, 10]] {
        let mac = MacAddr::from_bytes(bytes);
        assert_eq!(MacAddr::parse_str(&mac.to_string()), Some(mac));
    }
    assert_eq!(MacAddr::parse_str("0A:1B:2C:3D:4E:5F").unwrap().to_string(), "0a:1b:2c:3d:4e:5f");
}

#[test]
fn mac_same_as() {
    let a = MacAddr::from_bytes([1, 2, 3, 4, 5, 6]);
    assert!(a.same_as(&MacAddr::from_bytes([1, 2, 3, 4, 5, 6])));
    for i in 0..6 {
        let mut bytes = [1u8, 2, 3, 4, 5, 6];
        bytes[i] = 0;
        assert!(!a.same_as(&MacAddr::from_bytes(bytes)));
    }
}

#[test]
fn strip_quotes_takes_every_quote_out() {
    assert_eq!(strip_quotes(""), "");
    assert_eq!(strip_quotes("\""), "");
    assert_eq!(strip_quotes("no quotes"), "no quotes");
    assert_eq!(strip_quotes("\"a\" and \"b\""), "a and b");
    assert_eq!(strip_quotes("'single' stays, \u{201c}curly\u{201d} stays"), "'single' stays, \u{201c}curly\u{201d} stays");
    assert_eq!(strip_quotes("h\u{e9}\"llo\""), "h\u{e9}llo");
}

#[test]
fn mac_in_use_message() {
    let err = NetworkInterfaceError::GuestMacAddressInUse("01:23:45:67:89:0a".to_string());
    assert_eq!(err.to_string(), "The guest MAC address 01:23:45:67:89:0a is already in use.");
    // The text of a system error plays no part in it.
    assert_eq!(err.message_with("anything"), err.to_string());
}

#[test]
fn device_update_message() {
    let err = NetworkInterfaceError::DeviceUpdate(VmmError::InterfaceNotFound);
    assert_eq!(
        err.to_string(),
        "Error during interface update (patch): The network interface was not found."
    );
    assert_eq!(VmmError::InterfaceNotFound.to_string(), "The network interface was not found.");
    assert_eq!(
        NetworkInterfaceError::DeviceUpdate(VmmError::VcpuExit).to_string(),
        "Error during interface update (patch): The vCPU has exited."
    );
}

#[test]
fn create_rate_limiter_message_holds_the_system_text_without_quotes() {
    let err = NetworkInterfaceError::CreateRateLimiter(std::io::Error::from_raw_os_error(24));
    assert_eq!(
        err.to_string(),
        format!("Cannot create RateLimiter: {}", std::io::Error::from_raw_os_error(24))
            .replace('"', "")
    );
    assert_eq!(err.message_with("too many"), "Cannot create RateLimiter: too many");
    assert_eq!(
        err.message_with("the \"timer\" failed"),
        "Cannot create RateLimiter: the timer failed"
    );
    let custom = NetworkInterfaceError::CreateRateLimiter(std::io::Error::new(
        std::io::ErrorKind::Other,
        "no \"timer\" left",
    ));
    assert_eq!(custom.to_string(), "Cannot create RateLimiter: no timer left");
}

#[test]
fn create_network_device_message_spells_the_error_out_without_quotes() {
    let err = NetworkInterfaceError::CreateNetworkDevice(DeviceError::TapOpen(
        TapError::IoctlError(std::io::Error::from_raw_os_error(16)),
    ));
    // The system's error prints with its message between quotes.
    let spelled = format!("{:?}", std::io::Error::from_raw_os_error(16));
    assert!(spelled.contains('"'));
    let text = err.to_string();
    assert!(!text.contains('"'));
    assert_eq!(
        text,
        format!(
            "Could not create Network Device: TapOpen(IoctlError({}))",
            spelled.replace('"', "")
        )
    );
    // It is spelled as the value prints, but for the quotes.
    assert_eq!(
        text,
        format!(
            "Could not create Network Device: {:?}",
            DeviceError::TapOpen(TapError::IoctlError(std::io::Error::from_raw_os_error(16)))
        )
        .replace('"', "")
    );
    assert_eq!(
        err.message_with("Os { code: 16, message: \"Device or resource busy\" }"),
        "Could not create Network Device: TapOpen(IoctlError(Os { code: 16, message: Device or resource busy }))"
    );
    assert_eq!(
        NetworkInterfaceError::CreateNetworkDevice(DeviceError::EventFd(
            std::io::Error::from_raw_os_error(24)
        ))
        .message_with("\"\""),
        "Could not create Network Device: EventFd()"
    );
}

#[test]
fn no_report_holds_a_quote() {
    let io = || std::io::Error::new(std::io::ErrorKind::Other, "a \"quoted\" cause");
    for err in [
        NetworkInterfaceError::CreateNetworkDevice(DeviceError::TapOpen(TapError::OpenTun(io()))),
        NetworkInterfaceError::CreateNetworkDevice(DeviceError::TapOpen(TapError::InvalidIfname)),
        NetworkInterfaceError::CreateNetworkDevice(DeviceError::TapSetOffload(
            TapError::IoctlError(io()),
        )),
        NetworkInterfaceError::CreateNetworkDevice(DeviceError::TapSetVnetHdrSize(
            TapError::IoctlError(io()),
        )),
        NetworkInterfaceError::CreateNetworkDevice(DeviceError::EventFd(io())),
        NetworkInterfaceError::CreateRateLimiter(io()),
        NetworkInterfaceError::GuestMacAddressInUse(
            MacAddr::from_bytes([0x22, 0x22, 0x22, 0x22, 0x22, 0x22]).to_string(),
        ),
        NetworkInterfaceError::DeviceUpdate(VmmError::InterfaceNotFound),
        NetworkInterfaceError::DeviceUpdate(VmmError::VcpuExit),
        NetworkInterfaceError::OpenTap(TapError::IoctlError(io())),
    ] {
        let text = err.to_string();
        assert!(!text.contains('"'), "{}", text);
        assert!(text.contains("quoted") == format!("{:?}", err).contains("quoted"));
    }
}

#[test]
fn device_errors_are_spelled_as_they_print() {
    let io = || std::io::Error::from_raw_os_error(13);
    let text = format!("{:?}", io());
    for err in [
        DeviceError::TapOpen(TapError::OpenTun(io())),
        DeviceError::TapOpen(TapError::InvalidIfname),
        DeviceError::TapOpen(TapError::IoctlError(io())),
        DeviceError::TapSetOffload(TapError::IoctlError(io())),
        DeviceError::TapSetVnetHdrSize(TapError::IoctlError(io())),
        DeviceError::EventFd(io()),
    ] {
        assert_eq!(err.debug_string_with(&text), format!("{:?}", err));
    }
    for err in [TapError::OpenTun(io()), TapError::InvalidIfname, TapError::IoctlError(io())] {
        assert_eq!(err.debug_string_with(&text), format!("{:?}", err));
    }
}

#[test]
fn open_tap_message_has_no_quotes() {
    let err = NetworkInterfaceError::OpenTap(TapError::IoctlError(
        std::io::Error::from_raw_os_error(16),
    ));
    // The system's error prints with its message between quotes.
    let spelled = format!("{:?}", std::io::Error::from_raw_os_error(16));
    assert!(spelled.contains('"'));
    let text = err.to_string();
    assert!(!text.contains('"'));
    assert_eq!(
        text,
        format!(
            "Cannot open TAP device. Invalid name/permissions. IoctlError({})",
            spelled.replace('"', "")
        )
    );
    assert_eq!(
        err.message_with("Os { message: \"Device or resource busy\" }"),
        "Cannot open TAP device. Invalid name/permissions. IoctlError(Os { message: Device or resource busy })"
    );
    assert_eq!(
        NetworkInterfaceError::OpenTap(TapError::InvalidIfname).to_string(),
        "Cannot open TAP device. Invalid name/permissions. InvalidIfname"
    );
}

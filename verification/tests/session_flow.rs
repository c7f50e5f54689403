use gcnctrlusb::AltSetting;
use gcnctrlusb::ConfigDesc;
use gcnctrlusb::ControllerKind;
use gcnctrlusb::DeviceId;
use gcnctrlusb::Direction;
use gcnctrlusb::EndpointDesc;
use gcnctrlusb::Error;
use gcnctrlusb::InterfaceDesc;
use gcnctrlusb::Selection;
use gcnctrlusb::Session;
use gcnctrlusb::UsbErrorCode;
use gcnctrlusb::descriptor::find_adapter_index;
use gcnctrlusb::descriptor::select_endpoints;
use gcnctrlusb::session::ACTIVATION_COMMAND;

fn endpoint(direction: Direction, address: u8) -> EndpointDesc {
    EndpointDesc { direction, address }
}

fn single_interface_config() -> ConfigDesc {
    ConfigDesc {
        number: 1,
        interfaces: vec![InterfaceDesc {
            settings: vec![AltSetting {
                interface_number: 0,
                setting_number: 0,
                endpoints: vec![
                    endpoint(Direction::In, 0x81),
                    endpoint(Direction::Out, 0x02),
                ],
            }],
        }],
    }
}

#[test]
fn adapter_id_matches_fixed_pair() {
    let id = DeviceId { vendor_id: 0x057e, product_id: 0x0337 };
    assert!(id.is_adapter());
    let wrong_vendor = DeviceId { vendor_id: 0x057f, product_id: 0x0337 };
    assert!(!wrong_vendor.is_adapter());
    let wrong_product = DeviceId { vendor_id: 0x057e, product_id: 0x0338 };
    assert!(!wrong_product.is_adapter());
}

#[test]
fn scan_returns_first_match() {
    let other = DeviceId { vendor_id: 0x1234, product_id: 0x5678 };
    let adapter = DeviceId { vendor_id: 0x057e, product_id: 0x0337 };
    let outcomes = vec![Ok(other), Ok(adapter), Ok(adapter)];
    assert_eq!(find_adapter_index(&outcomes), Ok(Some(1)));
}

#[test]
fn scan_without_match_is_none_not_error() {
    let other = DeviceId { vendor_id: 0x1234, product_id: 0x5678 };
    let outcomes = vec![Ok(other), Ok(other)];
    assert_eq!(find_adapter_index(&outcomes), Ok(None));
    assert_eq!(find_adapter_index(&Vec::new()), Ok(None));
}

#[test]
fn scan_aborts_on_first_descriptor_failure() {
    let other = DeviceId { vendor_id: 0x1234, product_id: 0x5678 };
    let adapter = DeviceId { vendor_id: 0x057e, product_id: 0x0337 };
    // The failure comes before the match, so it wins.
    let outcomes = vec![Ok(other), Err(UsbErrorCode::Io), Ok(adapter)];
    assert_eq!(find_adapter_index(&outcomes), Err(Error::Usb(UsbErrorCode::Io)));
    // A match before the failure wins instead.
    let outcomes = vec![Ok(adapter), Err(UsbErrorCode::Io)];
    assert_eq!(find_adapter_index(&outcomes), Ok(Some(0)));
}

#[test]
fn selection_from_single_interface() {
    let sel = select_endpoints(&single_interface_config()).expect("selection should succeed");
    assert_eq!(sel.config_number, 1);
    assert_eq!(sel.interface_number, 0);
    assert_eq!(sel.setting_number, 0);
    assert_eq!(sel.endpoint_in, 0x81);
    assert_eq!(sel.endpoint_out, 0x02);
}

#[test]
fn no_in_endpoint_is_unrecognized_protocol() {
    // A descriptor tree whose only endpoints are OUT must fail with
    // UnrecognizedProtocol, not a transport error.
    let cfg = ConfigDesc {
        number: 1,
        interfaces: vec![InterfaceDesc {
            settings: vec![AltSetting {
                interface_number: 0,
                setting_number: 0,
                endpoints: vec![endpoint(Direction::Out, 0x02)],
            }],
        }],
    };
    assert_eq!(select_endpoints(&cfg), Err(Error::UnrecognizedProtocol));
}

#[test]
fn empty_trees_are_unrecognized_protocol() {
    let no_interfaces = ConfigDesc { number: 1, interfaces: vec![] };
    assert_eq!(select_endpoints(&no_interfaces), Err(Error::UnrecognizedProtocol));
    let no_settings = ConfigDesc {
        number: 1,
        interfaces: vec![InterfaceDesc { settings: vec![] }],
    };
    assert_eq!(select_endpoints(&no_settings), Err(Error::UnrecognizedProtocol));
    let no_endpoints = ConfigDesc {
        number: 1,
        interfaces: vec![InterfaceDesc {
            settings: vec![AltSetting { interface_number: 3, setting_number: 0, endpoints: vec![] }],
        }],
    };
    assert_eq!(select_endpoints(&no_endpoints), Err(Error::UnrecognizedProtocol));
}

#[test]
fn last_seen_interface_wins() {
    // The walk deliberately keeps the last interface seen, even when an
    // earlier one offered a usable pair and the last does not.
    let usable = InterfaceDesc {
        settings: vec![AltSetting {
            interface_number: 0,
            setting_number: 0,
            endpoints: vec![endpoint(Direction::In, 0x81), endpoint(Direction::Out, 0x02)],
        }],
    };
    let unusable = InterfaceDesc {
        settings: vec![AltSetting {
            interface_number: 1,
            setting_number: 0,
            endpoints: vec![endpoint(Direction::Out, 0x03)],
        }],
    };
    let cfg = ConfigDesc { number: 1, interfaces: vec![usable.clone(), unusable] };
    assert_eq!(select_endpoints(&cfg), Err(Error::UnrecognizedProtocol));

    // With the usable interface last, its pair is selected.
    let other_usable = InterfaceDesc {
        settings: vec![AltSetting {
            interface_number: 2,
            setting_number: 1,
            endpoints: vec![endpoint(Direction::In, 0x83), endpoint(Direction::Out, 0x04)],
        }],
    };
    let cfg = ConfigDesc { number: 1, interfaces: vec![usable, other_usable] };
    let sel = select_endpoints(&cfg).expect("selection should succeed");
    assert_eq!(sel.interface_number, 2);
    assert_eq!(sel.setting_number, 1);
    assert_eq!(sel.endpoint_in, 0x83);
    assert_eq!(sel.endpoint_out, 0x04);
}

#[test]
fn endpoints_accumulate_across_alternate_settings() {
    // The IN endpoint of an earlier alternate setting is kept even when the
    // last setting only offers the OUT endpoint; the numbers come from the
    // last setting seen.
    let cfg = ConfigDesc {
        number: 2,
        interfaces: vec![InterfaceDesc {
            settings: vec![
                AltSetting {
                    interface_number: 0,
                    setting_number: 0,
                    endpoints: vec![endpoint(Direction::In, 0x85)],
                },
                AltSetting {
                    interface_number: 0,
                    setting_number: 1,
                    endpoints: vec![endpoint(Direction::Out, 0x06)],
                },
            ],
        }],
    };
    let sel = select_endpoints(&cfg).expect("selection should succeed");
    assert_eq!(sel.config_number, 2);
    assert_eq!(sel.setting_number, 1);
    assert_eq!(sel.endpoint_in, 0x85);
    assert_eq!(sel.endpoint_out, 0x06);
}

#[test]
fn activation_command_value() {
    assert_eq!(ACTIVATION_COMMAND, 0x13);
}

#[test]
fn session_records_selection() {
    let sel = Selection {
        config_number: 1,
        interface_number: 4,
        setting_number: 0,
        endpoint_in: 0x81,
        endpoint_out: 0x02,
    };
    let s = Session::establish(&sel, true);
    assert_eq!(s.interface(), 4);
    assert_eq!(s.endpoint_in(), 0x81);
    assert!(s.driver_detached());
}

#[test]
fn short_transfer_is_invalid_packet() {
    let sel = Selection {
        config_number: 1,
        interface_number: 0,
        setting_number: 0,
        endpoint_in: 0x81,
        endpoint_out: 0x02,
    };
    let mut s = Session::establish(&sel, false);
    let buf = [0u8; 37];
    assert_eq!(s.read_report(&buf, 36), Err(Error::InvalidPacket));
    assert_eq!(s.read_report(&buf, 0), Err(Error::InvalidPacket));
    assert_eq!(s.read_report(&buf, 38), Err(Error::InvalidPacket));
}

#[test]
fn full_transfer_is_decoded() {
    let sel = Selection {
        config_number: 1,
        interface_number: 0,
        setting_number: 0,
        endpoint_in: 0x81,
        endpoint_out: 0x02,
    };
    let mut s = Session::establish(&sel, false);
    let mut buf = [0u8; 37];
    buf[1] = 0x10;
    buf[2] = 0x01;
    let ports = s.read_report(&buf, 37).expect("a 37-byte transfer decodes");
    let p0 = ports[0].expect("port 0 present");
    assert!(matches!(p0.kind, ControllerKind::Wired));
    assert!(p0.a);
    assert!(ports[1].is_none());
    assert!(ports[2].is_none());
    assert!(ports[3].is_none());
}

#[test]
fn teardown_reattaches_exactly_once() {
    let sel = Selection {
        config_number: 1,
        interface_number: 0,
        setting_number: 0,
        endpoint_in: 0x81,
        endpoint_out: 0x02,
    };
    let mut s = Session::establish(&sel, true);
    assert!(s.release());
    assert!(!s.release());
    assert!(!s.release());

    let mut quiet = Session::establish(&sel, false);
    assert!(!quiet.release());
    assert!(!quiet.release());
}

#[test]
fn teardown_reattaches_after_a_read_error() {
    let sel = Selection {
        config_number: 1,
        interface_number: 0,
        setting_number: 0,
        endpoint_in: 0x81,
        endpoint_out: 0x02,
    };
    let mut s = Session::establish(&sel, true);
    let buf = [0u8; 37];
    // A bad transfer fails the read but must not lose the reattach duty.
    assert_eq!(s.read_report(&buf, 12), Err(Error::InvalidPacket));
    assert!(s.release());
    assert!(!s.release());
}

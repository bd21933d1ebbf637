use chemion::dispatch::{find_write_characteristic, display_target, DispatchError};
use chemion::session::{
    apply_connect, apply_disconnect, filter_named, find_peripheral, select_adapter, ConnectEvent,
    DisconnectEvent, PeripheralInfo, SessionError,
};
use chemion::structures::{AdapterHandle, Binding, SharedData};

fn connected_to(address: &str, adapter: usize) -> SharedData {
    SharedData {
        binding: Some(Binding {
            address: address.to_owned(),
            adapter: AdapterHandle { index: adapter },
        }),
    }
}

#[test]
fn connect_binds_address_and_adapter() {
    let mut session = SharedData::new();
    assert!(session.bound_address().is_none());
    assert!(session.adapter_handle().is_none());

    let result = apply_connect(
        &mut session,
        ConnectEvent::Established {
            address: "aa:bb:cc:dd:ee:ff".to_owned(),
            adapter: AdapterHandle { index: 0 },
        },
    );
    assert!(result.is_ok());
    assert_eq!(session.bound_address().as_deref(), Some("aa:bb:cc:dd:ee:ff"));
    assert_eq!(session.adapter_handle(), Some(AdapterHandle { index: 0 }));
}

#[test]
fn disconnect_clears_binding() {
    let mut session = connected_to("aa:bb:cc:dd:ee:ff", 0);
    let result = apply_disconnect(&mut session, DisconnectEvent::Closed);
    assert!(result.is_ok());
    assert!(session.bound_address().is_none());
    assert!(session.adapter_handle().is_none());
}

#[test]
fn display_while_disconnected_fails() {
    let session = SharedData::new();
    let target = display_target(&session);
    assert!(matches!(target, Err(DispatchError::NotConnected)));
}

#[test]
fn display_target_returns_bound_pair() {
    let session = connected_to("aa:bb:cc:dd:ee:ff", 3);
    let (address, adapter) = display_target(&session).expect("connected session has a target");
    assert_eq!(address, "aa:bb:cc:dd:ee:ff");
    assert_eq!(adapter, AdapterHandle { index: 3 });
}

#[test]
fn failed_connect_preserves_binding() {
    // Connected to device A; a connect to an address no scan result carries
    // fails and must leave the binding to A untouched.
    let mut session = connected_to("aa:aa:aa:aa:aa:aa", 1);
    let scan = vec![PeripheralInfo {
        address: "cc:cc:cc:cc:cc:cc".to_owned(),
        name: Some("Other".to_owned()),
    }];
    let target = "bb:bb:bb:bb:bb:bb".to_owned();
    assert!(find_peripheral(&scan, &target).is_none());

    let result = apply_connect(&mut session, ConnectEvent::PeripheralNotFound);
    assert!(matches!(result, Err(SessionError::PeripheralNotFound)));
    assert_eq!(session.bound_address().as_deref(), Some("aa:aa:aa:aa:aa:aa"));
    assert_eq!(session.adapter_handle(), Some(AdapterHandle { index: 1 }));
}

#[test]
fn failed_link_and_capability_steps_preserve_binding() {
    let cases = [
        (ConnectEvent::LinkFailed, SessionError::ConnectFailed),
        (ConnectEvent::CapabilityDiscoveryFailed, SessionError::CapabilityDiscoveryFailed),
        (ConnectEvent::NoAdapter, SessionError::NoAdapter),
    ];
    for (ev, expected) in cases {
        let mut session = connected_to("aa:aa:aa:aa:aa:aa", 1);
        let result = apply_connect(&mut session, ev);
        assert_eq!(result, Err(expected));
        assert_eq!(session.bound_address().as_deref(), Some("aa:aa:aa:aa:aa:aa"));
    }
}

#[test]
fn rebind_while_connected_overwrites() {
    let mut session = connected_to("aa:aa:aa:aa:aa:aa", 1);
    let result = apply_connect(
        &mut session,
        ConnectEvent::Established {
            address: "bb:bb:bb:bb:bb:bb".to_owned(),
            adapter: AdapterHandle { index: 1 },
        },
    );
    assert!(result.is_ok());
    assert_eq!(session.bound_address().as_deref(), Some("bb:bb:bb:bb:bb:bb"));
}

#[test]
fn failed_disconnect_preserves_binding() {
    let cases = [
        (DisconnectEvent::PeripheralUnavailable, SessionError::PeripheralUnavailable),
        (DisconnectEvent::CloseFailed, SessionError::DisconnectFailed),
    ];
    for (ev, expected) in cases {
        let mut session = connected_to("aa:aa:aa:aa:aa:aa", 0);
        let result = apply_disconnect(&mut session, ev);
        assert_eq!(result, Err(expected));
        assert_eq!(session.bound_address().as_deref(), Some("aa:aa:aa:aa:aa:aa"));
    }
}

#[test]
fn disconnect_without_binding_is_rejected() {
    let mut session = SharedData::new();
    let result = apply_disconnect(&mut session, DisconnectEvent::Closed);
    assert!(matches!(result, Err(SessionError::NotConnected)));
    assert!(session.bound_address().is_none());
}

#[test]
fn discovery_filters_unnamed() {
    let scan = vec![
        PeripheralInfo {
            address: "aa:aa:aa:aa:aa:aa".to_owned(),
            name: Some("GLASSES-01".to_owned()),
        },
        PeripheralInfo { address: "bb:bb:bb:bb:bb:bb".to_owned(), name: None },
    ];
    let devices = filter_named(&scan);
    assert_eq!(devices.len(), 1);
    assert_eq!(devices[0].device_name, "GLASSES-01");
    assert_eq!(devices[0].device_address, "aa:aa:aa:aa:aa:aa");
}

#[test]
fn discovery_drops_empty_name() {
    let scan = vec![PeripheralInfo {
        address: "aa:aa:aa:aa:aa:aa".to_owned(),
        name: Some(String::new()),
    }];
    let devices = filter_named(&scan);
    assert!(devices.is_empty());
}

#[test]
fn select_adapter_prefers_bound_adapter() {
    let session = connected_to("aa:aa:aa:aa:aa:aa", 2);
    let available = vec![AdapterHandle { index: 0 }];
    assert_eq!(select_adapter(&session, &available), Ok(AdapterHandle { index: 2 }));
}

#[test]
fn select_adapter_takes_first_available() {
    let session = SharedData::new();
    let available = vec![AdapterHandle { index: 5 }, AdapterHandle { index: 6 }];
    assert_eq!(select_adapter(&session, &available), Ok(AdapterHandle { index: 5 }));
}

#[test]
fn select_adapter_fails_without_adapters() {
    let session = SharedData::new();
    assert_eq!(select_adapter(&session, &Vec::new()), Err(SessionError::NoAdapter));
}

#[test]
fn find_peripheral_returns_first_match() {
    let scan = vec![
        PeripheralInfo { address: "aa".to_owned(), name: None },
        PeripheralInfo { address: "bb".to_owned(), name: Some("x".to_owned()) },
        PeripheralInfo { address: "bb".to_owned(), name: Some("y".to_owned()) },
    ];
    assert_eq!(find_peripheral(&scan, &"bb".to_owned()), Some(1));
    assert_eq!(find_peripheral(&scan, &"aa".to_owned()), Some(0));
    assert_eq!(find_peripheral(&scan, &"cc".to_owned()), None);
}

#[test]
fn find_write_characteristic_matches_vendor_uuid() {
    let uuids = vec![
        "00002a00-0000-1000-8000-00805f9b34fb".to_owned(),
        "6e400002-b5a3-f393-e0a9-e50e24dcca9e".to_owned(),
    ];
    assert_eq!(find_write_characteristic(&uuids), Some(1));
    assert_eq!(find_write_characteristic(&uuids[..1].to_vec()), None);
}

#[test]
fn session_error_messages_match_front_end() {
    assert_eq!(SessionError::NoAdapter.message(), "Couldn't get adapter");
    assert_eq!(SessionError::PeripheralNotFound.message(), "Couldn't get peripheral");
    assert_eq!(SessionError::ConnectFailed.message(), "Couldn't reach glasses");
    assert_eq!(
        SessionError::CapabilityDiscoveryFailed.message(),
        "Couldn't connect to the glasses"
    );
    assert_eq!(SessionError::NotConnected.message(), "Couldn't get stored address");
    assert_eq!(SessionError::PeripheralUnavailable.message(), "Couldn't get peripheral");
    assert_eq!(SessionError::DisconnectFailed.message(), "Couldn't disconnect the glasses");
}

#[test]
fn dispatch_error_messages_match_front_end() {
    assert_eq!(DispatchError::NotConnected.message(), "Please connect to a device first");
    assert_eq!(DispatchError::PeripheralUnavailable.message(), "Couldn't get glasses");
    assert_eq!(
        DispatchError::CharacteristicNotFound.message(),
        "Couldn't find write characteristic"
    );
    assert_eq!(DispatchError::TransportWriteFailed.message(), "Couldn't write to the glasses");
}

use bus_projection::Message;
use bus_projection::btif::{RawAddress, Uuid};
use bus_projection::gatt::{
    BtGattResponse, BtGattTestParams, Gatt, GattClient, GattClientCall, GattClientCallbacks,
    GattClientCallbacksDispatcher, GattServer, GattServerCall, GattServerCallbacks,
    GattServerCallbacksDispatcher,
};
use bus_projection::registry::DispatcherRegistry;

fn addr() -> RawAddress {
    RawAddress { val: [0xa, 0xb, 0xc, 0xd, 0xe, 0xf] }
}

fn uuid() -> Uuid {
    Uuid { uu: [1; 16] }
}

#[test]
fn client_connect_packages_every_argument() {
    let client = GattClient {};
    match client.connect(3, &addr(), true, 2, false, 1) {
        GattClientCall::Connect(client_if, a, is_direct, transport, opportunistic, phys) => {
            assert_eq!(client_if, 3);
            assert_eq!(a.val, addr().val);
            assert!(is_direct);
            assert_eq!(transport, 2);
            assert!(!opportunistic);
            assert_eq!(phys, 1);
        },
        other => panic!("expected a connect request, got {:?}", other),
    }
}

#[test]
fn client_write_characteristic_copies_the_value() {
    let client = GattClient {};
    let value = [1u8, 2, 3];
    match client.write_characteristic(7, 0x20, 1, 0, &value) {
        GattClientCall::WriteCharacteristic(conn_id, handle, write_type, auth_req, v) => {
            assert_eq!(conn_id, 7);
            assert_eq!(handle, 0x20);
            assert_eq!(write_type, 1);
            assert_eq!(auth_req, 0);
            assert_eq!(v, vec![1, 2, 3]);
        },
        other => panic!("expected a write request, got {:?}", other),
    }
}

#[test]
fn client_requests_cover_the_interface() {
    let client = GattClient {};
    assert!(matches!(
        client.register_client(&uuid(), true),
        GattClientCall::RegisterClient(_, true)
    ));
    assert!(matches!(client.unregister_client(4), GattClientCall::UnregisterClient(4)));
    assert!(matches!(client.disconnect(1, &addr(), 2), GattClientCall::Disconnect(1, _, 2)));
    assert!(matches!(client.refresh(1, &addr()), GattClientCall::Refresh(1, _)));
    assert!(matches!(
        client.search_service(5, &uuid()),
        GattClientCall::SearchService(5, _)
    ));
    assert!(matches!(
        client.btif_gattc_discover_service_by_uuid(5, &uuid()),
        GattClientCall::DiscoverServiceByUuid(5, _)
    ));
    assert!(matches!(
        client.read_characteristic(5, 9, 0),
        GattClientCall::ReadCharacteristic(5, 9, 0)
    ));
    assert!(matches!(
        client.read_using_characteristic_uuid(5, &uuid(), 1, 2, 0),
        GattClientCall::ReadUsingCharacteristicUuid(5, _, 1, 2, 0)
    ));
    assert!(matches!(
        client.read_descriptor(5, 9, 0),
        GattClientCall::ReadDescriptor(5, 9, 0)
    ));
    assert!(matches!(
        client.write_descriptor(5, 9, 0, &[7]),
        GattClientCall::WriteDescriptor(5, 9, 0, _)
    ));
    assert!(matches!(client.execute_write(5, 1), GattClientCall::ExecuteWrite(5, 1)));
    assert!(matches!(
        client.register_for_notification(5, &addr(), 9),
        GattClientCall::RegisterForNotification(5, _, 9)
    ));
    assert!(matches!(
        client.deregister_for_notification(5, &addr(), 9),
        GattClientCall::DeregisterForNotification(5, _, 9)
    ));
    assert!(matches!(
        client.read_remote_rssi(5, &addr()),
        GattClientCall::ReadRemoteRssi(5, _)
    ));
    assert!(matches!(client.get_device_type(&addr()), GattClientCall::GetDeviceType(_)));
    assert!(matches!(client.configure_mtu(5, 512), GattClientCall::ConfigureMtu(5, 512)));
    assert!(matches!(
        client.conn_parameter_update(&addr(), 6, 12, 0, 2000, 8, 16),
        GattClientCall::ConnParameterUpdate(_, 6, 12, 0, 2000, 8, 16)
    ));
    assert!(matches!(
        client.set_preferred_phy(&addr(), 1, 1, 0),
        GattClientCall::SetPreferredPhy(_, 1, 1, 0)
    ));
    let params = BtGattTestParams {
        bda: addr(),
        uuid: uuid(),
        u1: 1,
        u2: 2,
        u3: 3,
        u4: 4,
        u5: 5,
    };
    assert!(matches!(client.test_command(9, &params), GattClientCall::TestCommand(9, _)));
    assert!(matches!(client.get_gatt_db(5), GattClientCall::GetGattDb(5)));
}

#[test]
fn server_requests_cover_the_interface() {
    let server = GattServer {};
    assert!(matches!(
        server.register_server(&uuid(), false),
        GattServerCall::RegisterServer(_, false)
    ));
    assert!(matches!(server.unregister_server(2), GattServerCall::UnregisterServer(2)));
    assert!(matches!(
        server.connect(2, &addr(), true, 0),
        GattServerCall::Connect(2, _, true, 0)
    ));
    assert!(matches!(
        server.disconnect(2, &addr(), 3),
        GattServerCall::Disconnect(2, _, 3)
    ));
    assert!(matches!(
        server.add_service(2, &[]),
        GattServerCall::AddService(2, _)
    ));
    assert!(matches!(server.stop_service(2, 8), GattServerCall::StopService(2, 8)));
    assert!(matches!(server.delete_service(2, 8), GattServerCall::DeleteService(2, 8)));
    assert!(matches!(
        server.set_preferred_phy(&addr(), 2, 2, 1),
        GattServerCall::SetPreferredPhy(_, 2, 2, 1)
    ));
}

#[test]
fn server_send_indication_copies_the_value() {
    let server = GattServer {};
    match server.send_indication(1, 2, 3, 0, &[9, 8]) {
        GattServerCall::SendIndication(si, ah, ci, cf, v) => {
            assert_eq!((si, ah, ci, cf), (1, 2, 3, 0));
            assert_eq!(v, vec![9, 8]);
        },
        other => panic!("expected an indication, got {:?}", other),
    }
}

#[test]
fn server_send_response_copies_the_attribute_value() {
    let server = GattServer {};
    let response = BtGattResponse { handle: 5, offset: 0, auth_req: 1, value: vec![1, 2] };
    match server.send_response(4, 9, 0, &response) {
        GattServerCall::SendResponse(ci, ti, st, resp) => {
            assert_eq!((ci, ti, st), (4, 9, 0));
            assert_eq!(resp.handle, 5);
            assert_eq!(resp.value, vec![1, 2]);
        },
        other => panic!("expected a response, got {:?}", other),
    }
}

#[test]
fn gatt_initialize_records_the_engine_status() {
    let mut reg = DispatcherRegistry::new();
    let mut gatt = Gatt::new();
    assert!(!gatt.is_initialized());
    let ok = gatt.initialize(
        &mut reg,
        GattClientCallbacksDispatcher::new(),
        GattServerCallbacksDispatcher::new(),
        0,
    );
    assert!(ok);
    assert!(gatt.is_initialized());
    assert!(reg.gatt_client_set && reg.gatt_server_set && !reg.a2dp_set);
}

#[test]
fn gatt_initialize_reports_engine_failure() {
    let mut reg = DispatcherRegistry::new();
    let mut gatt = Gatt::new();
    let ok = gatt.initialize(
        &mut reg,
        GattClientCallbacksDispatcher::new(),
        GattServerCallbacksDispatcher::new(),
        1,
    );
    assert!(!ok);
    assert!(!gatt.is_initialized());
}

#[test]
fn gatt_dispatchers_queue_events_in_order() {
    let mut c = GattClientCallbacksDispatcher::new();
    c.dispatch(GattClientCallbacks::SearchComplete(1, 0));
    c.dispatch(GattClientCallbacks::ServiceChanged(1));
    assert!(matches!(
        &c.queue[0],
        Message::GattClient(GattClientCallbacks::SearchComplete(1, 0))
    ));
    assert!(matches!(
        &c.queue[1],
        Message::GattClient(GattClientCallbacks::ServiceChanged(1))
    ));
    let mut s = GattServerCallbacksDispatcher::new();
    s.dispatch(GattServerCallbacks::IndicationSent(1, 0));
    assert!(matches!(
        &s.queue[0],
        Message::GattServer(GattServerCallbacks::IndicationSent(1, 0))
    ));
}

use bus_projection::exporter::{
    GattMethod, IBluetoothGatt, IBluetoothGattDBus, export_bluetooth_gatt_dbus_obj,
    handle_method_call, table_lookup,
};
use bus_projection::iface_bluetooth_gatt::{
    RSSISettings, ScanFilter, ScanSettings, ScanType,
};
use bus_projection::proxy::{BluetoothGattCallback, DecodeContext, ScannerCallback};
use bus_projection::registry::DisconnectWatcher;
use bus_projection::wire::{DecodeError, DispatchError, WireType, WireValue};

/// A service that records which native method ran, in order.
struct Recorder {
    log: Vec<String>,
}

impl IBluetoothGatt for Recorder {
    fn register_scanner(&mut self, callback: ScannerCallback) {
        self.log.push(format!("register_scanner {}", callback.objpath));
    }

    fn unregister_scanner(&mut self, scanner_id: i32) {
        self.log.push(format!("unregister_scanner {}", scanner_id));
    }

    fn start_scan(&mut self, scanner_id: i32, settings: ScanSettings, filters: Vec<ScanFilter>) {
        self.log.push(format!(
            "start_scan {} {} {}",
            scanner_id,
            settings.interval,
            filters.len()
        ));
    }

    fn stop_scan(&mut self, scanner_id: i32) {
        self.log.push(format!("stop_scan {}", scanner_id));
    }

    fn register_client(
        &mut self,
        app_uuid: String,
        callback: BluetoothGattCallback,
        eatt_support: bool,
    ) {
        self.log.push(format!(
            "register_client {} {} {}",
            app_uuid, callback.objpath, eatt_support
        ));
    }

    fn unregister_client(&mut self, client_if: i32) {
        self.log.push(format!("unregister_client {}", client_if));
    }
}

fn ctx() -> DecodeContext {
    DecodeContext { remote: String::from(":1.23") }
}

#[test]
fn table_maps_every_declared_method() {
    let table = export_bluetooth_gatt_dbus_obj();
    assert_eq!(table.len(), 6);
    assert_eq!(table_lookup(&table, "StartScan"), Some(GattMethod::StartScan));
    assert_eq!(table_lookup(&table, "RegisterClient"), Some(GattMethod::RegisterClient));
    assert_eq!(table_lookup(&table, "NoSuchMethod"), None);
}

#[test]
fn unknown_method_is_an_error_and_invokes_nothing() {
    let table = export_bluetooth_gatt_dbus_obj();
    let mut obj = Recorder { log: Vec::new() };
    let mut watcher = DisconnectWatcher::new();
    let r = handle_method_call(
        &mut obj,
        &table,
        "Frobnicate",
        &vec![WireValue::Int32(1)],
        &ctx(),
        &mut watcher,
    );
    match r {
        Err(DispatchError::UnknownMethod(m)) => assert_eq!(m, "Frobnicate"),
        other => panic!("expected an unknown-method error, got {:?}", other),
    }
    assert!(obj.log.is_empty());
}

#[test]
fn void_method_dispatches_and_replies_empty() {
    let table = export_bluetooth_gatt_dbus_obj();
    let mut obj = Recorder { log: Vec::new() };
    let mut watcher = DisconnectWatcher::new();
    let r = handle_method_call(
        &mut obj,
        &table,
        "UnregisterScanner",
        &vec![WireValue::Int32(42)],
        &ctx(),
        &mut watcher,
    );
    assert!(matches!(r, Ok(reply) if reply.is_empty()));
    assert_eq!(obj.log, vec![String::from("unregister_scanner 42")]);
}

#[test]
fn bad_argument_is_rejected_without_invoking() {
    let table = export_bluetooth_gatt_dbus_obj();
    let mut obj = Recorder { log: Vec::new() };
    let mut watcher = DisconnectWatcher::new();
    let r = handle_method_call(
        &mut obj,
        &table,
        "UnregisterScanner",
        &vec![WireValue::Bool(false)],
        &ctx(),
        &mut watcher,
    );
    match r {
        Err(DispatchError::InvalidArgument(DecodeError::TypeMismatch {
            field,
            expected,
            found,
        })) => {
            assert_eq!(field, "scanner_id");
            assert_eq!(expected, WireType::Int32);
            assert_eq!(found, WireType::Bool);
        },
        other => panic!("expected an invalid-argument error, got {:?}", other),
    }
    assert!(obj.log.is_empty());
}

#[test]
fn argument_count_is_checked() {
    let table = export_bluetooth_gatt_dbus_obj();
    let mut obj = Recorder { log: Vec::new() };
    let mut watcher = DisconnectWatcher::new();
    let r = handle_method_call(&mut obj, &table, "RegisterClient", &vec![], &ctx(), &mut watcher);
    match r {
        Err(DispatchError::ArgumentCount { expected, found }) => {
            assert_eq!(expected, 3);
            assert_eq!(found, 0);
        },
        other => panic!("expected an argument-count error, got {:?}", other),
    }
    assert!(obj.log.is_empty());
}

#[test]
fn start_scan_decodes_settings_and_filters() {
    let table = export_bluetooth_gatt_dbus_obj();
    let mut obj = Recorder { log: Vec::new() };
    let mut watcher = DisconnectWatcher::new();
    let settings = ScanSettings {
        interval: 11,
        window: 5,
        scan_type: ScanType::Active,
        rssi_settings: RSSISettings { low_threshold: -70, high_threshold: -40 },
    };
    let args = vec![
        WireValue::Int32(9),
        WireValue::PropMap(settings.to_dbus()),
        WireValue::Sequence(vec![
            WireValue::PropMap(Vec::new()),
            WireValue::PropMap(Vec::new()),
        ]),
    ];
    let r = handle_method_call(&mut obj, &table, "StartScan", &args, &ctx(), &mut watcher);
    assert!(r.is_ok());
    assert_eq!(obj.log, vec![String::from("start_scan 9 11 2")]);
}

#[test]
fn start_scan_nested_fault_rejects_the_call() {
    let table = export_bluetooth_gatt_dbus_obj();
    let mut obj = Recorder { log: Vec::new() };
    let mut watcher = DisconnectWatcher::new();
    let args = vec![
        WireValue::Int32(9),
        WireValue::PropMap(Vec::new()),
        WireValue::Sequence(Vec::new()),
    ];
    let r = handle_method_call(&mut obj, &table, "StartScan", &args, &ctx(), &mut watcher);
    match r {
        Err(DispatchError::InvalidArgument(DecodeError::MissingField(f))) => {
            assert_eq!(f, "interval");
        },
        other => panic!("expected a nested missing field, got {:?}", other),
    }
    assert!(obj.log.is_empty());
}

#[test]
fn register_client_builds_a_proxy_bound_to_the_caller() {
    let table = export_bluetooth_gatt_dbus_obj();
    let mut obj = Recorder { log: Vec::new() };
    let mut watcher = DisconnectWatcher::new();
    let args = vec![
        WireValue::Text(String::from("app-uuid-1")),
        WireValue::ObjectPath(String::from("/org/client/cb1")),
        WireValue::Bool(true),
    ];
    let r = handle_method_call(&mut obj, &table, "RegisterClient", &args, &ctx(), &mut watcher);
    assert!(r.is_ok());
    assert_eq!(
        obj.log,
        vec![String::from("register_client app-uuid-1 /org/client/cb1 true")]
    );
    // Decoding the callback reference registered the proxy's identity.
    let fired = watcher.on_disconnect(":1.23");
    assert_eq!(fired, vec![String::from("/org/client/cb1")]);
}

#[test]
fn serialized_dispatch_keeps_a_total_order() {
    let table = export_bluetooth_gatt_dbus_obj();
    let mut obj = Recorder { log: Vec::new() };
    let mut watcher = DisconnectWatcher::new();
    for i in 0..5 {
        let r = handle_method_call(
            &mut obj,
            &table,
            "StopScan",
            &vec![WireValue::Int32(i)],
            &ctx(),
            &mut watcher,
        );
        assert!(r.is_ok());
    }
    assert_eq!(
        obj.log,
        (0..5).map(|i| format!("stop_scan {}", i)).collect::<Vec<_>>()
    );
}

#[test]
fn placeholder_object_accepts_every_method() {
    let table = export_bluetooth_gatt_dbus_obj();
    let mut obj = IBluetoothGattDBus {};
    let mut watcher = DisconnectWatcher::new();
    let r = handle_method_call(
        &mut obj,
        &table,
        "StopScan",
        &vec![WireValue::Int32(3)],
        &ctx(),
        &mut watcher,
    );
    assert!(r.is_ok());
}

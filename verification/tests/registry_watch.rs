use bus_projection::proxy::{
    DecodeContext, IScannerCallback, RPCProxy, ScannerCallback, ScannerCallbackDBus,
};
use bus_projection::registry::{DisconnectWatcher, DispatcherRegistry};
use bus_projection::wire::WireValue;

fn decode_proxy(watcher: &mut DisconnectWatcher, peer: &str, path: &str) -> ScannerCallback {
    let ctx = DecodeContext { remote: String::from(peer) };
    ScannerCallback::from_dbus(
        &WireValue::ObjectPath(String::from(path)),
        "callback",
        &ctx,
        watcher,
    )
    .expect("an object path decodes")
}

#[test]
fn disconnect_fans_out_once_per_observer_and_clears() {
    let mut watcher = DisconnectWatcher::new();
    // Three callbacks for the same peer identity across three proxies.
    let _p1 = decode_proxy(&mut watcher, ":1.7", "/cb/one");
    let _p2 = decode_proxy(&mut watcher, ":1.7", "/cb/two");
    let _p3 = decode_proxy(&mut watcher, ":1.7", "/cb/three");
    let fired = watcher.on_disconnect(":1.7");
    assert_eq!(
        fired,
        vec![
            String::from("/cb/one"),
            String::from("/cb/two"),
            String::from("/cb/three")
        ]
    );
    // The peer's entry is cleared: a second disconnect notifies nothing.
    let fired_again = watcher.on_disconnect(":1.7");
    assert!(fired_again.is_empty());
}

#[test]
fn duplicate_registration_is_a_no_op() {
    let mut watcher = DisconnectWatcher::new();
    let _p1 = decode_proxy(&mut watcher, ":1.7", "/cb/one");
    // Decoding the same reference again must not duplicate the
    // notification.
    let _p2 = decode_proxy(&mut watcher, ":1.7", "/cb/one");
    let fired = watcher.on_disconnect(":1.7");
    assert_eq!(fired, vec![String::from("/cb/one")]);
}

#[test]
fn peers_are_notified_independently() {
    let mut watcher = DisconnectWatcher::new();
    let _a = decode_proxy(&mut watcher, ":1.7", "/cb/one");
    let _b = decode_proxy(&mut watcher, ":1.8", "/cb/two");
    let fired = watcher.on_disconnect(":1.7");
    assert_eq!(fired, vec![String::from("/cb/one")]);
    let fired = watcher.on_disconnect(":1.8");
    assert_eq!(fired, vec![String::from("/cb/two")]);
}

#[test]
fn register_disconnect_records_under_the_proxy_peer() {
    let mut watcher = DisconnectWatcher::new();
    let mut proxy = decode_proxy(&mut watcher, ":1.9", "/cb/self");
    proxy.register_disconnect(&mut watcher, "observer-1");
    proxy.register_disconnect(&mut watcher, "observer-1");
    proxy.register_disconnect(&mut watcher, "observer-2");
    let fired = watcher.on_disconnect(":1.9");
    assert_eq!(
        fired,
        vec![
            String::from("/cb/self"),
            String::from("observer-1"),
            String::from("observer-2")
        ]
    );
    assert_eq!(proxy.get_object_id(), "/cb/self");
}

#[test]
fn local_placeholder_is_not_a_remote_proxy() {
    let mut watcher = DisconnectWatcher::new();
    let mut stub = ScannerCallbackDBus {};
    stub.register_disconnect(&mut watcher, "observer-1");
    stub.on_scanner_registered(0, 1);
    assert!(watcher.on_disconnect(":1.1").is_empty());
    assert_eq!(stub.get_object_id(), "");
}

#[test]
fn dispatcher_kinds_install_once() {
    let mut reg = DispatcherRegistry::new();
    assert!(!reg.a2dp_set && !reg.gatt_client_set && !reg.gatt_server_set);
    reg.set_a2dp();
    reg.set_gatt_client();
    reg.set_gatt_server();
    assert!(reg.a2dp_set && reg.gatt_client_set && reg.gatt_server_set);
}

use bus_projection::Message;
use bus_projection::ServiceState;
use bus_projection::Stack;
use bus_projection::a2dp::{A2dpCallbacks, BtavAudioState};
use bus_projection::btif::RawAddress;
use bus_projection::proxy::{
    IScannerCallback, MethodCall, RemoteCallError, ScannerCallback, surface_reply,
};
use bus_projection::wire::WireValue;

fn addr(last: u8) -> RawAddress {
    RawAddress { val: [0, 0, 0, 0, 0, last] }
}

#[test]
fn events_apply_in_enqueue_order() {
    // Events enqueued in order [A, B, C] reach the log in that order.
    let queue = vec![
        Message::A2dp(A2dpCallbacks::MandatoryCodecPreferred(addr(1))),
        Message::A2dp(A2dpCallbacks::AudioState(addr(2), BtavAudioState::Started)),
        Message::BluetoothCallbackDisconnected(9),
    ];
    let mut state = ServiceState::new();
    Stack::dispatch(queue, &mut state);
    assert_eq!(state.log.len(), 3);
    assert!(matches!(
        &state.log[0],
        Message::A2dp(A2dpCallbacks::MandatoryCodecPreferred(a)) if a.val == [0, 0, 0, 0, 0, 1]
    ));
    assert!(matches!(
        &state.log[1],
        Message::A2dp(A2dpCallbacks::AudioState(a, BtavAudioState::Started)) if a.val == [0, 0, 0, 0, 0, 2]
    ));
    assert!(matches!(&state.log[2], Message::BluetoothCallbackDisconnected(9)));
}

#[test]
fn disconnect_event_clears_that_callback_only() {
    let mut state = ServiceState::new();
    state.callbacks = vec![4, 9, 4, 7];
    Stack::dispatch(vec![Message::BluetoothCallbackDisconnected(4)], &mut state);
    assert_eq!(state.callbacks, vec![9, 7]);
    assert_eq!(state.log.len(), 1);
}

#[test]
fn non_disconnect_events_leave_callbacks_alone() {
    let mut state = ServiceState::new();
    state.callbacks = vec![1, 2];
    Stack::dispatch_message(
        &mut state,
        Message::A2dp(A2dpCallbacks::MandatoryCodecPreferred(addr(5))),
    );
    assert_eq!(state.callbacks, vec![1, 2]);
}

#[test]
fn fire_and_forget_returns_without_failure_for_unreachable_peer() {
    // A peer name nothing answers on: the call packages and returns at
    // once, with no caller-visible failure.
    let mut proxy = ScannerCallback {
        remote: String::from(":1.unreachable"),
        objpath: String::from("/gone"),
        outbound: Vec::new(),
    };
    proxy.on_scanner_registered(0, 7);
    proxy.on_scanner_registered(1, 8);
    assert_eq!(proxy.outbound.len(), 2);
    let call: &MethodCall = &proxy.outbound[0];
    assert_eq!(call.remote, ":1.unreachable");
    assert_eq!(call.objpath, "/gone");
    assert_eq!(call.interface, "org.chromium.bluetooth.ScannerCallback");
    assert_eq!(call.method, "OnScannerRegistered");
    assert!(matches!(call.args[0], WireValue::Int32(0)));
    assert!(matches!(call.args[1], WireValue::Int32(7)));
}

#[test]
fn remote_failures_reach_only_return_typed_callers() {
    // A fire-and-forget method drops a timeout silently.
    assert!(surface_reply(false, Err(RemoteCallError::Timeout)).is_none());
    // A method with a declared return type sees the wrapped failure.
    assert!(matches!(
        surface_reply(true, Err(RemoteCallError::Timeout)),
        Some(Err(RemoteCallError::Timeout))
    ));
    match surface_reply(true, Ok(WireValue::Int32(3))) {
        Some(Ok(WireValue::Int32(3))) => {},
        other => panic!("expected the reply through, got {:?}", other),
    }
}

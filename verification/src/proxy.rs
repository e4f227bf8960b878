//! Remote proxy objects: local stand-ins for service objects owned by
//! other processes.
//!
//! A proxy owns no remote state. Each of its methods packages its
//! arguments into an outbound, non-blocking bus call and appends it to the
//! proxy's outbound queue; the methods here declare no return value, so
//! every call is fire-and-forget: it returns control at once and raises no
//! caller-visible failure, whether or not the peer is reachable. Remote
//! liveness is observed through disconnect registration instead.
//!
//! Decoding a remote-object reference from its wire object-path handle is
//! the one marshal operation with a side effect: it constructs the proxy
//! bound to the decode context's peer and registers that proxy's identity
//! with the disconnect watcher. Decoding the same reference again is a
//! no-op on the watcher, never a duplicate notification.

use vstd::prelude::*;

use crate::registry::{DisconnectWatcher, watcher_added, watcher_wf};
use crate::wire::{DecodeError, WireType, WireValue, wire_type_of};

verus! {

/// An outbound bus method call, packaged and ready to send: target peer,
/// object path, interface name, method name and marshaled arguments in
/// declared order.
pub struct MethodCall {
    pub remote: String,
    pub objpath: String,
    pub interface: String,
    pub method: String,
    pub args: Vec<WireValue>,
}

/// The connection context a decode runs under: the bus identity of the
/// peer whose call is being decoded. A remote-object reference decoded
/// under this context yields a proxy bound to that peer.
pub struct DecodeContext {
    pub remote: String,
}

/// Signifies that the object may be a proxy to a remote RPC object.
///
/// An object that implements this trait may stand for a remote object and
/// thus may be disconnected; it implements `register_disconnect` to let
/// others observe the disconnection event.
pub trait RPCProxy {
    /// Registers a disconnect observer token to be notified when the
    /// remote object is disconnected.
    fn register_disconnect(&mut self, watcher: &mut DisconnectWatcher, token: &str)
        requires
            watcher_wf(old(watcher)@),
        ensures
            watcher_wf(final(watcher)@),
    ;

    /// Returns the ID of the object, an object path on the bus.
    fn get_object_id(&self) -> String;
}

/// Why an outbound call failed: its bounded deadline passed, or the
/// transport refused it. Surfaced only to callers of methods with a
/// declared return type; fire-and-forget methods drop it silently.
#[derive(Debug, PartialEq)]
pub enum RemoteCallError {
    /// The call's fixed deadline passed with no reply.
    Timeout,
    /// The transport reported the named fault.
    Transport(String),
}

/// Decides what a finished outbound call reports to the local caller:
/// a method with a declared return type gets the reply or the wrapped
/// failure; a fire-and-forget method gets nothing, whatever happened —
/// the remote object's liveness is the caller's own concern, observed
/// through disconnect registration instead.
pub fn surface_reply(declares_return: bool, outcome: Result<WireValue, RemoteCallError>) -> (r:
    Option<Result<WireValue, RemoteCallError>>)
    ensures
        declares_return ==> r == Some(outcome),
        !declares_return ==> r is None,
{
    if declares_return {
        Some(outcome)
    } else {
        None
    }
}

/// True when `c` is the packaged call a proxy bound to `remote` and
/// `objpath` produces for the method `method` of `interface` with the
/// marshaled arguments `args`.
pub open spec fn packaged_call(
    c: MethodCall,
    remote: Seq<char>,
    objpath: Seq<char>,
    interface: Seq<char>,
    method: Seq<char>,
    args: Seq<WireValue>,
) -> bool {
    &&& c.remote@ == remote
    &&& c.objpath@ == objpath
    &&& c.interface@ == interface
    &&& c.method@ == method
    &&& c.args@ == args
}

/// Local stand-in for a remote object implementing the GATT callback
/// interface.
pub struct BluetoothGattCallback {
    /// Bus identity of the peer owning the remote object.
    pub remote: String,
    /// Path of the remote object on the peer.
    pub objpath: String,
    /// Calls packaged by this proxy, oldest first, awaiting transmission.
    pub outbound: Vec<MethodCall>,
}

/// Local stand-in for a remote object implementing the scanner callback
/// interface.
pub struct ScannerCallback {
    /// Bus identity of the peer owning the remote object.
    pub remote: String,
    /// Path of the remote object on the peer.
    pub objpath: String,
    /// Calls packaged by this proxy, oldest first, awaiting transmission.
    pub outbound: Vec<MethodCall>,
}

/// Methods of the GATT callback interface, as a local object or a remote
/// proxy implements them. Every method is fire-and-forget: it declares no
/// return value and cannot fail.
pub trait IBluetoothGattCallback {
    fn on_client_registered(&mut self, status: i32, scanner_id: i32);
}

/// Methods of the scanner callback interface, as a local object or a
/// remote proxy implements them. Every method is fire-and-forget: it
/// declares no return value and cannot fail.
pub trait IScannerCallback {
    fn on_scanner_registered(&mut self, status: i32, scanner_id: i32);
}

/// True when `p` is the proxy that decoding an object-path handle `path`
/// under a context naming the peer `remote` constructs: bound to that peer
/// and path, with nothing outbound yet.
pub open spec fn gatt_callback_built(p: BluetoothGattCallback, remote: Seq<char>, path: Seq<char>) -> bool {
    &&& p.remote@ == remote
    &&& p.objpath@ == path
    &&& p.outbound@ == Seq::<MethodCall>::empty()
}

/// True when `p` is the proxy that decoding an object-path handle `path`
/// under a context naming the peer `remote` constructs.
pub open spec fn scanner_callback_built(p: ScannerCallback, remote: Seq<char>, path: Seq<char>) -> bool {
    &&& p.remote@ == remote
    &&& p.objpath@ == path
    &&& p.outbound@ == Seq::<MethodCall>::empty()
}

impl BluetoothGattCallback {
    /// Decodes a remote GATT-callback reference from its wire object-path
    /// handle: constructs the proxy bound to the decode context's peer and
    /// registers the proxy's identity with the disconnect watcher. The
    /// registration is idempotent; the watcher is untouched when the wire
    /// value is not an object path.
    pub fn from_dbus(
        v: &WireValue,
        field: &str,
        ctx: &DecodeContext,
        watcher: &mut DisconnectWatcher,
    ) -> (r: Result<BluetoothGattCallback, DecodeError>)
        requires
            watcher_wf(old(watcher)@),
        ensures
            watcher_wf(final(watcher)@),
            match r {
                Ok(p) => *v matches WireValue::ObjectPath(t) && gatt_callback_built(
                    p,
                    ctx.remote@,
                    t@,
                ) && watcher_added(old(watcher)@, final(watcher)@, ctx.remote@, t@),
                Err(e) => {
                    &&& !(*v is ObjectPath)
                    &&& final(watcher)@ == old(watcher)@
                    &&& (e matches DecodeError::TypeMismatch { field: f, expected, found }
                        && f@ == field@ && expected == WireType::ObjectPath && found
                        == wire_type_of(*v))
                },
            },
    {
        match v {
            WireValue::ObjectPath(t) => {
                watcher.add(ctx.remote.as_str(), t.as_str());
                Ok(
                    BluetoothGattCallback {
                        remote: ctx.remote.clone(),
                        objpath: t.clone(),
                        outbound: Vec::new(),
                    },
                )
            },
            _ => Err(
                DecodeError::TypeMismatch {
                    field: field.to_owned(),
                    expected: WireType::ObjectPath,
                    found: v.wire_type(),
                },
            ),
        }
    }
}

impl IBluetoothGattCallback for BluetoothGattCallback {
    /// Packages the call and appends it to the outbound queue. Cannot
    /// fail and never blocks on the peer: a failure to deliver is not
    /// reported here but observed through disconnect registration.
    fn on_client_registered(&mut self, status: i32, scanner_id: i32)
        ensures
            final(self).remote == old(self).remote,
            final(self).objpath == old(self).objpath,
            final(self).outbound@.len() == old(self).outbound@.len() + 1,
            final(self).outbound@.drop_last() == old(self).outbound@,
            packaged_call(
                final(self).outbound@.last(),
                old(self).remote@,
                old(self).objpath@,
                "org.chromium.bluetooth.BluetoothGattCallback"@,
                "OnClientRegistered"@,
                seq![WireValue::Int32(status), WireValue::Int32(scanner_id)],
            ),
    {
        let mut args: Vec<WireValue> = Vec::new();
        args.push(WireValue::Int32(status));
        args.push(WireValue::Int32(scanner_id));
        proof {
            assert(args@ =~= seq![WireValue::Int32(status), WireValue::Int32(scanner_id)]);
        }
        let call = MethodCall {
            remote: self.remote.clone(),
            objpath: self.objpath.clone(),
            interface: String::from_str("org.chromium.bluetooth.BluetoothGattCallback"),
            method: String::from_str("OnClientRegistered"),
            args,
        };
        self.outbound.push(call);
    }
}

impl RPCProxy for BluetoothGattCallback {
    /// Records the observer under this proxy's peer identity; when that
    /// peer disconnects, every observer so registered fires exactly once.
    fn register_disconnect(&mut self, watcher: &mut DisconnectWatcher, token: &str)
        ensures
            *final(self) == *old(self),
            watcher_added(old(watcher)@, final(watcher)@, old(self).remote@, token@),
    {
        watcher.add(self.remote.as_str(), token);
    }

    fn get_object_id(&self) -> (id: String)
        ensures
            id@ == self.objpath@,
    {
        self.objpath.clone()
    }
}

impl ScannerCallback {
    /// Decodes a remote scanner-callback reference from its wire
    /// object-path handle: constructs the proxy bound to the decode
    /// context's peer and registers the proxy's identity with the
    /// disconnect watcher, idempotently.
    pub fn from_dbus(
        v: &WireValue,
        field: &str,
        ctx: &DecodeContext,
        watcher: &mut DisconnectWatcher,
    ) -> (r: Result<ScannerCallback, DecodeError>)
        requires
            watcher_wf(old(watcher)@),
        ensures
            watcher_wf(final(watcher)@),
            match r {
                Ok(p) => *v matches WireValue::ObjectPath(t) && scanner_callback_built(
                    p,
                    ctx.remote@,
                    t@,
                ) && watcher_added(old(watcher)@, final(watcher)@, ctx.remote@, t@),
                Err(e) => {
                    &&& !(*v is ObjectPath)
                    &&& final(watcher)@ == old(watcher)@
                    &&& (e matches DecodeError::TypeMismatch { field: f, expected, found }
                        && f@ == field@ && expected == WireType::ObjectPath && found
                        == wire_type_of(*v))
                },
            },
    {
        match v {
            WireValue::ObjectPath(t) => {
                watcher.add(ctx.remote.as_str(), t.as_str());
                Ok(
                    ScannerCallback {
                        remote: ctx.remote.clone(),
                        objpath: t.clone(),
                        outbound: Vec::new(),
                    },
                )
            },
            _ => Err(
                DecodeError::TypeMismatch {
                    field: field.to_owned(),
                    expected: WireType::ObjectPath,
                    found: v.wire_type(),
                },
            ),
        }
    }
}

impl IScannerCallback for ScannerCallback {
    /// Packages the call and appends it to the outbound queue. Cannot
    /// fail and never blocks on the peer.
    fn on_scanner_registered(&mut self, status: i32, scanner_id: i32)
        ensures
            final(self).remote == old(self).remote,
            final(self).objpath == old(self).objpath,
            final(self).outbound@.len() == old(self).outbound@.len() + 1,
            final(self).outbound@.drop_last() == old(self).outbound@,
            packaged_call(
                final(self).outbound@.last(),
                old(self).remote@,
                old(self).objpath@,
                "org.chromium.bluetooth.ScannerCallback"@,
                "OnScannerRegistered"@,
                seq![WireValue::Int32(status), WireValue::Int32(scanner_id)],
            ),
    {
        let mut args: Vec<WireValue> = Vec::new();
        args.push(WireValue::Int32(status));
        args.push(WireValue::Int32(scanner_id));
        proof {
            assert(args@ =~= seq![WireValue::Int32(status), WireValue::Int32(scanner_id)]);
        }
        let call = MethodCall {
            remote: self.remote.clone(),
            objpath: self.objpath.clone(),
            interface: String::from_str("org.chromium.bluetooth.ScannerCallback"),
            method: String::from_str("OnScannerRegistered"),
            args,
        };
        self.outbound.push(call);
    }
}

impl RPCProxy for ScannerCallback {
    /// Records the observer under this proxy's peer identity.
    fn register_disconnect(&mut self, watcher: &mut DisconnectWatcher, token: &str)
        ensures
            *final(self) == *old(self),
            watcher_added(old(watcher)@, final(watcher)@, old(self).remote@, token@),
    {
        watcher.add(self.remote.as_str(), token);
    }

    fn get_object_id(&self) -> (id: String)
        ensures
            id@ == self.objpath@,
    {
        self.objpath.clone()
    }
}

/// Local placeholder object for the GATT callback interface. A local
/// object backs its interface by direct native calls; this one's methods
/// do nothing, and it is not a remote proxy, so disconnect registration on
/// it is a no-op.
pub struct BluetoothGattCallbackDBus {}

impl IBluetoothGattCallback for BluetoothGattCallbackDBus {
    fn on_client_registered(&mut self, status: i32, scanner_id: i32)
        ensures
            *final(self) == *old(self),
    {
        let _ = status;
        let _ = scanner_id;
    }
}

impl RPCProxy for BluetoothGattCallbackDBus {
    fn register_disconnect(&mut self, watcher: &mut DisconnectWatcher, token: &str)
        ensures
            *final(self) == *old(self),
            final(watcher)@ == old(watcher)@,
    {
        let _ = watcher;
        let _ = token;
    }

    fn get_object_id(&self) -> (id: String)
        ensures
            id@ == Seq::<char>::empty(),
    {
        String::new()
    }
}

/// Local placeholder object for the scanner callback interface.
pub struct ScannerCallbackDBus {}

impl IScannerCallback for ScannerCallbackDBus {
    fn on_scanner_registered(&mut self, status: i32, scanner_id: i32)
        ensures
            *final(self) == *old(self),
    {
        let _ = status;
        let _ = scanner_id;
    }
}

impl RPCProxy for ScannerCallbackDBus {
    fn register_disconnect(&mut self, watcher: &mut DisconnectWatcher, token: &str)
        ensures
            *final(self) == *old(self),
            final(watcher)@ == old(watcher)@,
    {
        let _ = watcher;
        let _ = token;
    }

    fn get_object_id(&self) -> (id: String)
        ensures
            id@ == Seq::<char>::empty(),
    {
        String::new()
    }
}

} // verus!

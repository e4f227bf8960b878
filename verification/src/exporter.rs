//! The service exporter: makes a local object implementing the GATT
//! control interface callable from other processes.
//!
//! An exported object is served through a declarative dispatch table
//! mapping each bus method name to a typed method. One inbound call is
//! handled by looking its name up (an absent name is an error reply and
//! invokes nothing), decoding each wire argument in declared parameter
//! order (the first fault is returned as an invalid-argument reply
//! without invoking the native method and without any registry side
//! effect), then invoking the native method and answering with an empty
//! reply, since no method here declares a return value.
//!
//! Exclusive access to the native object during the call is what the
//! `&mut` borrow grants: two inbound calls to the same object serialize,
//! calls to different objects proceed independently.

use vstd::prelude::*;

use crate::iface_bluetooth_gatt::{
    ScanFilter, ScanSettings, scan_filter_seq_decoding, scan_filters_from_dbus,
    scan_settings_decoding,
};
use crate::marshal::str_eq;
use crate::proxy::{
    BluetoothGattCallback, DecodeContext, ScannerCallback, gatt_callback_built,
    scanner_callback_built,
};
use crate::registry::{DisconnectWatcher, watcher_added, watcher_wf};
use crate::wire::{DecodeError, DispatchError, WireType, WireValue, wire_type_of};

verus! {

/// The typed methods of the GATT control interface.
#[derive(Clone, Copy, Debug, PartialEq, Eq, Structural)]
pub enum GattMethod {
    RegisterScanner,
    UnregisterScanner,
    StartScan,
    StopScan,
    RegisterClient,
    UnregisterClient,
}

/// One entry of an exported object's dispatch table: the stable bus
/// method name and the typed method it dispatches to.
pub struct MethodEntry {
    pub name: String,
    pub method: GattMethod,
}

/// The typed method the table maps `name` to: the first entry so named,
/// or `None` when no entry is.
pub open spec fn spec_table_lookup(t: Seq<MethodEntry>, name: Seq<char>) -> Option<GattMethod>
    decreases t.len(),
{
    if t.len() == 0 {
        None
    } else if t[0].name@ == name {
        Some(t[0].method)
    } else {
        spec_table_lookup(t.drop_first(), name)
    }
}

/// Looks a bus method name up in a dispatch table.
pub fn table_lookup(table: &Vec<MethodEntry>, name: &str) -> (r: Option<GattMethod>)
    ensures
        r == spec_table_lookup(table@, name@),
{
    proof {
        assert(table@.skip(0) =~= table@);
    }
    let mut i: usize = 0;
    while i < table.len()
        invariant
            0 <= i <= table@.len(),
            spec_table_lookup(table@.skip(i as int), name@) == spec_table_lookup(table@, name@),
        decreases table@.len() - i,
    {
        proof {
            assert(table@.skip(i as int)[0] == table@[i as int]);
        }
        if str_eq(table[i].name.as_str(), name) {
            return Some(table[i].method);
        }
        proof {
            assert(table@.skip(i as int).drop_first() =~= table@.skip(i as int + 1));
        }
        i = i + 1;
    }
    proof {
        assert(table@.skip(table@.len() as int) =~= Seq::<MethodEntry>::empty());
    }
    None
}

/// Builds the dispatch table under which an object implementing the GATT
/// control interface is exported on the bus.
pub fn export_bluetooth_gatt_dbus_obj() -> (table: Vec<MethodEntry>)
    ensures
        table@.len() == 6,
        table@[0].name@ == "RegisterScanner"@ && table@[0].method == GattMethod::RegisterScanner,
        table@[1].name@ == "UnregisterScanner"@ && table@[1].method
            == GattMethod::UnregisterScanner,
        table@[2].name@ == "StartScan"@ && table@[2].method == GattMethod::StartScan,
        table@[3].name@ == "StopScan"@ && table@[3].method == GattMethod::StopScan,
        table@[4].name@ == "RegisterClient"@ && table@[4].method == GattMethod::RegisterClient,
        table@[5].name@ == "UnregisterClient"@ && table@[5].method == GattMethod::UnregisterClient,
{
    let mut table: Vec<MethodEntry> = Vec::new();
    table.push(
        MethodEntry {
            name: String::from_str("RegisterScanner"),
            method: GattMethod::RegisterScanner,
        },
    );
    table.push(
        MethodEntry {
            name: String::from_str("UnregisterScanner"),
            method: GattMethod::UnregisterScanner,
        },
    );
    table.push(
        MethodEntry { name: String::from_str("StartScan"), method: GattMethod::StartScan },
    );
    table.push(MethodEntry { name: String::from_str("StopScan"), method: GattMethod::StopScan });
    table.push(
        MethodEntry {
            name: String::from_str("RegisterClient"),
            method: GattMethod::RegisterClient,
        },
    );
    table.push(
        MethodEntry {
            name: String::from_str("UnregisterClient"),
            method: GattMethod::UnregisterClient,
        },
    );
    table
}

/// The methods of the GATT control interface, as the native service
/// object implements them. An exported object implements this contract;
/// a remote proxy to another process's service would implement the same
/// interface by packaging bus calls instead.
pub trait IBluetoothGatt {
    fn register_scanner(&mut self, callback: ScannerCallback);

    fn unregister_scanner(&mut self, scanner_id: i32);

    fn start_scan(&mut self, scanner_id: i32, settings: ScanSettings, filters: Vec<ScanFilter>);

    fn stop_scan(&mut self, scanner_id: i32);

    fn register_client(
        &mut self,
        app_uuid: String,
        callback: BluetoothGattCallback,
        eatt_support: bool,
    );

    fn unregister_client(&mut self, client_if: i32);
}

/// One inbound call of the GATT control interface, decoded to native
/// argument values and ready to invoke.
pub enum GattCall {
    RegisterScanner(ScannerCallback),
    UnregisterScanner(i32),
    StartScan(i32, ScanSettings, Vec<ScanFilter>),
    StopScan(i32),
    RegisterClient(String, BluetoothGattCallback, bool),
    UnregisterClient(i32),
}

/// True when `e` reports that the argument named `field` carried the wire
/// type of `v` where `expected` was declared.
pub open spec fn arg_mismatch(
    e: DispatchError,
    field: Seq<char>,
    expected: WireType,
    v: WireValue,
) -> bool {
    wire_type_of(v) != expected && (e matches DispatchError::InvalidArgument(d) && (
    d matches DecodeError::TypeMismatch { field: f, expected: ex, found } && f@ == field && ex
        == expected && found == wire_type_of(v)))
}

/// True when `e` reports a call with `found` arguments where `expected`
/// were declared.
pub open spec fn arg_count_err(e: DispatchError, expected: int, found: int) -> bool {
    e matches DispatchError::ArgumentCount { expected: ex, found: fo } && ex == expected && fo
        == found
}

/// True when `r` is the outcome that decoding the arguments of the typed
/// method `m` from `args` must have, under a decode context naming the
/// peer `remote`, with the disconnect watcher going from `w0` to `w1`:
/// the typed call with every argument decoded, and proxies for every
/// remote-object reference registered, exactly when each argument in
/// declared order carries its declared wire type; else the fault of the
/// first argument that does not, with the watcher untouched.
pub open spec fn gatt_args_decoding(
    m: GattMethod,
    args: Seq<WireValue>,
    remote: Seq<char>,
    w0: Seq<(String, String)>,
    w1: Seq<(String, String)>,
    r: Result<GattCall, DispatchError>,
) -> bool {
    match m {
        GattMethod::RegisterScanner => {
            if args.len() != 1 {
                r matches Err(e) && arg_count_err(e, 1, args.len() as int) && w1 == w0
            } else {
                match args[0] {
                    WireValue::ObjectPath(t) => r matches Ok(c) && (
                    c matches GattCall::RegisterScanner(p) && scanner_callback_built(
                        p,
                        remote,
                        t@,
                    ) && watcher_added(w0, w1, remote, t@)),
                    _ => r matches Err(e) && arg_mismatch(
                        e,
                        "callback"@,
                        WireType::ObjectPath,
                        args[0],
                    ) && w1 == w0,
                }
            }
        },
        GattMethod::UnregisterScanner => {
            if args.len() != 1 {
                r matches Err(e) && arg_count_err(e, 1, args.len() as int) && w1 == w0
            } else {
                match args[0] {
                    WireValue::Int32(x) => r == Ok::<GattCall, DispatchError>(
                        GattCall::UnregisterScanner(x),
                    ) && w1 == w0,
                    _ => r matches Err(e) && arg_mismatch(
                        e,
                        "scanner_id"@,
                        WireType::Int32,
                        args[0],
                    ) && w1 == w0,
                }
            }
        },
        GattMethod::StartScan => {
            if args.len() != 3 {
                r matches Err(e) && arg_count_err(e, 3, args.len() as int) && w1 == w0
            } else {
                w1 == w0 && match args[0] {
                    WireValue::Int32(x) => match args[1] {
                        WireValue::PropMap(settings_map) => {
                            ||| (r matches Err(e) && (e matches DispatchError::InvalidArgument(d)
                                && scan_settings_decoding(settings_map@, Err(d))))
                            ||| ((exists|s: ScanSettings|
                                scan_settings_decoding(settings_map@, Ok(s))) && match args[2] {
                                WireValue::Sequence(elems) => {
                                    ||| (r matches Err(e) && (
                                    e matches DispatchError::InvalidArgument(d)
                                        && scan_filter_seq_decoding(elems@, Err(d))))
                                    ||| (r matches Ok(c) && (c matches GattCall::StartScan(
                                        y,
                                        s,
                                        fs,
                                    ) && y == x && scan_settings_decoding(settings_map@, Ok(s))
                                        && scan_filter_seq_decoding(elems@, Ok(fs))))
                                },
                                _ => r matches Err(e) && arg_mismatch(
                                    e,
                                    "filters"@,
                                    WireType::Sequence,
                                    args[2],
                                ),
                            })
                        },
                        _ => r matches Err(e) && arg_mismatch(
                            e,
                            "settings"@,
                            WireType::PropMap,
                            args[1],
                        ),
                    },
                    _ => r matches Err(e) && arg_mismatch(e, "scanner_id"@, WireType::Int32, args[0]),
                }
            }
        },
        GattMethod::StopScan => {
            if args.len() != 1 {
                r matches Err(e) && arg_count_err(e, 1, args.len() as int) && w1 == w0
            } else {
                match args[0] {
                    WireValue::Int32(x) => r == Ok::<GattCall, DispatchError>(
                        GattCall::StopScan(x),
                    ) && w1 == w0,
                    _ => r matches Err(e) && arg_mismatch(
                        e,
                        "scanner_id"@,
                        WireType::Int32,
                        args[0],
                    ) && w1 == w0,
                }
            }
        },
        GattMethod::RegisterClient => {
            if args.len() != 3 {
                r matches Err(e) && arg_count_err(e, 3, args.len() as int) && w1 == w0
            } else {
                match args[0] {
                    WireValue::Text(u) => match args[1] {
                        WireValue::ObjectPath(t) => match args[2] {
                            WireValue::Bool(b) => r matches Ok(c) && (
                            c matches GattCall::RegisterClient(u2, p, b2) && u2@ == u@
                                && gatt_callback_built(p, remote, t@) && b2 == b
                                && watcher_added(w0, w1, remote, t@)),
                            _ => r matches Err(e) && arg_mismatch(
                                e,
                                "eatt_support"@,
                                WireType::Bool,
                                args[2],
                            ) && w1 == w0,
                        },
                        _ => r matches Err(e) && arg_mismatch(
                            e,
                            "callback"@,
                            WireType::ObjectPath,
                            args[1],
                        ) && w1 == w0,
                    },
                    _ => r matches Err(e) && arg_mismatch(e, "app_uuid"@, WireType::Text, args[0])
                        && w1 == w0,
                }
            }
        },
        GattMethod::UnregisterClient => {
            if args.len() != 1 {
                r matches Err(e) && arg_count_err(e, 1, args.len() as int) && w1 == w0
            } else {
                match args[0] {
                    WireValue::Int32(x) => r == Ok::<GattCall, DispatchError>(
                        GattCall::UnregisterClient(x),
                    ) && w1 == w0,
                    _ => r matches Err(e) && arg_mismatch(
                        e,
                        "client_if"@,
                        WireType::Int32,
                        args[0],
                    ) && w1 == w0,
                }
            }
        },
    }
}

/// Decodes the arguments of one inbound call of the typed method `m`, in
/// declared parameter order. The first argument whose wire value does not
/// carry its declared type is the call's fault; no registry side effect
/// happens unless every argument decodes, so a rejected call leaves the
/// disconnect watcher exactly as it was.
pub fn decode_gatt_call(
    m: GattMethod,
    args: &Vec<WireValue>,
    ctx: &DecodeContext,
    watcher: &mut DisconnectWatcher,
) -> (r: Result<GattCall, DispatchError>)
    requires
        watcher_wf(old(watcher)@),
    ensures
        watcher_wf(final(watcher)@),
        gatt_args_decoding(m, args@, ctx.remote@, old(watcher)@, final(watcher)@, r),
{
    match m {
        GattMethod::RegisterScanner => {
            if args.len() != 1 {
                return Err(DispatchError::ArgumentCount { expected: 1, found: args.len() });
            }
            match ScannerCallback::from_dbus(&args[0], "callback", ctx, watcher) {
                Ok(p) => Ok(GattCall::RegisterScanner(p)),
                Err(d) => Err(DispatchError::InvalidArgument(d)),
            }
        },
        GattMethod::UnregisterScanner => {
            if args.len() != 1 {
                return Err(DispatchError::ArgumentCount { expected: 1, found: args.len() });
            }
            match crate::marshal::field_as_i32(&args[0], "scanner_id") {
                Ok(x) => Ok(GattCall::UnregisterScanner(x)),
                Err(d) => Err(DispatchError::InvalidArgument(d)),
            }
        },
        GattMethod::StartScan => {
            if args.len() != 3 {
                return Err(DispatchError::ArgumentCount { expected: 3, found: args.len() });
            }
            let scanner_id = match crate::marshal::field_as_i32(&args[0], "scanner_id") {
                Ok(x) => x,
                Err(d) => {
                    return Err(DispatchError::InvalidArgument(d));
                },
            };
            let settings = match &args[1] {
                WireValue::PropMap(settings_map) => match ScanSettings::from_dbus(settings_map) {
                    Ok(s) => s,
                    Err(d) => {
                        return Err(DispatchError::InvalidArgument(d));
                    },
                },
                _ => {
                    return Err(
                        DispatchError::InvalidArgument(
                            DecodeError::TypeMismatch {
                                field: "settings".to_owned(),
                                expected: WireType::PropMap,
                                found: args[1].wire_type(),
                            },
                        ),
                    );
                },
            };
            let filters = match &args[2] {
                WireValue::Sequence(elems) => match scan_filters_from_dbus(elems) {
                    Ok(fs) => fs,
                    Err(d) => {
                        return Err(DispatchError::InvalidArgument(d));
                    },
                },
                _ => {
                    return Err(
                        DispatchError::InvalidArgument(
                            DecodeError::TypeMismatch {
                                field: "filters".to_owned(),
                                expected: WireType::Sequence,
                                found: args[2].wire_type(),
                            },
                        ),
                    );
                },
            };
            Ok(GattCall::StartScan(scanner_id, settings, filters))
        },
        GattMethod::StopScan => {
            if args.len() != 1 {
                return Err(DispatchError::ArgumentCount { expected: 1, found: args.len() });
            }
            match crate::marshal::field_as_i32(&args[0], "scanner_id") {
                Ok(x) => Ok(GattCall::StopScan(x)),
                Err(d) => Err(DispatchError::InvalidArgument(d)),
            }
        },
        GattMethod::RegisterClient => {
            if args.len() != 3 {
                return Err(DispatchError::ArgumentCount { expected: 3, found: args.len() });
            }
            let app_uuid = match crate::marshal::field_as_text(&args[0], "app_uuid") {
                Ok(u) => u,
                Err(d) => {
                    return Err(DispatchError::InvalidArgument(d));
                },
            };
            // Validate before constructing the proxy, so that a fault in a
            // later argument leaves the watcher untouched.
            let is_path = match &args[1] {
                WireValue::ObjectPath(_) => true,
                _ => false,
            };
            if !is_path {
                return Err(
                    DispatchError::InvalidArgument(
                        DecodeError::TypeMismatch {
                            field: "callback".to_owned(),
                            expected: WireType::ObjectPath,
                            found: args[1].wire_type(),
                        },
                    ),
                );
            }
            let eatt_support = match crate::marshal::field_as_bool(&args[2], "eatt_support") {
                Ok(b) => b,
                Err(d) => {
                    return Err(DispatchError::InvalidArgument(d));
                },
            };
            let callback = match BluetoothGattCallback::from_dbus(&args[1], "callback", ctx, watcher) {
                Ok(p) => p,
                Err(d) => {
                    proof {
                        assert(false);
                    }
                    return Err(DispatchError::InvalidArgument(d));
                },
            };
            Ok(GattCall::RegisterClient(app_uuid, callback, eatt_support))
        },
        GattMethod::UnregisterClient => {
            if args.len() != 1 {
                return Err(DispatchError::ArgumentCount { expected: 1, found: args.len() });
            }
            match crate::marshal::field_as_i32(&args[0], "client_if") {
                Ok(x) => Ok(GattCall::UnregisterClient(x)),
                Err(d) => Err(DispatchError::InvalidArgument(d)),
            }
        },
    }
}

/// Serves one inbound bus call against an exported object: looks the
/// method name up in the dispatch table, decodes every argument in
/// declared order, invokes the native method under the exclusive borrow
/// and answers with the empty reply the void methods declare. A name
/// absent from the table or an argument fault is an error reply: the
/// native object is not touched and the watcher keeps its registrations.
pub fn handle_method_call<T: IBluetoothGatt>(
    obj: &mut T,
    table: &Vec<MethodEntry>,
    method: &str,
    args: &Vec<WireValue>,
    ctx: &DecodeContext,
    watcher: &mut DisconnectWatcher,
) -> (r: Result<Vec<WireValue>, DispatchError>)
    requires
        watcher_wf(old(watcher)@),
    ensures
        watcher_wf(final(watcher)@),
        match spec_table_lookup(table@, method@) {
            None => {
                &&& (r matches Err(e) && (e matches DispatchError::UnknownMethod(mn) && mn@
                    == method@))
                &&& *final(obj) == *old(obj)
                &&& final(watcher)@ == old(watcher)@
            },
            Some(m) => {
                &&& (r matches Err(e) ==> *final(obj) == *old(obj) && gatt_args_decoding(
                    m,
                    args@,
                    ctx.remote@,
                    old(watcher)@,
                    final(watcher)@,
                    Err(e),
                ))
                &&& (r matches Ok(reply) ==> reply@.len() == 0 && exists|c: GattCall|
                    #[trigger] gatt_args_decoding(
                        m,
                        args@,
                        ctx.remote@,
                        old(watcher)@,
                        final(watcher)@,
                        Ok::<GattCall, DispatchError>(c),
                    ))
            },
        },
{
    let m = match table_lookup(table, method) {
        Some(m) => m,
        None => {
            return Err(DispatchError::UnknownMethod(method.to_owned()));
        },
    };
    let call = match decode_gatt_call(m, args, ctx, watcher) {
        Ok(c) => c,
        Err(e) => {
            return Err(e);
        },
    };
    proof {
        assert(gatt_args_decoding(
            m,
            args@,
            ctx.remote@,
            old(watcher)@,
            watcher@,
            Ok::<GattCall, DispatchError>(call),
        ));
    }
    match call {
        GattCall::RegisterScanner(p) => obj.register_scanner(p),
        GattCall::UnregisterScanner(x) => obj.unregister_scanner(x),
        GattCall::StartScan(x, s, fs) => obj.start_scan(x, s, fs),
        GattCall::StopScan(x) => obj.stop_scan(x),
        GattCall::RegisterClient(u, p, b) => obj.register_client(u, p, b),
        GattCall::UnregisterClient(x) => obj.unregister_client(x),
    }
    Ok(Vec::new())
}

/// Local placeholder object under which the GATT control interface is
/// exported; its methods do nothing until a service backs them.
pub struct IBluetoothGattDBus {}

impl IBluetoothGatt for IBluetoothGattDBus {
    fn register_scanner(&mut self, callback: ScannerCallback)
        ensures
            *final(self) == *old(self),
    {
        let _ = callback;
    }

    fn unregister_scanner(&mut self, scanner_id: i32)
        ensures
            *final(self) == *old(self),
    {
        let _ = scanner_id;
    }

    fn start_scan(&mut self, scanner_id: i32, settings: ScanSettings, filters: Vec<ScanFilter>)
        ensures
            *final(self) == *old(self),
    {
        let _ = scanner_id;
        let _ = settings;
        let _ = filters;
    }

    fn stop_scan(&mut self, scanner_id: i32)
        ensures
            *final(self) == *old(self),
    {
        let _ = scanner_id;
    }

    fn register_client(
        &mut self,
        app_uuid: String,
        callback: BluetoothGattCallback,
        eatt_support: bool,
    )
        ensures
            *final(self) == *old(self),
    {
        let _ = app_uuid;
        let _ = callback;
        let _ = eatt_support;
    }

    fn unregister_client(&mut self, client_if: i32)
        ensures
            *final(self) == *old(self),
    {
        let _ = client_if;
    }
}

} // verus!

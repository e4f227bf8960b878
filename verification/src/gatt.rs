//! The GATT profile shim: client and server control surfaces over the
//! native engine, the events their callbacks normalize to, and the typed
//! requests each method packages for the engine to perform.

use vstd::prelude::*;

use crate::Message;
use crate::btif::{RawAddress, Uuid};
use crate::registry::DispatcherRegistry;

verus! {

/// A value notification or indication as the native engine reports it.
#[derive(Debug)]
pub struct BtGattNotifyParams {
    pub bda: RawAddress,
    pub handle: u16,
    pub is_notify: bool,
    pub value: Vec<u8>,
}

/// The outcome of a characteristic or descriptor read as the native
/// engine reports it.
#[derive(Debug)]
pub struct BtGattReadParams {
    pub handle: u16,
    pub value_type: u16,
    pub status: u8,
    pub value: Vec<u8>,
}

/// One element of a GATT database: a service, characteristic or
/// descriptor row.
#[derive(Clone, Copy, Debug)]
pub struct BtGattDbElement {
    pub id: u16,
    pub uuid: Uuid,
    pub element_type: u32,
    pub attribute_handle: u16,
    pub start_handle: u16,
    pub end_handle: u16,
    pub properties: u8,
    pub extended_properties: u8,
    pub permissions: u16,
}

/// The attribute value a server hands back for one request.
#[derive(Debug)]
pub struct BtGattResponse {
    pub handle: u16,
    pub offset: u16,
    pub auth_req: u8,
    pub value: Vec<u8>,
}

/// Parameters of an engine test command.
#[derive(Clone, Copy, Debug)]
pub struct BtGattTestParams {
    pub bda: RawAddress,
    pub uuid: Uuid,
    pub u1: u16,
    pub u2: u16,
    pub u3: u16,
    pub u4: u16,
    pub u5: u16,
}

/// One normalized GATT client occurrence from the native stack.
#[derive(Debug)]
pub enum GattClientCallbacks {
    RegisterClient(i32, i32, Uuid),
    Connect(i32, i32, i32, RawAddress),
    Disconnect(i32, i32, i32, RawAddress),
    SearchComplete(i32, i32),
    RegisterForNotification(i32, i32, i32, u16),
    Notify(i32, BtGattNotifyParams),
    ReadCharacteristic(i32, i32, BtGattReadParams),
    WriteCharacteristic(i32, i32, u16),
    ReadDescriptor(i32, i32, BtGattReadParams),
    WriteDescriptor(i32, i32, u16),
    ExecuteWrite(i32, i32),
    ReadRemoteRssi(i32, RawAddress, i32, i32),
    ConfigureMtu(i32, i32, i32),
    Congestion(i32, bool),
    GetGattDb(i32, Vec<BtGattDbElement>, i32),
    ServicesRemoved(i32, u16, u16),
    ServicesAdded(i32, Vec<BtGattDbElement>, i32),
    PhyUpdated(i32, u8, u8, u8),
    ConnUpdated(i32, u16, u16, u16, u8),
    ServiceChanged(i32),
}

/// One normalized GATT server occurrence from the native stack.
#[derive(Debug)]
pub enum GattServerCallbacks {
    RegisterServer(i32, i32, Uuid),
    Connection(i32, i32, i32, RawAddress),
    ServiceAdded(i32, i32, Vec<BtGattDbElement>, usize),
    ServiceStopped(i32, i32, i32),
    ServiceDeleted(i32, i32, i32),
    RequestReadCharacteristic(i32, i32, RawAddress, i32, i32, bool),
    RequestReadDescriptor(i32, i32, RawAddress, i32, i32, bool),
    RequestWriteCharacteristic(i32, i32, RawAddress, i32, i32, bool, bool, Vec<u8>, usize),
    RequestWriteDescriptor(i32, i32, RawAddress, i32, i32, bool, bool, Vec<u8>, usize),
    RequestExecWrite(i32, i32, RawAddress, i32),
    ResponseConfirmation(i32, i32),
    IndicationSent(i32, i32),
    Congestion(i32, bool),
    MtuChanged(i32, i32),
    PhyUpdated(i32, u8, u8, u8),
    ConnUpdated(i32, u16, u16, u16, u8),
}

/// Normalizes each raw GATT client callback into exactly one dispatch
/// event and enqueues it, in arrival order, for the single consumer.
pub struct GattClientCallbacksDispatcher {
    pub queue: Vec<Message>,
}

impl GattClientCallbacksDispatcher {
    /// A dispatcher with nothing queued.
    pub fn new() -> (d: GattClientCallbacksDispatcher)
        ensures
            d.queue@ == Seq::<Message>::empty(),
    {
        GattClientCallbacksDispatcher { queue: Vec::new() }
    }

    /// Queues one normalized event behind those already waiting; never
    /// reorders or drops.
    pub fn dispatch(&mut self, cb: GattClientCallbacks)
        ensures
            final(self).queue@ == old(self).queue@.push(Message::GattClient(cb)),
    {
        self.queue.push(Message::GattClient(cb));
    }
}

/// Normalizes each raw GATT server callback into exactly one dispatch
/// event and enqueues it, in arrival order, for the single consumer.
pub struct GattServerCallbacksDispatcher {
    pub queue: Vec<Message>,
}

impl GattServerCallbacksDispatcher {
    /// A dispatcher with nothing queued.
    pub fn new() -> (d: GattServerCallbacksDispatcher)
        ensures
            d.queue@ == Seq::<Message>::empty(),
    {
        GattServerCallbacksDispatcher { queue: Vec::new() }
    }

    /// Queues one normalized event behind those already waiting; never
    /// reorders or drops.
    pub fn dispatch(&mut self, cb: GattServerCallbacks)
        ensures
            final(self).queue@ == old(self).queue@.push(Message::GattServer(cb)),
    {
        self.queue.push(Message::GattServer(cb));
    }
}

/// One typed request to the native GATT client interface, packaged and
/// ready to perform. The engine answers each performed request with a
/// status code that [`crate::btif::BtStatus::from_i32`] decodes.
#[derive(Debug)]
pub enum GattClientCall {
    RegisterClient(Uuid, bool),
    UnregisterClient(i32),
    Connect(i32, RawAddress, bool, i32, bool, i32),
    Disconnect(i32, RawAddress, i32),
    Refresh(i32, RawAddress),
    SearchService(i32, Uuid),
    DiscoverServiceByUuid(i32, Uuid),
    ReadCharacteristic(i32, u16, i32),
    ReadUsingCharacteristicUuid(i32, Uuid, u16, u16, i32),
    WriteCharacteristic(i32, u16, i32, i32, Vec<u8>),
    ReadDescriptor(i32, u16, i32),
    WriteDescriptor(i32, u16, i32, Vec<u8>),
    ExecuteWrite(i32, i32),
    RegisterForNotification(i32, RawAddress, u16),
    DeregisterForNotification(i32, RawAddress, u16),
    ReadRemoteRssi(i32, RawAddress),
    GetDeviceType(RawAddress),
    ConfigureMtu(i32, i32),
    ConnParameterUpdate(RawAddress, i32, i32, i32, i32, u16, u16),
    SetPreferredPhy(RawAddress, u8, u8, u16),
    TestCommand(i32, BtGattTestParams),
    GetGattDb(i32),
}

/// One typed request to the native GATT server interface.
#[derive(Debug)]
pub enum GattServerCall {
    RegisterServer(Uuid, bool),
    UnregisterServer(i32),
    Connect(i32, RawAddress, bool, i32),
    Disconnect(i32, RawAddress, i32),
    AddService(i32, Vec<BtGattDbElement>),
    StopService(i32, i32),
    DeleteService(i32, i32),
    SendIndication(i32, i32, i32, i32, Vec<u8>),
    SendResponse(i32, i32, i32, BtGattResponse),
    SetPreferredPhy(RawAddress, u8, u8, u16),
}

/// Client control surface of the GATT profile: each method packages its
/// arguments into the typed call the native engine performs.
pub struct GattClient {}

impl GattClient {
    /// Packages a client registration for the application `uuid`.
    pub fn register_client(&self, uuid: &Uuid, eatt_support: bool) -> (c: GattClientCall)
        ensures
            c == GattClientCall::RegisterClient(*uuid, eatt_support),
    {
        GattClientCall::RegisterClient(*uuid, eatt_support)
    }

    /// Packages a client deregistration.
    pub fn unregister_client(&self, client_if: i32) -> (c: GattClientCall)
        ensures
            c == GattClientCall::UnregisterClient(client_if),
    {
        GattClientCall::UnregisterClient(client_if)
    }

    /// Packages a connection request.
    pub fn connect(
        &self,
        client_if: i32,
        addr: &RawAddress,
        is_direct: bool,
        transport: i32,
        opportunistic: bool,
        initiating_phys: i32,
    ) -> (c: GattClientCall)
        ensures
            c == GattClientCall::Connect(
                client_if,
                *addr,
                is_direct,
                transport,
                opportunistic,
                initiating_phys,
            ),
    {
        GattClientCall::Connect(
            client_if,
            *addr,
            is_direct,
            transport,
            opportunistic,
            initiating_phys,
        )
    }

    /// Packages a disconnection request.
    pub fn disconnect(&self, client_if: i32, addr: &RawAddress, conn_id: i32) -> (c: GattClientCall)
        ensures
            c == GattClientCall::Disconnect(client_if, *addr, conn_id),
    {
        GattClientCall::Disconnect(client_if, *addr, conn_id)
    }

    /// Packages a cache refresh for one device.
    pub fn refresh(&self, client_if: i32, addr: &RawAddress) -> (c: GattClientCall)
        ensures
            c == GattClientCall::Refresh(client_if, *addr),
    {
        GattClientCall::Refresh(client_if, *addr)
    }

    /// Packages a service search over one connection.
    pub fn search_service(&self, conn_id: i32, filter_uuid: &Uuid) -> (c: GattClientCall)
        ensures
            c == GattClientCall::SearchService(conn_id, *filter_uuid),
    {
        GattClientCall::SearchService(conn_id, *filter_uuid)
    }

    /// Packages a service discovery by UUID.
    pub fn btif_gattc_discover_service_by_uuid(&self, conn_id: i32, uuid: &Uuid) -> (c:
        GattClientCall)
        ensures
            c == GattClientCall::DiscoverServiceByUuid(conn_id, *uuid),
    {
        GattClientCall::DiscoverServiceByUuid(conn_id, *uuid)
    }

    /// Packages a characteristic read by handle.
    pub fn read_characteristic(&self, conn_id: i32, handle: u16, auth_req: i32) -> (c:
        GattClientCall)
        ensures
            c == GattClientCall::ReadCharacteristic(conn_id, handle, auth_req),
    {
        GattClientCall::ReadCharacteristic(conn_id, handle, auth_req)
    }

    /// Packages a characteristic read by UUID over a handle range.
    pub fn read_using_characteristic_uuid(
        &self,
        conn_id: i32,
        uuid: &Uuid,
        s_handle: u16,
        e_handle: u16,
        auth_req: i32,
    ) -> (c: GattClientCall)
        ensures
            c == GattClientCall::ReadUsingCharacteristicUuid(
                conn_id,
                *uuid,
                s_handle,
                e_handle,
                auth_req,
            ),
    {
        GattClientCall::ReadUsingCharacteristicUuid(conn_id, *uuid, s_handle, e_handle, auth_req)
    }

    /// Packages a characteristic write; the call carries its own copy of
    /// the value bytes.
    pub fn write_characteristic(
        &self,
        conn_id: i32,
        handle: u16,
        write_type: i32,
        auth_req: i32,
        value: &[u8],
    ) -> (c: GattClientCall)
        ensures
            c matches GattClientCall::WriteCharacteristic(ci, h, wt, ar, v) && ci == conn_id && h
                == handle && wt == write_type && ar == auth_req && v@ == value@,
    {
        GattClientCall::WriteCharacteristic(
            conn_id,
            handle,
            write_type,
            auth_req,
            vstd::slice::slice_to_vec(value),
        )
    }

    /// Packages a descriptor read by handle.
    pub fn read_descriptor(&self, conn_id: i32, handle: u16, auth_req: i32) -> (c: GattClientCall)
        ensures
            c == GattClientCall::ReadDescriptor(conn_id, handle, auth_req),
    {
        GattClientCall::ReadDescriptor(conn_id, handle, auth_req)
    }

    /// Packages a descriptor write; the call carries its own copy of the
    /// value bytes.
    pub fn write_descriptor(&self, conn_id: i32, handle: u16, auth_req: i32, value: &[u8]) -> (c:
        GattClientCall)
        ensures
            c matches GattClientCall::WriteDescriptor(ci, h, ar, v) && ci == conn_id && h == handle
                && ar == auth_req && v@ == value@,
    {
        GattClientCall::WriteDescriptor(conn_id, handle, auth_req, vstd::slice::slice_to_vec(value))
    }

    /// Packages an execute-write decision for queued writes.
    pub fn execute_write(&self, conn_id: i32, execute: i32) -> (c: GattClientCall)
        ensures
            c == GattClientCall::ExecuteWrite(conn_id, execute),
    {
        GattClientCall::ExecuteWrite(conn_id, execute)
    }

    /// Packages a notification registration for one handle.
    pub fn register_for_notification(&self, client_if: i32, addr: &RawAddress, handle: u16) -> (c:
        GattClientCall)
        ensures
            c == GattClientCall::RegisterForNotification(client_if, *addr, handle),
    {
        GattClientCall::RegisterForNotification(client_if, *addr, handle)
    }

    /// Packages a notification deregistration for one handle.
    pub fn deregister_for_notification(&self, client_if: i32, addr: &RawAddress, handle: u16) -> (c:
        GattClientCall)
        ensures
            c == GattClientCall::DeregisterForNotification(client_if, *addr, handle),
    {
        GattClientCall::DeregisterForNotification(client_if, *addr, handle)
    }

    /// Packages a remote RSSI read.
    pub fn read_remote_rssi(&self, client_if: i32, addr: &RawAddress) -> (c: GattClientCall)
        ensures
            c == GattClientCall::ReadRemoteRssi(client_if, *addr),
    {
        GattClientCall::ReadRemoteRssi(client_if, *addr)
    }

    /// Packages a device-type query.
    pub fn get_device_type(&self, addr: &RawAddress) -> (c: GattClientCall)
        ensures
            c == GattClientCall::GetDeviceType(*addr),
    {
        GattClientCall::GetDeviceType(*addr)
    }

    /// Packages an MTU change for one connection.
    pub fn configure_mtu(&self, conn_id: i32, mtu: i32) -> (c: GattClientCall)
        ensures
            c == GattClientCall::ConfigureMtu(conn_id, mtu),
    {
        GattClientCall::ConfigureMtu(conn_id, mtu)
    }

    /// Packages a connection-parameter update.
    pub fn conn_parameter_update(
        &self,
        addr: &RawAddress,
        min_interval: i32,
        max_interval: i32,
        latency: i32,
        timeout: i32,
        min_ce_len: u16,
        max_ce_len: u16,
    ) -> (c: GattClientCall)
        ensures
            c == GattClientCall::ConnParameterUpdate(
                *addr,
                min_interval,
                max_interval,
                latency,
                timeout,
                min_ce_len,
                max_ce_len,
            ),
    {
        GattClientCall::ConnParameterUpdate(
            *addr,
            min_interval,
            max_interval,
            latency,
            timeout,
            min_ce_len,
            max_ce_len,
        )
    }

    /// Packages a preferred-PHY change for one device.
    pub fn set_preferred_phy(&self, addr: &RawAddress, tx_phy: u8, rx_phy: u8, phy_options: u16) -> (
        c: GattClientCall)
        ensures
            c == GattClientCall::SetPreferredPhy(*addr, tx_phy, rx_phy, phy_options),
    {
        GattClientCall::SetPreferredPhy(*addr, tx_phy, rx_phy, phy_options)
    }

    /// Packages an engine test command.
    pub fn test_command(&self, command: i32, params: &BtGattTestParams) -> (c: GattClientCall)
        ensures
            c == GattClientCall::TestCommand(command, *params),
    {
        GattClientCall::TestCommand(command, *params)
    }

    /// Packages a request for one connection's GATT database.
    pub fn get_gatt_db(&self, conn_id: i32) -> (c: GattClientCall)
        ensures
            c == GattClientCall::GetGattDb(conn_id),
    {
        GattClientCall::GetGattDb(conn_id)
    }
}

/// Server control surface of the GATT profile.
pub struct GattServer {}

impl GattServer {
    /// Packages a server registration for the application `uuid`.
    pub fn register_server(&self, uuid: &Uuid, eatt_support: bool) -> (c: GattServerCall)
        ensures
            c == GattServerCall::RegisterServer(*uuid, eatt_support),
    {
        GattServerCall::RegisterServer(*uuid, eatt_support)
    }

    /// Packages a server deregistration.
    pub fn unregister_server(&self, server_if: i32) -> (c: GattServerCall)
        ensures
            c == GattServerCall::UnregisterServer(server_if),
    {
        GattServerCall::UnregisterServer(server_if)
    }

    /// Packages a connection request.
    pub fn connect(&self, server_if: i32, addr: &RawAddress, is_direct: bool, transport: i32) -> (c:
        GattServerCall)
        ensures
            c == GattServerCall::Connect(server_if, *addr, is_direct, transport),
    {
        GattServerCall::Connect(server_if, *addr, is_direct, transport)
    }

    /// Packages a disconnection request.
    pub fn disconnect(&self, server_if: i32, addr: &RawAddress, conn_id: i32) -> (c: GattServerCall)
        ensures
            c == GattServerCall::Disconnect(server_if, *addr, conn_id),
    {
        GattServerCall::Disconnect(server_if, *addr, conn_id)
    }

    /// Packages a service addition; the call carries its own copy of the
    /// service's database rows.
    pub fn add_service(&self, server_if: i32, service: &[BtGattDbElement]) -> (c: GattServerCall)
        ensures
            c matches GattServerCall::AddService(si, rows) && si == server_if && rows@ == service@,
    {
        GattServerCall::AddService(server_if, vstd::slice::slice_to_vec(service))
    }

    /// Packages a service stop.
    pub fn stop_service(&self, server_if: i32, service_handle: i32) -> (c: GattServerCall)
        ensures
            c == GattServerCall::StopService(server_if, service_handle),
    {
        GattServerCall::StopService(server_if, service_handle)
    }

    /// Packages a service deletion.
    pub fn delete_service(&self, server_if: i32, service_handle: i32) -> (c: GattServerCall)
        ensures
            c == GattServerCall::DeleteService(server_if, service_handle),
    {
        GattServerCall::DeleteService(server_if, service_handle)
    }

    /// Packages an indication; the call carries its own copy of the value
    /// bytes.
    pub fn send_indication(
        &self,
        server_if: i32,
        attribute_handle: i32,
        conn_id: i32,
        confirm: i32,
        value: &[u8],
    ) -> (c: GattServerCall)
        ensures
            c matches GattServerCall::SendIndication(si, ah, ci, cf, v) && si == server_if && ah
                == attribute_handle && ci == conn_id && cf == confirm && v@ == value@,
    {
        GattServerCall::SendIndication(
            server_if,
            attribute_handle,
            conn_id,
            confirm,
            vstd::slice::slice_to_vec(value),
        )
    }

    /// Packages the reply to one attribute request.
    pub fn send_response(&self, conn_id: i32, trans_id: i32, status: i32, response: &BtGattResponse) -> (
        c: GattServerCall)
        ensures
            c matches GattServerCall::SendResponse(ci, ti, st, resp) && ci == conn_id && ti
                == trans_id && st == status && resp.handle == response.handle && resp.offset
                == response.offset && resp.auth_req == response.auth_req && resp.value@
                == response.value@,
    {
        let resp = BtGattResponse {
            handle: response.handle,
            offset: response.offset,
            auth_req: response.auth_req,
            value: vstd::slice::slice_to_vec(response.value.as_slice()),
        };
        GattServerCall::SendResponse(conn_id, trans_id, status, resp)
    }

    /// Packages a preferred-PHY change for one device.
    pub fn set_preferred_phy(&self, addr: &RawAddress, tx_phy: u8, rx_phy: u8, phy_options: u16) -> (
        c: GattServerCall)
        ensures
            c == GattServerCall::SetPreferredPhy(*addr, tx_phy, rx_phy, phy_options),
    {
        GattServerCall::SetPreferredPhy(*addr, tx_phy, rx_phy, phy_options)
    }
}

/// Scanner control surface; the native side does not expose it yet.
pub struct BleScanner {}

/// Advertiser control surface; the native side does not expose it yet.
pub struct BleAdvertiser {}

/// The GATT profile: client and server surfaces plus the wiring of their
/// callback dispatchers.
pub struct Gatt {
    pub is_init: bool,
    pub client: GattClient,
    pub server: GattServer,
    pub scanner: BleScanner,
    pub advertiser: BleAdvertiser,
    /// Client dispatcher wiring, kept for the lifetime of the profile.
    pub gatt_client_callbacks: Option<GattClientCallbacksDispatcher>,
    /// Server dispatcher wiring, kept for the lifetime of the profile.
    pub gatt_server_callbacks: Option<GattServerCallbacksDispatcher>,
}

impl Gatt {
    /// A profile not yet initialized against the engine.
    pub fn new() -> (g: Gatt)
        ensures
            !g.is_init,
    {
        Gatt {
            is_init: false,
            client: GattClient {  },
            server: GattServer {  },
            scanner: BleScanner {  },
            advertiser: BleAdvertiser {  },
            gatt_client_callbacks: None,
            gatt_server_callbacks: None,
        }
    }

    /// True when engine initialization has succeeded.
    pub fn is_initialized(&self) -> (r: bool)
        ensures
            r == self.is_init,
    {
        self.is_init
    }

    /// Installs the client and server callback dispatchers and records
    /// the engine's initialization status: zero is success. At most one
    /// dispatcher per kind may ever be installed in the process;
    /// attempting a second installation is a contract violation, not a
    /// silent overwrite.
    pub fn initialize(
        &mut self,
        registry: &mut DispatcherRegistry,
        gatt_client_callbacks_dispatcher: GattClientCallbacksDispatcher,
        gatt_server_callbacks_dispatcher: GattServerCallbacksDispatcher,
        init_status: i32,
    ) -> (r: bool)
        requires
            !old(registry).gatt_client_set,
            !old(registry).gatt_server_set,
        ensures
            final(registry).gatt_client_set,
            final(registry).gatt_server_set,
            final(registry).a2dp_set == old(registry).a2dp_set,
            final(self).is_init == (init_status == 0),
            r == final(self).is_init,
            final(self).gatt_client_callbacks == Some(gatt_client_callbacks_dispatcher),
            final(self).gatt_server_callbacks == Some(gatt_server_callbacks_dispatcher),
    {
        registry.set_gatt_client();
        registry.set_gatt_server();
        self.gatt_client_callbacks = Some(gatt_client_callbacks_dispatcher);
        self.gatt_server_callbacks = Some(gatt_server_callbacks_dispatcher);
        self.is_init = init_status == 0;
        self.is_init
    }
}

} // verus!

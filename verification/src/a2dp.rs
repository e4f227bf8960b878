//! The A2DP profile shim: native-facing types, the events its callbacks
//! normalize to, and the typed requests its control surface issues to the
//! native engine.

use vstd::prelude::*;

use crate::Message;
use crate::btif::{RawAddress, is_valid_address_string, spec_parse_address};
use crate::registry::DispatcherRegistry;

verus! {

/// Connection state of an audio/video peer.
#[derive(Clone, Copy, Debug, PartialEq, Eq, Structural)]
pub enum BtavConnectionState {
    Disconnected,
    Connecting,
    Connected,
    Disconnecting,
}

/// The connection state a native code names, if any.
pub open spec fn spec_connection_state_from_u32(item: u32) -> Option<BtavConnectionState> {
    if item == 0 {
        Some(BtavConnectionState::Disconnected)
    } else if item == 1 {
        Some(BtavConnectionState::Connecting)
    } else if item == 2 {
        Some(BtavConnectionState::Connected)
    } else if item == 3 {
        Some(BtavConnectionState::Disconnecting)
    } else {
        None
    }
}

impl BtavConnectionState {
    /// Decodes a native connection-state code; codes outside the
    /// documented range name no state.
    pub fn from_u32(item: u32) -> (r: Option<BtavConnectionState>)
        ensures
            r == spec_connection_state_from_u32(item),
    {
        match item {
            0 => Some(BtavConnectionState::Disconnected),
            1 => Some(BtavConnectionState::Connecting),
            2 => Some(BtavConnectionState::Connected),
            3 => Some(BtavConnectionState::Disconnecting),
            _ => None,
        }
    }
}

/// Audio stream state of an audio/video peer.
#[derive(Clone, Copy, Debug, PartialEq, Eq, Structural)]
pub enum BtavAudioState {
    RemoteSuspend,
    Stopped,
    Started,
}

/// The audio state a native code names, if any.
pub open spec fn spec_audio_state_from_u32(item: u32) -> Option<BtavAudioState> {
    if item == 0 {
        Some(BtavAudioState::RemoteSuspend)
    } else if item == 1 {
        Some(BtavAudioState::Stopped)
    } else if item == 2 {
        Some(BtavAudioState::Started)
    } else {
        None
    }
}

impl BtavAudioState {
    /// Decodes a native audio-state code; codes outside the documented
    /// range name no state.
    pub fn from_u32(item: u32) -> (r: Option<BtavAudioState>)
        ensures
            r == spec_audio_state_from_u32(item),
    {
        match item {
            0 => Some(BtavAudioState::RemoteSuspend),
            1 => Some(BtavAudioState::Stopped),
            2 => Some(BtavAudioState::Started),
            _ => None,
        }
    }
}

/// Index of a codec in the native engine's table.
#[derive(Clone, Copy, Debug, PartialEq, Eq, Structural)]
pub enum A2dpCodecIndex {
    SrcSbc,
    SrcAac,
    SrcAptx,
    SrcAptxHD,
    SrcLdac,
    SinkSbc,
    SinkAac,
    SinkLdac,
    Max,
}

/// The codec index a native code names; codes outside the table fall
/// back to the first source codec.
pub open spec fn spec_codec_index_from_u32(item: u32) -> A2dpCodecIndex {
    if item == 0 {
        A2dpCodecIndex::SrcSbc
    } else if item == 1 {
        A2dpCodecIndex::SrcAac
    } else if item == 2 {
        A2dpCodecIndex::SrcAptx
    } else if item == 3 {
        A2dpCodecIndex::SrcAptxHD
    } else if item == 4 {
        A2dpCodecIndex::SrcLdac
    } else if item == 5 {
        A2dpCodecIndex::SinkSbc
    } else if item == 6 {
        A2dpCodecIndex::SinkAac
    } else if item == 7 {
        A2dpCodecIndex::SinkLdac
    } else if item == 8 {
        A2dpCodecIndex::Max
    } else {
        A2dpCodecIndex::SrcSbc
    }
}

impl A2dpCodecIndex {
    /// Decodes a native codec-index code, falling back to the first
    /// source codec on an unknown code.
    pub fn from_u32(item: u32) -> (r: A2dpCodecIndex)
        ensures
            r == spec_codec_index_from_u32(item),
    {
        match item {
            0 => A2dpCodecIndex::SrcSbc,
            1 => A2dpCodecIndex::SrcAac,
            2 => A2dpCodecIndex::SrcAptx,
            3 => A2dpCodecIndex::SrcAptxHD,
            4 => A2dpCodecIndex::SrcLdac,
            5 => A2dpCodecIndex::SinkSbc,
            6 => A2dpCodecIndex::SinkAac,
            7 => A2dpCodecIndex::SinkLdac,
            8 => A2dpCodecIndex::Max,
            _ => A2dpCodecIndex::SrcSbc,
        }
    }
}

/// Priority assigned to a codec.
#[derive(Clone, Copy, Debug, PartialEq, Eq, Structural)]
pub enum A2dpCodecPriority {
    Disabled,
    Default,
    Highest,
}

/// The priority a native code names; unknown codes fall back to the
/// default priority.
pub open spec fn spec_codec_priority_from_i32(item: i32) -> A2dpCodecPriority {
    if item == -1 {
        A2dpCodecPriority::Disabled
    } else if item == 0 {
        A2dpCodecPriority::Default
    } else if item == 1000000 {
        A2dpCodecPriority::Highest
    } else {
        A2dpCodecPriority::Default
    }
}

impl A2dpCodecPriority {
    /// Decodes a native priority code, falling back to the default
    /// priority on an unknown code.
    pub fn from_i32(item: i32) -> (r: A2dpCodecPriority)
        ensures
            r == spec_codec_priority_from_i32(item),
    {
        if item == -1 {
            A2dpCodecPriority::Disabled
        } else if item == 0 {
            A2dpCodecPriority::Default
        } else if item == 1000000 {
            A2dpCodecPriority::Highest
        } else {
            A2dpCodecPriority::Default
        }
    }

    /// The native code of this priority.
    pub fn to_i32(&self) -> (r: i32)
        ensures
            spec_codec_priority_from_i32(r) == *self,
    {
        match self {
            A2dpCodecPriority::Disabled => -1,
            A2dpCodecPriority::Default => 0,
            A2dpCodecPriority::Highest => 1000000,
        }
    }
}

/// Bit set of the sampling rates a codec supports. The defined rate bits
/// occupy the low eight positions.
#[derive(Clone, Copy, Debug, PartialEq, Eq, Structural)]
pub struct A2dpCodecSampleRate {
    pub bits: i32,
}

impl A2dpCodecSampleRate {
    /// True when `val` uses only defined rate bits: the union of all
    /// defined rate bits is 0xff, so any value at most 0xff is valid.
    pub fn validate_bits(val: i32) -> (r: bool)
        ensures
            r == (val <= 0xff),
    {
        val <= 0xff
    }
}

/// Bit set of the sample widths a codec supports; the three defined bits
/// are 16, 24 and 32 bits per sample.
#[derive(Clone, Copy, Debug, PartialEq, Eq, Structural)]
pub struct A2dpCodecBitsPerSample {
    pub bits: i32,
}

impl A2dpCodecBitsPerSample {
    /// True when `val` uses only defined sample-width bits: their union
    /// is 0x07.
    pub fn validate_bits(val: i32) -> (r: bool)
        ensures
            r == (val <= 0x07),
    {
        val <= 0x07
    }
}

/// Bit set of the channel modes a codec supports; the defined bits are
/// mono and stereo.
#[derive(Clone, Copy, Debug, PartialEq, Eq, Structural)]
pub struct A2dpCodecChannelMode {
    pub bits: i32,
}

impl A2dpCodecChannelMode {
    /// True when `val` uses only defined channel-mode bits: their union
    /// is 0x03.
    pub fn validate_bits(val: i32) -> (r: bool)
        ensures
            r == (val <= 0x03),
    {
        val <= 0x03
    }
}

/// A device address in the layout the native engine exchanges.
#[derive(Clone, Copy, Debug)]
pub struct RustRawAddress {
    pub address: [u8; 6],
}

/// A device address in the layout the native engine exchanges.
pub type FfiAddress = RustRawAddress;

impl RustRawAddress {
    /// Repacks a stack address into the native layout.
    pub fn from_address(addr: RawAddress) -> (r: RustRawAddress)
        ensures
            r.address@ == addr.val@,
    {
        RustRawAddress { address: addr.val }
    }

    /// Repacks a native-layout address into the stack's own.
    pub fn to_address(self) -> (r: RawAddress)
        ensures
            r.val@ == self.address@,
    {
        RawAddress { val: self.address }
    }
}

/// One codec configuration as the native engine describes it.
#[derive(Clone, Copy, Debug, PartialEq, Eq, Structural)]
pub struct A2dpCodecConfig {
    pub codec_type: i32,
    pub codec_priority: i32,
    pub sample_rate: i32,
    pub bits_per_sample: i32,
    pub channel_mode: i32,
    pub codec_specific_1: i64,
    pub codec_specific_2: i64,
    pub codec_specific_3: i64,
    pub codec_specific_4: i64,
}

impl Default for A2dpCodecConfig {
    /// The all-zero configuration.
    fn default() -> (c: A2dpCodecConfig)
        ensures
            c == (A2dpCodecConfig {
                codec_type: 0,
                codec_priority: 0,
                sample_rate: 0,
                bits_per_sample: 0,
                channel_mode: 0,
                codec_specific_1: 0,
                codec_specific_2: 0,
                codec_specific_3: 0,
                codec_specific_4: 0,
            }),
    {
        A2dpCodecConfig {
            codec_type: 0,
            codec_priority: 0,
            sample_rate: 0,
            bits_per_sample: 0,
            channel_mode: 0,
            codec_specific_1: 0,
            codec_specific_2: 0,
            codec_specific_3: 0,
            codec_specific_4: 0,
        }
    }
}

/// One normalized A2DP occurrence from the native stack, ready to queue
/// for the dispatch loop.
#[derive(Debug)]
pub enum A2dpCallbacks {
    ConnectionState(RawAddress, BtavConnectionState),
    AudioState(RawAddress, BtavAudioState),
    AudioConfig(RawAddress, A2dpCodecConfig, Vec<A2dpCodecConfig>, Vec<A2dpCodecConfig>),
    MandatoryCodecPreferred(RawAddress),
}

/// Normalizes each raw A2DP callback into exactly one dispatch event and
/// enqueues it, in arrival order, for the single consumer. The queue is
/// drained by the stack's dispatch loop.
pub struct A2dpCallbacksDispatcher {
    pub queue: Vec<Message>,
}

impl A2dpCallbacksDispatcher {
    /// A dispatcher with nothing queued.
    pub fn new() -> (d: A2dpCallbacksDispatcher)
        ensures
            d.queue@ == Seq::<Message>::empty(),
    {
        A2dpCallbacksDispatcher { queue: Vec::new() }
    }

    /// Queues one normalized event behind those already waiting; never
    /// reorders or drops.
    pub fn dispatch(&mut self, cb: A2dpCallbacks)
        ensures
            final(self).queue@ == old(self).queue@.push(Message::A2dp(cb)),
    {
        self.queue.push(Message::A2dp(cb));
    }
}

/// One typed request to the native A2DP engine, packaged and ready to
/// perform.
#[derive(Debug)]
pub enum A2dpCall {
    Connect(FfiAddress),
    SetActiveDevice(FfiAddress),
    Disconnect(FfiAddress),
    SetAudioConfig(A2dpCodecConfig),
    StartAudioRequest,
    StopAudioRequest,
}

/// Control surface of the A2DP profile: validates and packages each
/// request into the typed call the native engine performs.
pub struct A2dp {
    _is_init: bool,
    callbacks: Option<A2dpCallbacksDispatcher>,
}

impl A2dp {
    /// A control surface not yet wired to callbacks.
    pub fn new() -> A2dp {
        A2dp { _is_init: false, callbacks: None }
    }

    /// Installs the A2DP callback dispatcher. At most one dispatcher per
    /// process may ever be installed; attempting a second installation is
    /// a contract violation, not a silent overwrite.
    pub fn initialize(&mut self, registry: &mut DispatcherRegistry, callbacks: A2dpCallbacksDispatcher) -> (r: bool)
        requires
            !old(registry).a2dp_set,
        ensures
            r == true,
            final(registry).a2dp_set,
            final(registry).gatt_client_set == old(registry).gatt_client_set,
            final(registry).gatt_server_set == old(registry).gatt_server_set,
    {
        registry.set_a2dp();
        self.callbacks = Some(callbacks);
        true
    }

    /// Packages a connection request for the device `device` names, or
    /// reports an invalid device string by returning nothing.
    pub fn connect(&self, device: &str) -> (r: Option<A2dpCall>)
        ensures
            r is Some <==> is_valid_address_string(device@),
            r matches Some(c) ==> (c matches A2dpCall::Connect(a) && a.address@
                == spec_parse_address(device@)),
    {
        match RawAddress::from_string(device) {
            Some(addr) => Some(A2dpCall::Connect(RustRawAddress::from_address(addr))),
            None => None,
        }
    }

    /// Packages an active-device change, or reports an invalid device
    /// string by returning nothing.
    pub fn set_active_device(&self, device: &str) -> (r: Option<A2dpCall>)
        ensures
            r is Some <==> is_valid_address_string(device@),
            r matches Some(c) ==> (c matches A2dpCall::SetActiveDevice(a) && a.address@
                == spec_parse_address(device@)),
    {
        match RawAddress::from_string(device) {
            Some(addr) => Some(A2dpCall::SetActiveDevice(RustRawAddress::from_address(addr))),
            None => None,
        }
    }

    /// Packages a disconnection request, or reports an invalid device
    /// string by returning nothing.
    pub fn disconnect(&self, device: &str) -> (r: Option<A2dpCall>)
        ensures
            r is Some <==> is_valid_address_string(device@),
            r matches Some(c) ==> (c matches A2dpCall::Disconnect(a) && a.address@
                == spec_parse_address(device@)),
    {
        match RawAddress::from_string(device) {
            Some(addr) => Some(A2dpCall::Disconnect(RustRawAddress::from_address(addr))),
            None => None,
        }
    }

    /// Packages an audio-configuration change; every field the request
    /// does not name stays at its default.
    pub fn set_audio_config(&self, sample_rate: i32, bits_per_sample: i32, channel_mode: i32) -> (r:
        A2dpCall)
        ensures
            r == (A2dpCall::SetAudioConfig(
                A2dpCodecConfig {
                    codec_type: 0,
                    codec_priority: 0,
                    sample_rate,
                    bits_per_sample,
                    channel_mode,
                    codec_specific_1: 0,
                    codec_specific_2: 0,
                    codec_specific_3: 0,
                    codec_specific_4: 0,
                },
            )),
    {
        let config = A2dpCodecConfig {
            sample_rate,
            bits_per_sample,
            channel_mode,
            ..Default::default()
        };
        A2dpCall::SetAudioConfig(config)
    }

    /// Packages a request to start streaming audio.
    pub fn start_audio_request(&self) -> (r: A2dpCall)
        ensures
            r == A2dpCall::StartAudioRequest,
    {
        A2dpCall::StartAudioRequest
    }

    /// Packages a request to stop streaming audio.
    pub fn stop_audio_request(&self) -> (r: A2dpCall)
        ensures
            r == A2dpCall::StopAudioRequest,
    {
        A2dpCall::StopAudioRequest
    }
}

} // verus!

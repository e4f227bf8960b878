use bus_projection::Message;
use bus_projection::a2dp::{
    A2dp, A2dpCall, A2dpCallbacks, A2dpCallbacksDispatcher, A2dpCodecBitsPerSample,
    A2dpCodecChannelMode, A2dpCodecConfig, A2dpCodecIndex, A2dpCodecPriority,
    A2dpCodecSampleRate, BtavAudioState, BtavConnectionState,
};
use bus_projection::btif::RawAddress;
use bus_projection::registry::DispatcherRegistry;

#[test]
fn validate_sample_rate() {
    assert!(!A2dpCodecSampleRate::validate_bits(256));
    assert!(A2dpCodecSampleRate::validate_bits(2 + 32 + 128));
}

#[test]
fn validate_bits_per_sample() {
    assert!(!A2dpCodecBitsPerSample::validate_bits(8));
    assert!(A2dpCodecBitsPerSample::validate_bits(1 + 4));
}

#[test]
fn validate_channel_mode() {
    assert!(!A2dpCodecChannelMode::validate_bits(4));
    assert!(A2dpCodecChannelMode::validate_bits(1 + 2));
}

#[test]
fn connection_states_decode_from_native_codes() {
    assert_eq!(BtavConnectionState::from_u32(0), Some(BtavConnectionState::Disconnected));
    assert_eq!(BtavConnectionState::from_u32(3), Some(BtavConnectionState::Disconnecting));
    assert_eq!(BtavConnectionState::from_u32(4), None);
    assert_eq!(BtavAudioState::from_u32(2), Some(BtavAudioState::Started));
    assert_eq!(BtavAudioState::from_u32(3), None);
}

#[test]
fn codec_index_and_priority_fall_back() {
    assert_eq!(A2dpCodecIndex::from_u32(5), A2dpCodecIndex::SinkSbc);
    assert_eq!(A2dpCodecIndex::from_u32(77), A2dpCodecIndex::SrcSbc);
    assert_eq!(A2dpCodecPriority::from_i32(-1), A2dpCodecPriority::Disabled);
    assert_eq!(A2dpCodecPriority::from_i32(1000000), A2dpCodecPriority::Highest);
    assert_eq!(A2dpCodecPriority::from_i32(3), A2dpCodecPriority::Default);
    assert_eq!(A2dpCodecPriority::Highest.to_i32(), 1000000);
}

#[test]
fn codec_config_defaults_to_all_zero() {
    let c = A2dpCodecConfig::default();
    assert_eq!(c.codec_type, 0);
    assert_eq!(c.sample_rate, 0);
    assert_eq!(c.codec_specific_4, 0);
}

#[test]
fn connect_packages_only_valid_devices() {
    let a2dp = A2dp::new();
    match a2dp.connect("00:11:22:33:44:55") {
        Some(A2dpCall::Connect(a)) => assert_eq!(a.address, [0x00, 0x11, 0x22, 0x33, 0x44, 0x55]),
        other => panic!("expected a connect request, got {:?}", other),
    }
    assert!(a2dp.connect("not-an-address").is_none());
    assert!(a2dp.disconnect("not-an-address").is_none());
    assert!(a2dp.set_active_device("not-an-address").is_none());
}

#[test]
fn set_audio_config_keeps_defaults_elsewhere() {
    let a2dp = A2dp::new();
    match a2dp.set_audio_config(2, 1, 1) {
        A2dpCall::SetAudioConfig(c) => {
            assert_eq!(c.sample_rate, 2);
            assert_eq!(c.bits_per_sample, 1);
            assert_eq!(c.channel_mode, 1);
            assert_eq!(c.codec_type, 0);
            assert_eq!(c.codec_priority, 0);
        },
        other => panic!("expected an audio-config request, got {:?}", other),
    }
    assert!(matches!(a2dp.start_audio_request(), A2dpCall::StartAudioRequest));
    assert!(matches!(a2dp.stop_audio_request(), A2dpCall::StopAudioRequest));
}

#[test]
fn initialize_installs_the_dispatcher_once() {
    let mut reg = DispatcherRegistry::new();
    let mut a2dp = A2dp::new();
    assert!(a2dp.initialize(&mut reg, A2dpCallbacksDispatcher::new()));
    assert!(reg.a2dp_set);
}

#[test]
fn dispatcher_queues_events_in_arrival_order() {
    let mut d = A2dpCallbacksDispatcher::new();
    let a = RawAddress { val: [1, 2, 3, 4, 5, 6] };
    d.dispatch(A2dpCallbacks::MandatoryCodecPreferred(a));
    d.dispatch(A2dpCallbacks::ConnectionState(a, BtavConnectionState::Connected));
    assert_eq!(d.queue.len(), 2);
    assert!(matches!(
        &d.queue[0],
        Message::A2dp(A2dpCallbacks::MandatoryCodecPreferred(_))
    ));
    assert!(matches!(
        &d.queue[1],
        Message::A2dp(A2dpCallbacks::ConnectionState(_, BtavConnectionState::Connected))
    ));
}

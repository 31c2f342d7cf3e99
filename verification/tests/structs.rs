use multiwii_serial_protocol::structs::{
    MixerMode, MspBfConfig, MspMixerConfig, MspRcChannel, MspRcMappedChannel,
};

#[test]
fn test_mixer() {
    let m = MspMixerConfig { mixer_mode: MixerMode::QuadX };
    assert_eq!(3, m.mixer_mode.to_primitive());
    let p = m.pack();
    assert_eq!(&[3], &p);
}

#[test]
fn mixer_mode_numbers() {
    let all = [
        (MixerMode::Tri, 1u8),
        (MixerMode::QuadPlus, 2),
        (MixerMode::QuadX, 3),
        (MixerMode::Bicopter, 4),
        (MixerMode::Gimbal, 5),
        (MixerMode::Y6, 6),
        (MixerMode::Hex6, 7),
        (MixerMode::FlyingWing, 8),
        (MixerMode::Y4, 9),
        (MixerMode::Hex6X, 10),
        (MixerMode::OctoX8, 11),
    ];
    for (mode, number) in all {
        assert_eq!(number, mode.to_primitive());
        assert_eq!(Some(mode), MixerMode::from_primitive(number));
    }
    assert_eq!(None, MixerMode::from_primitive(0));
    assert_eq!(None, MixerMode::from_primitive(12));
    assert_eq!(None, MixerMode::from_primitive(255));
}

#[test]
fn rc_channel_numbers() {
    assert_eq!(0, MspRcChannel::Roll.to_primitive());
    assert_eq!(1, MspRcChannel::Pitch.to_primitive());
    assert_eq!(2, MspRcChannel::Yaw.to_primitive());
    assert_eq!(3, MspRcChannel::Throttle.to_primitive());
    assert_eq!(4, MspRcChannel::Aux1.to_primitive());
    assert_eq!(19, MspRcChannel::Aux16.to_primitive());
    for number in 0..=255u8 {
        match MspRcChannel::from_primitive(number) {
            Some(channel) => {
                assert!(number <= 19);
                assert_eq!(number, channel.to_primitive());
            }
            None => assert!(number > 19),
        }
    }
}

#[test]
fn one_byte_records() {
    let m = MspMixerConfig::unpack(&[11]).unwrap();
    assert_eq!(MixerMode::OctoX8, m.mixer_mode);
    assert_eq!([11], m.pack());
    assert!(MspMixerConfig::unpack(&[0]).is_none());

    let c = MspRcMappedChannel { channel: MspRcChannel::Throttle };
    assert_eq!([3], c.pack());
    let back = MspRcMappedChannel::unpack(&[3]).unwrap();
    assert_eq!(MspRcChannel::Throttle, back.channel);
    assert!(MspRcMappedChannel::unpack(&[20]).is_none());
}

#[test]
fn default_record_is_zeroed() {
    let c = MspBfConfig::default();
    assert_eq!(0, c.mixer_configuration);
    assert_eq!(0, c.features);
    assert_eq!(0, c.current_offset);
}

//! MSP structures: the records that packet payloads carry, as plain data.

use vstd::prelude::*;

verus! {

#[derive(Debug, Copy, Clone)]
pub struct MspApiVersion {
    pub protocol_version: u8,
    pub api_version_major: u8,
    pub api_version_minor: u8,
}

#[derive(Debug, Copy, Clone)]
pub struct MspFlightControllerVariant {
    pub identifier: [u8; 4],
}

#[derive(Debug, Copy, Clone)]
pub struct MspFlightControllerVersion {
    pub major: u8,
    pub minor: u8,
    pub patch: u8,
}

#[derive(Debug, Copy, Clone)]
pub struct MspBoardInfo {
    pub board_id: [u8; 4],
    pub hardware_revision: u16,
    pub fc_type: u8,
}

#[derive(Debug, Copy, Clone)]
pub struct MspBuildInfo {
    pub date_str: [u8; 11],
    pub time_str: [u8; 8],
    pub git_str: [u8; 7],
}

#[derive(Debug, Copy, Clone)]
pub struct MspUniqueId {
    pub uid: [u8; 12],
}

#[derive(Debug, Copy, Clone)]
pub struct MspAvailableSensors {
    pub sonar: bool,
    pub gps: bool,
    pub mag: bool,
    pub baro: bool,
    pub acc: bool,
}

#[derive(Debug, Copy, Clone)]
pub struct MspStatus {
    pub cycle_time: u16,
    pub i2c_errors: u16,
    pub sensors: MspAvailableSensors,
    pub null1: u8,
    pub flight_mode: u32,
    pub profile: u8,
    pub system_load: u16,
}

#[derive(Debug, Copy, Clone)]
pub struct MspStatusEx {
    pub cycle_time: u16,
    pub i2c_errors: u16,
    pub sensors: MspAvailableSensors,
    pub null1: u8,
    pub flight_mode: u32,
    pub current_pid_profile_index: u8,
    pub average_system_load_percent: u16,
    pub max_profile_count: u8,
    pub current_control_rate_profile_index: u8,
}

#[derive(Debug, Copy, Clone, Default)]
pub struct MspBfConfig {
    pub mixer_configuration: u8,
    pub features: u32,
    pub serial_rx_provider: u8,
    pub board_align_roll: i16,
    pub board_align_pitch: i16,
    pub board_align_yaw: i16,
    pub current_scale: i16,
    pub current_offset: i16,
}

#[derive(Debug, Copy, Clone)]
pub struct MspRawImu {
    pub acc_x: i16,
    pub acc_y: i16,
    pub acc_z: i16,
    pub gyro_x: i16,
    pub gyro_y: i16,
    pub gyro_z: i16,
    pub mag_x: i16,
    pub mag_y: i16,
    pub mag_z: i16,
}

#[derive(Debug, Copy, Clone)]
pub struct MspDataFlashSummaryReply {
    pub supported: bool,
    pub ready: bool,
    pub sectors: u32,
    pub total_size_bytes: u32,
    pub used_size_bytes: u32,
}

#[derive(Debug, Copy, Clone)]
pub struct MspAccTrim {
    pub pitch: u16,
    pub roll: u16,
}

#[derive(Debug, Copy, Clone)]
pub struct MspIdent {
    pub version: u8,
    pub mixer_mode: u8,
    pub protocol_version: u8,
    pub capability: u32,
}

#[derive(Debug, Copy, Clone)]
pub struct MspMisc {
    pub rx_mid_rc: u16,
    pub min_throttle: u16,
    pub max_throttle: u16,
    pub min_command: u16,
    pub failsafe_throttle: u16,

    pub gps_type: u8,
    pub gps_baudrate: u8,
    pub gps_sbas_mode: u8,

    pub current_meter_output: u8,
    pub rssi_channel: u8,
    pub null1: u8,

    pub compass_mag_declination: u16,
}

#[derive(Debug, Copy, Clone)]
pub struct MspAttitude {
    pub roll: i16,
    pub pitch: i16,
    pub yaw: i16,
}

#[derive(Debug, Copy, Clone)]
pub struct MspAltitude {
    /// [centimeters]
    pub altitude: i32,
    /// variometer [cm/s]
    pub vario: i16,
}

#[derive(Debug, Copy, Clone)]
pub struct MspBatteryConfig {
    pub vbat_min_cell_voltage: u8,
    pub vbat_max_cell_voltage: u8,
    pub vbat_warning_cell_voltage: u8,
    pub battery_capacity: u16,
    pub voltage_meter_source: u8,
    pub current_meter_source: u8,
}

#[derive(Debug, Copy, Clone)]
pub struct MspAnalog {
    pub battery_voltage: u8,
    pub mah_drawn: u16,
    pub rssi: u16,
    /// Current in 0.01A steps, range is -320A to 320A
    pub amperage: i16,
}

#[derive(Debug, Copy, Clone)]
pub struct MspRssiConfig {
    pub rssi_channel: u8,
}

#[derive(Debug, Copy, Clone)]
pub struct MspVoltageMeter {
    pub id: u8,
    pub value: u8,
}

#[derive(Debug, Copy, Clone)]
pub struct MspCurrentMeter {
    pub id: u8,
    pub mah_drawn: u16,
    /// In 0.001A steps (mA)
    pub amperage: u16,
}

#[derive(Debug, Copy, Clone)]
pub struct MspBatteryState {
    pub battery_cell_count: u8,
    /// mAh
    pub battery_capacity: u16,

    pub battery_voltage: u8,
    pub mah_drawn: u16,
    /// 0.01A
    pub amperage: i16,

    pub alerts: u8,
}

#[derive(Debug, Copy, Clone, Default)]
pub struct MspRcTuning {
    pub rc_rate8: u8,
    pub rc_expo8: u8,

    pub rate_roll: u8,
    pub rate_pitch: u8,
    pub rate_yaw: u8,

    pub dyn_thr_pid: u8,
    pub thr_mid8: u8,
    pub thr_expo8: u8,
    pub tpa_breakpoint: u16,
    pub rc_yaw_expo8: u8,
    pub rc_yaw_rate8: u8,
}

#[derive(Debug, Copy, Clone, Default)]
pub struct MspRxConfig {
    pub serialrx_provider: u8,
    pub maxcheck: u16,
    pub midrc: u16,
    pub mincheck: u16,
    pub spektrum_sat_bind: u8,
    pub rx_min_usec: u16,
    pub rx_max_usec: u16,
    pub rc_interpolation: u8,
    pub rc_interpolation_interval: u8,
    pub air_mode_activate_threshold: u16,
    pub rx_spi_protocol: u8,
    pub rx_spi_id: u32,
    pub rx_spi_rf_channel_count: u8,
    pub fpv_cam_angle_degrees: u8,
}

#[derive(Debug, Copy, Clone, Default)]
pub struct MspRcChannelValue {
    pub value: u16,
}

#[derive(Debug, Copy, Clone, PartialEq, Eq, Structural)]
pub enum MspRcChannel {
    /// Ailerons
    Roll,
    /// Elevators
    Pitch,
    /// Rudder
    Yaw,
    Throttle,
    Aux1,
    Aux2,
    Aux3,
    Aux4,
    Aux5,
    Aux6,
    Aux7,
    Aux8,
    Aux9,
    Aux10,
    Aux11,
    Aux12,
    Aux13,
    Aux14,
    Aux15,
    Aux16,
}

impl MspRcChannel {
    /// The number that stands for a channel in a payload.
    pub open spec fn spec_to_primitive(self) -> u8 {
        match self {
            MspRcChannel::Roll => 0u8,
            MspRcChannel::Pitch => 1u8,
            MspRcChannel::Yaw => 2u8,
            MspRcChannel::Throttle => 3u8,
            MspRcChannel::Aux1 => 4u8,
            MspRcChannel::Aux2 => 5u8,
            MspRcChannel::Aux3 => 6u8,
            MspRcChannel::Aux4 => 7u8,
            MspRcChannel::Aux5 => 8u8,
            MspRcChannel::Aux6 => 9u8,
            MspRcChannel::Aux7 => 10u8,
            MspRcChannel::Aux8 => 11u8,
            MspRcChannel::Aux9 => 12u8,
            MspRcChannel::Aux10 => 13u8,
            MspRcChannel::Aux11 => 14u8,
            MspRcChannel::Aux12 => 15u8,
            MspRcChannel::Aux13 => 16u8,
            MspRcChannel::Aux14 => 17u8,
            MspRcChannel::Aux15 => 18u8,
            MspRcChannel::Aux16 => 19u8,
        }
    }

    /// Whether a number stands for a channel.
    pub open spec fn is_primitive(b: u8) -> bool {
        b <= 19u8
    }

    /// The number that stands for a channel in a payload.
    pub fn to_primitive(&self) -> (b: u8)
        ensures
            b == self.spec_to_primitive(),
    {
        match *self {
            MspRcChannel::Roll => 0u8,
            MspRcChannel::Pitch => 1u8,
            MspRcChannel::Yaw => 2u8,
            MspRcChannel::Throttle => 3u8,
            MspRcChannel::Aux1 => 4u8,
            MspRcChannel::Aux2 => 5u8,
            MspRcChannel::Aux3 => 6u8,
            MspRcChannel::Aux4 => 7u8,
            MspRcChannel::Aux5 => 8u8,
            MspRcChannel::Aux6 => 9u8,
            MspRcChannel::Aux7 => 10u8,
            MspRcChannel::Aux8 => 11u8,
            MspRcChannel::Aux9 => 12u8,
            MspRcChannel::Aux10 => 13u8,
            MspRcChannel::Aux11 => 14u8,
            MspRcChannel::Aux12 => 15u8,
            MspRcChannel::Aux13 => 16u8,
            MspRcChannel::Aux14 => 17u8,
            MspRcChannel::Aux15 => 18u8,
            MspRcChannel::Aux16 => 19u8,
        }
    }

    /// A channel that a number stands for, if any.
    pub fn from_primitive(b: u8) -> (r: Option<MspRcChannel>)
        ensures
            r is Some <==> Self::is_primitive(b),
            r matches Some(x) ==> x.spec_to_primitive() == b,
    {
        match b {
            0u8 => Some(MspRcChannel::Roll),
            1u8 => Some(MspRcChannel::Pitch),
            2u8 => Some(MspRcChannel::Yaw),
            3u8 => Some(MspRcChannel::Throttle),
            4u8 => Some(MspRcChannel::Aux1),
            5u8 => Some(MspRcChannel::Aux2),
            6u8 => Some(MspRcChannel::Aux3),
            7u8 => Some(MspRcChannel::Aux4),
            8u8 => Some(MspRcChannel::Aux5),
            9u8 => Some(MspRcChannel::Aux6),
            10u8 => Some(MspRcChannel::Aux7),
            11u8 => Some(MspRcChannel::Aux8),
            12u8 => Some(MspRcChannel::Aux9),
            13u8 => Some(MspRcChannel::Aux10),
            14u8 => Some(MspRcChannel::Aux11),
            15u8 => Some(MspRcChannel::Aux12),
            16u8 => Some(MspRcChannel::Aux13),
            17u8 => Some(MspRcChannel::Aux14),
            18u8 => Some(MspRcChannel::Aux15),
            19u8 => Some(MspRcChannel::Aux16),
            _ => None,
        }
    }
}

#[derive(Debug, Copy, Clone)]
pub struct MspRcMappedChannel {
    pub channel: MspRcChannel,
}

impl MspRcMappedChannel {
    /// The record as its one payload byte.
    pub fn pack(&self) -> (bytes: [u8; 1])
        ensures
            bytes@ == seq![self.channel.spec_to_primitive()],
    {
        [self.channel.to_primitive()]
    }

    /// The record that one payload byte stands for, if the byte names a channel.
    pub fn unpack(bytes: &[u8; 1]) -> (r: Option<MspRcMappedChannel>)
        ensures
            r is Some <==> MspRcChannel::is_primitive(bytes@[0]),
            r matches Some(x) ==> x.channel.spec_to_primitive() == bytes@[0],
    {
        match MspRcChannel::from_primitive(bytes[0]) {
            Some(channel) => Some(MspRcMappedChannel { channel }),
            None => None,
        }
    }
}

#[derive(Debug, Copy, Clone, Default)]
pub struct MspFeatures {
    pub features: [bool; 32],
}

#[derive(Debug, Copy, Clone, Default)]
pub struct MspMotor {
    pub motors: [u16; 8],
}

#[derive(Debug, Copy, Clone, Default)]
pub struct MspMotor3DConfig {
    pub deadband_3d_low: u16,
    pub deadband_3d_high: u16,
    pub neutral_3d: u16,
}

#[derive(Debug, Copy, Clone, Default)]
pub struct MspMotorConfig {
    pub min_throttle: u16,
    pub max_throttle: u16,
    pub min_command: u16,
}

#[derive(Debug, Copy, Clone, Default)]
pub struct MspRcDeadband {
    pub deadband: u8,
    pub yaw_deadband: u8,
    pub alt_hold_deadband: u8,
    pub deadband_3d_throttle: u16,
}

#[derive(Debug, Copy, Clone, Default)]
pub struct MspSensorAlignment {
    pub gyro_alignment: u8,
    pub acc_alignment: u8,
    pub mag_alignment: u8,
}

#[derive(Debug, Copy, Clone, Default)]
pub struct MspAdvancedConfig {
    pub gyro_sync_denom: u8,
    pub pid_process_denom: u8,
    pub use_unsynced_pwm: u8,
    pub motor_pwm_protocol: u8,
    pub motor_pwm_rate: u16,
    pub digital_idle_offset_percent: u16,
    pub gyro_use_32khz: u8,
    pub motor_pwm_inversion: u8,
}

#[derive(Debug, Copy, Clone, Default)]
pub struct MspFilterConfig {
    pub gyro_soft_lpf_hz: u8,
    pub dterm_lpf_hz: u16,
    pub yaw_lpf_hz: u16,
    pub gyro_soft_notch_hz_1: u16,
    pub gyro_soft_notch_cutoff_1: u16,
    pub dterm_notch_hz: u16,
    pub dterm_notch_cutoff: u16,
    pub gyro_soft_notch_hz_2: u16,
    pub gyro_soft_notch_cutoff_2: u16,
}

#[derive(Debug, Copy, Clone, Default)]
pub struct MspPidAdvanced {
    pub _r1: u16,
    pub _r2: u16,
    pub _r3: u16,
    pub _r4: u8,
    pub vbat_pid_compensation: u8,
    pub setpoint_relax_ratio: u8,
    pub dterm_setpoint_weight: u8,
    pub _r5: u8,
    pub _r6: u8,
    pub _r7: u8,
    pub rate_accel_limit: u16,
    pub yaw_rate_accel_limit: u16,
    pub level_angle_limit: u8,
    pub level_sensitivity: u8,
}

#[derive(Debug, Copy, Clone, Default)]
pub struct MspSensorConfig {
    pub acc_hardware: u8,
    pub baro_hardware: u8,
    pub mag_hardware: u8,
}

#[derive(Debug, Copy, Clone, Default)]
pub struct MspServos {
    pub servos: [u16; 8],
}

#[derive(Debug, Copy, Clone)]
pub struct MspMixerConfig {
    pub mixer_mode: MixerMode,
}

impl MspMixerConfig {
    /// The record as its one payload byte.
    pub fn pack(&self) -> (bytes: [u8; 1])
        ensures
            bytes@ == seq![self.mixer_mode.spec_to_primitive()],
    {
        [self.mixer_mode.to_primitive()]
    }

    /// The record that one payload byte stands for, if the byte names a mixer mode.
    pub fn unpack(bytes: &[u8; 1]) -> (r: Option<MspMixerConfig>)
        ensures
            r is Some <==> MixerMode::is_primitive(bytes@[0]),
            r matches Some(x) ==> x.mixer_mode.spec_to_primitive() == bytes@[0],
    {
        match MixerMode::from_primitive(bytes[0]) {
            Some(mixer_mode) => Some(MspMixerConfig { mixer_mode }),
            None => None,
        }
    }
}

#[derive(Debug, Copy, Clone, PartialEq, Eq, Structural)]
pub enum MixerMode {
    Tri,
    QuadPlus,
    QuadX,
    Bicopter,
    Gimbal,
    Y6,
    Hex6,
    FlyingWing,
    Y4,
    Hex6X,
    OctoX8,
}

impl MixerMode {
    /// The number that stands for a mixer mode in a payload.
    pub open spec fn spec_to_primitive(self) -> u8 {
        match self {
            MixerMode::Tri => 1u8,
            MixerMode::QuadPlus => 2u8,
            MixerMode::QuadX => 3u8,
            MixerMode::Bicopter => 4u8,
            MixerMode::Gimbal => 5u8,
            MixerMode::Y6 => 6u8,
            MixerMode::Hex6 => 7u8,
            MixerMode::FlyingWing => 8u8,
            MixerMode::Y4 => 9u8,
            MixerMode::Hex6X => 10u8,
            MixerMode::OctoX8 => 11u8,
        }
    }

    /// Whether a number stands for a mixer mode.
    pub open spec fn is_primitive(b: u8) -> bool {
        1u8 <= b && b <= 11u8
    }

    /// The number that stands for a mixer mode in a payload.
    pub fn to_primitive(&self) -> (b: u8)
        ensures
            b == self.spec_to_primitive(),
    {
        match *self {
            MixerMode::Tri => 1u8,
            MixerMode::QuadPlus => 2u8,
            MixerMode::QuadX => 3u8,
            MixerMode::Bicopter => 4u8,
            MixerMode::Gimbal => 5u8,
            MixerMode::Y6 => 6u8,
            MixerMode::Hex6 => 7u8,
            MixerMode::FlyingWing => 8u8,
            MixerMode::Y4 => 9u8,
            MixerMode::Hex6X => 10u8,
            MixerMode::OctoX8 => 11u8,
        }
    }

    /// A mixer mode that a number stands for, if any.
    pub fn from_primitive(b: u8) -> (r: Option<MixerMode>)
        ensures
            r is Some <==> Self::is_primitive(b),
            r matches Some(x) ==> x.spec_to_primitive() == b,
    {
        match b {
            1u8 => Some(MixerMode::Tri),
            2u8 => Some(MixerMode::QuadPlus),
            3u8 => Some(MixerMode::QuadX),
            4u8 => Some(MixerMode::Bicopter),
            5u8 => Some(MixerMode::Gimbal),
            6u8 => Some(MixerMode::Y6),
            7u8 => Some(MixerMode::Hex6),
            8u8 => Some(MixerMode::FlyingWing),
            9u8 => Some(MixerMode::Y4),
            10u8 => Some(MixerMode::Hex6X),
            11u8 => Some(MixerMode::OctoX8),
            _ => None,
        }
    }
}

} // verus!

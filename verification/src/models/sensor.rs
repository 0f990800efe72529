//! The fixed set of telemetry channels and what each one is called.

use vstd::prelude::*;

verus! {

/// Broad families of sensors.
#[derive(Debug, Clone, Copy, PartialEq, Eq, Hash, Structural)]
pub enum SensorType {
    Temperature,
    Pressure,
    Flow,
    Vibration,
}

/// Number of telemetry channels.
pub const CHANNEL_COUNT: usize = 29;

/// One telemetry channel. The variants are declared in the order in which a
/// tick emits its readings.
#[derive(Debug, Clone, Copy, PartialEq, Eq, Hash, Structural)]
pub enum SensorEnum {
    // Flight profile
    Acceleration,
    Altitude,
    Velocity,
    // Engine
    ChamberPressure,
    ChamberTemperature,
    OxidizerPressure,
    OxidizerFlowRate,
    OxidizerTemperature,
    FuelPressure,
    FuelFlowRate,
    FuelTemperature,
    TurboPumpRpm,
    Thrust,
    SpecificImpulse,
    NozzleTemperature,
    // Guidance, navigation and control
    RollAngle,
    PitchAngle,
    YawAngle,
    RollRate,
    PitchRate,
    YawRate,
    Latitude,
    Longitude,
    // Vibration
    VibrationX,
    VibrationY,
    VibrationZ,
    VibrationFreq,
    // System health
    HealthStatus,
    MissionPhase,
}

impl SensorEnum {
    /// Unit of measurement of the channel.
    pub open spec fn spec_unit(sensor_type: SensorEnum) -> Seq<char> {
        match sensor_type {
            SensorEnum::Acceleration => "m/s²"@,
            SensorEnum::Altitude => "meters"@,
            SensorEnum::Velocity => "m/s"@,
            SensorEnum::ChamberPressure => "psi"@,
            SensorEnum::ChamberTemperature => "°C"@,
            SensorEnum::OxidizerPressure => "psi"@,
            SensorEnum::OxidizerFlowRate => "kg/s"@,
            SensorEnum::OxidizerTemperature => "°C"@,
            SensorEnum::FuelPressure => "psi"@,
            SensorEnum::FuelFlowRate => "kg/s"@,
            SensorEnum::FuelTemperature => "°C"@,
            SensorEnum::TurboPumpRpm => "RPM"@,
            SensorEnum::Thrust => "N"@,
            SensorEnum::SpecificImpulse => "s"@,
            SensorEnum::NozzleTemperature => "°C"@,
            SensorEnum::RollAngle => "degrees"@,
            SensorEnum::PitchAngle => "degrees"@,
            SensorEnum::YawAngle => "degrees"@,
            SensorEnum::RollRate => "degrees/s"@,
            SensorEnum::PitchRate => "degrees/s"@,
            SensorEnum::YawRate => "degrees/s"@,
            SensorEnum::Latitude => "degrees"@,
            SensorEnum::Longitude => "degrees"@,
            SensorEnum::VibrationX => "g"@,
            SensorEnum::VibrationY => "g"@,
            SensorEnum::VibrationZ => "g"@,
            SensorEnum::VibrationFreq => "Hz"@,
            SensorEnum::HealthStatus => "status"@,
            SensorEnum::MissionPhase => "phase"@,
        }
    }

    /// Short code of the channel, as used in exported columns and tags.
    pub open spec fn spec_field_name(self) -> Seq<char> {
        match self {
            SensorEnum::Acceleration => "acc"@,
            SensorEnum::Altitude => "alt"@,
            SensorEnum::Velocity => "vel"@,
            SensorEnum::ChamberPressure => "cmb_pa"@,
            SensorEnum::ChamberTemperature => "cmb_k"@,
            SensorEnum::OxidizerPressure => "ox_pa"@,
            SensorEnum::OxidizerFlowRate => "Ox_f"@,
            SensorEnum::OxidizerTemperature => "Ox_k"@,
            SensorEnum::FuelPressure => "F_pa"@,
            SensorEnum::FuelFlowRate => "F_f"@,
            SensorEnum::FuelTemperature => "F_k"@,
            SensorEnum::TurboPumpRpm => "Rpm"@,
            SensorEnum::Thrust => "Trst"@,
            SensorEnum::SpecificImpulse => "SI"@,
            SensorEnum::NozzleTemperature => "Nz"@,
            SensorEnum::RollAngle => "RA"@,
            SensorEnum::PitchAngle => "PA"@,
            SensorEnum::YawAngle => "YA"@,
            SensorEnum::RollRate => "RR"@,
            SensorEnum::PitchRate => "PR"@,
            SensorEnum::YawRate => "YR"@,
            SensorEnum::Latitude => "Lat"@,
            SensorEnum::Longitude => "Lng"@,
            SensorEnum::VibrationX => "VbX"@,
            SensorEnum::VibrationY => "VbY"@,
            SensorEnum::VibrationZ => "VbZ"@,
            SensorEnum::VibrationFreq => "Vb_hz"@,
            SensorEnum::HealthStatus => "HealthStatus"@,
            SensorEnum::MissionPhase => "MissionPhase"@,
        }
    }

    /// Long name of the channel.
    pub open spec fn spec_field_name_full(self) -> Seq<char> {
        match self {
            SensorEnum::Acceleration => "acceleration_mps2"@,
            SensorEnum::Altitude => "altitude_m"@,
            SensorEnum::Velocity => "velocity_m"@,
            SensorEnum::ChamberPressure => "chamber_pressure_pa"@,
            SensorEnum::ChamberTemperature => "chamber_temp_k"@,
            SensorEnum::OxidizerPressure => "oxidizer_pressure_pa"@,
            SensorEnum::OxidizerFlowRate => "OxidizerFlowRate_kgps"@,
            SensorEnum::OxidizerTemperature => "OxidizerTemperature_k"@,
            SensorEnum::FuelPressure => "FuelPressure_pa"@,
            SensorEnum::FuelFlowRate => "FuelFlowRate_kgps"@,
            SensorEnum::FuelTemperature => "FuelTemperature_k"@,
            SensorEnum::TurboPumpRpm => "TurboPumpRpm"@,
            SensorEnum::Thrust => "Thrust_n"@,
            SensorEnum::SpecificImpulse => "SpecificImpulse_s"@,
            SensorEnum::NozzleTemperature => "NozzleTemperature_k"@,
            SensorEnum::RollAngle => "RollAngle_deg"@,
            SensorEnum::PitchAngle => "PitchAngle_deg"@,
            SensorEnum::YawAngle => "YawAngle_deg"@,
            SensorEnum::RollRate => "RollRate_dps"@,
            SensorEnum::PitchRate => "PitchRate_dps"@,
            SensorEnum::YawRate => "YawRate_dps"@,
            SensorEnum::Latitude => "Latitude_deg"@,
            SensorEnum::Longitude => "Longitude_deg"@,
            SensorEnum::VibrationX => "VibrationX_g"@,
            SensorEnum::VibrationY => "VibrationY_g"@,
            SensorEnum::VibrationZ => "VibrationZ_g"@,
            SensorEnum::VibrationFreq => "VibrationFreq_hz"@,
            SensorEnum::HealthStatus => "HealthStatus"@,
            SensorEnum::MissionPhase => "MissionPhase"@,
        }
    }

    /// Position of the channel among the readings of one tick, from 0.
    pub open spec fn spec_slot(self) -> int {
        match self {
            SensorEnum::Acceleration => 0,
            SensorEnum::Altitude => 1,
            SensorEnum::Velocity => 2,
            SensorEnum::ChamberPressure => 3,
            SensorEnum::ChamberTemperature => 4,
            SensorEnum::OxidizerPressure => 5,
            SensorEnum::OxidizerFlowRate => 6,
            SensorEnum::OxidizerTemperature => 7,
            SensorEnum::FuelPressure => 8,
            SensorEnum::FuelFlowRate => 9,
            SensorEnum::FuelTemperature => 10,
            SensorEnum::TurboPumpRpm => 11,
            SensorEnum::Thrust => 12,
            SensorEnum::SpecificImpulse => 13,
            SensorEnum::NozzleTemperature => 14,
            SensorEnum::RollAngle => 15,
            SensorEnum::PitchAngle => 16,
            SensorEnum::YawAngle => 17,
            SensorEnum::RollRate => 18,
            SensorEnum::PitchRate => 19,
            SensorEnum::YawRate => 20,
            SensorEnum::Latitude => 21,
            SensorEnum::Longitude => 22,
            SensorEnum::VibrationX => 23,
            SensorEnum::VibrationY => 24,
            SensorEnum::VibrationZ => 25,
            SensorEnum::VibrationFreq => 26,
            SensorEnum::HealthStatus => 27,
            SensorEnum::MissionPhase => 28,
        }
    }

    /// The channel emitted at position `slot` of a tick.
    pub open spec fn at_slot(slot: int) -> SensorEnum {
        if slot == 0 {
            SensorEnum::Acceleration
        } else if slot == 1 {
            SensorEnum::Altitude
        } else if slot == 2 {
            SensorEnum::Velocity
        } else if slot == 3 {
            SensorEnum::ChamberPressure
        } else if slot == 4 {
            SensorEnum::ChamberTemperature
        } else if slot == 5 {
            SensorEnum::OxidizerPressure
        } else if slot == 6 {
            SensorEnum::OxidizerFlowRate
        } else if slot == 7 {
            SensorEnum::OxidizerTemperature
        } else if slot == 8 {
            SensorEnum::FuelPressure
        } else if slot == 9 {
            SensorEnum::FuelFlowRate
        } else if slot == 10 {
            SensorEnum::FuelTemperature
        } else if slot == 11 {
            SensorEnum::TurboPumpRpm
        } else if slot == 12 {
            SensorEnum::Thrust
        } else if slot == 13 {
            SensorEnum::SpecificImpulse
        } else if slot == 14 {
            SensorEnum::NozzleTemperature
        } else if slot == 15 {
            SensorEnum::RollAngle
        } else if slot == 16 {
            SensorEnum::PitchAngle
        } else if slot == 17 {
            SensorEnum::YawAngle
        } else if slot == 18 {
            SensorEnum::RollRate
        } else if slot == 19 {
            SensorEnum::PitchRate
        } else if slot == 20 {
            SensorEnum::YawRate
        } else if slot == 21 {
            SensorEnum::Latitude
        } else if slot == 22 {
            SensorEnum::Longitude
        } else if slot == 23 {
            SensorEnum::VibrationX
        } else if slot == 24 {
            SensorEnum::VibrationY
        } else if slot == 25 {
            SensorEnum::VibrationZ
        } else if slot == 26 {
            SensorEnum::VibrationFreq
        } else if slot == 27 {
            SensorEnum::HealthStatus
        } else {
            SensorEnum::MissionPhase
        }
    }

    /// Every channel, each once, ordered by name.
    pub open spec fn all_sensors() -> Seq<SensorEnum> {
        seq![
            SensorEnum::Acceleration,
            SensorEnum::Altitude,
            SensorEnum::ChamberPressure,
            SensorEnum::ChamberTemperature,
            SensorEnum::FuelFlowRate,
            SensorEnum::FuelPressure,
            SensorEnum::FuelTemperature,
            SensorEnum::HealthStatus,
            SensorEnum::Latitude,
            SensorEnum::Longitude,
            SensorEnum::MissionPhase,
            SensorEnum::NozzleTemperature,
            SensorEnum::OxidizerFlowRate,
            SensorEnum::OxidizerPressure,
            SensorEnum::OxidizerTemperature,
            SensorEnum::PitchAngle,
            SensorEnum::PitchRate,
            SensorEnum::RollAngle,
            SensorEnum::RollRate,
            SensorEnum::SpecificImpulse,
            SensorEnum::Thrust,
            SensorEnum::TurboPumpRpm,
            SensorEnum::Velocity,
            SensorEnum::VibrationFreq,
            SensorEnum::VibrationX,
            SensorEnum::VibrationY,
            SensorEnum::VibrationZ,
            SensorEnum::YawAngle,
            SensorEnum::YawRate,
        ]
    }

    /// Unit of measurement of the channel.
    pub fn unit(sensor_type: SensorEnum) -> (u: &'static str)
        ensures
            u@ == Self::spec_unit(sensor_type),
    {
        match sensor_type {
            SensorEnum::Acceleration => "m/s²",
            SensorEnum::Altitude => "meters",
            SensorEnum::Velocity => "m/s",
            SensorEnum::ChamberPressure => "psi",
            SensorEnum::ChamberTemperature => "°C",
            SensorEnum::OxidizerPressure => "psi",
            SensorEnum::OxidizerFlowRate => "kg/s",
            SensorEnum::OxidizerTemperature => "°C",
            SensorEnum::FuelPressure => "psi",
            SensorEnum::FuelFlowRate => "kg/s",
            SensorEnum::FuelTemperature => "°C",
            SensorEnum::TurboPumpRpm => "RPM",
            SensorEnum::Thrust => "N",
            SensorEnum::SpecificImpulse => "s",
            SensorEnum::NozzleTemperature => "°C",
            SensorEnum::RollAngle => "degrees",
            SensorEnum::PitchAngle => "degrees",
            SensorEnum::YawAngle => "degrees",
            SensorEnum::RollRate => "degrees/s",
            SensorEnum::PitchRate => "degrees/s",
            SensorEnum::YawRate => "degrees/s",
            SensorEnum::Latitude => "degrees",
            SensorEnum::Longitude => "degrees",
            SensorEnum::VibrationX => "g",
            SensorEnum::VibrationY => "g",
            SensorEnum::VibrationZ => "g",
            SensorEnum::VibrationFreq => "Hz",
            SensorEnum::HealthStatus => "status",
            SensorEnum::MissionPhase => "phase",
        }
    }

    /// Short code of the channel.
    pub fn field_name(&self) -> (name: &'static str)
        ensures
            name@ == self.spec_field_name(),
    {
        match self {
            SensorEnum::Acceleration => "acc",
            SensorEnum::Altitude => "alt",
            SensorEnum::Velocity => "vel",
            SensorEnum::ChamberPressure => "cmb_pa",
            SensorEnum::ChamberTemperature => "cmb_k",
            SensorEnum::OxidizerPressure => "ox_pa",
            SensorEnum::OxidizerFlowRate => "Ox_f",
            SensorEnum::OxidizerTemperature => "Ox_k",
            SensorEnum::FuelPressure => "F_pa",
            SensorEnum::FuelFlowRate => "F_f",
            SensorEnum::FuelTemperature => "F_k",
            SensorEnum::TurboPumpRpm => "Rpm",
            SensorEnum::Thrust => "Trst",
            SensorEnum::SpecificImpulse => "SI",
            SensorEnum::NozzleTemperature => "Nz",
            SensorEnum::RollAngle => "RA",
            SensorEnum::PitchAngle => "PA",
            SensorEnum::YawAngle => "YA",
            SensorEnum::RollRate => "RR",
            SensorEnum::PitchRate => "PR",
            SensorEnum::YawRate => "YR",
            SensorEnum::Latitude => "Lat",
            SensorEnum::Longitude => "Lng",
            SensorEnum::VibrationX => "VbX",
            SensorEnum::VibrationY => "VbY",
            SensorEnum::VibrationZ => "VbZ",
            SensorEnum::VibrationFreq => "Vb_hz",
            SensorEnum::HealthStatus => "HealthStatus",
            SensorEnum::MissionPhase => "MissionPhase",
        }
    }

    /// Long name of the channel.
    pub fn field_name_full(&self) -> (name: &'static str)
        ensures
            name@ == self.spec_field_name_full(),
    {
        match self {
            SensorEnum::Acceleration => "acceleration_mps2",
            SensorEnum::Altitude => "altitude_m",
            SensorEnum::Velocity => "velocity_m",
            SensorEnum::ChamberPressure => "chamber_pressure_pa",
            SensorEnum::ChamberTemperature => "chamber_temp_k",
            SensorEnum::OxidizerPressure => "oxidizer_pressure_pa",
            SensorEnum::OxidizerFlowRate => "OxidizerFlowRate_kgps",
            SensorEnum::OxidizerTemperature => "OxidizerTemperature_k",
            SensorEnum::FuelPressure => "FuelPressure_pa",
            SensorEnum::FuelFlowRate => "FuelFlowRate_kgps",
            SensorEnum::FuelTemperature => "FuelTemperature_k",
            SensorEnum::TurboPumpRpm => "TurboPumpRpm",
            SensorEnum::Thrust => "Thrust_n",
            SensorEnum::SpecificImpulse => "SpecificImpulse_s",
            SensorEnum::NozzleTemperature => "NozzleTemperature_k",
            SensorEnum::RollAngle => "RollAngle_deg",
            SensorEnum::PitchAngle => "PitchAngle_deg",
            SensorEnum::YawAngle => "YawAngle_deg",
            SensorEnum::RollRate => "RollRate_dps",
            SensorEnum::PitchRate => "PitchRate_dps",
            SensorEnum::YawRate => "YawRate_dps",
            SensorEnum::Latitude => "Latitude_deg",
            SensorEnum::Longitude => "Longitude_deg",
            SensorEnum::VibrationX => "VibrationX_g",
            SensorEnum::VibrationY => "VibrationY_g",
            SensorEnum::VibrationZ => "VibrationZ_g",
            SensorEnum::VibrationFreq => "VibrationFreq_hz",
            SensorEnum::HealthStatus => "HealthStatus",
            SensorEnum::MissionPhase => "MissionPhase",
        }
    }

    /// Number of channels, which is the number of readings in one tick.
    pub fn number_of_sensors() -> (n: usize)
        ensures
            n == CHANNEL_COUNT,
            n == Self::all_sensors().len(),
    {
        CHANNEL_COUNT
    }

    /// Every channel, each once, ordered by name.
    pub fn get_all_sensor_enums() -> (all: Vec<SensorEnum>)
        ensures
            all@ == Self::all_sensors(),
            all@.len() == CHANNEL_COUNT,
            forall|s: SensorEnum| all@.contains(s),
            all@.no_duplicates(),
    {
        proof {
            lemma_all_sensors_is_complete();
        }
        vec![
            SensorEnum::Acceleration,
            SensorEnum::Altitude,
            SensorEnum::ChamberPressure,
            SensorEnum::ChamberTemperature,
            SensorEnum::FuelFlowRate,
            SensorEnum::FuelPressure,
            SensorEnum::FuelTemperature,
            SensorEnum::HealthStatus,
            SensorEnum::Latitude,
            SensorEnum::Longitude,
            SensorEnum::MissionPhase,
            SensorEnum::NozzleTemperature,
            SensorEnum::OxidizerFlowRate,
            SensorEnum::OxidizerPressure,
            SensorEnum::OxidizerTemperature,
            SensorEnum::PitchAngle,
            SensorEnum::PitchRate,
            SensorEnum::RollAngle,
            SensorEnum::RollRate,
            SensorEnum::SpecificImpulse,
            SensorEnum::Thrust,
            SensorEnum::TurboPumpRpm,
            SensorEnum::Velocity,
            SensorEnum::VibrationFreq,
            SensorEnum::VibrationX,
            SensorEnum::VibrationY,
            SensorEnum::VibrationZ,
            SensorEnum::YawAngle,
            SensorEnum::YawRate,
        ]
    }

    /// Position of the channel among the readings of one tick, from 0.
    pub fn slot(&self) -> (slot: usize)
        ensures
            slot == self.spec_slot(),
            slot < CHANNEL_COUNT,
            Self::at_slot(slot as int) == *self,
    {
        match self {
            SensorEnum::Acceleration => 0,
            SensorEnum::Altitude => 1,
            SensorEnum::Velocity => 2,
            SensorEnum::ChamberPressure => 3,
            SensorEnum::ChamberTemperature => 4,
            SensorEnum::OxidizerPressure => 5,
            SensorEnum::OxidizerFlowRate => 6,
            SensorEnum::OxidizerTemperature => 7,
            SensorEnum::FuelPressure => 8,
            SensorEnum::FuelFlowRate => 9,
            SensorEnum::FuelTemperature => 10,
            SensorEnum::TurboPumpRpm => 11,
            SensorEnum::Thrust => 12,
            SensorEnum::SpecificImpulse => 13,
            SensorEnum::NozzleTemperature => 14,
            SensorEnum::RollAngle => 15,
            SensorEnum::PitchAngle => 16,
            SensorEnum::YawAngle => 17,
            SensorEnum::RollRate => 18,
            SensorEnum::PitchRate => 19,
            SensorEnum::YawRate => 20,
            SensorEnum::Latitude => 21,
            SensorEnum::Longitude => 22,
            SensorEnum::VibrationX => 23,
            SensorEnum::VibrationY => 24,
            SensorEnum::VibrationZ => 25,
            SensorEnum::VibrationFreq => 26,
            SensorEnum::HealthStatus => 27,
            SensorEnum::MissionPhase => 28,
        }
    }

    /// The channel emitted at position `slot` of a tick; `None` from
    /// `CHANNEL_COUNT` on.
    pub fn from_slot(slot: usize) -> (sensor: Option<SensorEnum>)
        ensures
            sensor is Some <==> slot < CHANNEL_COUNT,
            sensor is Some ==> sensor->0 == Self::at_slot(slot as int) && sensor->0.spec_slot()
                == slot,
    {
        match slot {
            0 => Some(SensorEnum::Acceleration),
            1 => Some(SensorEnum::Altitude),
            2 => Some(SensorEnum::Velocity),
            3 => Some(SensorEnum::ChamberPressure),
            4 => Some(SensorEnum::ChamberTemperature),
            5 => Some(SensorEnum::OxidizerPressure),
            6 => Some(SensorEnum::OxidizerFlowRate),
            7 => Some(SensorEnum::OxidizerTemperature),
            8 => Some(SensorEnum::FuelPressure),
            9 => Some(SensorEnum::FuelFlowRate),
            10 => Some(SensorEnum::FuelTemperature),
            11 => Some(SensorEnum::TurboPumpRpm),
            12 => Some(SensorEnum::Thrust),
            13 => Some(SensorEnum::SpecificImpulse),
            14 => Some(SensorEnum::NozzleTemperature),
            15 => Some(SensorEnum::RollAngle),
            16 => Some(SensorEnum::PitchAngle),
            17 => Some(SensorEnum::YawAngle),
            18 => Some(SensorEnum::RollRate),
            19 => Some(SensorEnum::PitchRate),
            20 => Some(SensorEnum::YawRate),
            21 => Some(SensorEnum::Latitude),
            22 => Some(SensorEnum::Longitude),
            23 => Some(SensorEnum::VibrationX),
            24 => Some(SensorEnum::VibrationY),
            25 => Some(SensorEnum::VibrationZ),
            26 => Some(SensorEnum::VibrationFreq),
            27 => Some(SensorEnum::HealthStatus),
            28 => Some(SensorEnum::MissionPhase),
            _ => None,
        }
    }
}

/// The listing by name holds every channel exactly once.
pub proof fn lemma_all_sensors_is_complete()
    ensures
        SensorEnum::all_sensors().len() == CHANNEL_COUNT,
        forall|s: SensorEnum| SensorEnum::all_sensors().contains(s),
        SensorEnum::all_sensors().no_duplicates(),
{
    let all = SensorEnum::all_sensors();
    assert forall|s: SensorEnum| all.contains(s) by {
        assert(all[listing_index(s)] == s);
    }
}

/// Where a channel stands in the listing by name.
pub open spec fn listing_index(s: SensorEnum) -> int {
    match s {
        SensorEnum::Acceleration => 0,
        SensorEnum::Altitude => 1,
        SensorEnum::ChamberPressure => 2,
        SensorEnum::ChamberTemperature => 3,
        SensorEnum::FuelFlowRate => 4,
        SensorEnum::FuelPressure => 5,
        SensorEnum::FuelTemperature => 6,
        SensorEnum::HealthStatus => 7,
        SensorEnum::Latitude => 8,
        SensorEnum::Longitude => 9,
        SensorEnum::MissionPhase => 10,
        SensorEnum::NozzleTemperature => 11,
        SensorEnum::OxidizerFlowRate => 12,
        SensorEnum::OxidizerPressure => 13,
        SensorEnum::OxidizerTemperature => 14,
        SensorEnum::PitchAngle => 15,
        SensorEnum::PitchRate => 16,
        SensorEnum::RollAngle => 17,
        SensorEnum::RollRate => 18,
        SensorEnum::SpecificImpulse => 19,
        SensorEnum::Thrust => 20,
        SensorEnum::TurboPumpRpm => 21,
        SensorEnum::Velocity => 22,
        SensorEnum::VibrationFreq => 23,
        SensorEnum::VibrationX => 24,
        SensorEnum::VibrationY => 25,
        SensorEnum::VibrationZ => 26,
        SensorEnum::YawAngle => 27,
        SensorEnum::YawRate => 28,
    }
}

/// Slots and channels correspond one to one: the order of emission names each
/// of the channels exactly once.
pub proof fn lemma_slots_are_a_bijection(s: SensorEnum, slot: int)
    ensures
        0 <= s.spec_slot() < CHANNEL_COUNT,
        SensorEnum::at_slot(s.spec_slot()) == s,
        0 <= slot < CHANNEL_COUNT ==> SensorEnum::at_slot(slot).spec_slot() == slot,
{
}

/// A short code names one channel only: different channels have different
/// short codes, so a `sensor_type` entry identifies the channel of its row.
pub proof fn lemma_short_codes_are_distinct(a: SensorEnum, b: SensorEnum)
    requires
        a != b,
    ensures
        a.spec_field_name() != b.spec_field_name(),
{
    reveal_strlit("acc");
    reveal_strlit("alt");
    reveal_strlit("vel");
    reveal_strlit("cmb_pa");
    reveal_strlit("cmb_k");
    reveal_strlit("ox_pa");
    reveal_strlit("Ox_f");
    reveal_strlit("Ox_k");
    reveal_strlit("F_pa");
    reveal_strlit("F_f");
    reveal_strlit("F_k");
    reveal_strlit("Rpm");
    reveal_strlit("Trst");
    reveal_strlit("SI");
    reveal_strlit("Nz");
    reveal_strlit("RA");
    reveal_strlit("PA");
    reveal_strlit("YA");
    reveal_strlit("RR");
    reveal_strlit("PR");
    reveal_strlit("YR");
    reveal_strlit("Lat");
    reveal_strlit("Lng");
    reveal_strlit("VbX");
    reveal_strlit("VbY");
    reveal_strlit("VbZ");
    reveal_strlit("Vb_hz");
    reveal_strlit("HealthStatus");
    reveal_strlit("MissionPhase");
    let x = a.spec_field_name();
    let y = b.spec_field_name();
    if x.len() == y.len() {
        assert(x[0] != y[0] || x[1] != y[1] || (x.len() > 2 && x[2] != y[2]) || (x.len() > 3
            && x[3] != y[3]) || (x.len() > 4 && x[4] != y[4]));
    }
}

} // verus!

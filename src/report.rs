use vstd::prelude::*;

verus! {

/// What a sensor measures.
#[derive(Debug, Clone, Copy, PartialEq, Eq, Structural)]
pub enum SensorKind {
    Voltage,
    Current,
    Power,
    Clock,
    Temperature,
    Load,
    Frequency,
    Fan,
    Flow,
    Control,
    Level,
    Factor,
    Data,
    SmallData,
    Throughput,
    TimeSpan,
    Energy,
    Noise,
}

/// What kind of hardware a device is.
#[derive(Debug, Clone, Copy, PartialEq, Eq, Structural)]
pub enum DeviceKind {
    Motherboard,
    SuperIO,
    Cpu,
    Memory,
    GpuNvidia,
    GpuAmd,
    GpuIntel,
    Storage,
    Network,
    Cooler,
    EmbeddedController,
    Psu,
    Battery,
}

/// The sensor kind that the engine reports under an integer code.
pub open spec fn sensor_kind_of(code: int) -> Option<SensorKind> {
    if code == 0 {
        Some(SensorKind::Voltage)
    } else if code == 1 {
        Some(SensorKind::Current)
    } else if code == 2 {
        Some(SensorKind::Power)
    } else if code == 3 {
        Some(SensorKind::Clock)
    } else if code == 4 {
        Some(SensorKind::Temperature)
    } else if code == 5 {
        Some(SensorKind::Load)
    } else if code == 6 {
        Some(SensorKind::Frequency)
    } else if code == 7 {
        Some(SensorKind::Fan)
    } else if code == 8 {
        Some(SensorKind::Flow)
    } else if code == 9 {
        Some(SensorKind::Control)
    } else if code == 10 {
        Some(SensorKind::Level)
    } else if code == 11 {
        Some(SensorKind::Factor)
    } else if code == 12 {
        Some(SensorKind::Data)
    } else if code == 13 {
        Some(SensorKind::SmallData)
    } else if code == 14 {
        Some(SensorKind::Throughput)
    } else if code == 15 {
        Some(SensorKind::TimeSpan)
    } else if code == 16 {
        Some(SensorKind::Energy)
    } else if code == 17 {
        Some(SensorKind::Noise)
    } else {
        None
    }
}

/// The device kind that the engine reports under an integer code.
pub open spec fn device_kind_of(code: int) -> Option<DeviceKind> {
    if code == 0 {
        Some(DeviceKind::Motherboard)
    } else if code == 1 {
        Some(DeviceKind::SuperIO)
    } else if code == 2 {
        Some(DeviceKind::Cpu)
    } else if code == 3 {
        Some(DeviceKind::Memory)
    } else if code == 4 {
        Some(DeviceKind::GpuNvidia)
    } else if code == 5 {
        Some(DeviceKind::GpuAmd)
    } else if code == 6 {
        Some(DeviceKind::GpuIntel)
    } else if code == 7 {
        Some(DeviceKind::Storage)
    } else if code == 8 {
        Some(DeviceKind::Network)
    } else if code == 9 {
        Some(DeviceKind::Cooler)
    } else if code == 10 {
        Some(DeviceKind::EmbeddedController)
    } else if code == 11 {
        Some(DeviceKind::Psu)
    } else if code == 12 {
        Some(DeviceKind::Battery)
    } else {
        None
    }
}

impl SensorKind {
    /// Decodes the engine's integer code; `None` for an unknown code.
    pub fn from_code(code: i64) -> (r: Option<SensorKind>)
        ensures
            r == sensor_kind_of(code as int),
    {
        match code {
            0 => Some(SensorKind::Voltage),
            1 => Some(SensorKind::Current),
            2 => Some(SensorKind::Power),
            3 => Some(SensorKind::Clock),
            4 => Some(SensorKind::Temperature),
            5 => Some(SensorKind::Load),
            6 => Some(SensorKind::Frequency),
            7 => Some(SensorKind::Fan),
            8 => Some(SensorKind::Flow),
            9 => Some(SensorKind::Control),
            10 => Some(SensorKind::Level),
            11 => Some(SensorKind::Factor),
            12 => Some(SensorKind::Data),
            13 => Some(SensorKind::SmallData),
            14 => Some(SensorKind::Throughput),
            15 => Some(SensorKind::TimeSpan),
            16 => Some(SensorKind::Energy),
            17 => Some(SensorKind::Noise),
            _ => None,
        }
    }
}

impl DeviceKind {
    /// Decodes the engine's integer code; `None` for an unknown code.
    pub fn from_code(code: i64) -> (r: Option<DeviceKind>)
        ensures
            r == device_kind_of(code as int),
    {
        match code {
            0 => Some(DeviceKind::Motherboard),
            1 => Some(DeviceKind::SuperIO),
            2 => Some(DeviceKind::Cpu),
            3 => Some(DeviceKind::Memory),
            4 => Some(DeviceKind::GpuNvidia),
            5 => Some(DeviceKind::GpuAmd),
            6 => Some(DeviceKind::GpuIntel),
            7 => Some(DeviceKind::Storage),
            8 => Some(DeviceKind::Network),
            9 => Some(DeviceKind::Cooler),
            10 => Some(DeviceKind::EmbeddedController),
            11 => Some(DeviceKind::Psu),
            12 => Some(DeviceKind::Battery),
            _ => None,
        }
    }
}

/// One sensor reading of a poll. `value` and `max` are in thousandths of the
/// sensor's unit; a non-finite reading has already been replaced by zero.
#[derive(Debug, Clone)]
pub struct Sensor {
    pub kind: SensorKind,
    pub name: String,
    pub index: usize,
    pub value: i64,
    pub max: i64,
}

/// One hardware component of a poll with its sensors, in report order.
#[derive(Debug, Clone)]
pub struct Device {
    pub kind: DeviceKind,
    pub name: String,
    pub sensors: Vec<Sensor>,
}

/// A named reading's latest value and its all-time high, in thousandths.
#[derive(Debug, Clone, Copy, PartialEq, Eq, Structural)]
pub struct Sample {
    pub current: i64,
    pub maximum: i64,
}

/// The sample that a sensor carries.
pub open spec fn sample_of(s: Sensor) -> Sample {
    Sample { current: s.value, maximum: s.max }
}

impl Sample {
    /// A sample of zeros, as a metric reads before its first sensor.
    pub fn zero() -> (r: Sample)
        ensures
            r == (Sample { current: 0, maximum: 0 }),
    {
        Sample { current: 0, maximum: 0 }
    }

    /// The sample that a sensor carries.
    pub fn from_sensor(s: &Sensor) -> (r: Sample)
        ensures
            r == sample_of(*s),
    {
        Sample { current: s.value, maximum: s.max }
    }
}

} // verus!

use vstd::prelude::*;

use crate::report::{device_kind_of, sensor_kind_of, Device, DeviceKind, Sensor, SensorKind};
use crate::text::text_is;

verus! {

/// Why a report could not be decoded.
#[derive(Debug, Clone, Copy, PartialEq, Eq, Structural)]
pub enum DecodeError {
    UnknownDeviceKind(i64),
    UnknownSensorKind(i64),
    /// A reading given as text that is neither `NaN` nor `Infinity`.
    NotANumber,
    /// The document could not be read as a list of devices at all.
    Malformed,
}

/// A numeric field of the report as it arrives: a number, already in
/// thousandths of the unit, or a word.
#[derive(Debug, Clone)]
pub enum RawReading {
    Number(i64),
    Text(String),
}

/// A sensor as the report gives it, with its kind still a code.
#[derive(Debug, Clone)]
pub struct RawSensor {
    pub kind: i64,
    pub name: String,
    pub index: usize,
    pub value: RawReading,
    pub max: RawReading,
}

/// A device as the report gives it, with its kind still a code.
#[derive(Debug, Clone)]
pub struct RawDevice {
    pub kind: i64,
    pub name: String,
    pub sensors: Vec<RawSensor>,
}

/// What `str::to_lowercase` returns for the characters of a string.
pub uninterp spec fn lower_of(s: Seq<char>) -> Seq<char>;

/// Relies on `str::to_lowercase`: the lower-case form of a string, which
/// depends on its characters alone.
#[verifier::external_body]
fn lowercase(s: &str) -> (r: String)
    ensures
        r@ == lower_of(s@),
{
    s.to_lowercase()
}

/// Whether lower-cased text is a word that stands for a non-finite value.
pub open spec fn is_sentinel(lowered: Seq<char>) -> bool {
    lowered == "nan"@ || lowered == "infinity"@
}

/// Whether already lower-cased text is `nan` or `infinity`.
pub fn is_sentinel_word(lowered: &str) -> (r: bool)
    ensures
        r == is_sentinel(lowered@),
{
    text_is(lowered, "nan") || text_is(lowered, "infinity")
}

/// The value of a numeric field: a number stands for itself; the words `NaN`
/// and `Infinity`, in any case, stand for zero; any other word is an error.
pub open spec fn reading_of(r: RawReading) -> Result<i64, DecodeError> {
    match r {
        RawReading::Number(v) => Ok(v),
        RawReading::Text(t) => if is_sentinel(lower_of(t@)) {
            Ok(0)
        } else {
            Err(DecodeError::NotANumber)
        },
    }
}

/// Decodes a numeric field, so that no non-finite value enters the engine.
pub fn decode_reading(r: &RawReading) -> (out: Result<i64, DecodeError>)
    ensures
        out == reading_of(*r),
{
    match r {
        RawReading::Number(v) => Ok(*v),
        RawReading::Text(t) => {
            let lowered = lowercase(t.as_str());
            if is_sentinel_word(lowered.as_str()) {
                Ok(0)
            } else {
                Err(DecodeError::NotANumber)
            }
        },
    }
}

/// The first error in a sensor: its kind code, then its value, then its max.
pub open spec fn sensor_error(s: RawSensor) -> Option<DecodeError> {
    if sensor_kind_of(s.kind as int) is None {
        Some(DecodeError::UnknownSensorKind(s.kind))
    } else if reading_of(s.value) is Err {
        Some(reading_of(s.value)->Err_0)
    } else if reading_of(s.max) is Err {
        Some(reading_of(s.max)->Err_0)
    } else {
        None
    }
}

/// Whether `s` is what a raw sensor without error decodes to.
pub open spec fn decodes_to(raw: RawSensor, s: Sensor) -> bool {
    &&& sensor_kind_of(raw.kind as int) == Some(s.kind)
    &&& s.name@ == raw.name@
    &&& s.index == raw.index
    &&& reading_of(raw.value) == Ok::<i64, DecodeError>(s.value)
    &&& reading_of(raw.max) == Ok::<i64, DecodeError>(s.max)
}

/// The first error among sensors, in order.
pub open spec fn sensors_error(ss: Seq<RawSensor>) -> Option<DecodeError>
    decreases ss.len(),
{
    if ss.len() == 0 {
        None
    } else {
        match sensors_error(ss.drop_last()) {
            Some(e) => Some(e),
            None => sensor_error(ss.last()),
        }
    }
}

/// The first error in a device: its kind code, then its sensors in order.
pub open spec fn device_error(d: RawDevice) -> Option<DecodeError> {
    if device_kind_of(d.kind as int) is None {
        Some(DecodeError::UnknownDeviceKind(d.kind))
    } else {
        sensors_error(d.sensors@)
    }
}

/// The first error of a report, device by device.
pub open spec fn report_error(ds: Seq<RawDevice>) -> Option<DecodeError>
    decreases ds.len(),
{
    if ds.len() == 0 {
        None
    } else {
        match report_error(ds.drop_last()) {
            Some(e) => Some(e),
            None => device_error(ds.last()),
        }
    }
}

/// Whether `d` is what a raw device without error decodes to.
pub open spec fn device_decodes_to(raw: RawDevice, d: Device) -> bool {
    &&& device_kind_of(raw.kind as int) == Some(d.kind)
    &&& d.name@ == raw.name@
    &&& d.sensors@.len() == raw.sensors@.len()
    &&& forall|j: int|
        0 <= j < raw.sensors@.len() ==> decodes_to(
            #[trigger] raw.sensors@[j],
            d.sensors@[j],
        )
}

/// Decodes one sensor.
pub fn decode_sensor(raw: &RawSensor) -> (r: Result<Sensor, DecodeError>)
    ensures
        match r {
            Ok(s) => sensor_error(*raw) is None && decodes_to(*raw, s),
            Err(e) => sensor_error(*raw) == Some(e),
        },
{
    let kind = match SensorKind::from_code(raw.kind) {
        Some(k) => k,
        None => {
            return Err(DecodeError::UnknownSensorKind(raw.kind));
        },
    };
    let value = match decode_reading(&raw.value) {
        Ok(v) => v,
        Err(e) => {
            return Err(e);
        },
    };
    let max = match decode_reading(&raw.max) {
        Ok(v) => v,
        Err(e) => {
            return Err(e);
        },
    };
    Ok(Sensor { kind, name: raw.name.clone(), index: raw.index, value, max })
}

/// Decodes one device with its sensors.
pub fn decode_device(raw: &RawDevice) -> (r: Result<Device, DecodeError>)
    ensures
        match r {
            Ok(d) => device_error(*raw) is None && device_decodes_to(*raw, d),
            Err(e) => device_error(*raw) == Some(e),
        },
{
    let kind = match DeviceKind::from_code(raw.kind) {
        Some(k) => k,
        None => {
            return Err(DecodeError::UnknownDeviceKind(raw.kind));
        },
    };
    let n = raw.sensors.len();
    let mut sensors: Vec<Sensor> = Vec::new();
    let mut i: usize = 0;
    while i < n
        invariant
            n == raw.sensors@.len(),
            i <= n,
            sensors@.len() == i,
            device_kind_of(raw.kind as int) == Some(kind),
            sensors_error(raw.sensors@.subrange(0, i as int)) is None,
            forall|j: int| 0 <= j < i ==> decodes_to(#[trigger] raw.sensors@[j], sensors@[j]),
        decreases n - i,
    {
        assert(raw.sensors@.subrange(0, i + 1).drop_last() =~= raw.sensors@.subrange(
            0,
            i as int,
        ));
        match decode_sensor(&raw.sensors[i]) {
            Ok(s) => {
                sensors.push(s);
            },
            Err(e) => {
                proof {
                    let t = raw.sensors@.subrange(0, i + 1);
                    assert(t.last() == raw.sensors@[i as int]);
                    assert(sensors_error(t) == Some(e));
                    lemma_sensors_error_extends(raw.sensors@, i as int + 1);
                }
                return Err(e);
            },
        }
        i = i + 1;
    }
    assert(raw.sensors@.subrange(0, n as int) =~= raw.sensors@);
    Ok(Device { kind, name: raw.name.clone(), sensors })
}

proof fn lemma_sensors_error_extends(ss: Seq<RawSensor>, k: int)
    requires
        0 <= k <= ss.len(),
        sensors_error(ss.subrange(0, k)) is Some,
    ensures
        sensors_error(ss) == sensors_error(ss.subrange(0, k)),
    decreases ss.len() - k,
{
    if k < ss.len() {
        let t = ss.subrange(0, k + 1);
        assert(t.drop_last() =~= ss.subrange(0, k));
        lemma_sensors_error_extends(ss, k + 1);
    } else {
        assert(ss.subrange(0, k) =~= ss);
    }
}

proof fn lemma_report_error_extends(ds: Seq<RawDevice>, k: int)
    requires
        0 <= k <= ds.len(),
        report_error(ds.subrange(0, k)) is Some,
    ensures
        report_error(ds) == report_error(ds.subrange(0, k)),
    decreases ds.len() - k,
{
    if k < ds.len() {
        let t = ds.subrange(0, k + 1);
        assert(t.drop_last() =~= ds.subrange(0, k));
        lemma_report_error_extends(ds, k + 1);
    } else {
        assert(ds.subrange(0, k) =~= ds);
    }
}

/// Decodes a whole report: `Ok` exactly when no device and no sensor has an
/// error, and then each device decoded in order; otherwise the first error.
pub fn decode_report(raw: &Vec<RawDevice>) -> (r: Result<Vec<Device>, DecodeError>)
    ensures
        match r {
            Ok(ds) => report_error(raw@) is None && ds@.len() == raw@.len() && forall|i: int|
                0 <= i < raw@.len() ==> device_decodes_to(#[trigger] raw@[i], ds@[i]),
            Err(e) => report_error(raw@) == Some(e),
        },
{
    let n = raw.len();
    let mut out: Vec<Device> = Vec::new();
    let mut i: usize = 0;
    while i < n
        invariant
            n == raw@.len(),
            i <= n,
            out@.len() == i,
            report_error(raw@.subrange(0, i as int)) is None,
            forall|j: int| 0 <= j < i ==> device_decodes_to(#[trigger] raw@[j], out@[j]),
        decreases n - i,
    {
        assert(raw@.subrange(0, i + 1).drop_last() =~= raw@.subrange(0, i as int));
        match decode_device(&raw[i]) {
            Ok(d) => {
                out.push(d);
            },
            Err(e) => {
                proof {
                    let t = raw@.subrange(0, i + 1);
                    assert(t.last() == raw@[i as int]);
                    assert(report_error(t) == Some(e));
                    lemma_report_error_extends(raw@, i as int + 1);
                }
                return Err(e);
            },
        }
        i = i + 1;
    }
    assert(raw@.subrange(0, n as int) =~= raw@);
    Ok(out)
}

} // verus!

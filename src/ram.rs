use vstd::prelude::*;

use crate::arith::{add_clamped, clamp_add};
use crate::gauge::{gauge_record, new_gauge, Gauge, GaugeView, Gauges};
use crate::report::{sample_of, Device, Sample, Sensor};
use crate::text::text_is;

verus! {

/// The readings of main memory.
#[derive(Debug, Clone, Copy, PartialEq, Eq, Structural)]
pub enum RamGauge {
    Used,
    Available,
    Usage,
}

/// Number of readings of main memory.
pub const RAM_GAUGES: usize = 3;

impl RamGauge {
    pub open spec fn spec_slot(self) -> usize {
        match self {
            RamGauge::Used => 0,
            RamGauge::Available => 1,
            RamGauge::Usage => 2,
        }
    }

    /// Position of the reading in the memory's gauges.
    pub fn slot(&self) -> (r: usize)
        ensures
            r == self.spec_slot(),
            r < RAM_GAUGES,
    {
        match self {
            RamGauge::Used => 0,
            RamGauge::Available => 1,
            RamGauge::Usage => 2,
        }
    }
}

/// The lookup table from a sensor's name to the reading it feeds; only the
/// usage percentage is drawn.
pub open spec fn ram_gauge_of(name: Seq<char>) -> Option<RamGauge> {
    if name == "Memory Used"@ {
        Some(RamGauge::Used)
    } else if name == "Memory Available"@ {
        Some(RamGauge::Available)
    } else if name == "Memory"@ {
        Some(RamGauge::Usage)
    } else {
        None
    }
}

/// Looks a sensor up in the memory's table; `None` for a sensor it ignores.
pub fn ram_gauge(name: &str) -> (r: Option<RamGauge>)
    ensures
        r == ram_gauge_of(name@),
{
    if text_is(name, "Memory Used") {
        Some(RamGauge::Used)
    } else if text_is(name, "Memory Available") {
        Some(RamGauge::Available)
    } else if text_is(name, "Memory") {
        Some(RamGauge::Usage)
    } else {
        None
    }
}

/// What main memory holds: one gauge per reading, and the total, which is
/// used plus available.
pub struct RamView {
    pub gauges: Seq<GaugeView>,
    pub total: i64,
}

pub open spec fn new_ram() -> RamView {
    RamView { gauges: Seq::new(RAM_GAUGES as nat, |i: int| new_gauge()), total: 0 }
}

pub open spec fn apply_ram_sensor(r: RamView, s: Sensor) -> RamView {
    match ram_gauge_of(s.name@) {
        None => r,
        Some(k) => RamView {
            gauges: r.gauges.update(
                k.spec_slot() as int,
                gauge_record(r.gauges[k.spec_slot() as int], sample_of(s), k == RamGauge::Usage),
            ),
            ..r
        },
    }
}

pub open spec fn apply_ram_sensors(r: RamView, sensors: Seq<Sensor>) -> RamView
    decreases sensors.len(),
{
    if sensors.len() == 0 {
        r
    } else {
        apply_ram_sensor(apply_ram_sensors(r, sensors.drop_last()), sensors.last())
    }
}

/// Memory after the memory device of a poll: its sensors applied, then the
/// total derived.
pub open spec fn ram_updated(r: RamView, d: Device) -> RamView {
    let x = apply_ram_sensors(r, d.sensors@);
    RamView {
        total: clamp_add(
            x.gauges[RamGauge::Used.spec_slot() as int].sample.current,
            x.gauges[RamGauge::Available.spec_slot() as int].sample.current,
        ),
        ..x
    }
}

/// Main memory.
#[derive(Debug, Clone)]
pub struct Ram {
    gauges: Gauges,
    total: i64,
}

impl View for Ram {
    type V = RamView;

    closed spec fn view(&self) -> RamView {
        RamView { gauges: self.gauges@, total: self.total }
    }
}

impl Ram {
    pub fn new() -> (r: Ram)
        ensures
            r@ == new_ram(),
    {
        Ram { gauges: Gauges::new(RAM_GAUGES), total: 0 }
    }

    /// Applies the memory device of a poll.
    pub fn update(&mut self, device: &Device)
        requires
            old(self)@.gauges.len() == RAM_GAUGES,
        ensures
            final(self)@ == ram_updated(old(self)@, *device),
            final(self)@.gauges.len() == RAM_GAUGES,
    {
        let n = device.sensors.len();
        let mut i: usize = 0;
        while i < n
            invariant
                n == device.sensors@.len(),
                i <= n,
                self@ == apply_ram_sensors(old(self)@, device.sensors@.subrange(0, i as int)),
                self@.gauges.len() == RAM_GAUGES,
            decreases n - i,
        {
            assert(device.sensors@.subrange(0, i + 1).drop_last() =~= device.sensors@.subrange(
                0,
                i as int,
            ));
            let s = &device.sensors[i];
            match ram_gauge(s.name.as_str()) {
                Some(k) => {
                    let charted = k == RamGauge::Usage;
                    self.gauges.record(k.slot(), Sample::from_sensor(s), charted);
                },
                None => {},
            }
            i = i + 1;
        }
        assert(device.sensors@.subrange(0, n as int) =~= device.sensors@);
        let used = self.gauges.get(RamGauge::Used.slot()).sample().current;
        let available = self.gauges.get(RamGauge::Available.slot()).sample().current;
        self.total = add_clamped(used, available);
    }

    pub fn gauge(&self, k: RamGauge) -> (r: &Gauge)
        requires
            self@.gauges.len() == RAM_GAUGES,
        ensures
            r@ == self@.gauges[k.spec_slot() as int],
    {
        self.gauges.get(k.slot())
    }

    /// Used plus available memory.
    pub fn total(&self) -> (r: i64)
        ensures
            r == self@.total,
    {
        self.total
    }
}

} // verus!

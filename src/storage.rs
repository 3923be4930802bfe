use vstd::prelude::*;

use crate::gauge::{gauge_record, new_gauge, Gauge, GaugeView, Gauges};
use crate::report::{sample_of, Device, Sample, Sensor};
use crate::text::text_is;

verus! {

/// The readings that a disk tracks.
#[derive(Debug, Clone, Copy, PartialEq, Eq, Structural)]
pub enum DiskGauge {
    ReadRate,
    WriteRate,
    Temperature,
    UsedSpace,
    Activity,
    DataRead,
    DataWritten,
}

/// Number of readings a disk tracks.
pub const DISK_GAUGES: usize = 7;

impl DiskGauge {
    pub open spec fn spec_slot(self) -> usize {
        match self {
            DiskGauge::ReadRate => 0,
            DiskGauge::WriteRate => 1,
            DiskGauge::Temperature => 2,
            DiskGauge::UsedSpace => 3,
            DiskGauge::Activity => 4,
            DiskGauge::DataRead => 5,
            DiskGauge::DataWritten => 6,
        }
    }

    /// Position of the reading in the disk's gauges.
    pub fn slot(&self) -> (r: usize)
        ensures
            r == self.spec_slot(),
            r < DISK_GAUGES,
    {
        match self {
            DiskGauge::ReadRate => 0,
            DiskGauge::WriteRate => 1,
            DiskGauge::Temperature => 2,
            DiskGauge::UsedSpace => 3,
            DiskGauge::Activity => 4,
            DiskGauge::DataRead => 5,
            DiskGauge::DataWritten => 6,
        }
    }

    pub open spec fn spec_charted(self) -> bool {
        self == DiskGauge::ReadRate || self == DiskGauge::WriteRate || self
            == DiskGauge::Temperature || self == DiskGauge::Activity
    }

    /// Whether the reading is drawn: rates, temperature and activity are.
    pub fn charted(&self) -> (r: bool)
        ensures
            r == self.spec_charted(),
    {
        match self {
            DiskGauge::ReadRate | DiskGauge::WriteRate | DiskGauge::Temperature
            | DiskGauge::Activity => true,
            _ => false,
        }
    }
}

/// The lookup table from a sensor's name to the reading it feeds.
pub open spec fn disk_gauge_of(name: Seq<char>) -> Option<DiskGauge> {
    if name == "Read Rate"@ {
        Some(DiskGauge::ReadRate)
    } else if name == "Write Rate"@ {
        Some(DiskGauge::WriteRate)
    } else if name == "Temperature"@ {
        Some(DiskGauge::Temperature)
    } else if name == "Used Space"@ {
        Some(DiskGauge::UsedSpace)
    } else if name == "Total Activity"@ {
        Some(DiskGauge::Activity)
    } else if name == "Data Read"@ {
        Some(DiskGauge::DataRead)
    } else if name == "Data Written"@ {
        Some(DiskGauge::DataWritten)
    } else {
        None
    }
}

/// Looks a sensor up in the disk's table; `None` for a sensor it ignores.
pub fn disk_gauge(name: &str) -> (r: Option<DiskGauge>)
    ensures
        r == disk_gauge_of(name@),
{
    if text_is(name, "Read Rate") {
        Some(DiskGauge::ReadRate)
    } else if text_is(name, "Write Rate") {
        Some(DiskGauge::WriteRate)
    } else if text_is(name, "Temperature") {
        Some(DiskGauge::Temperature)
    } else if text_is(name, "Used Space") {
        Some(DiskGauge::UsedSpace)
    } else if text_is(name, "Total Activity") {
        Some(DiskGauge::Activity)
    } else if text_is(name, "Data Read") {
        Some(DiskGauge::DataRead)
    } else if text_is(name, "Data Written") {
        Some(DiskGauge::DataWritten)
    } else {
        None
    }
}

/// What a disk holds: its name, its discovery index and one gauge per reading.
pub struct StorageView {
    pub name: Seq<char>,
    pub index: usize,
    pub gauges: Seq<GaugeView>,
}

pub open spec fn new_storage() -> StorageView {
    StorageView {
        name: Seq::empty(),
        index: 0,
        gauges: Seq::new(DISK_GAUGES as nat, |i: int| new_gauge()),
    }
}

pub open spec fn apply_disk_sensor(d: StorageView, s: Sensor) -> StorageView {
    match disk_gauge_of(s.name@) {
        None => d,
        Some(k) => StorageView {
            gauges: d.gauges.update(
                k.spec_slot() as int,
                gauge_record(d.gauges[k.spec_slot() as int], sample_of(s), k.spec_charted()),
            ),
            ..d
        },
    }
}

pub open spec fn apply_disk_sensors(d: StorageView, sensors: Seq<Sensor>) -> StorageView
    decreases sensors.len(),
{
    if sensors.len() == 0 {
        d
    } else {
        apply_disk_sensor(apply_disk_sensors(d, sensors.drop_last()), sensors.last())
    }
}

/// The disk after the device of a poll found at `index` among the disks.
pub open spec fn storage_updated(d: StorageView, dev: Device, index: usize) -> StorageView {
    apply_disk_sensors(StorageView { name: dev.name@, index, ..d }, dev.sensors@)
}

/// A disk, identified by the order in which it was discovered.
#[derive(Debug, Clone)]
pub struct Storage {
    name: String,
    index: usize,
    gauges: Gauges,
}

impl View for Storage {
    type V = StorageView;

    closed spec fn view(&self) -> StorageView {
        StorageView { name: self.name@, index: self.index, gauges: self.gauges@ }
    }
}

impl Storage {
    pub fn new() -> (r: Storage)
        ensures
            r@ == new_storage(),
    {
        let r = Storage { name: String::new(), index: 0, gauges: Gauges::new(DISK_GAUGES) };
        assert(r@.name =~= Seq::<char>::empty());
        r
    }

    /// Applies the device of a poll that was found at `index` among the disks.
    pub fn update(&mut self, device: &Device, index: usize)
        requires
            old(self)@.gauges.len() == DISK_GAUGES,
        ensures
            final(self)@ == storage_updated(old(self)@, *device, index),
            final(self)@.gauges.len() == DISK_GAUGES,
    {
        self.name = device.name.clone();
        self.index = index;
        let ghost start = self@;
        let n = device.sensors.len();
        let mut i: usize = 0;
        while i < n
            invariant
                n == device.sensors@.len(),
                i <= n,
                start == (StorageView { name: device.name@, index, ..old(self)@ }),
                self@ == apply_disk_sensors(start, device.sensors@.subrange(0, i as int)),
                self@.gauges.len() == DISK_GAUGES,
            decreases n - i,
        {
            assert(device.sensors@.subrange(0, i + 1).drop_last() =~= device.sensors@.subrange(
                0,
                i as int,
            ));
            let s = &device.sensors[i];
            match disk_gauge(s.name.as_str()) {
                Some(k) => {
                    self.gauges.record(k.slot(), Sample::from_sensor(s), k.charted());
                },
                None => {},
            }
            i = i + 1;
        }
        assert(device.sensors@.subrange(0, n as int) =~= device.sensors@);
    }

    pub fn name(&self) -> (r: &String)
        ensures
            r@ == self@.name,
    {
        &self.name
    }

    pub fn index(&self) -> (r: usize)
        ensures
            r == self@.index,
    {
        self.index
    }

    pub fn gauge(&self, k: DiskGauge) -> (r: &Gauge)
        requires
            self@.gauges.len() == DISK_GAUGES,
        ensures
            r@ == self@.gauges[k.spec_slot() as int],
    {
        self.gauges.get(k.slot())
    }
}

/// What the disk's graph can show.
#[derive(Debug, Clone, Copy, PartialEq, Eq, Structural)]
pub enum GraphState {
    Temperature,
    Activity,
}

pub open spec fn disk_graph_label(g: GraphState) -> Seq<char> {
    match g {
        GraphState::Activity => "Activity"@,
        GraphState::Temperature => "Temperature"@,
    }
}

impl GraphState {
    /// The text of the choice in a pick list.
    pub fn label(&self) -> (r: &'static str)
        ensures
            r@ == disk_graph_label(*self),
    {
        match self {
            GraphState::Activity => "Activity",
            GraphState::Temperature => "Temperature",
        }
    }

    /// The reading that this graph draws.
    pub fn gauge(&self) -> (r: DiskGauge)
        ensures
            *self == GraphState::Activity ==> r == DiskGauge::Activity,
            *self == GraphState::Temperature ==> r == DiskGauge::Temperature,
    {
        match self {
            GraphState::Activity => DiskGauge::Activity,
            GraphState::Temperature => DiskGauge::Temperature,
        }
    }
}

} // verus!

use vstd::prelude::*;

use crate::gauge::{gauge_record, new_gauge, GaugeView, Gauge, Gauges};
use crate::report::{sample_of, Device, Sample, Sensor, SensorKind};
use crate::series::{empty_series, series_push, RollingSeries, SeriesView, GRAPH_LEN};
use crate::text::text_is;

verus! {

/// The readings that a graphics adapter tracks.
#[derive(Debug, Clone, Copy, PartialEq, Eq, Structural)]
pub enum GpuGauge {
    Temperature,
    HotSpotTemperature,
    FanSpeed,
    Power,
    CoreLoad,
    MemoryLoad,
    FrameBufferLoad,
    VideoEngineLoad,
    BusInterfaceLoad,
    PcieRx,
    PcieTx,
    CoreClock,
    MemoryClock,
    MemoryUsed,
    MemoryFree,
    MemoryTotal,
}

/// Number of readings a graphics adapter tracks.
pub const GPU_GAUGES: usize = 16;

impl GpuGauge {
    pub open spec fn spec_slot(self) -> usize {
        match self {
            GpuGauge::Temperature => 0,
            GpuGauge::HotSpotTemperature => 1,
            GpuGauge::FanSpeed => 2,
            GpuGauge::Power => 3,
            GpuGauge::CoreLoad => 4,
            GpuGauge::MemoryLoad => 5,
            GpuGauge::FrameBufferLoad => 6,
            GpuGauge::VideoEngineLoad => 7,
            GpuGauge::BusInterfaceLoad => 8,
            GpuGauge::PcieRx => 9,
            GpuGauge::PcieTx => 10,
            GpuGauge::CoreClock => 11,
            GpuGauge::MemoryClock => 12,
            GpuGauge::MemoryUsed => 13,
            GpuGauge::MemoryFree => 14,
            GpuGauge::MemoryTotal => 15,
        }
    }

    /// Position of the reading in the adapter's gauges.
    pub fn slot(&self) -> (r: usize)
        ensures
            r == self.spec_slot(),
            r < GPU_GAUGES,
    {
        match self {
            GpuGauge::Temperature => 0,
            GpuGauge::HotSpotTemperature => 1,
            GpuGauge::FanSpeed => 2,
            GpuGauge::Power => 3,
            GpuGauge::CoreLoad => 4,
            GpuGauge::MemoryLoad => 5,
            GpuGauge::FrameBufferLoad => 6,
            GpuGauge::VideoEngineLoad => 7,
            GpuGauge::BusInterfaceLoad => 8,
            GpuGauge::PcieRx => 9,
            GpuGauge::PcieTx => 10,
            GpuGauge::CoreClock => 11,
            GpuGauge::MemoryClock => 12,
            GpuGauge::MemoryUsed => 13,
            GpuGauge::MemoryFree => 14,
            GpuGauge::MemoryTotal => 15,
        }
    }

    pub open spec fn spec_charted(self) -> bool {
        !(self == GpuGauge::MemoryUsed || self == GpuGauge::MemoryFree || self
            == GpuGauge::MemoryTotal)
    }

    /// Whether the reading is drawn; the memory figures are not.
    pub fn charted(&self) -> (r: bool)
        ensures
            r == self.spec_charted(),
    {
        match self {
            GpuGauge::MemoryUsed | GpuGauge::MemoryFree | GpuGauge::MemoryTotal => false,
            _ => true,
        }
    }
}

/// The lookup table from a sensor's name and kind to the reading it feeds.
pub open spec fn gpu_gauge_of(name: Seq<char>, kind: SensorKind) -> Option<GpuGauge> {
    if name == "GPU Core"@ {
        match kind {
            SensorKind::Temperature => Some(GpuGauge::Temperature),
            SensorKind::Load => Some(GpuGauge::CoreLoad),
            SensorKind::Clock => Some(GpuGauge::CoreClock),
            _ => None,
        }
    } else if name == "GPU Memory"@ {
        match kind {
            SensorKind::Load => Some(GpuGauge::MemoryLoad),
            SensorKind::Clock => Some(GpuGauge::MemoryClock),
            _ => None,
        }
    } else if name == "GPU"@ || name == "GPU Fan 1"@ {
        if kind == SensorKind::Fan {
            Some(GpuGauge::FanSpeed)
        } else {
            None
        }
    } else if name == "GPU Frame Buffer"@ {
        Some(GpuGauge::FrameBufferLoad)
    } else if name == "GPU Video Engine"@ {
        Some(GpuGauge::VideoEngineLoad)
    } else if name == "GPU Bus"@ {
        Some(GpuGauge::BusInterfaceLoad)
    } else if name == "GPU Power"@ {
        Some(GpuGauge::Power)
    } else if name == "GPU Memory Used"@ {
        Some(GpuGauge::MemoryUsed)
    } else if name == "GPU Memory Total"@ {
        Some(GpuGauge::MemoryTotal)
    } else if name == "GPU Memory Free"@ {
        Some(GpuGauge::MemoryFree)
    } else if name == "GPU Hot Spot"@ {
        Some(GpuGauge::HotSpotTemperature)
    } else if name == "GPU PCIe Rx"@ {
        Some(GpuGauge::PcieRx)
    } else if name == "GPU PCIe Tx"@ {
        Some(GpuGauge::PcieTx)
    } else {
        None
    }
}

/// Looks a sensor up in the adapter's table; `None` for a sensor it ignores.
pub fn gpu_gauge(name: &str, kind: SensorKind) -> (r: Option<GpuGauge>)
    ensures
        r == gpu_gauge_of(name@, kind),
{
    if text_is(name, "GPU Core") {
        match kind {
            SensorKind::Temperature => Some(GpuGauge::Temperature),
            SensorKind::Load => Some(GpuGauge::CoreLoad),
            SensorKind::Clock => Some(GpuGauge::CoreClock),
            _ => None,
        }
    } else if text_is(name, "GPU Memory") {
        match kind {
            SensorKind::Load => Some(GpuGauge::MemoryLoad),
            SensorKind::Clock => Some(GpuGauge::MemoryClock),
            _ => None,
        }
    } else if text_is(name, "GPU") || text_is(name, "GPU Fan 1") {
        match kind {
            SensorKind::Fan => Some(GpuGauge::FanSpeed),
            _ => None,
        }
    } else if text_is(name, "GPU Frame Buffer") {
        Some(GpuGauge::FrameBufferLoad)
    } else if text_is(name, "GPU Video Engine") {
        Some(GpuGauge::VideoEngineLoad)
    } else if text_is(name, "GPU Bus") {
        Some(GpuGauge::BusInterfaceLoad)
    } else if text_is(name, "GPU Power") {
        Some(GpuGauge::Power)
    } else if text_is(name, "GPU Memory Used") {
        Some(GpuGauge::MemoryUsed)
    } else if text_is(name, "GPU Memory Total") {
        Some(GpuGauge::MemoryTotal)
    } else if text_is(name, "GPU Memory Free") {
        Some(GpuGauge::MemoryFree)
    } else if text_is(name, "GPU Hot Spot") {
        Some(GpuGauge::HotSpotTemperature)
    } else if text_is(name, "GPU PCIe Rx") {
        Some(GpuGauge::PcieRx)
    } else if text_is(name, "GPU PCIe Tx") {
        Some(GpuGauge::PcieTx)
    } else {
        None
    }
}

/// What a graphics adapter holds: its name, its discovery index, one gauge per
/// reading, and the series of core load shown beside its name.
pub struct GpuView {
    pub name: Seq<char>,
    pub index: usize,
    pub gauges: Seq<GaugeView>,
    pub load_graph: SeriesView,
}

pub open spec fn new_gpu() -> GpuView {
    GpuView {
        name: Seq::empty(),
        index: 0,
        gauges: Seq::new(GPU_GAUGES as nat, |i: int| new_gauge()),
        load_graph: empty_series(GRAPH_LEN as nat),
    }
}

/// The adapter after one sensor.
pub open spec fn apply_gpu_sensor(g: GpuView, s: Sensor) -> GpuView {
    match gpu_gauge_of(s.name@, s.kind) {
        None => g,
        Some(k) => GpuView {
            gauges: g.gauges.update(
                k.spec_slot() as int,
                gauge_record(g.gauges[k.spec_slot() as int], sample_of(s), k.spec_charted()),
            ),
            load_graph: if k == GpuGauge::CoreLoad {
                series_push(g.load_graph, s.value)
            } else {
                g.load_graph
            },
            ..g
        },
    }
}

pub open spec fn apply_gpu_sensors(g: GpuView, sensors: Seq<Sensor>) -> GpuView
    decreases sensors.len(),
{
    if sensors.len() == 0 {
        g
    } else {
        apply_gpu_sensor(apply_gpu_sensors(g, sensors.drop_last()), sensors.last())
    }
}

/// The adapter after the device of a poll found at `index` among the adapters.
pub open spec fn gpu_updated(g: GpuView, d: Device, index: usize) -> GpuView {
    apply_gpu_sensors(GpuView { name: d.name@, index, ..g }, d.sensors@)
}

/// A graphics adapter, identified by the order in which it was discovered.
#[derive(Debug, Clone)]
pub struct Gpu {
    name: String,
    index: usize,
    gauges: Gauges,
    load_graph: RollingSeries,
}

impl View for Gpu {
    type V = GpuView;

    closed spec fn view(&self) -> GpuView {
        GpuView {
            name: self.name@,
            index: self.index,
            gauges: self.gauges@,
            load_graph: self.load_graph@,
        }
    }
}

impl Gpu {
    pub fn new() -> (r: Gpu)
        ensures
            r@ == new_gpu(),
    {
        let r = Gpu {
            name: String::new(),
            index: 0,
            gauges: Gauges::new(GPU_GAUGES),
            load_graph: RollingSeries::new(GRAPH_LEN),
        };
        assert(r@.name =~= Seq::<char>::empty());
        r
    }

    /// Applies the device of a poll that was found at `index` among the
    /// adapters: takes its name and index, then feeds each sensor that the
    /// lookup table knows into its reading.
    pub fn update(&mut self, device: &Device, index: usize)
        requires
            old(self)@.gauges.len() == GPU_GAUGES,
        ensures
            final(self)@ == gpu_updated(old(self)@, *device, index),
            final(self)@.gauges.len() == GPU_GAUGES,
    {
        self.name = device.name.clone();
        self.index = index;
        let ghost start = self@;
        let n = device.sensors.len();
        let mut i: usize = 0;
        while i < n
            invariant
                n == device.sensors@.len(),
                i <= n,
                start == (GpuView { name: device.name@, index, ..old(self)@ }),
                self@ == apply_gpu_sensors(start, device.sensors@.subrange(0, i as int)),
                self@.gauges.len() == GPU_GAUGES,
            decreases n - i,
        {
            assert(device.sensors@.subrange(0, i + 1).drop_last() =~= device.sensors@.subrange(
                0,
                i as int,
            ));
            let s = &device.sensors[i];
            match gpu_gauge(s.name.as_str(), s.kind) {
                Some(k) => {
                    self.gauges.record(k.slot(), Sample::from_sensor(s), k.charted());
                    if k == GpuGauge::CoreLoad {
                        self.load_graph.push(s.value);
                    }
                },
                None => {},
            }
            i = i + 1;
        }
        assert(device.sensors@.subrange(0, n as int) =~= device.sensors@);
    }

    pub fn name(&self) -> (r: &String)
        ensures
            r@ == self@.name,
    {
        &self.name
    }

    pub fn index(&self) -> (r: usize)
        ensures
            r == self@.index,
    {
        self.index
    }

    pub fn gauge(&self, k: GpuGauge) -> (r: &Gauge)
        requires
            self@.gauges.len() == GPU_GAUGES,
        ensures
            r@ == self@.gauges[k.spec_slot() as int],
    {
        self.gauges.get(k.slot())
    }

    pub fn load_graph(&self) -> (r: &RollingSeries)
        ensures
            r@ == self@.load_graph,
    {
        &self.load_graph
    }
}

/// What the adapter's graphs can show.
#[derive(Debug, Clone, Copy, PartialEq, Eq, Structural)]
pub enum GraphState {
    CoreClock,
    MemoryClock,
    CoreLoad,
    MemoryLoad,
    FrameBufferLoad,
    VideoEngineLoad,
    BusInterfaceLoad,
    FanSpeed,
    Temperature,
    PowerUsage,
    HotSpotTemperature,
    PCIeRx,
    PCIeTx,
}

/// The three graph areas of the adapter's page.
#[derive(Debug, Clone, Copy, PartialEq, Eq, Structural)]
pub enum Region {
    Loads,
    Clocks,
    Thermals,
}

pub open spec fn region_of(g: GraphState) -> Region {
    match g {
        GraphState::CoreLoad | GraphState::MemoryLoad | GraphState::FrameBufferLoad
        | GraphState::BusInterfaceLoad | GraphState::VideoEngineLoad => Region::Loads,
        GraphState::CoreClock | GraphState::MemoryClock | GraphState::PCIeRx
        | GraphState::PCIeTx => Region::Clocks,
        _ => Region::Thermals,
    }
}

impl GraphState {
    /// The graph area in which this choice is offered.
    pub fn region(&self) -> (r: Region)
        ensures
            r == region_of(*self),
    {
        match self {
            GraphState::CoreLoad | GraphState::MemoryLoad | GraphState::FrameBufferLoad
            | GraphState::BusInterfaceLoad | GraphState::VideoEngineLoad => Region::Loads,
            GraphState::CoreClock | GraphState::MemoryClock | GraphState::PCIeRx
            | GraphState::PCIeTx => Region::Clocks,
            _ => Region::Thermals,
        }
    }

    /// The reading that this graph draws.
    pub fn gauge(&self) -> (r: GpuGauge)
        ensures
            r == graph_gauge(*self),
    {
        match self {
            GraphState::CoreClock => GpuGauge::CoreClock,
            GraphState::MemoryClock => GpuGauge::MemoryClock,
            GraphState::CoreLoad => GpuGauge::CoreLoad,
            GraphState::MemoryLoad => GpuGauge::MemoryLoad,
            GraphState::FrameBufferLoad => GpuGauge::FrameBufferLoad,
            GraphState::VideoEngineLoad => GpuGauge::VideoEngineLoad,
            GraphState::BusInterfaceLoad => GpuGauge::BusInterfaceLoad,
            GraphState::FanSpeed => GpuGauge::FanSpeed,
            GraphState::Temperature => GpuGauge::Temperature,
            GraphState::PowerUsage => GpuGauge::Power,
            GraphState::HotSpotTemperature => GpuGauge::HotSpotTemperature,
            GraphState::PCIeRx => GpuGauge::PcieRx,
            GraphState::PCIeTx => GpuGauge::PcieTx,
        }
    }

    /// The text of the choice in a pick list.
    pub fn label(&self) -> (r: &'static str)
        ensures
            r@ == gpu_graph_label(*self),
    {
        match self {
            GraphState::CoreClock => "Core Frequency",
            GraphState::MemoryClock => "Memory Frequency",
            GraphState::CoreLoad => "Core Load",
            GraphState::MemoryLoad => "Memory Load",
            GraphState::BusInterfaceLoad => "Bus Interface Load",
            GraphState::VideoEngineLoad => "Video Engine Load",
            GraphState::FrameBufferLoad => "Frame Buffer Load",
            GraphState::FanSpeed => "Fan Speed",
            GraphState::Temperature => "Temperature",
            GraphState::PowerUsage => "Power Usage",
            GraphState::HotSpotTemperature => "Hot Spot",
            GraphState::PCIeRx => "PCIe Down",
            GraphState::PCIeTx => "PCIe Up",
        }
    }
}

pub open spec fn graph_gauge(g: GraphState) -> GpuGauge {
    match g {
        GraphState::CoreClock => GpuGauge::CoreClock,
        GraphState::MemoryClock => GpuGauge::MemoryClock,
        GraphState::CoreLoad => GpuGauge::CoreLoad,
        GraphState::MemoryLoad => GpuGauge::MemoryLoad,
        GraphState::FrameBufferLoad => GpuGauge::FrameBufferLoad,
        GraphState::VideoEngineLoad => GpuGauge::VideoEngineLoad,
        GraphState::BusInterfaceLoad => GpuGauge::BusInterfaceLoad,
        GraphState::FanSpeed => GpuGauge::FanSpeed,
        GraphState::Temperature => GpuGauge::Temperature,
        GraphState::PowerUsage => GpuGauge::Power,
        GraphState::HotSpotTemperature => GpuGauge::HotSpotTemperature,
        GraphState::PCIeRx => GpuGauge::PcieRx,
        GraphState::PCIeTx => GpuGauge::PcieTx,
    }
}

pub open spec fn gpu_graph_label(g: GraphState) -> Seq<char> {
    match g {
        GraphState::CoreClock => "Core Frequency"@,
        GraphState::MemoryClock => "Memory Frequency"@,
        GraphState::CoreLoad => "Core Load"@,
        GraphState::MemoryLoad => "Memory Load"@,
        GraphState::BusInterfaceLoad => "Bus Interface Load"@,
        GraphState::VideoEngineLoad => "Video Engine Load"@,
        GraphState::FrameBufferLoad => "Frame Buffer Load"@,
        GraphState::FanSpeed => "Fan Speed"@,
        GraphState::Temperature => "Temperature"@,
        GraphState::PowerUsage => "Power Usage"@,
        GraphState::HotSpotTemperature => "Hot Spot"@,
        GraphState::PCIeRx => "PCIe Down"@,
        GraphState::PCIeTx => "PCIe Up"@,
    }
}

} // verus!

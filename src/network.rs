use vstd::prelude::*;

use crate::arith::{add_clamped, clamp_add};
use crate::gauge::{gauge_record, new_gauge, Gauge, GaugeView, Gauges};
use crate::report::{sample_of, Device, Sample, Sensor};
use crate::series::{empty_series, series_push, RollingSeries, SeriesView, GRAPH_LEN};
use crate::text::text_is;

verus! {

/// The readings that a network adapter tracks.
#[derive(Debug, Clone, Copy, PartialEq, Eq, Structural)]
pub enum NetGauge {
    Utilization,
    Uploaded,
    Downloaded,
    DownloadSpeed,
    UploadSpeed,
}

/// Number of readings a network adapter tracks.
pub const NET_GAUGES: usize = 5;

impl NetGauge {
    pub open spec fn spec_slot(self) -> usize {
        match self {
            NetGauge::Utilization => 0,
            NetGauge::Uploaded => 1,
            NetGauge::Downloaded => 2,
            NetGauge::DownloadSpeed => 3,
            NetGauge::UploadSpeed => 4,
        }
    }

    /// Position of the reading in the adapter's gauges.
    pub fn slot(&self) -> (r: usize)
        ensures
            r == self.spec_slot(),
            r < NET_GAUGES,
    {
        match self {
            NetGauge::Utilization => 0,
            NetGauge::Uploaded => 1,
            NetGauge::Downloaded => 2,
            NetGauge::DownloadSpeed => 3,
            NetGauge::UploadSpeed => 4,
        }
    }

    pub open spec fn spec_is_speed(self) -> bool {
        self == NetGauge::DownloadSpeed || self == NetGauge::UploadSpeed
    }

    /// Whether the reading is a transfer speed, which counts toward throughput.
    pub fn is_speed(&self) -> (r: bool)
        ensures
            r == self.spec_is_speed(),
    {
        match self {
            NetGauge::DownloadSpeed | NetGauge::UploadSpeed => true,
            _ => false,
        }
    }
}

/// The lookup table from a sensor's name to the reading it feeds.
pub open spec fn net_gauge_of(name: Seq<char>) -> Option<NetGauge> {
    if name == "Network Utilization"@ {
        Some(NetGauge::Utilization)
    } else if name == "Data Uploaded"@ {
        Some(NetGauge::Uploaded)
    } else if name == "Data Downloaded"@ {
        Some(NetGauge::Downloaded)
    } else if name == "Download Speed"@ {
        Some(NetGauge::DownloadSpeed)
    } else if name == "Upload Speed"@ {
        Some(NetGauge::UploadSpeed)
    } else {
        None
    }
}

/// Looks a sensor up in the adapter's table; `None` for a sensor it ignores.
pub fn net_gauge(name: &str) -> (r: Option<NetGauge>)
    ensures
        r == net_gauge_of(name@),
{
    if text_is(name, "Network Utilization") {
        Some(NetGauge::Utilization)
    } else if text_is(name, "Data Uploaded") {
        Some(NetGauge::Uploaded)
    } else if text_is(name, "Data Downloaded") {
        Some(NetGauge::Downloaded)
    } else if text_is(name, "Download Speed") {
        Some(NetGauge::DownloadSpeed)
    } else if text_is(name, "Upload Speed") {
        Some(NetGauge::UploadSpeed)
    } else {
        None
    }
}

/// Whether an adapter of this name is tracked: only wired and wireless
/// Ethernet are.
pub open spec fn is_tracked_adapter(name: Seq<char>) -> bool {
    name == "Ethernet"@ || name == "Wi-Fi"@
}

pub fn tracked_adapter(name: &str) -> (r: bool)
    ensures
        r == is_tracked_adapter(name@),
{
    text_is(name, "Ethernet") || text_is(name, "Wi-Fi")
}

/// What a network adapter holds: its name, its discovery index, one gauge per
/// reading, and the series of combined upload and download speed.
pub struct NetworkView {
    pub name: Seq<char>,
    pub index: usize,
    pub gauges: Seq<GaugeView>,
    pub throughput_graph: SeriesView,
}

pub open spec fn new_adapter() -> NetworkView {
    NetworkView {
        name: Seq::empty(),
        index: 0,
        gauges: Seq::new(NET_GAUGES as nat, |i: int| new_gauge()),
        throughput_graph: empty_series(GRAPH_LEN as nat),
    }
}

pub open spec fn apply_net_sensor(a: NetworkView, s: Sensor) -> NetworkView {
    match net_gauge_of(s.name@) {
        None => a,
        Some(k) => NetworkView {
            gauges: a.gauges.update(
                k.spec_slot() as int,
                gauge_record(a.gauges[k.spec_slot() as int], sample_of(s), false),
            ),
            ..a
        },
    }
}

pub open spec fn apply_net_sensors(a: NetworkView, sensors: Seq<Sensor>) -> NetworkView
    decreases sensors.len(),
{
    if sensors.len() == 0 {
        a
    } else {
        apply_net_sensor(apply_net_sensors(a, sensors.drop_last()), sensors.last())
    }
}

/// Sum of the current values of the speed sensors of a poll.
pub open spec fn throughput_of(sensors: Seq<Sensor>) -> i64
    decreases sensors.len(),
{
    if sensors.len() == 0 {
        0
    } else {
        let before = throughput_of(sensors.drop_last());
        match net_gauge_of(sensors.last().name@) {
            Some(k) => if k.spec_is_speed() {
                clamp_add(before, sensors.last().value)
            } else {
                before
            },
            None => before,
        }
    }
}

/// The adapter after the device of a poll found at `index` among the tracked
/// adapters: its sensors applied, then the poll's throughput appended.
pub open spec fn network_updated(a: NetworkView, d: Device, index: usize) -> NetworkView {
    let x = apply_net_sensors(NetworkView { name: d.name@, index, ..a }, d.sensors@);
    NetworkView {
        throughput_graph: series_push(x.throughput_graph, throughput_of(d.sensors@)),
        ..x
    }
}

/// A network adapter, identified by the order in which it was discovered.
#[derive(Debug, Clone)]
pub struct NetworkAdapter {
    name: String,
    index: usize,
    gauges: Gauges,
    throughput_graph: RollingSeries,
}

impl View for NetworkAdapter {
    type V = NetworkView;

    closed spec fn view(&self) -> NetworkView {
        NetworkView {
            name: self.name@,
            index: self.index,
            gauges: self.gauges@,
            throughput_graph: self.throughput_graph@,
        }
    }
}

impl NetworkAdapter {
    pub fn new() -> (r: NetworkAdapter)
        ensures
            r@ == new_adapter(),
    {
        let r = NetworkAdapter {
            name: String::new(),
            index: 0,
            gauges: Gauges::new(NET_GAUGES),
            throughput_graph: RollingSeries::new(GRAPH_LEN),
        };
        assert(r@.name =~= Seq::<char>::empty());
        r
    }

    /// Applies the device of a poll that was found at `index` among the
    /// tracked adapters.
    pub fn update(&mut self, device: &Device, index: usize)
        requires
            old(self)@.gauges.len() == NET_GAUGES,
        ensures
            final(self)@ == network_updated(old(self)@, *device, index),
            final(self)@.gauges.len() == NET_GAUGES,
    {
        self.name = device.name.clone();
        self.index = index;
        let ghost start = self@;
        let mut throughput: i64 = 0;
        let n = device.sensors.len();
        let mut i: usize = 0;
        while i < n
            invariant
                n == device.sensors@.len(),
                i <= n,
                start == (NetworkView { name: device.name@, index, ..old(self)@ }),
                self@ == apply_net_sensors(start, device.sensors@.subrange(0, i as int)),
                throughput == throughput_of(device.sensors@.subrange(0, i as int)),
                self@.gauges.len() == NET_GAUGES,
            decreases n - i,
        {
            assert(device.sensors@.subrange(0, i + 1).drop_last() =~= device.sensors@.subrange(
                0,
                i as int,
            ));
            let s = &device.sensors[i];
            match net_gauge(s.name.as_str()) {
                Some(k) => {
                    self.gauges.record(k.slot(), Sample::from_sensor(s), false);
                    if k.is_speed() {
                        throughput = add_clamped(throughput, s.value);
                    }
                },
                None => {},
            }
            i = i + 1;
        }
        assert(device.sensors@.subrange(0, n as int) =~= device.sensors@);
        self.throughput_graph.push(throughput);
    }

    pub fn name(&self) -> (r: &String)
        ensures
            r@ == self@.name,
    {
        &self.name
    }

    pub fn index(&self) -> (r: usize)
        ensures
            r == self@.index,
    {
        self.index
    }

    pub fn gauge(&self, k: NetGauge) -> (r: &Gauge)
        requires
            self@.gauges.len() == NET_GAUGES,
        ensures
            r@ == self@.gauges[k.spec_slot() as int],
    {
        self.gauges.get(k.slot())
    }

    pub fn throughput_graph(&self) -> (r: &RollingSeries)
        ensures
            r@ == self@.throughput_graph,
    {
        &self.throughput_graph
    }
}

} // verus!

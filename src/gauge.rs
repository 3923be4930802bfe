use vstd::prelude::*;

use crate::report::Sample;
use crate::series::{empty_series, series_push, RollingSeries, SeriesView, GRAPH_LEN};

verus! {

/// A named reading of a device: its latest sample and, for the readings that
/// are drawn, the series of its current values.
pub struct GaugeView {
    pub sample: Sample,
    pub graph: SeriesView,
}

pub open spec fn new_gauge() -> GaugeView {
    GaugeView { sample: Sample { current: 0, maximum: 0 }, graph: empty_series(GRAPH_LEN as nat) }
}

/// The gauge after a sample: the sample replaces the old one whole, and its
/// value is appended to the series when the gauge is drawn.
pub open spec fn gauge_record(g: GaugeView, s: Sample, charted: bool) -> GaugeView {
    GaugeView {
        sample: s,
        graph: if charted {
            series_push(g.graph, s.current)
        } else {
            g.graph
        },
    }
}

#[derive(Debug, Clone)]
pub struct Gauge {
    sample: Sample,
    graph: RollingSeries,
}

impl View for Gauge {
    type V = GaugeView;

    closed spec fn view(&self) -> GaugeView {
        GaugeView { sample: self.sample, graph: self.graph@ }
    }
}

impl Gauge {
    pub fn new() -> (r: Gauge)
        ensures
            r@ == new_gauge(),
    {
        Gauge { sample: Sample::zero(), graph: RollingSeries::new(GRAPH_LEN) }
    }

    pub fn record(&mut self, s: Sample, charted: bool)
        ensures
            final(self)@ == gauge_record(old(self)@, s, charted),
    {
        self.sample = s;
        if charted {
            self.graph.push(s.current);
        }
    }

    pub fn sample(&self) -> (r: Sample)
        ensures
            r == self@.sample,
    {
        self.sample
    }

    pub fn graph(&self) -> (r: &RollingSeries)
        ensures
            r@ == self@.graph,
    {
        &self.graph
    }
}

/// A fixed set of gauges, one per slot of a device's lookup table.
#[derive(Debug, Clone)]
pub struct Gauges {
    items: Vec<Gauge>,
}

impl View for Gauges {
    type V = Seq<GaugeView>;

    closed spec fn view(&self) -> Seq<GaugeView> {
        self.items@.map_values(|g: Gauge| g@)
    }
}

impl Gauges {
    /// `n` gauges that have seen nothing.
    pub fn new(n: usize) -> (r: Gauges)
        ensures
            r@ == Seq::new(n as nat, |i: int| new_gauge()),
    {
        let mut items: Vec<Gauge> = Vec::new();
        let mut i: usize = 0;
        while i < n
            invariant
                i <= n,
                items@.len() == i,
                forall|k: int| 0 <= k < i ==> (#[trigger] items@[k])@ == new_gauge(),
            decreases n - i,
        {
            items.push(Gauge::new());
            i = i + 1;
        }
        let r = Gauges { items };
        assert(r@ =~= Seq::new(n as nat, |i: int| new_gauge()));
        r
    }

    pub fn len(&self) -> (r: usize)
        ensures
            r == self@.len(),
    {
        self.items.len()
    }

    pub fn record(&mut self, slot: usize, s: Sample, charted: bool)
        requires
            slot < old(self)@.len(),
        ensures
            final(self)@ == old(self)@.update(
                slot as int,
                gauge_record(old(self)@[slot as int], s, charted),
            ),
    {
        self.items[slot].record(s, charted);
        assert(self@ =~= old(self)@.update(
            slot as int,
            gauge_record(old(self)@[slot as int], s, charted),
        ));
    }

    pub fn get(&self, slot: usize) -> (r: &Gauge)
        requires
            slot < self@.len(),
        ensures
            r@ == self@[slot as int],
    {
        &self.items[slot]
    }
}

} // verus!

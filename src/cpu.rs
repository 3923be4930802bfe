use vstd::prelude::*;

use crate::arith::{lemma_mean_fits, mean, mean_of};
use crate::report::{sample_of, Device, Sample, Sensor, SensorKind};
use crate::series::{empty_series, series_push, RollingSeries, SeriesView, GRAPH_LEN, HISTORY_LEN};
use crate::text::{
    chars_of, digit_run, digits_value, ends_with, has_at, read_number, starts_with,
    text_ends_with, text_is, text_starts_with,
};

verus! {

// ----- sensor names -----

/// The numbers in a name of the form `CPU Core #<n>` or
/// `CPU Core #<n> Thread #<m>`, read from its start; whatever follows the
/// longest such form is not looked at.
pub open spec fn core_thread_numbers(name: Seq<char>) -> Option<(nat, Option<nat>)> {
    let p = "CPU Core #"@;
    let t = " Thread #"@;
    let a = p.len() as int;
    let ra = digit_run(name, a);
    if !starts_with(name, p) || ra == 0 {
        None
    } else {
        let n = digits_value(name.subrange(a, a + ra));
        let b = a + ra;
        let c = b + t.len();
        let rc = digit_run(name, c);
        if starts_with(name.subrange(b, name.len() as int), t) && rc > 0 {
            Some((n, Some(digits_value(name.subrange(c, c + rc)))))
        } else {
            Some((n, None))
        }
    }
}

/// Zero-based core and thread that a per-thread sensor name designates. The
/// numbers in the name count from one; a zero, or a number past `usize`,
/// designates nothing.
pub open spec fn load_position(name: Seq<char>) -> Option<(usize, Option<usize>)> {
    match core_thread_numbers(name) {
        None => None,
        Some((n, m)) => {
            if 1 <= n <= usize::MAX {
                match m {
                    None => Some(((n - 1) as usize, None)),
                    Some(k) => {
                        if 1 <= k <= usize::MAX {
                            Some(((n - 1) as usize, Some((k - 1) as usize)))
                        } else {
                            None
                        }
                    },
                }
            } else {
                None
            }
        },
    }
}

/// Parses `CPU Core #<n>` or `CPU Core #<n> Thread #<m>` into the zero-based
/// core index and, where the name has one, the zero-based thread index.
pub fn parse_core_thread(name: &str) -> (r: Option<(usize, Option<usize>)>)
    ensures
        r == load_position(name@),
{
    let v = chars_of(name);
    let n = v.len();
    assert(v@.subrange(0, n as int) =~= v@);
    if !has_at(&v, 0, "CPU Core #") {
        return None;
    }
    let a = "CPU Core #".unicode_len();
    let (ra, number) = read_number(&v, a);
    if ra == 0 {
        return None;
    }
    let first = match number {
        Some(c) => c,
        None => {
            return None;
        },
    };
    if first == 0 {
        return None;
    }
    let b = a + ra;
    let has_thread = has_at(&v, b, " Thread #");
    if has_thread {
        let c = b + " Thread #".unicode_len();
        proof {
            assert(v@.subrange(b as int, n as int).subrange(0, " Thread #"@.len() as int)
                =~= v@.subrange(b as int, c as int));
        }
        let (rc, thread) = read_number(&v, c);
        if rc > 0 {
            return match thread {
                Some(k) => {
                    if k == 0 {
                        None
                    } else {
                        Some((first - 1, Some(k - 1)))
                    }
                },
                None => None,
            };
        }
    }
    Some((first - 1, None))
}

// ----- metrics -----

/// What one metric of a thread, or the package power, holds: the latest
/// sample, the history used for averages, and the series used for drawing.
pub struct MetricView {
    pub latest: Option<Sample>,
    pub history: SeriesView,
    pub graph: SeriesView,
}

pub open spec fn new_metric() -> MetricView {
    MetricView {
        latest: None,
        history: empty_series(HISTORY_LEN as nat),
        graph: empty_series(GRAPH_LEN as nat),
    }
}

pub open spec fn metric_record(m: MetricView, s: Sample) -> MetricView {
    MetricView {
        latest: Some(s),
        history: series_push(m.history, s.current),
        graph: series_push(m.graph, s.current),
    }
}

/// A metric with its latest sample, its history and its drawing series.
#[derive(Debug, Clone)]
pub struct Metric {
    latest: Option<Sample>,
    history: RollingSeries,
    graph: RollingSeries,
}

impl View for Metric {
    type V = MetricView;

    closed spec fn view(&self) -> MetricView {
        MetricView { latest: self.latest, history: self.history@, graph: self.graph@ }
    }
}

impl Metric {
    pub fn new() -> (r: Metric)
        ensures
            r@ == new_metric(),
    {
        Metric {
            latest: None,
            history: RollingSeries::new(HISTORY_LEN),
            graph: RollingSeries::new(GRAPH_LEN),
        }
    }

    /// Takes a sample as the latest and appends its value to both series.
    pub fn record(&mut self, s: Sample)
        ensures
            final(self)@ == metric_record(old(self)@, s),
    {
        self.latest = Some(s);
        self.history.push(s.current);
        self.graph.push(s.current);
    }

    pub fn latest(&self) -> (r: Option<Sample>)
        ensures
            r == self@.latest,
    {
        self.latest
    }

    pub fn history(&self) -> (r: &RollingSeries)
        ensures
            r@ == self@.history,
    {
        &self.history
    }

    pub fn graph(&self) -> (r: &RollingSeries)
        ensures
            r@ == self@.graph,
    {
        &self.graph
    }
}

// ----- threads and cores -----

/// The three per-thread metrics.
#[derive(Debug, Clone, Copy, PartialEq, Eq, Structural)]
pub enum ThreadMetric {
    Load,
    Frequency,
    Temperature,
}

pub struct ThreadView {
    pub load: MetricView,
    pub frequency: MetricView,
    pub temperature: MetricView,
}

pub open spec fn new_thread() -> ThreadView {
    ThreadView { load: new_metric(), frequency: new_metric(), temperature: new_metric() }
}

pub open spec fn thread_metric(t: ThreadView, w: ThreadMetric) -> MetricView {
    match w {
        ThreadMetric::Load => t.load,
        ThreadMetric::Frequency => t.frequency,
        ThreadMetric::Temperature => t.temperature,
    }
}

pub open spec fn thread_record(t: ThreadView, w: ThreadMetric, s: Sample) -> ThreadView {
    match w {
        ThreadMetric::Load => ThreadView { load: metric_record(t.load, s), ..t },
        ThreadMetric::Frequency => ThreadView { frequency: metric_record(t.frequency, s), ..t },
        ThreadMetric::Temperature => ThreadView {
            temperature: metric_record(t.temperature, s),
            ..t
        },
    }
}

/// One logical processor.
#[derive(Debug, Clone)]
pub struct CpuThread {
    load: Metric,
    frequency: Metric,
    temperature: Metric,
}

impl View for CpuThread {
    type V = ThreadView;

    closed spec fn view(&self) -> ThreadView {
        ThreadView { load: self.load@, frequency: self.frequency@, temperature: self.temperature@ }
    }
}

impl CpuThread {
    pub fn new() -> (r: CpuThread)
        ensures
            r@ == new_thread(),
    {
        CpuThread { load: Metric::new(), frequency: Metric::new(), temperature: Metric::new() }
    }

    /// Records a sample into one of the thread's metrics.
    pub fn push(&mut self, s: Sample, w: ThreadMetric)
        ensures
            final(self)@ == thread_record(old(self)@, w, s),
    {
        match w {
            ThreadMetric::Load => self.load.record(s),
            ThreadMetric::Frequency => self.frequency.record(s),
            ThreadMetric::Temperature => self.temperature.record(s),
        }
    }

    pub fn metric(&self, w: ThreadMetric) -> (r: &Metric)
        ensures
            r@ == thread_metric(self@, w),
    {
        match w {
            ThreadMetric::Load => &self.load,
            ThreadMetric::Frequency => &self.frequency,
            ThreadMetric::Temperature => &self.temperature,
        }
    }
}

/// A physical core: its threads in index order.
#[derive(Debug, Clone)]
pub struct CpuCore {
    threads: Vec<CpuThread>,
}

impl View for CpuCore {
    type V = Seq<ThreadView>;

    closed spec fn view(&self) -> Seq<ThreadView> {
        self.threads@.map_values(|t: CpuThread| t@)
    }
}

impl CpuCore {
    pub fn new() -> (r: CpuCore)
        ensures
            r@ == Seq::<ThreadView>::empty(),
    {
        let r = CpuCore { threads: Vec::new() };
        assert(r@ =~= Seq::<ThreadView>::empty());
        r
    }

    /// Appends a thread that has recorded nothing yet.
    pub fn add_thread(&mut self)
        ensures
            final(self)@ == old(self)@.push(new_thread()),
    {
        self.threads.push(CpuThread::new());
        assert(self@ =~= old(self)@.push(new_thread()));
    }

    pub fn thread_count(&self) -> (r: usize)
        ensures
            r == self@.len(),
    {
        self.threads.len()
    }

    pub fn thread(&self, j: usize) -> (r: &CpuThread)
        requires
            j < self@.len(),
        ensures
            r@ == self@[j as int],
    {
        &self.threads[j]
    }

    /// Records a sample into one thread.
    pub fn push_to(&mut self, j: usize, s: Sample, w: ThreadMetric)
        requires
            j < old(self)@.len(),
        ensures
            final(self)@ == old(self)@.update(j as int, thread_record(old(self)@[j as int], w, s)),
    {
        self.threads[j].push(s, w);
        assert(self@ =~= old(self)@.update(j as int, thread_record(old(self)@[j as int], w, s)));
    }

    /// Records a sample into every thread of the core.
    pub fn push_all(&mut self, s: Sample, w: ThreadMetric)
        ensures
            final(self)@ == old(self)@.map_values(|t: ThreadView| thread_record(t, w, s)),
    {
        let n = self.threads.len();
        let mut j: usize = 0;
        while j < n
            invariant
                n == self@.len(),
                n == old(self)@.len(),
                j <= n,
                forall|k: int|
                    0 <= k < j ==> #[trigger] self@[k] == thread_record(old(self)@[k], w, s),
                forall|k: int| j <= k < n ==> #[trigger] self@[k] == old(self)@[k],
            decreases n - j,
        {
            self.push_to(j, s, w);
            j = j + 1;
        }
        assert(self@ =~= old(self)@.map_values(|t: ThreadView| thread_record(t, w, s)));
    }
}

// ----- the sensor rules -----

/// Records into one thread, creating the thread, or the core with its first
/// thread, when the position is the next one; any other position is a gap
/// and changes nothing.
pub open spec fn record_thread(
    cores: Seq<Seq<ThreadView>>,
    c: int,
    t: int,
    w: ThreadMetric,
    s: Sample,
) -> Seq<Seq<ThreadView>> {
    if 0 <= c < cores.len() && 0 <= t < cores[c].len() {
        cores.update(c, cores[c].update(t, thread_record(cores[c][t], w, s)))
    } else if 0 <= c < cores.len() && t == cores[c].len() {
        cores.update(c, cores[c].push(thread_record(new_thread(), w, s)))
    } else if c == cores.len() && t == 0 {
        cores.push(seq![thread_record(new_thread(), w, s)])
    } else {
        cores
    }
}

/// Records into every thread of a core, creating the core with one thread when
/// it is the next one; a core past that is a gap and changes nothing.
pub open spec fn record_core(
    cores: Seq<Seq<ThreadView>>,
    c: int,
    w: ThreadMetric,
    s: Sample,
) -> Seq<Seq<ThreadView>> {
    if 0 <= c < cores.len() {
        cores.update(c, cores[c].map_values(|t: ThreadView| thread_record(t, w, s)))
    } else if c == cores.len() {
        cores.push(seq![thread_record(new_thread(), w, s)])
    } else {
        cores
    }
}

/// Whether a sensor name is the package power sensor.
pub open spec fn is_package_power(name: Seq<char>) -> bool {
    name == "CPU Cores"@
}

/// Whether a sensor name can carry a per-core or per-thread reading:
/// it starts with `CPU Core` and is not a junction-maximum reference.
pub open spec fn is_core_sensor(name: Seq<char>) -> bool {
    starts_with(name, "CPU Core"@) && !ends_with(name, "TjMax"@)
}

/// The cores after one sensor of a poll. A load sensor is per thread, by its
/// name; a clock sensor is per core, at `index - 1`; a temperature sensor is
/// per core, at `index`. Anything else leaves the cores as they were.
pub open spec fn apply_cpu_sensor(cores: Seq<Seq<ThreadView>>, s: Sensor) -> Seq<
    Seq<ThreadView>,
> {
    if is_package_power(s.name@) || !is_core_sensor(s.name@) {
        cores
    } else {
        match s.kind {
            SensorKind::Load => match load_position(s.name@) {
                Some((c, t)) => record_thread(
                    cores,
                    c as int,
                    match t {
                        Some(k) => k as int,
                        None => 0,
                    },
                    ThreadMetric::Load,
                    sample_of(s),
                ),
                None => cores,
            },
            SensorKind::Clock => if s.index >= 1 {
                record_core(cores, s.index - 1, ThreadMetric::Frequency, sample_of(s))
            } else {
                cores
            },
            SensorKind::Temperature => record_core(
                cores,
                s.index as int,
                ThreadMetric::Temperature,
                sample_of(s),
            ),
            _ => cores,
        }
    }
}

/// The cores after the sensors of a poll, in order.
pub open spec fn apply_cpu_sensors(cores: Seq<Seq<ThreadView>>, sensors: Seq<Sensor>) -> Seq<
    Seq<ThreadView>,
>
    decreases sensors.len(),
{
    if sensors.len() == 0 {
        cores
    } else {
        apply_cpu_sensor(apply_cpu_sensors(cores, sensors.drop_last()), sensors.last())
    }
}

/// The package power after one sensor.
pub open spec fn apply_power_sensor(power: MetricView, s: Sensor) -> MetricView {
    if is_package_power(s.name@) {
        metric_record(power, sample_of(s))
    } else {
        power
    }
}

pub open spec fn apply_power_sensors(power: MetricView, sensors: Seq<Sensor>) -> MetricView
    decreases sensors.len(),
{
    if sensors.len() == 0 {
        power
    } else {
        apply_power_sensor(apply_power_sensors(power, sensors.drop_last()), sensors.last())
    }
}

// ----- aggregates -----

/// Which figure of a metric an aggregate takes.
#[derive(Debug, Clone, Copy, PartialEq, Eq, Structural)]
pub enum Figure {
    /// The latest sample's current value.
    Latest,
    /// The latest sample's maximum.
    Peak,
    /// The mean of the retained history.
    Mean,
}

/// The threads of all cores, core by core.
pub open spec fn threads_of(cores: Seq<Seq<ThreadView>>) -> Seq<ThreadView>
    decreases cores.len(),
{
    if cores.len() == 0 {
        Seq::empty()
    } else {
        threads_of(cores.drop_last()) + cores.last()
    }
}

/// One figure of a metric; zero for a metric that has recorded nothing.
pub open spec fn figure_of(m: MetricView, f: Figure) -> i64 {
    match f {
        Figure::Latest => match m.latest {
            Some(s) => s.current,
            None => 0,
        },
        Figure::Peak => match m.latest {
            Some(s) => s.maximum,
            None => 0,
        },
        Figure::Mean => mean_of(m.history.points) as i64,
    }
}

pub open spec fn figures_of(ts: Seq<ThreadView>, w: ThreadMetric, f: Figure) -> Seq<i64> {
    ts.map_values(|t: ThreadView| figure_of(thread_metric(t, w), f))
}

/// The mean over all logical threads of one figure of one metric; zero when
/// there is no thread.
pub open spec fn across_threads(cores: Seq<Seq<ThreadView>>, w: ThreadMetric, f: Figure) -> i64 {
    mean_of(figures_of(threads_of(cores), w, f)) as i64
}

/// The derived figures of the processor after a poll.
#[derive(Debug, Clone, Copy, PartialEq, Eq, Structural)]
pub struct CpuSummary {
    pub total_temperature: i64,
    pub total_frequency: i64,
    pub total_load: i64,
    pub total_power: Option<i64>,
    pub maximum_temperature: i64,
    pub maximum_frequency: i64,
    pub maximum_power: Option<i64>,
    pub average_temperature: i64,
    pub average_frequency: i64,
    pub average_load: i64,
    pub average_power: Option<i64>,
}

pub open spec fn summary_of(cores: Seq<Seq<ThreadView>>, power: MetricView) -> CpuSummary {
    CpuSummary {
        total_temperature: across_threads(cores, ThreadMetric::Temperature, Figure::Latest),
        total_frequency: across_threads(cores, ThreadMetric::Frequency, Figure::Latest),
        total_load: across_threads(cores, ThreadMetric::Load, Figure::Latest),
        total_power: match power.latest {
            Some(s) => Some(s.current),
            None => None,
        },
        maximum_temperature: across_threads(cores, ThreadMetric::Temperature, Figure::Peak),
        maximum_frequency: across_threads(cores, ThreadMetric::Frequency, Figure::Peak),
        maximum_power: match power.latest {
            Some(s) => Some(s.maximum),
            None => None,
        },
        average_temperature: across_threads(cores, ThreadMetric::Temperature, Figure::Mean),
        average_frequency: across_threads(cores, ThreadMetric::Frequency, Figure::Mean),
        average_load: across_threads(cores, ThreadMetric::Load, Figure::Mean),
        average_power: if power.history.points.len() == 0 {
            None
        } else {
            Some(mean_of(power.history.points) as i64)
        },
    }
}

// ----- the processor -----

pub struct CpuView {
    pub name: Seq<char>,
    pub cores: Seq<Seq<ThreadView>>,
    pub power: MetricView,
    pub load_graph: SeriesView,
    pub summary: CpuSummary,
}

/// The processor: its name, its cores and threads as discovered so far, the
/// package power, the series of total load, and the derived figures.
#[derive(Debug, Clone)]
pub struct Cpu {
    name: String,
    cores: Vec<CpuCore>,
    power: Metric,
    load_graph: RollingSeries,
    summary: CpuSummary,
}

impl View for Cpu {
    type V = CpuView;

    closed spec fn view(&self) -> CpuView {
        CpuView {
            name: self.name@,
            cores: self.cores@.map_values(|c: CpuCore| c@),
            power: self.power@,
            load_graph: self.load_graph@,
            summary: self.summary,
        }
    }
}

pub open spec fn empty_summary() -> CpuSummary {
    CpuSummary {
        total_temperature: 0,
        total_frequency: 0,
        total_load: 0,
        total_power: None,
        maximum_temperature: 0,
        maximum_frequency: 0,
        maximum_power: None,
        average_temperature: 0,
        average_frequency: 0,
        average_load: 0,
        average_power: None,
    }
}

/// The processor after its device of a poll: the name taken, the sensors
/// applied in order, the figures derived, and the total load appended.
pub open spec fn cpu_updated(v: CpuView, d: Device) -> CpuView {
    let cores = apply_cpu_sensors(v.cores, d.sensors@);
    let power = apply_power_sensors(v.power, d.sensors@);
    let summary = summary_of(cores, power);
    CpuView {
        name: d.name@,
        cores,
        power,
        load_graph: series_push(v.load_graph, summary.total_load),
        summary,
    }
}

pub open spec fn new_cpu() -> CpuView {
    CpuView {
        name: Seq::empty(),
        cores: Seq::empty(),
        power: new_metric(),
        load_graph: empty_series(GRAPH_LEN as nat),
        summary: empty_summary(),
    }
}

impl Cpu {
    /// A processor with no core discovered yet.
    pub fn new() -> (r: Cpu)
        ensures
            r@ == new_cpu(),
    {
        let r = Cpu {
            name: String::new(),
            cores: Vec::new(),
            power: Metric::new(),
            load_graph: RollingSeries::new(GRAPH_LEN),
            summary: CpuSummary {
                total_temperature: 0,
                total_frequency: 0,
                total_load: 0,
                total_power: None,
                maximum_temperature: 0,
                maximum_frequency: 0,
                maximum_power: None,
                average_temperature: 0,
                average_frequency: 0,
                average_load: 0,
                average_power: None,
            },
        };
        assert(r@.cores =~= Seq::<Seq<ThreadView>>::empty());
        assert(r@.name =~= Seq::<char>::empty());
        r
    }

    /// Applies the processor device of a poll: takes its name, applies its
    /// sensors in order, then derives the figures and appends the total load
    /// to the load series.
    pub fn update(&mut self, device: &Device)
        ensures
            final(self)@ == cpu_updated(old(self)@, *device),
    {
        self.name = device.name.clone();
        let n = device.sensors.len();
        let mut i: usize = 0;
        while i < n
            invariant
                n == device.sensors@.len(),
                i <= n,
                self@.name == device.name@,
                self@.cores == apply_cpu_sensors(
                    old(self)@.cores,
                    device.sensors@.subrange(0, i as int),
                ),
                self@.power == apply_power_sensors(
                    old(self)@.power,
                    device.sensors@.subrange(0, i as int),
                ),
                self@.load_graph == old(self)@.load_graph,
            decreases n - i,
        {
            let ghost done = device.sensors@.subrange(0, i as int);
            assert(device.sensors@.subrange(0, i + 1).drop_last() =~= done);
            self.apply_sensor(&device.sensors[i]);
            i = i + 1;
        }
        assert(device.sensors@.subrange(0, n as int) =~= device.sensors@);
        self.summarize();
        let total_load = self.summary.total_load;
        self.load_graph.push(total_load);
    }

    /// Applies one sensor to the cores or to the package power.
    fn apply_sensor(&mut self, s: &Sensor)
        ensures
            final(self)@.cores == apply_cpu_sensor(old(self)@.cores, *s),
            final(self)@.power == apply_power_sensor(old(self)@.power, *s),
            final(self)@.name == old(self)@.name,
            final(self)@.load_graph == old(self)@.load_graph,
            final(self)@.summary == old(self)@.summary,
    {
        let sample = Sample::from_sensor(s);
        if text_is(s.name.as_str(), "CPU Cores") {
            self.power.record(sample);
            return;
        }
        if !text_starts_with(s.name.as_str(), "CPU Core") || text_ends_with(
            s.name.as_str(),
            "TjMax",
        ) {
            return;
        }
        match s.kind {
            SensorKind::Load => {
                match parse_core_thread(s.name.as_str()) {
                    Some((c, t)) => {
                        let t = match t {
                            Some(k) => k,
                            None => 0,
                        };
                        self.record_thread(c, t, ThreadMetric::Load, sample);
                    },
                    None => {},
                }
            },
            SensorKind::Clock => {
                if s.index >= 1 {
                    self.record_core(s.index - 1, ThreadMetric::Frequency, sample);
                }
            },
            SensorKind::Temperature => {
                self.record_core(s.index, ThreadMetric::Temperature, sample);
            },
            _ => {},
        }
    }

    fn record_thread(&mut self, c: usize, t: usize, w: ThreadMetric, s: Sample)
        ensures
            final(self)@.cores == record_thread(old(self)@.cores, c as int, t as int, w, s),
            final(self)@.power == old(self)@.power,
            final(self)@.name == old(self)@.name,
            final(self)@.load_graph == old(self)@.load_graph,
            final(self)@.summary == old(self)@.summary,
    {
        let ghost before = self@.cores;
        let nc = self.cores.len();
        if c < nc {
            let nt = self.cores[c].thread_count();
            if t < nt {
                self.cores[c].push_to(t, s, w);
                assert(self@.cores =~= record_thread(before, c as int, t as int, w, s));
            } else if t == nt {
                let mut th = CpuThread::new();
                th.push(s, w);
                self.cores[c].threads.push(th);
                assert(self.cores@[c as int]@ =~= before[c as int].push(
                    thread_record(new_thread(), w, s),
                ));
                assert(self@.cores =~= record_thread(before, c as int, t as int, w, s));
            }
        } else if c == nc && t == 0 {
            let mut th = CpuThread::new();
            th.push(s, w);
            let mut fresh = CpuCore::new();
            fresh.threads.push(th);
            assert(fresh@ =~= seq![thread_record(new_thread(), w, s)]);
            self.cores.push(fresh);
            assert(self@.cores =~= record_thread(before, c as int, t as int, w, s));
        }
    }

    fn record_core(&mut self, c: usize, w: ThreadMetric, s: Sample)
        ensures
            final(self)@.cores == record_core(old(self)@.cores, c as int, w, s),
            final(self)@.power == old(self)@.power,
            final(self)@.name == old(self)@.name,
            final(self)@.load_graph == old(self)@.load_graph,
            final(self)@.summary == old(self)@.summary,
    {
        let ghost before = self@.cores;
        let nc = self.cores.len();
        if c < nc {
            self.cores[c].push_all(s, w);
            assert(self@.cores =~= record_core(before, c as int, w, s));
        } else if c == nc {
            let mut th = CpuThread::new();
            th.push(s, w);
            let mut fresh = CpuCore::new();
            fresh.threads.push(th);
            assert(fresh@ =~= seq![thread_record(new_thread(), w, s)]);
            self.cores.push(fresh);
            assert(self@.cores =~= record_core(before, c as int, w, s));
        }
    }

    /// One figure of one metric for every thread, core by core.
    fn thread_figures(&self, w: ThreadMetric, f: Figure) -> (r: Vec<i64>)
        ensures
            r@ == figures_of(threads_of(self@.cores), w, f),
    {
        let mut out: Vec<i64> = Vec::new();
        let nc = self.cores.len();
        let mut i: usize = 0;
        while i < nc
            invariant
                nc == self@.cores.len(),
                i <= nc,
                out@ == figures_of(threads_of(self@.cores.subrange(0, i as int)), w, f),
            decreases nc - i,
        {
            let cur = &self.cores[i];
            let nt = cur.thread_count();
            let mut j: usize = 0;
            while j < nt
                invariant
                    nc == self@.cores.len(),
                    i < nc,
                    cur@ == self@.cores[i as int],
                    nt == cur@.len(),
                    j <= nt,
                    out@ == figures_of(threads_of(self@.cores.subrange(0, i as int)), w, f)
                        + figures_of(cur@.subrange(0, j as int), w, f),
                decreases nt - j,
            {
                let m = cur.thread(j).metric(w);
                let v = Self::figure(m, f);
                out.push(v);
                j = j + 1;
                assert(figures_of(cur@.subrange(0, j as int), w, f) =~= figures_of(
                    cur@.subrange(0, j - 1),
                    w,
                    f,
                ).push(v));
            }
            let ghost prev = self@.cores.subrange(0, i as int);
            let ghost next = self@.cores.subrange(0, i + 1);
            assert(next.drop_last() =~= prev);
            assert(cur@.subrange(0, nt as int) =~= cur@);
            assert(figures_of(threads_of(next), w, f) =~= figures_of(threads_of(prev), w, f)
                + figures_of(cur@, w, f));
            i = i + 1;
        }
        assert(self@.cores.subrange(0, nc as int) =~= self@.cores);
        out
    }

    fn figure(m: &Metric, f: Figure) -> (r: i64)
        ensures
            r == figure_of(m@, f),
    {
        match f {
            Figure::Latest => match m.latest() {
                Some(s) => s.current,
                None => 0,
            },
            Figure::Peak => match m.latest() {
                Some(s) => s.maximum,
                None => 0,
            },
            Figure::Mean => {
                let points = m.history().points();
                mean(&points)
            },
        }
    }

    /// The mean over all threads of one figure of one metric.
    fn across(&self, w: ThreadMetric, f: Figure) -> (r: i64)
        ensures
            r == across_threads(self@.cores, w, f),
    {
        let values = self.thread_figures(w, f);
        proof {
            lemma_mean_fits(values@);
        }
        mean(&values)
    }

    fn summarize(&mut self)
        ensures
            final(self)@.summary == summary_of(old(self)@.cores, old(self)@.power),
            final(self)@.cores == old(self)@.cores,
            final(self)@.power == old(self)@.power,
            final(self)@.name == old(self)@.name,
            final(self)@.load_graph == old(self)@.load_graph,
    {
        let latest = self.power.latest();
        let power_points = self.power.history().points();
        let average_power = if power_points.len() == 0 {
            None
        } else {
            proof {
                lemma_mean_fits(power_points@);
            }
            Some(mean(&power_points))
        };
        let summary = CpuSummary {
            total_temperature: self.across(ThreadMetric::Temperature, Figure::Latest),
            total_frequency: self.across(ThreadMetric::Frequency, Figure::Latest),
            total_load: self.across(ThreadMetric::Load, Figure::Latest),
            total_power: match latest {
                Some(s) => Some(s.current),
                None => None,
            },
            maximum_temperature: self.across(ThreadMetric::Temperature, Figure::Peak),
            maximum_frequency: self.across(ThreadMetric::Frequency, Figure::Peak),
            maximum_power: match latest {
                Some(s) => Some(s.maximum),
                None => None,
            },
            average_temperature: self.across(ThreadMetric::Temperature, Figure::Mean),
            average_frequency: self.across(ThreadMetric::Frequency, Figure::Mean),
            average_load: self.across(ThreadMetric::Load, Figure::Mean),
            average_power,
        };
        self.summary = summary;
    }

    pub fn name(&self) -> (r: &String)
        ensures
            r@ == self@.name,
    {
        &self.name
    }

    pub fn core_count(&self) -> (r: usize)
        ensures
            r == self@.cores.len(),
    {
        self.cores.len()
    }

    pub fn core_at(&self, i: usize) -> (r: &CpuCore)
        requires
            i < self@.cores.len(),
        ensures
            r@ == self@.cores[i as int],
    {
        &self.cores[i]
    }

    /// Number of logical threads over all cores.
    pub fn thread_count(&self) -> (r: usize)
        ensures
            r == threads_of(self@.cores).len(),
    {
        let v = self.thread_figures(ThreadMetric::Load, Figure::Latest);
        v.len()
    }

    pub fn power(&self) -> (r: &Metric)
        ensures
            r@ == self@.power,
    {
        &self.power
    }

    pub fn load_graph(&self) -> (r: &RollingSeries)
        ensures
            r@ == self@.load_graph,
    {
        &self.load_graph
    }

    pub fn summary(&self) -> (r: CpuSummary)
        ensures
            r == self@.summary,
    {
        self.summary
    }
}


/// What the processor page's graphs show.
#[derive(Debug, Clone, Copy, PartialEq, Eq, Structural)]
pub enum GraphState {
    Temperature,
    Utilization,
    Frequency,
    Power,
}

pub open spec fn cpu_graph_label(g: GraphState) -> Seq<char> {
    match g {
        GraphState::Temperature => "Temperature"@,
        GraphState::Utilization => "Utilization"@,
        GraphState::Frequency => "Frequency"@,
        GraphState::Power => "Power"@,
    }
}

impl GraphState {
    /// The text of the choice in a pick list.
    pub fn label(&self) -> (r: &'static str)
        ensures
            r@ == cpu_graph_label(*self),
    {
        match self {
            GraphState::Temperature => "Temperature",
            GraphState::Utilization => "Utilization",
            GraphState::Frequency => "Frequency",
            GraphState::Power => "Power",
        }
    }

    /// The per-thread metric that the graphs draw; power has a single graph
    /// and none.
    pub fn metric(&self) -> (r: Option<ThreadMetric>)
        ensures
            *self == GraphState::Power <==> r is None,
            *self == GraphState::Utilization ==> r == Some(ThreadMetric::Load),
            *self == GraphState::Frequency ==> r == Some(ThreadMetric::Frequency),
            *self == GraphState::Temperature ==> r == Some(ThreadMetric::Temperature),
    {
        match self {
            GraphState::Temperature => Some(ThreadMetric::Temperature),
            GraphState::Utilization => Some(ThreadMetric::Load),
            GraphState::Frequency => Some(ThreadMetric::Frequency),
            GraphState::Power => None,
        }
    }
}

// ----- laws -----

/// With no thread discovered, every per-thread total and average is zero:
/// nothing is divided by a count of zero.
pub proof fn lemma_no_thread_no_load(cores: Seq<Seq<ThreadView>>, power: MetricView)
    requires
        threads_of(cores).len() == 0,
    ensures
        summary_of(cores, power).total_load == 0,
        summary_of(cores, power).average_load == 0,
        summary_of(cores, power).total_frequency == 0,
        summary_of(cores, power).total_temperature == 0,
{
}

/// A clock sensor for the next core creates that core with one thread; a
/// later load sensor named for the second thread of the same core grows it to
/// exactly two threads and leaves the first thread as the clock left it.
pub proof fn lemma_thread_fan_out(cores: Seq<Seq<ThreadView>>, clock: Sensor, load: Sensor)
    requires
        clock.kind == SensorKind::Clock,
        clock.index == cores.len() + 1,
        is_core_sensor(clock.name@),
        !is_package_power(clock.name@),
        load.kind == SensorKind::Load,
        load_position(load.name@) == Some((cores.len() as usize, Some(1usize))),
        !ends_with(load.name@, "TjMax"@),
    ensures
        apply_cpu_sensor(cores, clock).len() == cores.len() + 1,
        apply_cpu_sensor(cores, clock)[cores.len() as int].len() == 1,
        apply_cpu_sensors(cores, seq![clock, load]).len() == cores.len() + 1,
        apply_cpu_sensors(cores, seq![clock, load])[cores.len() as int].len() == 2,
        apply_cpu_sensors(cores, seq![clock, load])[cores.len() as int][0] == apply_cpu_sensor(
            cores,
            clock,
        )[cores.len() as int][0],
{
    let name = load.name@;
    reveal_strlit("CPU Core #");
    reveal_strlit("CPU Core");
    reveal_strlit("CPU Cores");
    assert(starts_with(name, "CPU Core #"@));
    let head = name.subrange(0, 10);
    assert(head == "CPU Core #"@);
    assert("CPU Core #"@.subrange(0, 8) =~= "CPU Core"@);
    assert(name.subrange(0, 8) =~= head.subrange(0, 8));
    assert(starts_with(name, "CPU Core"@));
    assert(name[9] == head[9]);
    assert(name[9] == '#');
    assert(!is_package_power(name)) by {
        if name == "CPU Cores"@ {
            assert(name[9] == 's');
        }
    }
    let two = seq![clock, load];
    assert(two.drop_last() =~= seq![clock]);
    assert(seq![clock].drop_last() =~= Seq::<Sensor>::empty());
    let after_clock = apply_cpu_sensor(cores, clock);
    assert(apply_cpu_sensors(cores, Seq::<Sensor>::empty()) == cores);
    assert(seq![clock].last() == clock);
    assert(apply_cpu_sensors(cores, seq![clock]) == after_clock);
    assert(two.last() == load);
    assert(apply_cpu_sensors(cores, two) == apply_cpu_sensor(after_clock, load));
    assert(is_core_sensor(name));
    assert(apply_cpu_sensor(after_clock, load) == record_thread(
        after_clock,
        cores.len() as int,
        1,
        ThreadMetric::Load,
        sample_of(load),
    ));
}

} // verus!

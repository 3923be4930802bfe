use vstd::prelude::*;

use crate::cpu::{cpu_updated, new_cpu, Cpu, CpuView};
use crate::gpu::{gpu_updated, new_gpu, Gpu, GpuView, GPU_GAUGES};
use crate::network::{
    is_tracked_adapter, network_updated, new_adapter, tracked_adapter, NetworkAdapter,
    NetworkView, NET_GAUGES,
};
use crate::ram::{new_ram, ram_updated, Ram, RamView, RAM_GAUGES};
use crate::report::{Device, DeviceKind};
use crate::storage::{new_storage, storage_updated, Storage, StorageView, DISK_GAUGES};

verus! {

pub open spec fn is_gpu_kind(k: DeviceKind) -> bool {
    k == DeviceKind::GpuNvidia || k == DeviceKind::GpuAmd || k == DeviceKind::GpuIntel
}

/// Whether a device of a poll is tracked as a network adapter.
pub open spec fn is_adapter(d: Device) -> bool {
    d.kind == DeviceKind::Network && is_tracked_adapter(d.name@)
}

/// The devices of a poll that satisfy `keep`, in report order.
pub open spec fn devices_where(ds: Seq<Device>, keep: spec_fn(Device) -> bool) -> Seq<Device>
    decreases ds.len(),
{
    if ds.len() == 0 {
        Seq::empty()
    } else if keep(ds.last()) {
        devices_where(ds.drop_last(), keep).push(ds.last())
    } else {
        devices_where(ds.drop_last(), keep)
    }
}

pub open spec fn gpu_devices(ds: Seq<Device>) -> Seq<Device> {
    devices_where(ds, |d: Device| is_gpu_kind(d.kind))
}

pub open spec fn disk_devices(ds: Seq<Device>) -> Seq<Device> {
    devices_where(ds, |d: Device| d.kind == DeviceKind::Storage)
}

pub open spec fn adapter_devices(ds: Seq<Device>) -> Seq<Device> {
    devices_where(ds, |d: Device| is_adapter(d))
}

pub open spec fn cpu_devices(ds: Seq<Device>) -> Seq<Device> {
    devices_where(ds, |d: Device| d.kind == DeviceKind::Cpu)
}

pub open spec fn memory_devices(ds: Seq<Device>) -> Seq<Device> {
    devices_where(ds, |d: Device| d.kind == DeviceKind::Memory)
}

pub open spec fn max_len(a: nat, b: nat) -> nat {
    if a >= b {
        a
    } else {
        b
    }
}

/// The adapters after a poll: the `k`-th adapter of the poll updates instance
/// `k`, a new instance is made for each adapter past the known ones, and
/// instances that the poll did not reach keep their state.
pub open spec fn gpus_after(gs: Seq<GpuView>, ds: Seq<Device>) -> Seq<GpuView> {
    Seq::new(
        max_len(gs.len(), ds.len()),
        |k: int|
            if k < ds.len() {
                gpu_updated(
                    if k < gs.len() {
                        gs[k]
                    } else {
                        new_gpu()
                    },
                    ds[k],
                    k as usize,
                )
            } else {
                gs[k]
            },
    )
}

/// The disks after a poll, by the same rule of discovery order.
pub open spec fn disks_after(xs: Seq<StorageView>, ds: Seq<Device>) -> Seq<StorageView> {
    Seq::new(
        max_len(xs.len(), ds.len()),
        |k: int|
            if k < ds.len() {
                storage_updated(
                    if k < xs.len() {
                        xs[k]
                    } else {
                        new_storage()
                    },
                    ds[k],
                    k as usize,
                )
            } else {
                xs[k]
            },
    )
}

/// The tracked network adapters after a poll, by the same rule.
pub open spec fn adapters_after(xs: Seq<NetworkView>, ds: Seq<Device>) -> Seq<NetworkView> {
    Seq::new(
        max_len(xs.len(), ds.len()),
        |k: int|
            if k < ds.len() {
                network_updated(
                    if k < xs.len() {
                        xs[k]
                    } else {
                        new_adapter()
                    },
                    ds[k],
                    k as usize,
                )
            } else {
                xs[k]
            },
    )
}

pub open spec fn cpu_after(c: CpuView, ds: Seq<Device>) -> CpuView
    decreases ds.len(),
{
    if ds.len() == 0 {
        c
    } else {
        cpu_updated(cpu_after(c, ds.drop_last()), ds.last())
    }
}

pub open spec fn ram_after(r: RamView, ds: Seq<Device>) -> RamView
    decreases ds.len(),
{
    if ds.len() == 0 {
        r
    } else {
        ram_updated(ram_after(r, ds.drop_last()), ds.last())
    }
}

/// What the whole machine holds.
pub struct SystemView {
    pub cpu: CpuView,
    pub gpus: Seq<GpuView>,
    pub ram: RamView,
    pub disks: Seq<StorageView>,
    pub network_adapters: Seq<NetworkView>,
}

/// The machine after the devices of one poll.
pub open spec fn system_after(v: SystemView, ds: Seq<Device>) -> SystemView {
    SystemView {
        cpu: cpu_after(v.cpu, cpu_devices(ds)),
        gpus: gpus_after(v.gpus, gpu_devices(ds)),
        ram: ram_after(v.ram, memory_devices(ds)),
        disks: disks_after(v.disks, disk_devices(ds)),
        network_adapters: adapters_after(v.network_adapters, adapter_devices(ds)),
    }
}

/// Whether every device instance holds its full set of gauges.
pub open spec fn system_wf(v: SystemView) -> bool {
    &&& v.ram.gauges.len() == RAM_GAUGES
    &&& forall|k: int| 0 <= k < v.gpus.len() ==> (#[trigger] v.gpus[k]).gauges.len() == GPU_GAUGES
    &&& forall|k: int|
        0 <= k < v.disks.len() ==> (#[trigger] v.disks[k]).gauges.len() == DISK_GAUGES
    &&& forall|k: int|
        0 <= k < v.network_adapters.len() ==> (#[trigger] v.network_adapters[k]).gauges.len()
            == NET_GAUGES
}

pub open spec fn new_system() -> SystemView {
    SystemView {
        cpu: new_cpu(),
        gpus: Seq::empty(),
        ram: new_ram(),
        disks: Seq::empty(),
        network_adapters: Seq::empty(),
    }
}

/// Everything the dashboard shows: the processor, the graphics adapters, main
/// memory, the disks and the tracked network adapters.
#[derive(Debug, Clone)]
pub struct SystemStats {
    cpu: Cpu,
    gpus: Vec<Gpu>,
    ram: Ram,
    disks: Vec<Storage>,
    network_adapters: Vec<NetworkAdapter>,
}

impl View for SystemStats {
    type V = SystemView;

    closed spec fn view(&self) -> SystemView {
        SystemView {
            cpu: self.cpu@,
            gpus: self.gpus@.map_values(|g: Gpu| g@),
            ram: self.ram@,
            disks: self.disks@.map_values(|d: Storage| d@),
            network_adapters: self.network_adapters@.map_values(|a: NetworkAdapter| a@),
        }
    }
}

impl SystemStats {
    pub fn new() -> (r: SystemStats)
        ensures
            r@ == new_system(),
            system_wf(r@),
    {
        let r = SystemStats {
            cpu: Cpu::new(),
            gpus: Vec::new(),
            ram: Ram::new(),
            disks: Vec::new(),
            network_adapters: Vec::new(),
        };
        assert(r@.gpus =~= Seq::<GpuView>::empty());
        assert(r@.disks =~= Seq::<StorageView>::empty());
        assert(r@.network_adapters =~= Seq::<NetworkView>::empty());
        r
    }

    /// Applies the devices of one poll in report order. The processor and
    /// memory devices update the singletons; the `k`-th graphics adapter, disk
    /// or tracked network adapter of the poll updates instance `k`, which is
    /// created when `k` is the number known so far. Network adapters other
    /// than `Ethernet` and `Wi-Fi`, and devices of other kinds, are skipped.
    pub fn update(&mut self, devices: &Vec<Device>)
        requires
            system_wf(old(self)@),
        ensures
            final(self)@ == system_after(old(self)@, devices@),
            system_wf(final(self)@),
    {
        let n = devices.len();
        let mut gpu_index: usize = 0;
        let mut disk_index: usize = 0;
        let mut network_index: usize = 0;
        let mut i: usize = 0;
        assert(system_after(old(self)@, devices@.subrange(0, 0)) =~= old(self)@) by {
            assert(gpus_after(old(self)@.gpus, Seq::empty()) =~= old(self)@.gpus);
            assert(disks_after(old(self)@.disks, Seq::empty()) =~= old(self)@.disks);
            assert(adapters_after(old(self)@.network_adapters, Seq::empty())
                =~= old(self)@.network_adapters);
        }
        while i < n
            invariant
                n == devices@.len(),
                i <= n,
                self@ == system_after(old(self)@, devices@.subrange(0, i as int)),
                system_wf(self@),
                gpu_index == gpu_devices(devices@.subrange(0, i as int)).len(),
                disk_index == disk_devices(devices@.subrange(0, i as int)).len(),
                network_index == adapter_devices(devices@.subrange(0, i as int)).len(),
            decreases n - i,
        {
            let ghost prefix = devices@.subrange(0, i as int);
            let ghost before = self@;
            let ghost next = devices@.subrange(0, i + 1);
            assert(next.drop_last() =~= prefix);
            proof {
                lemma_filter_len(prefix, |d: Device| is_gpu_kind(d.kind));
                lemma_filter_len(prefix, |d: Device| d.kind == DeviceKind::Storage);
                lemma_filter_len(prefix, |d: Device| is_adapter(d));
            }
            let d = &devices[i];
            match d.kind {
                DeviceKind::Cpu => {
                    self.cpu.update(d);
                    assert(self@.gpus == before.gpus);
                    assert(self@.disks == before.disks);
                    assert(self@.network_adapters == before.network_adapters);
                    assert(self@.ram == before.ram);
                },
                DeviceKind::GpuNvidia | DeviceKind::GpuAmd | DeviceKind::GpuIntel => {
                    self.update_gpu(d, gpu_index);
                    proof {
                        lemma_gpus_step(old(self)@.gpus, gpu_devices(prefix), *d);
                    }
                    gpu_index = gpu_index + 1;
                },
                DeviceKind::Memory => {
                    self.ram.update(d);
                    assert(self@.gpus == before.gpus);
                    assert(self@.disks == before.disks);
                    assert(self@.network_adapters == before.network_adapters);
                },
                DeviceKind::Storage => {
                    self.update_disk(d, disk_index);
                    proof {
                        lemma_disks_step(old(self)@.disks, disk_devices(prefix), *d);
                    }
                    disk_index = disk_index + 1;
                },
                DeviceKind::Network => {
                    if tracked_adapter(d.name.as_str()) {
                        self.update_adapter(d, network_index);
                        proof {
                            lemma_adapters_step(
                                old(self)@.network_adapters,
                                adapter_devices(prefix),
                                *d,
                            );
                        }
                        network_index = network_index + 1;
                    }
                },
                _ => {},
            }
            assert(next.last() == *d);
            assert(cpu_devices(next) == if d.kind == DeviceKind::Cpu {
                cpu_devices(prefix).push(*d)
            } else {
                cpu_devices(prefix)
            });
            assert(memory_devices(next) == if d.kind == DeviceKind::Memory {
                memory_devices(prefix).push(*d)
            } else {
                memory_devices(prefix)
            });
            assert(gpu_devices(next) == if is_gpu_kind(d.kind) {
                gpu_devices(prefix).push(*d)
            } else {
                gpu_devices(prefix)
            });
            assert(disk_devices(next) == if d.kind == DeviceKind::Storage {
                disk_devices(prefix).push(*d)
            } else {
                disk_devices(prefix)
            });
            assert(adapter_devices(next) == if is_adapter(*d) {
                adapter_devices(prefix).push(*d)
            } else {
                adapter_devices(prefix)
            });
            assert(cpu_devices(prefix).push(*d).drop_last() =~= cpu_devices(prefix));
            assert(memory_devices(prefix).push(*d).drop_last() =~= memory_devices(prefix));
            i = i + 1;
            assert(self@ =~= system_after(old(self)@, next));
        }
        assert(devices@.subrange(0, n as int) =~= devices@);
    }

    fn update_gpu(&mut self, d: &Device, k: usize)
        requires
            system_wf(old(self)@),
            k <= old(self)@.gpus.len(),
        ensures
            final(self)@ == (SystemView {
                gpus: if k < old(self)@.gpus.len() {
                    old(self)@.gpus.update(k as int, gpu_updated(old(self)@.gpus[k as int], *d, k))
                } else {
                    old(self)@.gpus.push(gpu_updated(new_gpu(), *d, k))
                },
                ..old(self)@
            }),
            system_wf(final(self)@),
    {
        if k == self.gpus.len() {
            self.gpus.push(Gpu::new());
            assert(self@.gpus =~= old(self)@.gpus.push(new_gpu()));
        }
        let ghost mid = self@.gpus;
        self.gpus[k].update(d, k);
        assert(self@.gpus =~= mid.update(k as int, gpu_updated(mid[k as int], *d, k)));
        assert(self@.gpus =~= if k < old(self)@.gpus.len() {
            old(self)@.gpus.update(k as int, gpu_updated(old(self)@.gpus[k as int], *d, k))
        } else {
            old(self)@.gpus.push(gpu_updated(new_gpu(), *d, k))
        });
    }

    fn update_disk(&mut self, d: &Device, k: usize)
        requires
            system_wf(old(self)@),
            k <= old(self)@.disks.len(),
        ensures
            final(self)@ == (SystemView {
                disks: if k < old(self)@.disks.len() {
                    old(self)@.disks.update(
                        k as int,
                        storage_updated(old(self)@.disks[k as int], *d, k),
                    )
                } else {
                    old(self)@.disks.push(storage_updated(new_storage(), *d, k))
                },
                ..old(self)@
            }),
            system_wf(final(self)@),
    {
        if k == self.disks.len() {
            self.disks.push(Storage::new());
            assert(self@.disks =~= old(self)@.disks.push(new_storage()));
        }
        let ghost mid = self@.disks;
        self.disks[k].update(d, k);
        assert(self@.disks =~= mid.update(k as int, storage_updated(mid[k as int], *d, k)));
        assert(self@.disks =~= if k < old(self)@.disks.len() {
            old(self)@.disks.update(k as int, storage_updated(old(self)@.disks[k as int], *d, k))
        } else {
            old(self)@.disks.push(storage_updated(new_storage(), *d, k))
        });
    }

    fn update_adapter(&mut self, d: &Device, k: usize)
        requires
            system_wf(old(self)@),
            k <= old(self)@.network_adapters.len(),
        ensures
            final(self)@ == (SystemView {
                network_adapters: if k < old(self)@.network_adapters.len() {
                    old(self)@.network_adapters.update(
                        k as int,
                        network_updated(old(self)@.network_adapters[k as int], *d, k),
                    )
                } else {
                    old(self)@.network_adapters.push(network_updated(new_adapter(), *d, k))
                },
                ..old(self)@
            }),
            system_wf(final(self)@),
    {
        if k == self.network_adapters.len() {
            self.network_adapters.push(NetworkAdapter::new());
            assert(self@.network_adapters =~= old(self)@.network_adapters.push(new_adapter()));
        }
        let ghost mid = self@.network_adapters;
        self.network_adapters[k].update(d, k);
        assert(self@.network_adapters =~= mid.update(
            k as int,
            network_updated(mid[k as int], *d, k),
        ));
        assert(self@.network_adapters =~= if k < old(self)@.network_adapters.len() {
            old(self)@.network_adapters.update(
                k as int,
                network_updated(old(self)@.network_adapters[k as int], *d, k),
            )
        } else {
            old(self)@.network_adapters.push(network_updated(new_adapter(), *d, k))
        });
    }

    pub fn cpu(&self) -> (r: &Cpu)
        ensures
            r@ == self@.cpu,
    {
        &self.cpu
    }

    pub fn ram(&self) -> (r: &Ram)
        ensures
            r@ == self@.ram,
    {
        &self.ram
    }

    pub fn gpu_count(&self) -> (r: usize)
        ensures
            r == self@.gpus.len(),
    {
        self.gpus.len()
    }

    pub fn gpu(&self, k: usize) -> (r: &Gpu)
        requires
            k < self@.gpus.len(),
        ensures
            r@ == self@.gpus[k as int],
    {
        &self.gpus[k]
    }

    pub fn disk_count(&self) -> (r: usize)
        ensures
            r == self@.disks.len(),
    {
        self.disks.len()
    }

    pub fn disk(&self, k: usize) -> (r: &Storage)
        requires
            k < self@.disks.len(),
        ensures
            r@ == self@.disks[k as int],
    {
        &self.disks[k]
    }

    pub fn network_adapter_count(&self) -> (r: usize)
        ensures
            r == self@.network_adapters.len(),
    {
        self.network_adapters.len()
    }

    pub fn network_adapter(&self, k: usize) -> (r: &NetworkAdapter)
        requires
            k < self@.network_adapters.len(),
        ensures
            r@ == self@.network_adapters[k as int],
    {
        &self.network_adapters[k]
    }
}

proof fn lemma_filter_len(ds: Seq<Device>, keep: spec_fn(Device) -> bool)
    ensures
        devices_where(ds, keep).len() <= ds.len(),
    decreases ds.len(),
{
    if ds.len() > 0 {
        lemma_filter_len(ds.drop_last(), keep);
    }
}

proof fn lemma_gpus_step(gs: Seq<GpuView>, ds: Seq<Device>, d: Device)
    requires
        ds.len() <= gpus_after(gs, ds).len(),
    ensures
        gpus_after(gs, ds.push(d)) =~= if ds.len() < gpus_after(gs, ds).len() {
            gpus_after(gs, ds).update(
                ds.len() as int,
                gpu_updated(gpus_after(gs, ds)[ds.len() as int], d, ds.len() as usize),
            )
        } else {
            gpus_after(gs, ds).push(gpu_updated(new_gpu(), d, ds.len() as usize))
        },
{
}

proof fn lemma_disks_step(xs: Seq<StorageView>, ds: Seq<Device>, d: Device)
    requires
        ds.len() <= disks_after(xs, ds).len(),
    ensures
        disks_after(xs, ds.push(d)) =~= if ds.len() < disks_after(xs, ds).len() {
            disks_after(xs, ds).update(
                ds.len() as int,
                storage_updated(disks_after(xs, ds)[ds.len() as int], d, ds.len() as usize),
            )
        } else {
            disks_after(xs, ds).push(storage_updated(new_storage(), d, ds.len() as usize))
        },
{
}

proof fn lemma_adapters_step(xs: Seq<NetworkView>, ds: Seq<Device>, d: Device)
    requires
        ds.len() <= adapters_after(xs, ds).len(),
    ensures
        adapters_after(xs, ds.push(d)) =~= if ds.len() < adapters_after(xs, ds).len() {
            adapters_after(xs, ds).update(
                ds.len() as int,
                network_updated(adapters_after(xs, ds)[ds.len() as int], d, ds.len() as usize),
            )
        } else {
            adapters_after(xs, ds).push(network_updated(new_adapter(), d, ds.len() as usize))
        },
{
}


/// Two polls that report the same number of graphics adapters, starting with
/// none known: the first poll creates one instance per adapter in discovery
/// order, and the second updates the `k`-th instance with its `k`-th adapter
/// and creates none.
pub proof fn lemma_discovery_order(v: SystemView, first: Seq<Device>, second: Seq<Device>)
    requires
        v.gpus.len() == 0,
        gpu_devices(first).len() == gpu_devices(second).len(),
    ensures
        system_after(v, first).gpus.len() == gpu_devices(first).len(),
        system_after(system_after(v, first), second).gpus.len() == gpu_devices(first).len(),
        forall|k: int|
            0 <= k < gpu_devices(first).len() ==> #[trigger] system_after(v, first).gpus[k]
                == gpu_updated(new_gpu(), gpu_devices(first)[k], k as usize),
        forall|k: int|
            0 <= k < gpu_devices(first).len() ==> #[trigger] system_after(
                system_after(v, first),
                second,
            ).gpus[k] == gpu_updated(
                system_after(v, first).gpus[k],
                gpu_devices(second)[k],
                k as usize,
            ),
{
}


/// A network device whose name is neither `Ethernet` nor `Wi-Fi` changes no
/// network adapter, wherever it stands in a poll.
pub proof fn lemma_untracked_adapter_skipped(v: SystemView, ds: Seq<Device>, d: Device)
    requires
        !is_tracked_adapter(d.name@),
    ensures
        system_after(v, ds.push(d)).network_adapters == system_after(v, ds).network_adapters,
{
    assert(ds.push(d).drop_last() =~= ds);
}

} // verus!

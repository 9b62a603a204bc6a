//! This module allows the user to create a control group using the Builder pattern.
//!
//! ```text
//! let (cgroup, dirs, plan) = CgroupBuilder::new("hello", &hierarchy)
//!      .memory()
//!          .kernel_memory_limit(1024 * 1024)
//!          .memory_hard_limit(1024 * 1024)
//!          .done()
//!      .cpu()
//!          .shares(100)
//!          .done()
//!      .devices()
//!          .device(1000, 10, DeviceType::Block, true, vec![Read, Write, MkNod])
//!          .device(6, 1, DeviceType::Char, false, vec![])
//!          .done()
//!      .network()
//!          .class_id(1337)
//!          .priority("eth0".to_string(), 100)
//!          .priority("wl0".to_string(), 200)
//!          .done()
//!      .hugepages()
//!          .limit("2M".to_string(), 0)
//!          .limit("2G".to_string(), 2 * 1024 * 1024 * 1024)
//!          .done()
//!      .blkio()
//!          .weight(123)
//!          .leaf_weight(99)
//!          .weight_device(6, 1, 100, 55)
//!          .throttle_iops()
//!              .read(6, 1, 10)
//!              .write(11, 1, 100)
//!          .throttle_bps()
//!              .read(6, 1, 10)
//!              .write(11, 1, 100)
//!          .done()
//!      .build(&fs);
//! ```
use vstd::prelude::*;
use crate::apply::Plan;
use crate::cgroup::{entered_all, plan_all, strings_view, valid_dirs, Cgroup};
use crate::devices::{DevicePermissions, DeviceType};
use crate::fs::Snapshot;
use crate::hierarchies::{all_kinds, supported, Hierarchy};
use crate::pid::PidMax;
use crate::resources::{
    BlkIoDeviceResource, BlkIoDeviceThrottleResource, BlkIoResources, CpuResources, DeviceResource,
    HugePageResource, MemoryResources, NetworkPriority, NetworkResources, PidResources, Resources,
};

verus! {

/// A control group builder instance: a name, a hierarchy, and the resources
/// asked for so far.
pub struct CgroupBuilder<'a, H: Hierarchy> {
    name: String,
    hierarchy: &'a H,
    resources: Resources,
}

/// A builder for the memory section of the resources.
pub struct MemoryResourceBuilder<'a, H: Hierarchy> {
    cgroup: CgroupBuilder<'a, H>,
}

/// A builder for the section of the resources that limits the number of tasks.
pub struct PidResourceBuilder<'a, H: Hierarchy> {
    cgroup: CgroupBuilder<'a, H>,
}

/// A builder for the CPU section of the resources.
pub struct CpuResourceBuilder<'a, H: Hierarchy> {
    cgroup: CgroupBuilder<'a, H>,
}

/// A builder for the devices section of the resources.
pub struct DeviceResourceBuilder<'a, H: Hierarchy> {
    cgroup: CgroupBuilder<'a, H>,
}

/// A builder for the network section of the resources.
pub struct NetworkResourceBuilder<'a, H: Hierarchy> {
    cgroup: CgroupBuilder<'a, H>,
}

/// A builder for the huge pages section of the resources.
pub struct HugepagesResourceBuilder<'a, H: Hierarchy> {
    cgroup: CgroupBuilder<'a, H>,
}

/// A builder for the block I/O section of the resources.
pub struct BlkIoResourcesBuilder<'a, H: Hierarchy> {
    cgroup: CgroupBuilder<'a, H>,
    throttling_iops: bool,
}

impl<'a, H: Hierarchy> CgroupBuilder<'a, H> {
    /// The resources asked for so far.
    pub closed spec fn res(&self) -> Resources {
        self.resources
    }

    /// The name of the control group to build.
    pub closed spec fn name_view(&self) -> Seq<char> {
        self.name@
    }

    /// The root directory of the hierarchy in which the control group is built.
    pub closed spec fn root_view(&self) -> Seq<char> {
        self.hierarchy.root_view()
    }

    /// Start building a control group with the supplied hierarchy and name pair.
    ///
    /// Note that this does not actually create the control group until `build()` is called.
    pub fn new(name: &str, hierarchy: &'a H) -> (r: CgroupBuilder<'a, H>)
        ensures
            r.name_view() == name@,
            r.root_view() == hierarchy.root_view(),
            r.res().asks_nothing(),
            r.res().devices.devices@.len() == 0,
            r.res().network.priorities@.len() == 0,
            r.res().hugepages.limits@.len() == 0,
    {
        CgroupBuilder { name: String::from_str(name), hierarchy, resources: Resources::default() }
    }

    /// Goes on with the memory section of the resources.
    pub fn memory(self) -> (r: MemoryResourceBuilder<'a, H>)
        ensures
            r.builder() == self,
    {
        MemoryResourceBuilder { cgroup: self }
    }

    /// Goes on with the number of tasks section of the resources.
    pub fn pid(self) -> (r: PidResourceBuilder<'a, H>)
        ensures
            r.builder() == self,
    {
        PidResourceBuilder { cgroup: self }
    }

    /// Goes on with the CPU section of the resources.
    pub fn cpu(self) -> (r: CpuResourceBuilder<'a, H>)
        ensures
            r.builder() == self,
    {
        CpuResourceBuilder { cgroup: self }
    }

    /// Goes on with the devices section of the resources.
    pub fn devices(self) -> (r: DeviceResourceBuilder<'a, H>)
        ensures
            r.builder() == self,
    {
        DeviceResourceBuilder { cgroup: self }
    }

    /// Goes on with the network section of the resources.
    pub fn network(self) -> (r: NetworkResourceBuilder<'a, H>)
        ensures
            r.builder() == self,
    {
        NetworkResourceBuilder { cgroup: self }
    }

    /// Goes on with the huge pages section of the resources.
    pub fn hugepages(self) -> (r: HugepagesResourceBuilder<'a, H>)
        ensures
            r.builder() == self,
    {
        HugepagesResourceBuilder { cgroup: self }
    }

    /// Goes on with the block I/O section of the resources.
    pub fn blkio(self) -> (r: BlkIoResourcesBuilder<'a, H>)
        ensures
            r.builder() == self,
            !r.throttling(),
    {
        BlkIoResourcesBuilder { cgroup: self, throttling_iops: false }
    }

    /// Finalize the control group, consuming the builder: gives the handle to the control
    /// group, the directories to make so that it exists, and the plan that applies the
    /// resources asked for.
    pub fn build(self, fs: &Snapshot) -> (r: (Cgroup<'a, H>, Vec<String>, Plan))
        ensures
            r.0@ == entered_all(
                supported(all_kinds(), self.root_view(), fs.dirs()),
                self.name_view(),
            ),
            strings_view(r.1@) == valid_dirs(r.0@),
            r.2@ == plan_all(r.0@, &self.res()),
    {
        let (cg, dirs) = Cgroup::new(self.hierarchy, fs, self.name.as_str());
        let plan = cg.apply(&self.resources);
        (cg, dirs, plan)
    }
}

impl<'a, H: Hierarchy> MemoryResourceBuilder<'a, H> {
    /// The builder of the control group that this section belongs to.
    pub closed spec fn builder(&self) -> CgroupBuilder<'a, H> {
        self.cgroup
    }

    /// The resources asked for so far.
    pub open spec fn res(&self) -> Resources {
        self.builder().res()
    }

    /// Asks for this limit on the memory, in bytes, that the kernel can use.
    pub fn kernel_memory_limit(self, kernel_memory_limit: u64) -> (r: Self)
        ensures
            r.res() == (Resources {
                memory: MemoryResources { update_values: true, kernel_memory_limit, ..self.res().memory },
                ..self.res()
            }),
            r.builder().name_view() == self.builder().name_view(),
            r.builder().root_view() == self.builder().root_view(),
    {
        let mut this = self;
        this.cgroup.resources.memory.update_values = true;
        this.cgroup.resources.memory.kernel_memory_limit = kernel_memory_limit;
        this
    }

    /// Asks for this upper limit on the memory, in bytes, of the control group's tasks.
    pub fn memory_hard_limit(self, memory_hard_limit: u64) -> (r: Self)
        ensures
            r.res() == (Resources {
                memory: MemoryResources { update_values: true, memory_hard_limit, ..self.res().memory },
                ..self.res()
            }),
            r.builder().name_view() == self.builder().name_view(),
            r.builder().root_view() == self.builder().root_view(),
    {
        let mut this = self;
        this.cgroup.resources.memory.update_values = true;
        this.cgroup.resources.memory.memory_hard_limit = memory_hard_limit;
        this
    }

    /// Asks for this limit on the memory, in bytes, that the tasks can use when the system is
    /// under memory pressure.
    pub fn memory_soft_limit(self, memory_soft_limit: u64) -> (r: Self)
        ensures
            r.res() == (Resources {
                memory: MemoryResources { update_values: true, memory_soft_limit, ..self.res().memory },
                ..self.res()
            }),
            r.builder().name_view() == self.builder().name_view(),
            r.builder().root_view() == self.builder().root_view(),
    {
        let mut this = self;
        this.cgroup.resources.memory.update_values = true;
        this.cgroup.resources.memory.memory_soft_limit = memory_soft_limit;
        this
    }

    /// Asks for this limit on the kernel memory, in bytes, for TCP-related buffers.
    pub fn kernel_tcp_memory_limit(self, kernel_tcp_memory_limit: u64) -> (r: Self)
        ensures
            r.res() == (Resources {
                memory: MemoryResources { update_values: true, kernel_tcp_memory_limit, ..self.res().memory },
                ..self.res()
            }),
            r.builder().name_view() == self.builder().name_view(),
            r.builder().root_view() == self.builder().root_view(),
    {
        let mut this = self;
        this.cgroup.resources.memory.update_values = true;
        this.cgroup.resources.memory.kernel_tcp_memory_limit = kernel_tcp_memory_limit;
        this
    }

    /// Asks for this limit on memory and swap together, in bytes.
    pub fn memory_swap_limit(self, memory_swap_limit: u64) -> (r: Self)
        ensures
            r.res() == (Resources {
                memory: MemoryResources { update_values: true, memory_swap_limit, ..self.res().memory },
                ..self.res()
            }),
            r.builder().name_view() == self.builder().name_view(),
            r.builder().root_view() == self.builder().root_view(),
    {
        let mut this = self;
        this.cgroup.resources.memory.update_values = true;
        this.cgroup.resources.memory.memory_swap_limit = memory_swap_limit;
        this
    }

    /// Asks for this tendency of the kernel to swap out the tasks' memory.
    pub fn swappiness(self, swappiness: u64) -> (r: Self)
        ensures
            r.res() == (Resources {
                memory: MemoryResources { update_values: true, swappiness, ..self.res().memory },
                ..self.res()
            }),
            r.builder().name_view() == self.builder().name_view(),
            r.builder().root_view() == self.builder().root_view(),
    {
        let mut this = self;
        this.cgroup.resources.memory.update_values = true;
        this.cgroup.resources.memory.swappiness = swappiness;
        this
    }

    /// Ends this section.
    pub fn done(self) -> (r: CgroupBuilder<'a, H>)
        ensures
            r == self.builder(),
    {
        self.cgroup
    }
}

impl<'a, H: Hierarchy> PidResourceBuilder<'a, H> {
    /// The builder of the control group that this section belongs to.
    pub closed spec fn builder(&self) -> CgroupBuilder<'a, H> {
        self.cgroup
    }

    /// The resources asked for so far.
    pub open spec fn res(&self) -> Resources {
        self.builder().res()
    }

    /// Asks for this limit on the number of processes in the control group.
    pub fn maximum_number_of_processes(self, maximum_number_of_processes: PidMax) -> (r: Self)
        ensures
            r.res() == (Resources {
                pid: PidResources { update_values: true, maximum_number_of_processes, ..self.res().pid },
                ..self.res()
            }),
            r.builder().name_view() == self.builder().name_view(),
            r.builder().root_view() == self.builder().root_view(),
    {
        let mut this = self;
        this.cgroup.resources.pid.update_values = true;
        this.cgroup.resources.pid.maximum_number_of_processes = maximum_number_of_processes;
        this
    }

    /// Ends this section.
    pub fn done(self) -> (r: CgroupBuilder<'a, H>)
        ensures
            r == self.builder(),
    {
        self.cgroup
    }
}

impl<'a, H: Hierarchy> CpuResourceBuilder<'a, H> {
    /// The builder of the control group that this section belongs to.
    pub closed spec fn builder(&self) -> CgroupBuilder<'a, H> {
        self.cgroup
    }

    /// The resources asked for so far.
    pub open spec fn res(&self) -> Resources {
        self.builder().res()
    }

    /// Asks for this list of CPUs on which the tasks can run.
    pub fn cpus(self, cpus: String) -> (r: Self)
        ensures
            r.res() == (Resources {
                cpu: CpuResources { update_values: true, cpus, ..self.res().cpu },
                ..self.res()
            }),
            r.builder().name_view() == self.builder().name_view(),
            r.builder().root_view() == self.builder().root_view(),
    {
        let mut this = self;
        this.cgroup.resources.cpu.update_values = true;
        this.cgroup.resources.cpu.cpus = cpus;
        this
    }

    /// Asks for this list of memory nodes that the tasks can use.
    pub fn mems(self, mems: String) -> (r: Self)
        ensures
            r.res() == (Resources {
                cpu: CpuResources { update_values: true, mems, ..self.res().cpu },
                ..self.res()
            }),
            r.builder().name_view() == self.builder().name_view(),
            r.builder().root_view() == self.builder().root_view(),
    {
        let mut this = self;
        this.cgroup.resources.cpu.update_values = true;
        this.cgroup.resources.cpu.mems = mems;
        this
    }

    /// Asks for this weight of the control group against its siblings.
    pub fn shares(self, shares: u64) -> (r: Self)
        ensures
            r.res() == (Resources {
                cpu: CpuResources { update_values: true, shares, ..self.res().cpu },
                ..self.res()
            }),
            r.builder().name_view() == self.builder().name_view(),
            r.builder().root_view() == self.builder().root_view(),
    {
        let mut this = self;
        this.cgroup.resources.cpu.update_values = true;
        this.cgroup.resources.cpu.shares = shares;
        this
    }

    /// Asks for this time, in microseconds, for which the tasks can run in one period.
    pub fn quota(self, quota: i64) -> (r: Self)
        ensures
            r.res() == (Resources {
                cpu: CpuResources { update_values: true, quota, ..self.res().cpu },
                ..self.res()
            }),
            r.builder().name_view() == self.builder().name_view(),
            r.builder().root_view() == self.builder().root_view(),
    {
        let mut this = self;
        this.cgroup.resources.cpu.update_values = true;
        this.cgroup.resources.cpu.quota = quota;
        this
    }

    /// Asks for this period, in microseconds.
    pub fn period(self, period: u64) -> (r: Self)
        ensures
            r.res() == (Resources {
                cpu: CpuResources { update_values: true, period, ..self.res().cpu },
                ..self.res()
            }),
            r.builder().name_view() == self.builder().name_view(),
            r.builder().root_view() == self.builder().root_view(),
    {
        let mut this = self;
        this.cgroup.resources.cpu.update_values = true;
        this.cgroup.resources.cpu.period = period;
        this
    }

    /// Asks for this time, in microseconds, for which realtime tasks can run in one period.
    pub fn realtime_runtime(self, realtime_runtime: i64) -> (r: Self)
        ensures
            r.res() == (Resources {
                cpu: CpuResources { update_values: true, realtime_runtime, ..self.res().cpu },
                ..self.res()
            }),
            r.builder().name_view() == self.builder().name_view(),
            r.builder().root_view() == self.builder().root_view(),
    {
        let mut this = self;
        this.cgroup.resources.cpu.update_values = true;
        this.cgroup.resources.cpu.realtime_runtime = realtime_runtime;
        this
    }

    /// Asks for this period of realtime tasks, in microseconds.
    pub fn realtime_period(self, realtime_period: u64) -> (r: Self)
        ensures
            r.res() == (Resources {
                cpu: CpuResources { update_values: true, realtime_period, ..self.res().cpu },
                ..self.res()
            }),
            r.builder().name_view() == self.builder().name_view(),
            r.builder().root_view() == self.builder().root_view(),
    {
        let mut this = self;
        this.cgroup.resources.cpu.update_values = true;
        this.cgroup.resources.cpu.realtime_period = realtime_period;
        this
    }

    /// Ends this section.
    pub fn done(self) -> (r: CgroupBuilder<'a, H>)
        ensures
            r == self.builder(),
    {
        self.cgroup
    }
}

impl<'a, H: Hierarchy> DeviceResourceBuilder<'a, H> {
    /// The builder of the control group that this section belongs to.
    pub closed spec fn builder(&self) -> CgroupBuilder<'a, H> {
        self.cgroup
    }

    /// The resources asked for so far.
    pub open spec fn res(&self) -> Resources {
        self.builder().res()
    }

    /// Asks for one more rule on devices: access of the kinds `access` to the device
    /// `major:minor` of the type `devtype` is allowed (`allow`) or denied.
    pub fn device(
        self,
        major: i64,
        minor: i64,
        devtype: DeviceType,
        allow: bool,
        access: Vec<DevicePermissions>,
    ) -> (r: DeviceResourceBuilder<'a, H>)
        ensures
            r.res().devices.update_values,
            r.res().devices.devices@ == self.res().devices.devices@.push(
                DeviceResource { allow, devtype, major, minor, access },
            ),
            r.res() == (Resources { devices: r.res().devices, ..self.res() }),
            r.builder().name_view() == self.builder().name_view(),
            r.builder().root_view() == self.builder().root_view(),
    {
        let mut this = self;
        this.cgroup.resources.devices.update_values = true;
        this.cgroup.resources.devices.devices.push(
            DeviceResource { major, minor, devtype, allow, access },
        );
        this
    }

    /// Ends this section.
    pub fn done(self) -> (r: CgroupBuilder<'a, H>)
        ensures
            r == self.builder(),
    {
        self.cgroup
    }
}

impl<'a, H: Hierarchy> NetworkResourceBuilder<'a, H> {
    /// The builder of the control group that this section belongs to.
    pub closed spec fn builder(&self) -> CgroupBuilder<'a, H> {
        self.cgroup
    }

    /// The resources asked for so far.
    pub open spec fn res(&self) -> Resources {
        self.builder().res()
    }

    /// Asks for this class identifier on the packets that the tasks send.
    pub fn class_id(self, class_id: u64) -> (r: Self)
        ensures
            r.res() == (Resources {
                network: NetworkResources { update_values: true, class_id, ..self.res().network },
                ..self.res()
            }),
            r.builder().name_view() == self.builder().name_view(),
            r.builder().root_view() == self.builder().root_view(),
    {
        let mut this = self;
        this.cgroup.resources.network.update_values = true;
        this.cgroup.resources.network.class_id = class_id;
        this
    }

    /// Asks for the priority `priority` of the traffic on the interface `name`.
    pub fn priority(self, name: String, priority: u64) -> (r: NetworkResourceBuilder<'a, H>)
        ensures
            r.res().network.update_values,
            r.res().network.class_id == self.res().network.class_id,
            r.res().network.priorities@ == self.res().network.priorities@.push(
                NetworkPriority { name, priority },
            ),
            r.res() == (Resources { network: r.res().network, ..self.res() }),
            r.builder().name_view() == self.builder().name_view(),
            r.builder().root_view() == self.builder().root_view(),
    {
        let mut this = self;
        this.cgroup.resources.network.update_values = true;
        this.cgroup.resources.network.priorities.push(NetworkPriority { name, priority });
        this
    }

    /// Ends this section.
    pub fn done(self) -> (r: CgroupBuilder<'a, H>)
        ensures
            r == self.builder(),
    {
        self.cgroup
    }
}

impl<'a, H: Hierarchy> HugepagesResourceBuilder<'a, H> {
    /// The builder of the control group that this section belongs to.
    pub closed spec fn builder(&self) -> CgroupBuilder<'a, H> {
        self.cgroup
    }

    /// The resources asked for so far.
    pub open spec fn res(&self) -> Resources {
        self.builder().res()
    }

    /// Asks for the limit `limit`, in bytes, on memory backed by huge pages of the size `size`.
    pub fn limit(self, size: String, limit: u64) -> (r: HugepagesResourceBuilder<'a, H>)
        ensures
            r.res().hugepages.update_values,
            r.res().hugepages.limits@ == self.res().hugepages.limits@.push(
                HugePageResource { size, limit },
            ),
            r.res() == (Resources { hugepages: r.res().hugepages, ..self.res() }),
            r.builder().name_view() == self.builder().name_view(),
            r.builder().root_view() == self.builder().root_view(),
    {
        let mut this = self;
        this.cgroup.resources.hugepages.update_values = true;
        this.cgroup.resources.hugepages.limits.push(HugePageResource { size, limit });
        this
    }

    /// Ends this section.
    pub fn done(self) -> (r: CgroupBuilder<'a, H>)
        ensures
            r == self.builder(),
    {
        self.cgroup
    }
}

impl<'a, H: Hierarchy> BlkIoResourcesBuilder<'a, H> {
    /// The builder of the control group that this section belongs to.
    pub closed spec fn builder(&self) -> CgroupBuilder<'a, H> {
        self.cgroup
    }

    /// The resources asked for so far.
    pub open spec fn res(&self) -> Resources {
        self.builder().res()
    }

    /// Whether `read` and `write` throttle operations per second, rather than bytes per second.
    pub closed spec fn throttling(&self) -> bool {
        self.throttling_iops
    }

    /// Asks for this weight of the control group against descendant nodes.
    pub fn weight(self, weight: u16) -> (r: Self)
        ensures
            r.res() == (Resources {
                blkio: BlkIoResources { update_values: true, weight, ..self.res().blkio },
                ..self.res()
            }),
            r.throttling() == self.throttling(),
            r.builder().name_view() == self.builder().name_view(),
            r.builder().root_view() == self.builder().root_view(),
    {
        let mut this = self;
        this.cgroup.resources.blkio.update_values = true;
        this.cgroup.resources.blkio.weight = weight;
        this
    }

    /// Asks for this weight of the control group against sibling nodes.
    pub fn leaf_weight(self, leaf_weight: u16) -> (r: Self)
        ensures
            r.res() == (Resources {
                blkio: BlkIoResources { update_values: true, leaf_weight, ..self.res().blkio },
                ..self.res()
            }),
            r.throttling() == self.throttling(),
            r.builder().name_view() == self.builder().name_view(),
            r.builder().root_view() == self.builder().root_view(),
    {
        let mut this = self;
        this.cgroup.resources.blkio.update_values = true;
        this.cgroup.resources.blkio.leaf_weight = leaf_weight;
        this
    }

    /// Asks for the weights `weight` and `leaf_weight` of the device `major:minor`.
    pub fn weight_device(self, major: u64, minor: u64, weight: u16, leaf_weight: u16) -> (r:
        BlkIoResourcesBuilder<'a, H>)
        ensures
            r.res().blkio == (BlkIoResources {
                update_values: true,
                weight_device: r.res().blkio.weight_device,
                ..self.res().blkio
            }),
            r.res().blkio.weight_device@ == self.res().blkio.weight_device@.push(
                BlkIoDeviceResource { major, minor, weight, leaf_weight },
            ),
            r.res() == (Resources { blkio: r.res().blkio, ..self.res() }),
            r.throttling() == self.throttling(),
            r.builder().name_view() == self.builder().name_view(),
            r.builder().root_view() == self.builder().root_view(),
    {
        let mut this = self;
        this.cgroup.resources.blkio.update_values = true;
        this.cgroup.resources.blkio.weight_device.push(
            BlkIoDeviceResource { major, minor, weight, leaf_weight },
        );
        this
    }

    /// From here on, `read` and `write` throttle operations per second.
    pub fn throttle_iops(self) -> (r: BlkIoResourcesBuilder<'a, H>)
        ensures
            r.throttling(),
            r.builder() == self.builder(),
    {
        let mut this = self;
        this.throttling_iops = true;
        this
    }

    /// From here on, `read` and `write` throttle bytes per second.
    pub fn throttle_bps(self) -> (r: BlkIoResourcesBuilder<'a, H>)
        ensures
            !r.throttling(),
            r.builder() == self.builder(),
    {
        let mut this = self;
        this.throttling_iops = false;
        this
    }

    /// Asks to throttle reading from the device `major:minor` to `rate`: in operations per
    /// second after `throttle_iops`, else in bytes per second.
    pub fn read(self, major: u64, minor: u64, rate: u64) -> (r: BlkIoResourcesBuilder<'a, H>)
        ensures
            r.res().blkio == (BlkIoResources {
                update_values: true,
                throttle_read_iops_device: r.res().blkio.throttle_read_iops_device,
                throttle_read_bps_device: r.res().blkio.throttle_read_bps_device,
                ..self.res().blkio
            }),
            self.throttling() ==> r.res().blkio.throttle_read_iops_device@
                == self.res().blkio.throttle_read_iops_device@.push(
                BlkIoDeviceThrottleResource { major, minor, rate },
            ) && r.res().blkio.throttle_read_bps_device == self.res().blkio.throttle_read_bps_device,
            !self.throttling() ==> r.res().blkio.throttle_read_bps_device@
                == self.res().blkio.throttle_read_bps_device@.push(
                BlkIoDeviceThrottleResource { major, minor, rate },
            ) && r.res().blkio.throttle_read_iops_device
                == self.res().blkio.throttle_read_iops_device,
            r.res() == (Resources { blkio: r.res().blkio, ..self.res() }),
            r.throttling() == self.throttling(),
            r.builder().name_view() == self.builder().name_view(),
            r.builder().root_view() == self.builder().root_view(),
    {
        let mut this = self;
        this.cgroup.resources.blkio.update_values = true;
        let throttle = BlkIoDeviceThrottleResource { major, minor, rate };
        if this.throttling_iops {
            this.cgroup.resources.blkio.throttle_read_iops_device.push(throttle);
        } else {
            this.cgroup.resources.blkio.throttle_read_bps_device.push(throttle);
        }
        this
    }

    /// Asks to throttle writing to the device `major:minor` to `rate`: in operations per
    /// second after `throttle_iops`, else in bytes per second.
    pub fn write(self, major: u64, minor: u64, rate: u64) -> (r: BlkIoResourcesBuilder<'a, H>)
        ensures
            r.res().blkio == (BlkIoResources {
                update_values: true,
                throttle_write_iops_device: r.res().blkio.throttle_write_iops_device,
                throttle_write_bps_device: r.res().blkio.throttle_write_bps_device,
                ..self.res().blkio
            }),
            self.throttling() ==> r.res().blkio.throttle_write_iops_device@
                == self.res().blkio.throttle_write_iops_device@.push(
                BlkIoDeviceThrottleResource { major, minor, rate },
            ) && r.res().blkio.throttle_write_bps_device == self.res().blkio.throttle_write_bps_device,
            !self.throttling() ==> r.res().blkio.throttle_write_bps_device@
                == self.res().blkio.throttle_write_bps_device@.push(
                BlkIoDeviceThrottleResource { major, minor, rate },
            ) && r.res().blkio.throttle_write_iops_device
                == self.res().blkio.throttle_write_iops_device,
            r.res() == (Resources { blkio: r.res().blkio, ..self.res() }),
            r.throttling() == self.throttling(),
            r.builder().name_view() == self.builder().name_view(),
            r.builder().root_view() == self.builder().root_view(),
    {
        let mut this = self;
        this.cgroup.resources.blkio.update_values = true;
        let throttle = BlkIoDeviceThrottleResource { major, minor, rate };
        if this.throttling_iops {
            this.cgroup.resources.blkio.throttle_write_iops_device.push(throttle);
        } else {
            this.cgroup.resources.blkio.throttle_write_bps_device.push(throttle);
        }
        this
    }

    /// Ends this section.
    pub fn done(self) -> (r: CgroupBuilder<'a, H>)
        ensures
            r == self.builder(),
    {
        self.cgroup
    }
}

} // verus!

//! The resources that can be asked of a control group, subsystem by subsystem.
//!
//! Each section has a flag, `update_values`, that says whether its values are to
//! be applied at all. The values of a section whose flag is not set mean nothing.
use vstd::prelude::*;
use crate::devices::{DevicePermissions, DeviceType};
use crate::pid::PidMax;

verus! {

/// Resource limits for the memory subsystem.
#[derive(Debug, Clone, Eq, PartialEq)]
pub struct MemoryResources {
    /// Whether values should be applied to the controller.
    pub update_values: bool,
    /// How much memory (in bytes) can the kernel consume.
    pub kernel_memory_limit: u64,
    /// Upper limit of memory usage of the control group's tasks.
    pub memory_hard_limit: u64,
    /// How much memory the tasks in the control group can use when the system is under memory
    /// pressure.
    pub memory_soft_limit: u64,
    /// How much of the kernel's memory (in bytes) can be used for TCP-related buffers.
    pub kernel_tcp_memory_limit: u64,
    /// How much memory and swap together can the tasks in the control group use.
    pub memory_swap_limit: u64,
    /// Controls the tendency of the kernel to swap out parts of the address space of the tasks to
    /// disk. Lower value implies less likely.
    pub swappiness: u64,
}

/// Resources limits on the number of processes.
#[derive(Debug, Clone, Eq, PartialEq)]
pub struct PidResources {
    /// Whether values should be applied to the controller.
    pub update_values: bool,
    /// The maximum number of processes that can exist in the control group.
    pub maximum_number_of_processes: PidMax,
}

/// Resources limits about how the tasks can use the CPU.
#[derive(Debug, Clone, Eq, PartialEq)]
pub struct CpuResources {
    /// Whether values should be applied to the controller.
    pub update_values: bool,
    /// A comma-separated list of CPU IDs where the task in the control group can run. Dashes
    /// between numbers indicate ranges.
    pub cpus: String,
    /// Same syntax as the `cpus` field of this structure, but applies to memory nodes instead of
    /// processors.
    pub mems: String,
    /// Weight of how much of the total CPU time should this control group get. Note that this is
    /// hierarchical, so this is weighted against the siblings of this control group.
    pub shares: u64,
    /// In one `period`, how much can the tasks run in microseconds.
    pub quota: i64,
    /// Period of time in microseconds.
    pub period: u64,
    /// This is currently a no-operation.
    pub realtime_runtime: i64,
    /// This is currently a no-operation.
    pub realtime_period: u64,
}

/// A device resource that can be allowed or denied access to.
#[derive(Debug, Clone, Eq, PartialEq)]
pub struct DeviceResource {
    /// If true, access to the device is allowed, otherwise it's denied.
    pub allow: bool,
    /// `'c'` for character device, `'b'` for block device; or `'a'` for all devices.
    pub devtype: DeviceType,
    /// The major number of the device.
    pub major: i64,
    /// The minor number of the device.
    pub minor: i64,
    /// Sequence of `'r'`, `'w'` or `'m'`, each denoting read, write or mknod permissions.
    pub access: Vec<DevicePermissions>,
}

/// Limit the usage of devices for the control group's tasks.
#[derive(Debug, Clone, Eq, PartialEq)]
pub struct DeviceResources {
    /// Whether values should be applied to the controller.
    pub update_values: bool,
    /// For each device in the list, the limits in the structure are applied.
    pub devices: Vec<DeviceResource>,
}

/// Assigned priority for a network device.
#[derive(Debug, Clone, Eq, PartialEq)]
pub struct NetworkPriority {
    /// The name (as visible in `ifconfig`) of the interface.
    pub name: String,
    /// Assigned priority.
    pub priority: u64,
}

/// Collections of limits and tags that can be imposed on packets emitted by the tasks in the
/// control group.
#[derive(Debug, Clone, Eq, PartialEq)]
pub struct NetworkResources {
    /// Whether values should be applied to the controller.
    pub update_values: bool,
    /// The networking class identifier to attach to the packets.
    pub class_id: u64,
    /// Priority of the egress traffic for each interface.
    pub priorities: Vec<NetworkPriority>,
}

/// A hugepage type and its consumption limit for the control group.
#[derive(Debug, Clone, Eq, PartialEq)]
pub struct HugePageResource {
    /// The size of the hugepage, i.e. `2MB`, `1GB`, etc.
    pub size: String,
    /// The amount of bytes (of memory consumed by the tasks) that are allowed to be backed by
    /// hugepages.
    pub limit: u64,
}

/// Provides the ability to set consumption limit on each type of hugepages.
#[derive(Debug, Clone, Eq, PartialEq)]
pub struct HugePageResources {
    /// Whether values should be applied to the controller.
    pub update_values: bool,
    /// Set a limit of consumption for each hugepages type.
    pub limits: Vec<HugePageResource>,
}

/// Weight for a particular block device.
#[derive(Debug, Clone, Eq, PartialEq)]
pub struct BlkIoDeviceResource {
    /// The major number of the device.
    pub major: u64,
    /// The minor number of the device.
    pub minor: u64,
    /// The weight of the device against the descendant nodes.
    pub weight: u16,
    /// The weight of the device against the sibling nodes.
    pub leaf_weight: u16,
}

/// Provides the ability to throttle a device (both byte/sec, and IO op/s)
#[derive(Debug, Clone, Eq, PartialEq)]
pub struct BlkIoDeviceThrottleResource {
    /// The major number of the device.
    pub major: u64,
    /// The minor number of the device.
    pub minor: u64,
    /// The rate.
    pub rate: u64,
}

/// General block I/O resource limits.
#[derive(Debug, Clone, Eq, PartialEq)]
pub struct BlkIoResources {
    /// Whether values should be applied to the controller.
    pub update_values: bool,
    /// The weight of the control group against descendant nodes.
    pub weight: u16,
    /// The weight of the control group against sibling nodes.
    pub leaf_weight: u16,
    /// For each device, a separate weight (both normal and leaf) can be provided.
    pub weight_device: Vec<BlkIoDeviceResource>,
    /// Throttled read bytes/second can be provided for each device.
    pub throttle_read_bps_device: Vec<BlkIoDeviceThrottleResource>,
    /// Throttled read IO operations per second can be provided for each device.
    pub throttle_read_iops_device: Vec<BlkIoDeviceThrottleResource>,
    /// Throttled written bytes/second can be provided for each device.
    pub throttle_write_bps_device: Vec<BlkIoDeviceThrottleResource>,
    /// Throttled write IO operations per second can be provided for each device.
    pub throttle_write_iops_device: Vec<BlkIoDeviceThrottleResource>,
}

/// The resource limits and constraints that will be set on the control group.
#[derive(Debug, Clone, Eq, PartialEq)]
pub struct Resources {
    /// Memory usage related limits.
    pub memory: MemoryResources,
    /// Process identifier related limits.
    pub pid: PidResources,
    /// CPU related limits.
    pub cpu: CpuResources,
    /// Device related limits.
    pub devices: DeviceResources,
    /// Network related tags and limits.
    pub network: NetworkResources,
    /// Hugepages consumption related limits.
    pub hugepages: HugePageResources,
    /// Block device I/O related limits.
    pub blkio: BlkIoResources,
}

/// A structure representing a `pid`.
#[derive(Debug, Clone, Copy, PartialEq, Eq, PartialOrd, Ord, Structural)]
pub struct CgroupPid {
    /// The process identifier
    pub pid: u64,
}

impl Resources {
    /// Whether no section of `self` asks to be applied.
    pub open spec fn asks_nothing(&self) -> bool {
        &&& !self.memory.update_values
        &&& !self.pid.update_values
        &&& !self.cpu.update_values
        &&& !self.devices.update_values
        &&& !self.network.update_values
        &&& !self.hugepages.update_values
        &&& !self.blkio.update_values
    }
}

impl Default for MemoryResources {
    fn default() -> (r: Self)
        ensures
            r == (MemoryResources {
                update_values: false,
                kernel_memory_limit: 0,
                memory_hard_limit: 0,
                memory_soft_limit: 0,
                kernel_tcp_memory_limit: 0,
                memory_swap_limit: 0,
                swappiness: 0,
            }),
    {
        MemoryResources {
            update_values: false,
            kernel_memory_limit: 0,
            memory_hard_limit: 0,
            memory_soft_limit: 0,
            kernel_tcp_memory_limit: 0,
            memory_swap_limit: 0,
            swappiness: 0,
        }
    }
}

impl Default for PidResources {
    fn default() -> (r: Self)
        ensures
            r == (PidResources { update_values: false, maximum_number_of_processes: PidMax::Max }),
    {
        PidResources { update_values: false, maximum_number_of_processes: PidMax::Max }
    }
}

impl Default for CpuResources {
    fn default() -> (r: Self)
        ensures
            !r.update_values,
            r.cpus@.len() == 0,
            r.mems@.len() == 0,
            r.shares == 0,
            r.quota == 0,
            r.period == 0,
            r.realtime_runtime == 0,
            r.realtime_period == 0,
    {
        CpuResources {
            update_values: false,
            cpus: String::new(),
            mems: String::new(),
            shares: 0,
            quota: 0,
            period: 0,
            realtime_runtime: 0,
            realtime_period: 0,
        }
    }
}

impl Default for DeviceResource {
    fn default() -> (r: Self)
        ensures
            !r.allow,
            r.devtype == DeviceType::All,
            r.major == 0,
            r.minor == 0,
            r.access@.len() == 0,
    {
        DeviceResource {
            allow: false,
            devtype: DeviceType::All,
            major: 0,
            minor: 0,
            access: Vec::new(),
        }
    }
}

impl Default for DeviceResources {
    fn default() -> (r: Self)
        ensures
            !r.update_values,
            r.devices@.len() == 0,
    {
        DeviceResources { update_values: false, devices: Vec::new() }
    }
}

impl Default for NetworkPriority {
    fn default() -> (r: Self)
        ensures
            r.name@.len() == 0,
            r.priority == 0,
    {
        NetworkPriority { name: String::new(), priority: 0 }
    }
}

impl Default for NetworkResources {
    fn default() -> (r: Self)
        ensures
            !r.update_values,
            r.class_id == 0,
            r.priorities@.len() == 0,
    {
        NetworkResources { update_values: false, class_id: 0, priorities: Vec::new() }
    }
}

impl Default for HugePageResource {
    fn default() -> (r: Self)
        ensures
            r.size@.len() == 0,
            r.limit == 0,
    {
        HugePageResource { size: String::new(), limit: 0 }
    }
}

impl Default for HugePageResources {
    fn default() -> (r: Self)
        ensures
            !r.update_values,
            r.limits@.len() == 0,
    {
        HugePageResources { update_values: false, limits: Vec::new() }
    }
}

impl Default for BlkIoDeviceResource {
    fn default() -> (r: Self)
        ensures
            r == (BlkIoDeviceResource { major: 0, minor: 0, weight: 0, leaf_weight: 0 }),
    {
        BlkIoDeviceResource { major: 0, minor: 0, weight: 0, leaf_weight: 0 }
    }
}

impl Default for BlkIoDeviceThrottleResource {
    fn default() -> (r: Self)
        ensures
            r == (BlkIoDeviceThrottleResource { major: 0, minor: 0, rate: 0 }),
    {
        BlkIoDeviceThrottleResource { major: 0, minor: 0, rate: 0 }
    }
}

impl Default for BlkIoResources {
    fn default() -> (r: Self)
        ensures
            !r.update_values,
            r.weight == 0,
            r.leaf_weight == 0,
            r.weight_device@.len() == 0,
            r.throttle_read_bps_device@.len() == 0,
            r.throttle_read_iops_device@.len() == 0,
            r.throttle_write_bps_device@.len() == 0,
            r.throttle_write_iops_device@.len() == 0,
    {
        BlkIoResources {
            update_values: false,
            weight: 0,
            leaf_weight: 0,
            weight_device: Vec::new(),
            throttle_read_bps_device: Vec::new(),
            throttle_read_iops_device: Vec::new(),
            throttle_write_bps_device: Vec::new(),
            throttle_write_iops_device: Vec::new(),
        }
    }
}

impl Default for Resources {
    /// The resources that ask for nothing.
    fn default() -> (r: Self)
        ensures
            r.asks_nothing(),
            r.devices.devices@.len() == 0,
            r.network.priorities@.len() == 0,
            r.hugepages.limits@.len() == 0,
    {
        Resources {
            memory: MemoryResources::default(),
            pid: PidResources::default(),
            cpu: CpuResources::default(),
            devices: DeviceResources::default(),
            network: NetworkResources::default(),
            hugepages: HugePageResources::default(),
            blkio: BlkIoResources::default(),
        }
    }
}

impl From<u64> for CgroupPid {
    fn from(u: u64) -> (r: CgroupPid) {
        CgroupPid { pid: u }
    }
}

impl vstd::std_specs::convert::FromSpecImpl<u64> for CgroupPid {
    open spec fn obeys_from_spec() -> bool {
        true
    }

    open spec fn from_spec(u: u64) -> CgroupPid {
        CgroupPid { pid: u }
    }
}

} // verus!

//! A typed view of the Linux kernel's control groups.
//!
//! A control group limits what a set of tasks may use of the machine. The kernel
//! shows each group as a directory of files, one directory per subsystem, and
//! this crate maps those files to values: it says which file to write and what
//! text, and it reads the text of a file into numbers and structures.
//!
//! The crate does no input or output of its own. A setter returns the
//! [`fs::FileWrite`] to carry out, a getter reads from a [`fs::Snapshot`] of the
//! files, and applying resources yields an [`apply::Plan`] that the caller
//! carries out one step at a time through an [`apply::Run`].
use vstd::prelude::*;

pub mod apply;
pub mod blkio;
pub mod cgroup;
pub mod cgroup_builder;
pub mod controller;
pub mod cpu;
pub mod cpuacct;
pub mod cpuset;
pub mod devices;
pub mod error;
pub mod freezer;
pub mod fs;
pub mod hierarchies;
pub mod hugetlb;
pub mod laws;
pub mod memory;
pub mod net_cls;
pub mod net_prio;
pub mod path;
pub mod perf_event;
pub mod pid;
pub mod rdma;
pub mod resources;
pub mod subsystem;
pub mod text;

pub use crate::cgroup::Cgroup;
pub use crate::controller::{ControllIdentifier, Controller, ControllerInternal, Controllers};
pub use crate::hierarchies::Hierarchy;
pub use crate::resources::{
    BlkIoDeviceResource, BlkIoDeviceThrottleResource, BlkIoResources, CgroupPid, CpuResources,
    DeviceResource, DeviceResources, HugePageResource, HugePageResources, MemoryResources,
    NetworkPriority, NetworkResources, PidResources, Resources,
};
pub use crate::subsystem::Subsystem;

//! The closed set of subsystems, each with its controller.
use vstd::prelude::*;
use crate::apply::{Plan, PlanView};
use crate::blkio::blkio_settings;
use crate::blkio::BlkIoController;
use crate::controller::{controller_name, plan_of, ControllerInternal, Controllers};
use crate::cpu::cpu_settings;
use crate::cpu::CpuController;
use crate::cpuacct::CpuAcctController;
use crate::cpuset::{cpuset_settings, CpuSetController};
use crate::devices::{devices_settings, DevicesController};
use crate::freezer::FreezerController;
use crate::hugetlb::{hugetlb_settings, HugeTlbController};
use crate::memory::{memory_settings, MemController};
use crate::net_cls::{class_step, NetClsController};
use crate::net_prio::{prio_settings, NetPrioController};
use crate::path::join_spec;
use crate::perf_event::PerfEventController;
use crate::pid::{pid_max_step, PidController};
use crate::rdma::RdmaController;
use crate::resources::Resources;

verus! {

/// Contains all the subsystems that are available in this crate.
#[derive(Debug)]
pub enum Subsystem {
    /// Controller for the `Pid` subsystem, see `PidController` for more information.
    Pid(PidController),
    /// Controller for the `Mem` subsystem, see `MemController` for more information.
    Mem(MemController),
    /// Controller for the `CpuSet subsystem, see `CpuSetController` for more information.
    CpuSet(CpuSetController),
    /// Controller for the `CpuAcct` subsystem, see `CpuAcctController` for more information.
    CpuAcct(CpuAcctController),
    /// Controller for the `Cpu` subsystem, see `CpuController` for more information.
    Cpu(CpuController),
    /// Controller for the `Devices` subsystem, see `DevicesController` for more information.
    Devices(DevicesController),
    /// Controller for the `Freezer` subsystem, see `FreezerController` for more information.
    Freezer(FreezerController),
    /// Controller for the `NetCls` subsystem, see `NetClsController` for more information.
    NetCls(NetClsController),
    /// Controller for the `BlkIo` subsystem, see `BlkIoController` for more information.
    BlkIo(BlkIoController),
    /// Controller for the `PerfEvent` subsystem, see `PerfEventController` for more information.
    PerfEvent(PerfEventController),
    /// Controller for the `NetPrio` subsystem, see `NetPrioController` for more information.
    NetPrio(NetPrioController),
    /// Controller for the `HugeTlb` subsystem, see `HugeTlbController` for more information.
    HugeTlb(HugeTlbController),
    /// Controller for the `Rdma` subsystem, see `RdmaController` for more information.
    Rdma(RdmaController),
}

/// A subsystem as a plain value: which one it is, and where its controller stands.
pub struct SubsystemView {
    /// The subsystem.
    pub kind: Controllers,
    /// The directory of the subsystem.
    pub base: Seq<char>,
    /// The directory of the control group.
    pub path: Seq<char>,
    /// Whether the controller belongs to the unified hierarchy.
    pub unified: bool,
}

/// The subsystems of `v` as plain values.
pub open spec fn views(v: Seq<Subsystem>) -> Seq<SubsystemView> {
    Seq::new(v.len(), |i: int| v[i]@)
}

/// The subsystem `v` one group further down, in the group `name`.
pub open spec fn entered(v: SubsystemView, name: Seq<char>) -> SubsystemView {
    SubsystemView { path: join_spec(v.path, name), ..v }
}

/// The controller of the subsystem `kind` for the topmost control group of a
/// hierarchy that is mounted at `root`.
pub open spec fn at_root(kind: Controllers, root: Seq<char>) -> SubsystemView {
    SubsystemView {
        kind,
        base: join_spec(root, controller_name(kind)),
        path: join_spec(root, controller_name(kind)),
        unified: false,
    }
}

/// The settings that `res` asks of the subsystem `kind`, in the order in which
/// they are made; none where the section of `res` for that subsystem does not
/// ask to be applied, and none for a subsystem that takes no resources.
pub open spec fn settings_for(kind: Controllers, unified: bool, res: &Resources) -> Seq<
    crate::apply::Step,
> {
    match kind {
        Controllers::Pids => if res.pid.update_values {
            seq![pid_max_step(res.pid.maximum_number_of_processes)]
        } else {
            Seq::empty()
        },
        Controllers::Mem => if res.memory.update_values {
            memory_settings(res.memory)
        } else {
            Seq::empty()
        },
        Controllers::CpuSet => if res.cpu.update_values {
            cpuset_settings(res.cpu)
        } else {
            Seq::empty()
        },
        Controllers::Cpu => if res.cpu.update_values {
            cpu_settings(unified, res.cpu)
        } else {
            Seq::empty()
        },
        Controllers::Devices => if res.devices.update_values {
            devices_settings(res.devices.devices@)
        } else {
            Seq::empty()
        },
        Controllers::NetCls => if res.network.update_values {
            seq![class_step(res.network.class_id)]
        } else {
            Seq::empty()
        },
        Controllers::BlkIo => if res.blkio.update_values {
            blkio_settings(res.blkio)
        } else {
            Seq::empty()
        },
        Controllers::NetPrio => if res.network.update_values {
            prio_settings(res.network.priorities@)
        } else {
            Seq::empty()
        },
        Controllers::HugeTlb => if res.hugepages.update_values {
            hugetlb_settings(res.hugepages.limits@)
        } else {
            Seq::empty()
        },
        Controllers::CpuAcct => Seq::empty(),
        Controllers::Freezer => Seq::empty(),
        Controllers::PerfEvent => Seq::empty(),
        Controllers::Rdma => Seq::empty(),
    }
}

/// The plan that applies `res` to the subsystem `v`.
pub open spec fn view_plan(v: SubsystemView, res: &Resources) -> PlanView {
    plan_of(v.base, v.path, settings_for(v.kind, v.unified, res))
}

impl View for Subsystem {
    type V = SubsystemView;

    open spec fn view(&self) -> SubsystemView {
        match self {
            Subsystem::Pid(c) => SubsystemView {
                kind: Controllers::Pids,
                base: c.base_spec(),
                path: c.path_spec(),
                unified: false,
            },
            Subsystem::Mem(c) => SubsystemView {
                kind: Controllers::Mem,
                base: c.base_spec(),
                path: c.path_spec(),
                unified: false,
            },
            Subsystem::CpuSet(c) => SubsystemView {
                kind: Controllers::CpuSet,
                base: c.base_spec(),
                path: c.path_spec(),
                unified: false,
            },
            Subsystem::CpuAcct(c) => SubsystemView {
                kind: Controllers::CpuAcct,
                base: c.base_spec(),
                path: c.path_spec(),
                unified: false,
            },
            Subsystem::Cpu(c) => SubsystemView {
                kind: Controllers::Cpu,
                base: c.base_spec(),
                path: c.path_spec(),
                unified: c.v2_spec(),
            },
            Subsystem::Devices(c) => SubsystemView {
                kind: Controllers::Devices,
                base: c.base_spec(),
                path: c.path_spec(),
                unified: false,
            },
            Subsystem::Freezer(c) => SubsystemView {
                kind: Controllers::Freezer,
                base: c.base_spec(),
                path: c.path_spec(),
                unified: false,
            },
            Subsystem::NetCls(c) => SubsystemView {
                kind: Controllers::NetCls,
                base: c.base_spec(),
                path: c.path_spec(),
                unified: false,
            },
            Subsystem::BlkIo(c) => SubsystemView {
                kind: Controllers::BlkIo,
                base: c.base_spec(),
                path: c.path_spec(),
                unified: false,
            },
            Subsystem::PerfEvent(c) => SubsystemView {
                kind: Controllers::PerfEvent,
                base: c.base_spec(),
                path: c.path_spec(),
                unified: false,
            },
            Subsystem::NetPrio(c) => SubsystemView {
                kind: Controllers::NetPrio,
                base: c.base_spec(),
                path: c.path_spec(),
                unified: false,
            },
            Subsystem::HugeTlb(c) => SubsystemView {
                kind: Controllers::HugeTlb,
                base: c.base_spec(),
                path: c.path_spec(),
                unified: false,
            },
            Subsystem::Rdma(c) => SubsystemView {
                kind: Controllers::Rdma,
                base: c.base_spec(),
                path: c.path_spec(),
                unified: false,
            },
        }
    }
}

impl ControllerInternal for Subsystem {
    open spec fn base_spec(&self) -> Seq<char> {
        self@.base
    }

    open spec fn path_spec(&self) -> Seq<char> {
        self@.path
    }

    open spec fn kind_spec(&self) -> Controllers {
        self@.kind
    }

    open spec fn plan_spec(&self, res: &Resources) -> PlanView {
        view_plan(self@, res)
    }

    fn apply(&self, res: &Resources) -> (p: Plan) {
        match self {
            Subsystem::Pid(c) => c.apply(res),
            Subsystem::Mem(c) => c.apply(res),
            Subsystem::CpuSet(c) => c.apply(res),
            Subsystem::CpuAcct(c) => c.apply(res),
            Subsystem::Cpu(c) => c.apply(res),
            Subsystem::Devices(c) => c.apply(res),
            Subsystem::Freezer(c) => c.apply(res),
            Subsystem::NetCls(c) => c.apply(res),
            Subsystem::BlkIo(c) => c.apply(res),
            Subsystem::PerfEvent(c) => c.apply(res),
            Subsystem::NetPrio(c) => c.apply(res),
            Subsystem::HugeTlb(c) => c.apply(res),
            Subsystem::Rdma(c) => c.apply(res),
        }
    }

    fn control_type(&self) -> (r: Controllers) {
        match self {
            Subsystem::Pid(c) => c.control_type(),
            Subsystem::Mem(c) => c.control_type(),
            Subsystem::CpuSet(c) => c.control_type(),
            Subsystem::CpuAcct(c) => c.control_type(),
            Subsystem::Cpu(c) => c.control_type(),
            Subsystem::Devices(c) => c.control_type(),
            Subsystem::Freezer(c) => c.control_type(),
            Subsystem::NetCls(c) => c.control_type(),
            Subsystem::BlkIo(c) => c.control_type(),
            Subsystem::PerfEvent(c) => c.control_type(),
            Subsystem::NetPrio(c) => c.control_type(),
            Subsystem::HugeTlb(c) => c.control_type(),
            Subsystem::Rdma(c) => c.control_type(),
        }
    }

    fn get_path(&self) -> (r: &String) {
        match self {
            Subsystem::Pid(c) => c.get_path(),
            Subsystem::Mem(c) => c.get_path(),
            Subsystem::CpuSet(c) => c.get_path(),
            Subsystem::CpuAcct(c) => c.get_path(),
            Subsystem::Cpu(c) => c.get_path(),
            Subsystem::Devices(c) => c.get_path(),
            Subsystem::Freezer(c) => c.get_path(),
            Subsystem::NetCls(c) => c.get_path(),
            Subsystem::BlkIo(c) => c.get_path(),
            Subsystem::PerfEvent(c) => c.get_path(),
            Subsystem::NetPrio(c) => c.get_path(),
            Subsystem::HugeTlb(c) => c.get_path(),
            Subsystem::Rdma(c) => c.get_path(),
        }
    }

    fn get_base(&self) -> (r: &String) {
        match self {
            Subsystem::Pid(c) => c.get_base(),
            Subsystem::Mem(c) => c.get_base(),
            Subsystem::CpuSet(c) => c.get_base(),
            Subsystem::CpuAcct(c) => c.get_base(),
            Subsystem::Cpu(c) => c.get_base(),
            Subsystem::Devices(c) => c.get_base(),
            Subsystem::Freezer(c) => c.get_base(),
            Subsystem::NetCls(c) => c.get_base(),
            Subsystem::BlkIo(c) => c.get_base(),
            Subsystem::PerfEvent(c) => c.get_base(),
            Subsystem::NetPrio(c) => c.get_base(),
            Subsystem::HugeTlb(c) => c.get_base(),
            Subsystem::Rdma(c) => c.get_base(),
        }
    }

    fn scoped_to(&self, name: &str) -> (r: Self)
        ensures
            r@ == entered(self@, name@),
    {
        match self {
            Subsystem::Pid(c) => Subsystem::Pid(c.scoped_to(name)),
            Subsystem::Mem(c) => Subsystem::Mem(c.scoped_to(name)),
            Subsystem::CpuSet(c) => Subsystem::CpuSet(c.scoped_to(name)),
            Subsystem::CpuAcct(c) => Subsystem::CpuAcct(c.scoped_to(name)),
            Subsystem::Cpu(c) => Subsystem::Cpu(c.scoped_to(name)),
            Subsystem::Devices(c) => Subsystem::Devices(c.scoped_to(name)),
            Subsystem::Freezer(c) => Subsystem::Freezer(c.scoped_to(name)),
            Subsystem::NetCls(c) => Subsystem::NetCls(c.scoped_to(name)),
            Subsystem::BlkIo(c) => Subsystem::BlkIo(c.scoped_to(name)),
            Subsystem::PerfEvent(c) => Subsystem::PerfEvent(c.scoped_to(name)),
            Subsystem::NetPrio(c) => Subsystem::NetPrio(c.scoped_to(name)),
            Subsystem::HugeTlb(c) => Subsystem::HugeTlb(c.scoped_to(name)),
            Subsystem::Rdma(c) => Subsystem::Rdma(c.scoped_to(name)),
        }
    }
}

impl Subsystem {
    /// The controller of the subsystem `kind` for the topmost control group of
    /// a hierarchy that is mounted at `root`.
    pub fn root_of(kind: Controllers, root: String) -> (r: Subsystem)
        ensures
            r@ == at_root(kind, root@),
    {
        match kind {
            Controllers::Pids => Subsystem::Pid(PidController::new(root)),
            Controllers::Mem => Subsystem::Mem(MemController::new(root)),
            Controllers::CpuSet => Subsystem::CpuSet(CpuSetController::new(root)),
            Controllers::CpuAcct => Subsystem::CpuAcct(CpuAcctController::new(root)),
            Controllers::Cpu => Subsystem::Cpu(CpuController::new(root, false)),
            Controllers::Devices => Subsystem::Devices(DevicesController::new(root)),
            Controllers::Freezer => Subsystem::Freezer(FreezerController::new(root)),
            Controllers::NetCls => Subsystem::NetCls(NetClsController::new(root)),
            Controllers::BlkIo => Subsystem::BlkIo(BlkIoController::new(root)),
            Controllers::PerfEvent => Subsystem::PerfEvent(PerfEventController::new(root)),
            Controllers::NetPrio => Subsystem::NetPrio(NetPrioController::new(root)),
            Controllers::HugeTlb => Subsystem::HugeTlb(HugeTlbController::new(root)),
            Controllers::Rdma => Subsystem::Rdma(RdmaController::new(root)),
        }
    }

    /// This subsystem one group further down, in the group `path`: the same
    /// subsystem and base directory, with `path` added to the directory of
    /// the group.
    pub fn enter(self, path: &str) -> (r: Subsystem)
        ensures
            r@ == entered(self@, path@),
    {
        self.scoped_to(path)
    }

    /// This subsystem as a controller: every subsystem is one.
    pub fn to_controller(&self) -> (r: &Subsystem)
        ensures
            r == self,
    {
        self
    }
}

} // verus!

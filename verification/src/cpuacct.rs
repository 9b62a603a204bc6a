//! The `cpuacct` subsystem: accounts of the CPU time that the tasks of a control
//! group have used.
use vstd::prelude::*;
use crate::apply::{Plan, PlanView};
use crate::controller::{
    controller_name, counter_in, no_plan, trimmed_in, write_in, write_view, ControllIdentifier,
    ControllerInternal, Controllers,
};
use crate::error::Error;
use crate::fs::{FileWrite, Snapshot};
use crate::path::{join, join_spec};
use crate::resources::Resources;
use crate::subsystem::Subsystem;

verus! {

/// A controller that allows controlling the `cpuacct` subsystem of a Cgroup.
///
/// In essence, this control group provides accounting (hence the name `cpuacct`) for CPU usage of
/// the tasks in the control group.
#[derive(Debug)]
pub struct CpuAcctController {
    base: String,
    path: String,
}

/// Represents the statistics retrieved from the control group.
#[derive(Debug)]
pub struct CpuAcct {
    /// Divides the time used by the tasks into `user` time and `system` time.
    pub stat: String,
    /// Total CPU time (in nanoseconds) spent by the tasks.
    pub usage: u64,
    /// Total CPU time (in nanoseconds) spent by the tasks, broken down by CPU and by whether the
    /// time spent is `user` time or `system` time.
    ///
    /// An example is as follows:
    /// ```text
    /// cpu user system
    /// 0 8348363768 0
    /// 1 8324369100 0
    /// 2 8598185449 0
    /// 3 8648262473 0
    /// ```
    pub usage_all: String,
    /// CPU time (in nanoseconds) spent by the tasks, broken down by each CPU.
    /// Times spent in each CPU are separated by a space.
    pub usage_percpu: String,
    /// As for `usage_percpu`, but the `system` time spent.
    pub usage_percpu_sys: String,
    /// As for `usage_percpu`, but the `user` time spent.
    pub usage_percpu_user: String,
    /// CPU time (in nanoseconds) spent by the tasks that counted for `system` time.
    pub usage_sys: u64,
    /// CPU time (in nanoseconds) spent by the tasks that counted for `user` time.
    pub usage_user: u64,
}

impl ControllerInternal for CpuAcctController {
    closed spec fn base_spec(&self) -> Seq<char> {
        self.base@
    }

    closed spec fn path_spec(&self) -> Seq<char> {
        self.path@
    }

    open spec fn kind_spec(&self) -> Controllers {
        Controllers::CpuAcct
    }

    open spec fn plan_spec(&self, res: &Resources) -> PlanView {
        no_plan()
    }

    fn apply(&self, res: &Resources) -> (p: Plan) {
        Plan::new()
    }

    fn control_type(&self) -> (r: Controllers) {
        Controllers::CpuAcct
    }

    fn get_path(&self) -> (r: &String) {
        &self.path
    }

    fn get_base(&self) -> (r: &String) {
        &self.base
    }

    fn scoped_to(&self, name: &str) -> (r: Self) {
        CpuAcctController { base: self.base.clone(), path: join(self.path.as_str(), name) }
    }
}

impl Clone for CpuAcctController {
    fn clone(&self) -> (r: Self)
        ensures
            r == *self,
    {
        CpuAcctController { base: self.base.clone(), path: self.path.clone() }
    }
}

impl ControllIdentifier for CpuAcctController {
    open spec fn type_spec() -> Controllers {
        Controllers::CpuAcct
    }

    open spec fn held_by(sub: &Subsystem) -> Option<Self> {
        match sub {
            Subsystem::CpuAcct(c) => Some(*c),
            _ => None,
        }
    }

    fn controller_type() -> (r: Controllers) {
        Controllers::CpuAcct
    }

    fn of(sub: &Subsystem) -> (r: Option<&Self>) {
        match sub {
            Subsystem::CpuAcct(c) => Some(c),
            _ => None,
        }
    }
}

impl CpuAcctController {
    /// Constructs a new `CpuAcctController` with `oroot` serving as the root of the control group.
    pub fn new(oroot: String) -> (r: Self)
        ensures
            r.base_spec() == join_spec(oroot@, controller_name(Controllers::CpuAcct)),
            r.path_spec() == r.base_spec(),
    {
        let root = join(oroot.as_str(), Controllers::CpuAcct.to_string().as_str());
        CpuAcctController { base: root.clone(), path: root }
    }

    /// Gathers the statistics that are available in the control group into a `CpuAcct` structure.
    /// A file that cannot be had leaves its field empty, or at zero.
    pub fn cpuacct(&self, fs: &Snapshot) -> (r: CpuAcct)
        ensures
            r.stat@ == trimmed_in(self, fs, "cpuacct.stat"@),
            r.usage == counter_in(self, fs, "cpuacct.usage"@),
            r.usage_all@ == trimmed_in(self, fs, "cpuacct.usage_all"@),
            r.usage_percpu@ == trimmed_in(self, fs, "cpuacct.usage_percpu"@),
            r.usage_percpu_sys@ == trimmed_in(self, fs, "cpuacct.usage_percpu_sys"@),
            r.usage_percpu_user@ == trimmed_in(self, fs, "cpuacct.usage_percpu_user"@),
            r.usage_sys == counter_in(self, fs, "cpuacct.usage_sys"@),
            r.usage_user == counter_in(self, fs, "cpuacct.usage_user"@),
    {
        CpuAcct {
            stat: self.read_trimmed_or_empty(fs, "cpuacct.stat"),
            usage: self.read_number_or_zero(fs, "cpuacct.usage"),
            usage_all: self.read_trimmed_or_empty(fs, "cpuacct.usage_all"),
            usage_percpu: self.read_trimmed_or_empty(fs, "cpuacct.usage_percpu"),
            usage_percpu_sys: self.read_trimmed_or_empty(fs, "cpuacct.usage_percpu_sys"),
            usage_percpu_user: self.read_trimmed_or_empty(fs, "cpuacct.usage_percpu_user"),
            usage_sys: self.read_number_or_zero(fs, "cpuacct.usage_sys"),
            usage_user: self.read_number_or_zero(fs, "cpuacct.usage_user"),
        }
    }

    /// Reset the statistics the kernel has gathered about the control group.
    pub fn reset(&self) -> (r: Result<FileWrite, Error>)
        ensures
            write_view(r) == write_in(self, "cpuacct.usage"@, "0"@),
            crate::error::bare(r),
    {
        self.write_to("cpuacct.usage", String::from_str("0"))
    }
}

} // verus!

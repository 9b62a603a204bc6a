//! The `cpu` subsystem: how much CPU time the tasks of a control group get.
use vstd::prelude::*;
use crate::apply::{number_step, steps_view, text_step, ApplyStep, Plan, PlanView, Step};
use crate::controller::{
    controller_name, no_plan, number_in, plan_in, plan_of, text_in, write_in, write_view,
    ControllIdentifier, ControllerInternal, Controllers,
};
use crate::error::Error;
use crate::fs::{FileWrite, Snapshot};
use crate::path::{join, join_spec};
use crate::resources::{CpuResources, Resources};
use crate::subsystem::Subsystem;
use crate::text::{
    decimal, i64_to_string, push_decimal, push_str, signed_decimal, to_text, u64_to_string,
};

verus! {

/// A controller that allows controlling the `cpu` subsystem of a Cgroup.
///
/// In essence, it allows gathering information about how much the tasks inside the control group
/// are using the CPU and creating rules that limit their usage. Note that this crate does not yet
/// support managing realtime tasks.
#[derive(Debug)]
pub struct CpuController {
    base: String,
    path: String,
    v2: bool,
}

/// The current state of the control group and its processes.
#[derive(Debug)]
pub struct Cpu {
    /// Reports CPU time statistics.
    ///
    /// Corresponds the `cpu.stat` file in `cpu` control group.
    pub stat: String,
}

/// The file that holds the share of CPU time: `cpu.weight` in the unified
/// hierarchy, `cpu.shares` else.
pub open spec fn shares_file(v2: bool) -> Seq<char> {
    if v2 {
        "cpu.weight"@
    } else {
        "cpu.shares"@
    }
}

/// The unsigned number with the same 64 bits as `q`.
pub open spec fn as_unsigned(q: i64) -> u64 {
    if q >= 0 {
        q as u64
    } else {
        (q + 0x1_0000_0000_0000_0000) as u64
    }
}

/// The text that sets quota and period in the unified hierarchy: the quota, or
/// `max` for none (`0`), then the period, or `100000` where none is given (`0`).
pub open spec fn max_line(quota: u64, period: u64) -> Seq<char> {
    (if quota > 0 {
        decimal(quota as nat)
    } else {
        "max"@
    }).push(' ') + decimal(
        if period == 0 {
            100000nat
        } else {
            period as nat
        },
    )
}

/// The settings that give a control group the quota `quota` in each period
/// `period`: two files in the first hierarchy, the quota first, and one in the
/// unified hierarchy.
pub open spec fn quota_settings(v2: bool, quota: u64, period: u64) -> Seq<Step> {
    if v2 {
        seq![text_step("cpu.max"@, max_line(quota, period))]
    } else {
        seq![
            number_step("cpu.cfs_quota_us"@, quota, false),
            number_step("cpu.cfs_period_us"@, period, false),
        ]
    }
}

/// The settings that the CPU section `c` asks of the `cpu` subsystem, in the
/// order in which they are made: shares, period, quota. Each is checked: the
/// file has to spell the value afterwards.
pub open spec fn cpu_settings(v2: bool, c: CpuResources) -> Seq<Step> {
    seq![
        number_step(shares_file(v2), c.shares, true),
        number_step("cpu.cfs_period_us"@, c.period, true),
        number_step("cpu.cfs_quota_us"@, as_unsigned(c.quota), true),
    ]
}

/// The unsigned number with the same 64 bits as `q`.
pub fn to_unsigned(q: i64) -> (r: u64)
    ensures
        r == as_unsigned(q),
{
    if q >= 0 {
        q as u64
    } else {
        u64::MAX - ((-(q + 1)) as u64)
    }
}

impl ControllerInternal for CpuController {
    closed spec fn base_spec(&self) -> Seq<char> {
        self.base@
    }

    closed spec fn path_spec(&self) -> Seq<char> {
        self.path@
    }

    open spec fn kind_spec(&self) -> Controllers {
        Controllers::Cpu
    }

    open spec fn plan_spec(&self, res: &Resources) -> PlanView {
        if res.cpu.update_values {
            plan_of(self.base_spec(), self.path_spec(), cpu_settings(self.v2_spec(), res.cpu))
        } else {
            no_plan()
        }
    }

    fn apply(&self, res: &Resources) -> (p: Plan) {
        let c = &res.cpu;
        if !c.update_values {
            return Plan::new();
        }
        let mut settings: Vec<ApplyStep> = Vec::new();
        if self.v2 {
            settings.push(ApplyStep::number("cpu.weight", c.shares, true));
        } else {
            settings.push(ApplyStep::number("cpu.shares", c.shares, true));
        }
        settings.push(ApplyStep::number("cpu.cfs_period_us", c.period, true));
        settings.push(ApplyStep::number("cpu.cfs_quota_us", to_unsigned(c.quota), true));
        assert(steps_view(settings@) =~= cpu_settings(self.v2_spec(), res.cpu));
        self.plan_for(settings)
    }

    fn control_type(&self) -> (r: Controllers) {
        Controllers::Cpu
    }

    fn get_path(&self) -> (r: &String) {
        &self.path
    }

    fn get_base(&self) -> (r: &String) {
        &self.base
    }

    fn scoped_to(&self, name: &str) -> (r: Self)
        ensures
            r.v2_spec() == self.v2_spec(),
    {
        CpuController {
            base: self.base.clone(),
            path: join(self.path.as_str(), name),
            v2: self.v2,
        }
    }
}

impl Clone for CpuController {
    fn clone(&self) -> (r: Self)
        ensures
            r == *self,
    {
        CpuController { base: self.base.clone(), path: self.path.clone(), v2: self.v2 }
    }
}

impl ControllIdentifier for CpuController {
    open spec fn type_spec() -> Controllers {
        Controllers::Cpu
    }

    open spec fn held_by(sub: &Subsystem) -> Option<Self> {
        match sub {
            Subsystem::Cpu(c) => Some(*c),
            _ => None,
        }
    }

    fn controller_type() -> (r: Controllers) {
        Controllers::Cpu
    }

    fn of(sub: &Subsystem) -> (r: Option<&Self>) {
        match sub {
            Subsystem::Cpu(c) => Some(c),
            _ => None,
        }
    }
}

impl CpuController {
    /// Whether this controller belongs to the unified hierarchy.
    pub closed spec fn v2_spec(&self) -> bool {
        self.v2
    }

    /// Contructs a new `CpuController` with `oroot` serving as the root of the control group.
    /// In the unified hierarchy (`v2`) the subsystem has no directory of its own.
    pub fn new(oroot: String, v2: bool) -> (r: Self)
        ensures
            r.base_spec() == (if v2 {
                oroot@
            } else {
                join_spec(oroot@, controller_name(Controllers::Cpu))
            }),
            r.path_spec() == r.base_spec(),
            r.v2_spec() == v2,
    {
        let root = if v2 {
            oroot
        } else {
            join(oroot.as_str(), Controllers::Cpu.to_string().as_str())
        };
        CpuController { base: root.clone(), path: root, v2 }
    }

    /// Returns CPU time statistics based on the processes in the control group: the text of
    /// `cpu.stat`, or nothing where it cannot be had.
    pub fn cpu(&self, fs: &Snapshot) -> (r: Cpu)
        ensures
            r.stat@ == (match text_in(self, fs, "cpu.stat"@) {
                Ok(t) => t,
                Err(_) => Seq::<char>::empty(),
            }),
    {
        Cpu {
            stat: match self.read_file(fs, "cpu.stat") {
                Ok(t) => t,
                Err(_) => String::new(),
            },
        }
    }

    /// Configures the CPU bandwidth (in relative relation to other control groups and this control
    /// group's parent).
    ///
    /// For example, setting control group `A`'s `shares` to `100`, and control group `B`'s
    /// `shares` to `200` ensures that control group `B` receives twice as much as CPU bandwidth.
    /// (Assuming both `A` and `B` are of the same parent)
    pub fn set_shares(&self, shares: u64) -> (r: Result<FileWrite, Error>)
        ensures
            write_view(r) == write_in(self, shares_file(self.v2_spec()), decimal(shares as nat)),
            crate::error::bare(r),
    {
        if self.v2 {
            self.write_to("cpu.weight", u64_to_string(shares))
        } else {
            self.write_to("cpu.shares", u64_to_string(shares))
        }
    }

    /// Retrieve the CPU bandwidth that this control group (relative to other control groups and
    /// this control group's parent) can use.
    pub fn shares(&self, fs: &Snapshot) -> (r: Result<u64, Error>)
        ensures
            crate::error::by_kind(r) == number_in(self, fs, shares_file(self.v2_spec())),
            crate::error::bare(r),
    {
        if self.v2 {
            self.read_number(fs, "cpu.weight")
        } else {
            self.read_number(fs, "cpu.shares")
        }
    }

    /// Specify a period (when using the CFS scheduler) of time in microseconds for how often this
    /// control group's access to the CPU should be reallocated.
    pub fn set_cfs_period(&self, us: u64) -> (r: Result<FileWrite, Error>)
        ensures
            write_view(r) == write_in(self, "cpu.cfs_period_us"@, decimal(us as nat)),
            crate::error::bare(r),
    {
        self.write_to("cpu.cfs_period_us", u64_to_string(us))
    }

    /// Retrieve the period of time of how often this cgroup's access to the CPU should be
    /// reallocated in microseconds.
    pub fn cfs_period(&self, fs: &Snapshot) -> (r: Result<u64, Error>)
        ensures
            crate::error::by_kind(r) == number_in(self, fs, "cpu.cfs_period_us"@),
            crate::error::bare(r),
    {
        self.read_number(fs, "cpu.cfs_period_us")
    }

    /// Specify a quota (when using the CFS scheduler) of time in microseconds for which all tasks
    /// in this control group can run during one period (see: `set_cfs_period()`).
    pub fn set_cfs_quota(&self, us: u64) -> (r: Result<FileWrite, Error>)
        ensures
            write_view(r) == write_in(self, "cpu.cfs_quota_us"@, decimal(us as nat)),
            crate::error::bare(r),
    {
        self.write_to("cpu.cfs_quota_us", u64_to_string(us))
    }

    /// Retrieve the quota of time for which all tasks in this cgroup can run during one period, in
    /// microseconds.
    pub fn cfs_quota(&self, fs: &Snapshot) -> (r: Result<u64, Error>)
        ensures
            crate::error::by_kind(r) == number_in(self, fs, "cpu.cfs_quota_us"@),
            crate::error::bare(r),
    {
        self.read_number(fs, "cpu.cfs_quota_us")
    }

    /// The plan that sets both the quota and the period. In the first hierarchy the quota is
    /// written first, and the period only once that has gone through.
    pub fn set_cfs_quota_and_period(&self, quota: u64, period: u64) -> (p: Plan)
        ensures
            p@ == plan_in(self, quota_settings(self.v2_spec(), quota, period)),
    {
        let mut settings: Vec<ApplyStep> = Vec::new();
        if !self.v2 {
            settings.push(ApplyStep::number("cpu.cfs_quota_us", quota, false));
            settings.push(ApplyStep::number("cpu.cfs_period_us", period, false));
        } else {
            let mut line: Vec<char> = Vec::new();
            if quota > 0 {
                push_decimal(&mut line, quota);
            } else {
                push_str(&mut line, "max");
            }
            line.push(' ');
            let p: u64 = if period == 0 {
                100000
            } else {
                period
            };
            push_decimal(&mut line, p);
            assert(line@ =~= max_line(quota, period));
            settings.push(ApplyStep::text("cpu.max", to_text(&line)));
        }
        assert(steps_view(settings@) =~= quota_settings(self.v2_spec(), quota, period));
        self.plan_for(settings)
    }

    /// Specify for how long in one period the realtime tasks of this control group may run, in
    /// microseconds.
    pub fn set_rt_runtime(&self, us: i64) -> (r: Result<FileWrite, Error>)
        ensures
            write_view(r) == write_in(self, "cpu.rt_runtime_us"@, signed_decimal(us as int)),
            crate::error::bare(r),
    {
        self.write_to("cpu.rt_runtime_us", i64_to_string(us))
    }

    /// Specify the period of the realtime tasks of this control group, in microseconds.
    pub fn set_rt_period_us(&self, us: u64) -> (r: Result<FileWrite, Error>)
        ensures
            write_view(r) == write_in(self, "cpu.rt_period_us"@, decimal(us as nat)),
            crate::error::bare(r),
    {
        self.write_to("cpu.rt_period_us", u64_to_string(us))
    }
}

} // verus!

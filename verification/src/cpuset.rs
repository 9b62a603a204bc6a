//! The `cpuset` subsystem: the CPUs and memory nodes that the tasks of a control
//! group may use.
use vstd::prelude::*;
use crate::apply::{steps_view, text_step, ApplyStep, Plan, PlanView, Step};
use crate::controller::{
    controller_name, counter_in, flag_in, no_plan, number_in, plan_of, read_string_from, text_in,
    write_in, write_view, ControllIdentifier, ControllerInternal, Controllers,
};
use crate::error::{Error, ErrorKind};
use crate::fs::{FileWrite, Snapshot};
use crate::path::{join, join_spec};
use crate::resources::{CpuResources, Resources};
use crate::subsystem::Subsystem;
use crate::text::{
    i64_to_string, parse_u64, parse_u64_spec, signed_decimal, split, split_spec, texts, to_chars,
    trim_spec,
};

verus! {

/// A controller that allows controlling the `cpuset` subsystem of a Cgroup.
///
/// In essence, this controller is responsible for restricting the tasks in the control group to a
/// set of CPUs and/or memory nodes.
#[derive(Debug)]
pub struct CpuSetController {
    base: String,
    path: String,
}

/// The current state of the `cpuset` controller for this control group.
#[derive(Debug)]
pub struct CpuSet {
    /// If true, no other control groups can share the CPUs listed in the `cpus` field.
    pub cpu_exclusive: bool,
    /// The list of CPUs the tasks of the control group can run on.
    ///
    /// This is a vector of `(start, end)` tuples, where each tuple is a range of CPUs where the
    /// control group is allowed to run on. Both sides of the range are inclusive.
    pub cpus: Vec<(u64, u64)>,
    /// The list of CPUs that the tasks can effectively run on. This removes the list of CPUs that
    /// the parent (and all of its parents) cannot run on from the `cpus` field of this control
    /// group.
    pub effective_cpus: Vec<(u64, u64)>,
    /// The list of memory nodes that the tasks can effectively use. This removes the list of nodes that
    /// the parent (and all of its parents) cannot use from the `mems` field of this control
    /// group.
    pub effective_mems: Vec<(u64, u64)>,
    /// If true, no other control groups can share the memory nodes listed in the `mems` field.
    pub mem_exclusive: bool,
    /// If true, the control group is 'hardwalled'. Kernel memory allocations (except for a few
    /// minor exceptions) are made from the memory nodes designated in the `mems` field.
    pub mem_hardwall: bool,
    /// If true, whenever `mems` is changed via `set_mems()`, the memory stored on the previous
    /// nodes are migrated to the new nodes selected by the new `mems`.
    pub memory_migrate: bool,
    /// Running average of the memory pressured faced by the tasks in the control group.
    pub memory_pressure: u64,
    /// This field is only at the root control group and controls whether the kernel will compute
    /// the memory pressure for control groups or not.
    pub memory_pressure_enabled: Option<bool>,
    /// If true, filesystem buffers are spread across evenly between the nodes specified in `mems`.
    pub memory_spread_page: bool,
    /// If true, kernel slab caches for file I/O are spread across evenly between the nodes
    /// specified in `mems`.
    pub memory_spread_slab: bool,
    /// The list of memory nodes the tasks of the control group can use.
    ///
    /// The format is the same as the `cpus`, `effective_cpus` and `effective_mems` fields.
    pub mems: Vec<(u64, u64)>,
    /// If true, the kernel will attempt to rebalance the load between the CPUs specified in the
    /// `cpus` field of this control group.
    pub sched_load_balance: bool,
    /// Represents how much work the kernel should do to rebalance this cpuset.
    ///
    /// | `sched_load_balance` | Effect |
    /// | -------------------- | ------ |
    /// |          -1          | Use the system default value |
    /// |           0          | Only balance loads periodically |
    /// |           1          | Immediately balance the load across tasks on the same core |
    /// |           2          | Immediately balance the load across cores in the same CPU package |
    /// |           4          | Immediately balance the load across CPUs on the same node |
    /// |           5          | Immediately balance the load between CPUs even if the system is NUMA |
    /// |           6          | Immediately balance the load between all CPUs |
    pub sched_relax_domain_level: u64,
}

/// The range that one item of a list spells: `n` is the range from `n` to `n`,
/// and `a-b` the range from `a` to `b`. Anything else spells no range.
pub open spec fn range_of(item: Seq<char>) -> Option<(u64, u64)> {
    let d = split_spec(item, '-', '-');
    if d.len() == 1 {
        match parse_u64_spec(d[0]) {
            Some(n) => Some((n, n)),
            None => None,
        }
    } else if d.len() == 2 {
        match (parse_u64_spec(d[0]), parse_u64_spec(d[1])) {
            (Some(a), Some(b)) => Some((a, b)),
            _ => None,
        }
    } else {
        None
    }
}

/// The ranges that `items` spell, in order, if each of them spells one.
pub open spec fn ranges_of(items: Seq<Seq<char>>) -> Option<Seq<(u64, u64)>>
    decreases items.len(),
{
    if items.len() == 0 {
        Some(Seq::<(u64, u64)>::empty())
    } else {
        match (ranges_of(items.drop_last()), range_of(items.last())) {
            (Some(rest), Some(r)) => Some(rest.push(r)),
            _ => None,
        }
    }
}

/// The ranges that a list like `1,2,4-5,8` spells: the ranges of its items
/// between commas. The empty text spells the empty list.
pub open spec fn parse_range_spec(s: Seq<char>) -> Option<Seq<(u64, u64)>> {
    if s.len() == 0 {
        Some(Seq::<(u64, u64)>::empty())
    } else {
        ranges_of(split_spec(s, ',', ','))
    }
}

/// The ranges that a file spells, or none where the file cannot be had or
/// spells no list.
pub open spec fn ranges_or_empty(file: Result<Seq<char>, ErrorKind>) -> Seq<(u64, u64)> {
    match file {
        Ok(t) => match parse_range_spec(trim_spec(t)) {
            Some(v) => v,
            None => Seq::<(u64, u64)>::empty(),
        },
        Err(_) => Seq::<(u64, u64)>::empty(),
    }
}

/// The text that the kernel takes for a flag.
pub open spec fn flag_text(b: bool) -> Seq<char> {
    if b {
        "1"@
    } else {
        "0"@
    }
}

/// The settings that the CPU section `c` asks of the `cpuset` subsystem: the
/// list of CPUs, then the list of memory nodes, both as given.
pub open spec fn cpuset_settings(c: CpuResources) -> Seq<Step> {
    seq![text_step("cpuset.cpus"@, c.cpus@), text_step("cpuset.mems"@, c.mems@)]
}

/// The range that one item of a list spells.
fn parse_range_item(item: &Vec<char>) -> (r: Option<(u64, u64)>)
    ensures
        r == range_of(item@),
{
    let d = split(item, '-', '-');
    let ghost ds = split_spec(item@, '-', '-');
    assert(ds[0] == d[0]@);
    if d.len() == 1 {
        match parse_u64(&d[0]) {
            Some(n) => Some((n, n)),
            None => None,
        }
    } else if d.len() == 2 {
        assert(ds[1] == d[1]@);
        match (parse_u64(&d[0]), parse_u64(&d[1])) {
            (Some(a), Some(b)) => Some((a, b)),
            _ => None,
        }
    } else {
        None
    }
}

/// Parse a string like "1,2,4-5,8" into a list of (start, end) tuples.
pub fn parse_range(s: String) -> (r: Result<Vec<(u64, u64)>, Error>)
    ensures
        match r {
            Ok(v) => parse_range_spec(s@) == Some(v@),
            Err(e) => parse_range_spec(s@) is None && e.kind_spec() == ErrorKind::ParseError,
        },
        crate::error::bare(r),
{
    let chars = to_chars(s.as_str());
    let mut fin: Vec<(u64, u64)> = Vec::new();
    if chars.len() == 0 {
        return Ok(fin);
    }
    let items = split(&chars, ',', ',');
    let ghost it = texts(items@);
    let mut ok = true;
    let mut i: usize = 0;
    assert(it.take(0) =~= Seq::<Seq<char>>::empty());
    while i < items.len()
        invariant
            i <= items.len(),
            it == texts(items@),
            ok ==> ranges_of(it.take(i as int)) == Some(fin@),
            !ok ==> ranges_of(it.take(i as int)) is None,
        decreases items.len() - i,
    {
        assert(it.take(i as int + 1).drop_last() =~= it.take(i as int));
        assert(it.take(i as int + 1).last() == items[i as int]@);
        match parse_range_item(&items[i]) {
            Some(r) => {
                if ok {
                    fin.push(r);
                }
            },
            None => {
                ok = false;
            },
        }
        i += 1;
    }
    assert(it.take(items.len() as int) =~= it);
    if ok {
        Ok(fin)
    } else {
        Err(Error::new(ErrorKind::ParseError))
    }
}

impl ControllerInternal for CpuSetController {
    closed spec fn base_spec(&self) -> Seq<char> {
        self.base@
    }

    closed spec fn path_spec(&self) -> Seq<char> {
        self.path@
    }

    open spec fn kind_spec(&self) -> Controllers {
        Controllers::CpuSet
    }

    open spec fn plan_spec(&self, res: &Resources) -> PlanView {
        if res.cpu.update_values {
            plan_of(self.base_spec(), self.path_spec(), cpuset_settings(res.cpu))
        } else {
            no_plan()
        }
    }

    fn apply(&self, res: &Resources) -> (p: Plan) {
        let c = &res.cpu;
        if !c.update_values {
            return Plan::new();
        }
        let mut settings: Vec<ApplyStep> = Vec::new();
        settings.push(ApplyStep::text("cpuset.cpus", c.cpus.clone()));
        settings.push(ApplyStep::text("cpuset.mems", c.mems.clone()));
        assert(steps_view(settings@) =~= cpuset_settings(res.cpu));
        self.plan_for(settings)
    }

    fn control_type(&self) -> (r: Controllers) {
        Controllers::CpuSet
    }

    fn get_path(&self) -> (r: &String) {
        &self.path
    }

    fn get_base(&self) -> (r: &String) {
        &self.base
    }

    fn scoped_to(&self, name: &str) -> (r: Self) {
        CpuSetController { base: self.base.clone(), path: join(self.path.as_str(), name) }
    }
}

impl Clone for CpuSetController {
    fn clone(&self) -> (r: Self)
        ensures
            r == *self,
    {
        CpuSetController { base: self.base.clone(), path: self.path.clone() }
    }
}

impl ControllIdentifier for CpuSetController {
    open spec fn type_spec() -> Controllers {
        Controllers::CpuSet
    }

    open spec fn held_by(sub: &Subsystem) -> Option<Self> {
        match sub {
            Subsystem::CpuSet(c) => Some(*c),
            _ => None,
        }
    }

    fn controller_type() -> (r: Controllers) {
        Controllers::CpuSet
    }

    fn of(sub: &Subsystem) -> (r: Option<&Self>) {
        match sub {
            Subsystem::CpuSet(c) => Some(c),
            _ => None,
        }
    }
}

impl CpuSetController {
    /// Constructs a new `CpuSetController` with `oroot` serving as the root of the control group.
    pub fn new(oroot: String) -> (r: Self)
        ensures
            r.base_spec() == join_spec(oroot@, controller_name(Controllers::CpuSet)),
            r.path_spec() == r.base_spec(),
    {
        let root = join(oroot.as_str(), Controllers::CpuSet.to_string().as_str());
        CpuSetController { base: root.clone(), path: root }
    }

    /// The list of ranges that the file `name` spells, or none where the file
    /// cannot be had or spells no list.
    fn read_ranges(&self, fs: &Snapshot, name: &str) -> (r: Vec<(u64, u64)>)
        ensures
            r@ == ranges_or_empty(text_in(self, fs, name@)),
    {
        match self.read_file(fs, name) {
            Ok(t) => match parse_range(read_string_from(t.as_str())) {
                Ok(v) => v,
                Err(_) => Vec::new(),
            },
            Err(_) => Vec::new(),
        }
    }

    /// Returns the statistics gathered by the kernel for this control group. See the struct for
    /// more information on what information this entails. A file that cannot be had, or that
    /// does not read as it should, leaves its field unset, at zero or empty.
    pub fn cpuset(&self, fs: &Snapshot) -> (r: CpuSet)
        ensures
            r.cpu_exclusive == flag_in(self, fs, "cpuset.cpu_exclusive"@),
            r.cpus@ == ranges_or_empty(text_in(self, fs, "cpuset.cpus"@)),
            r.effective_cpus@ == ranges_or_empty(text_in(self, fs, "cpuset.effective_cpus"@)),
            r.effective_mems@ == ranges_or_empty(text_in(self, fs, "cpuset.effective_mems"@)),
            r.mem_exclusive == flag_in(self, fs, "cpuset.mem_exclusive"@),
            r.mem_hardwall == flag_in(self, fs, "cpuset.mem_hardwall"@),
            r.memory_migrate == flag_in(self, fs, "cpuset.memory_migrate"@),
            r.memory_pressure == counter_in(self, fs, "cpuset.memory_pressure"@),
            r.memory_pressure_enabled == (match number_in(
                self,
                fs,
                "cpuset.memory_pressure_enabled"@,
            ) {
                Ok(v) => Some(v == 1),
                Err(_) => None,
            }),
            r.memory_spread_page == flag_in(self, fs, "cpuset.memory_spread_page"@),
            r.memory_spread_slab == flag_in(self, fs, "cpuset.memory_spread_slab"@),
            r.mems@ == ranges_or_empty(text_in(self, fs, "cpuset.mems"@)),
            r.sched_load_balance == flag_in(self, fs, "cpuset.sched_load_balance"@),
            r.sched_relax_domain_level == counter_in(self, fs, "cpuset.sched_relax_domain_level"@),
    {
        CpuSet {
            cpu_exclusive: self.read_flag(fs, "cpuset.cpu_exclusive"),
            cpus: self.read_ranges(fs, "cpuset.cpus"),
            effective_cpus: self.read_ranges(fs, "cpuset.effective_cpus"),
            effective_mems: self.read_ranges(fs, "cpuset.effective_mems"),
            mem_exclusive: self.read_flag(fs, "cpuset.mem_exclusive"),
            mem_hardwall: self.read_flag(fs, "cpuset.mem_hardwall"),
            memory_migrate: self.read_flag(fs, "cpuset.memory_migrate"),
            memory_pressure: self.read_number_or_zero(fs, "cpuset.memory_pressure"),
            memory_pressure_enabled: match self.read_number(fs, "cpuset.memory_pressure_enabled") {
                Ok(v) => Some(v == 1),
                Err(_) => None,
            },
            memory_spread_page: self.read_flag(fs, "cpuset.memory_spread_page"),
            memory_spread_slab: self.read_flag(fs, "cpuset.memory_spread_slab"),
            mems: self.read_ranges(fs, "cpuset.mems"),
            sched_load_balance: self.read_flag(fs, "cpuset.sched_load_balance"),
            sched_relax_domain_level: self.read_number_or_zero(
                fs,
                "cpuset.sched_relax_domain_level",
            ),
        }
    }

    /// The write that sets the flag in the file `name` to `b`.
    fn write_flag(&self, name: &str, b: bool) -> (r: Result<FileWrite, Error>)
        ensures
            write_view(r) == write_in(self, name@, flag_text(b)),
            crate::error::bare(r),
    {
        if b {
            self.write_to(name, String::from_str("1"))
        } else {
            self.write_to(name, String::from_str("0"))
        }
    }

    /// Control whether the CPUs selected via `set_cpus()` should be exclusive to this control
    /// group or not.
    pub fn set_cpu_exclusive(&self, b: bool) -> (r: Result<FileWrite, Error>)
        ensures
            write_view(r) == write_in(self, "cpuset.cpu_exclusive"@, flag_text(b)),
            crate::error::bare(r),
    {
        self.write_flag("cpuset.cpu_exclusive", b)
    }

    /// Control whether the memory nodes selected via `set_mems()` should be exclusive to this control
    /// group or not.
    pub fn set_mem_exclusive(&self, b: bool) -> (r: Result<FileWrite, Error>)
        ensures
            write_view(r) == write_in(self, "cpuset.mem_exclusive"@, flag_text(b)),
            crate::error::bare(r),
    {
        self.write_flag("cpuset.mem_exclusive", b)
    }

    /// Controls whether the control group should be "hardwalled", i.e., whether kernel allocations
    /// should exclusively use the memory nodes set via `set_mems()`.
    pub fn set_hardwall(&self, b: bool) -> (r: Result<FileWrite, Error>)
        ensures
            write_view(r) == write_in(self, "cpuset.mem_hardwall"@, flag_text(b)),
            crate::error::bare(r),
    {
        self.write_flag("cpuset.mem_hardwall", b)
    }

    /// Controls whether the kernel should attempt to rebalance the load between the CPUs specified in the
    /// `cpus` field of this control group.
    pub fn set_load_balancing(&self, b: bool) -> (r: Result<FileWrite, Error>)
        ensures
            write_view(r) == write_in(self, "cpuset.sched_load_balance"@, flag_text(b)),
            crate::error::bare(r),
    {
        self.write_flag("cpuset.sched_load_balance", b)
    }

    /// Control whether when using `set_mems()` the existing memory used by the tasks should be
    /// migrated over to the now-selected nodes.
    pub fn set_memory_migration(&self, b: bool) -> (r: Result<FileWrite, Error>)
        ensures
            write_view(r) == write_in(self, "cpuset.memory_migrate"@, flag_text(b)),
            crate::error::bare(r),
    {
        self.write_flag("cpuset.memory_migrate", b)
    }

    /// Control whether filesystem buffers should be evenly split across the nodes selected via
    /// `set_mems()`.
    pub fn set_memory_spread_page(&self, b: bool) -> (r: Result<FileWrite, Error>)
        ensures
            write_view(r) == write_in(self, "cpuset.memory_spread_page"@, flag_text(b)),
            crate::error::bare(r),
    {
        self.write_flag("cpuset.memory_spread_page", b)
    }

    /// Control whether the kernel's slab cache for file I/O should be evenly split across the
    /// nodes selected via `set_mems()`.
    pub fn set_memory_spread_slab(&self, b: bool) -> (r: Result<FileWrite, Error>)
        ensures
            write_view(r) == write_in(self, "cpuset.memory_spread_slab"@, flag_text(b)),
            crate::error::bare(r),
    {
        self.write_flag("cpuset.memory_spread_slab", b)
    }

    /// Set the CPUs that the tasks in this control group can run on.
    ///
    /// Syntax is a comma separated list of CPUs, with an additional extension that ranges can
    /// be represented via dashes.
    pub fn set_cpus(&self, cpus: &str) -> (r: Result<FileWrite, Error>)
        ensures
            write_view(r) == write_in(self, "cpuset.cpus"@, cpus@),
            crate::error::bare(r),
    {
        self.write_to("cpuset.cpus", String::from_str(cpus))
    }

    /// Set the memory nodes that the tasks in this control group can use.
    ///
    /// Syntax is the same as with `set_cpus()`.
    pub fn set_mems(&self, mems: &str) -> (r: Result<FileWrite, Error>)
        ensures
            write_view(r) == write_in(self, "cpuset.mems"@, mems@),
            crate::error::bare(r),
    {
        self.write_to("cpuset.mems", String::from_str(mems))
    }

    /// Contorl how much effort the kernel should invest in rebalacing the control group.
    ///
    /// See @CpuSet 's similar field for more information.
    pub fn set_rebalance_relax_domain_level(&self, i: i64) -> (r: Result<FileWrite, Error>)
        ensures
            write_view(r) == write_in(
                self,
                "cpuset.sched_relax_domain_level"@,
                signed_decimal(i as int),
            ),
            crate::error::bare(r),
    {
        self.write_to("cpuset.sched_relax_domain_level", i64_to_string(i))
    }

    /// Control whether the kernel should collect information to calculate memory pressure for
    /// control groups.
    ///
    /// Only the root control group has the file that switches this. In any other group, that
    /// is wherever `cpuset.memory_pressure_enabled` cannot be seen in `fs`, this fails with
    /// `InvalidOperation`.
    pub fn set_enable_memory_pressure(&self, fs: &Snapshot, b: bool) -> (r: Result<
        FileWrite,
        Error,
    >)
        ensures
            write_view(r) == (if text_in(self, fs, "cpuset.memory_pressure_enabled"@) is Ok {
                write_in(self, "cpuset.memory_pressure_enabled"@, flag_text(b))
            } else {
                Err(ErrorKind::InvalidOperation)
            }),
            crate::error::bare(r),
    {
        if !self.path_exists(fs, "cpuset.memory_pressure_enabled") {
            return Err(Error::new(ErrorKind::InvalidOperation));
        }
        self.write_flag("cpuset.memory_pressure_enabled", b)
    }
}

} // verus!

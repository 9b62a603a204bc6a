//! What every controller of a subsystem can do.
//!
//! A controller stands for the directory of one control group below the
//! directory of one subsystem. It knows two paths: `base`, the directory of the
//! subsystem, fixed when the controller is made, and `path`, the directory of
//! the group. Before a controller names any file it checks that `path` still
//! lies below `base`.
use vstd::prelude::*;
use crate::apply::{steps_view, ApplyStep, Plan, PlanView, Step};
use crate::error::{Error, ErrorKind};
use crate::fs::{FileWrite, OpenFile, Snapshot};
use crate::path::{below, join, join_spec, starts_with};
use crate::resources::{CgroupPid, Resources};
use crate::subsystem::Subsystem;
use crate::text::{
    decimal, lines, lines_spec, parse_u64, parse_u64_spec, texts, to_chars, to_text, trim,
    trim_spec, u64_to_string,
};

verus! {

/// The subsystems that a controller can belong to.
#[derive(Debug, Clone, Copy, PartialEq, Eq, Structural)]
pub enum Controllers {
    /// Limits the number of tasks.
    Pids,
    /// Limits and accounts for memory.
    Mem,
    /// Assigns CPUs and memory nodes.
    CpuSet,
    /// Accounts for CPU time.
    CpuAcct,
    /// Shares out CPU time.
    Cpu,
    /// Allows and denies access to devices.
    Devices,
    /// Stops and resumes tasks.
    Freezer,
    /// Tags network packets with a class.
    NetCls,
    /// Weighs and throttles block I/O.
    BlkIo,
    /// Groups tasks for performance monitoring.
    PerfEvent,
    /// Sets the priority of network traffic.
    NetPrio,
    /// Limits memory backed by huge pages.
    HugeTlb,
    /// Limits RDMA resources.
    Rdma,
}

/// The name of the directory that the kernel gives to each subsystem.
pub open spec fn controller_name(c: Controllers) -> Seq<char> {
    match c {
        Controllers::Pids => "pids"@,
        Controllers::Mem => "memory"@,
        Controllers::CpuSet => "cpuset"@,
        Controllers::CpuAcct => "cpuacct"@,
        Controllers::Cpu => "cpu"@,
        Controllers::Devices => "devices"@,
        Controllers::Freezer => "freezer"@,
        Controllers::NetCls => "net_cls"@,
        Controllers::BlkIo => "blkio"@,
        Controllers::PerfEvent => "perf_event"@,
        Controllers::NetPrio => "net_prio"@,
        Controllers::HugeTlb => "hugetlb"@,
        Controllers::Rdma => "rdma"@,
    }
}

impl Controllers {
    /// The name of the directory that the kernel gives to this subsystem.
    pub fn to_string(&self) -> (s: String)
        ensures
            s@ == controller_name(*self),
    {
        match self {
            Controllers::Pids => String::from_str("pids"),
            Controllers::Mem => String::from_str("memory"),
            Controllers::CpuSet => String::from_str("cpuset"),
            Controllers::CpuAcct => String::from_str("cpuacct"),
            Controllers::Cpu => String::from_str("cpu"),
            Controllers::Devices => String::from_str("devices"),
            Controllers::Freezer => String::from_str("freezer"),
            Controllers::NetCls => String::from_str("net_cls"),
            Controllers::BlkIo => String::from_str("blkio"),
            Controllers::PerfEvent => String::from_str("perf_event"),
            Controllers::NetPrio => String::from_str("net_prio"),
            Controllers::HugeTlb => String::from_str("hugetlb"),
            Controllers::Rdma => String::from_str("rdma"),
        }
    }
}

/// The text of the file `name` in the directory `path`, as a controller with
/// the base directory `base` sees it in `files`.
pub open spec fn file_text(
    base: Seq<char>,
    path: Seq<char>,
    files: Map<Seq<char>, Seq<char>>,
    name: Seq<char>,
) -> Result<Seq<char>, ErrorKind> {
    if !below(path, base) {
        Err(ErrorKind::InvalidPath)
    } else if files.contains_key(join_spec(path, name)) {
        Ok(files[join_spec(path, name)])
    } else {
        Err(ErrorKind::ReadFailed)
    }
}

/// The number that the text of a file spells once the white space around it is cut.
pub open spec fn number_of(text: Seq<char>) -> Result<u64, ErrorKind> {
    match parse_u64_spec(trim_spec(text)) {
        Some(v) => Ok(v),
        None => Err(ErrorKind::ParseError),
    }
}

/// The number that the file `name` spells.
pub open spec fn file_number(
    base: Seq<char>,
    path: Seq<char>,
    files: Map<Seq<char>, Seq<char>>,
    name: Seq<char>,
) -> Result<u64, ErrorKind> {
    match file_text(base, path, files, name) {
        Ok(t) => number_of(t),
        Err(k) => Err(k),
    }
}

/// The number that the file `name` spells, or `0` where it cannot be had.
pub open spec fn file_number_or_zero(
    base: Seq<char>,
    path: Seq<char>,
    files: Map<Seq<char>, Seq<char>>,
    name: Seq<char>,
) -> u64 {
    match file_number(base, path, files, name) {
        Ok(v) => v,
        Err(_) => 0,
    }
}

/// Whether the file `name` spells the number one.
pub open spec fn file_flag(
    base: Seq<char>,
    path: Seq<char>,
    files: Map<Seq<char>, Seq<char>>,
    name: Seq<char>,
) -> bool {
    file_number(base, path, files, name) == Ok::<u64, ErrorKind>(1)
}

/// The text of the file `name` without the white space around it, or the empty
/// text where the file cannot be had.
pub open spec fn file_trimmed_or_empty(
    base: Seq<char>,
    path: Seq<char>,
    files: Map<Seq<char>, Seq<char>>,
    name: Seq<char>,
) -> Seq<char> {
    match file_text(base, path, files, name) {
        Ok(t) => trim_spec(t),
        Err(_) => Seq::<char>::empty(),
    }
}

/// The write of `data` to the file `name` in the directory `path`, as a
/// controller with the base directory `base` asks for it.
pub open spec fn write_spec(
    base: Seq<char>,
    path: Seq<char>,
    name: Seq<char>,
    data: Seq<char>,
) -> Result<(Seq<char>, Seq<char>), ErrorKind> {
    if below(path, base) {
        Ok((join_spec(path, name), data))
    } else {
        Err(ErrorKind::InvalidPath)
    }
}

/// A write as a plain value, or the kind of error in its place.
pub open spec fn write_view(r: Result<FileWrite, Error>) -> Result<
    (Seq<char>, Seq<char>),
    ErrorKind,
> {
    match r {
        Ok(w) => Ok((w.path@, w.data@)),
        Err(e) => Err(e.kind_spec()),
    }
}

/// The plan that carries out `settings` for a controller with the directories
/// `base` and `path`. The path of each setting names a file in `path`. Where
/// there is something to set and `path` has left `base`, the plan is refused
/// before anything is written.
pub open spec fn plan_of(base: Seq<char>, path: Seq<char>, settings: Seq<Step>) -> PlanView {
    if settings.len() == 0 {
        PlanView { steps: Seq::<Step>::empty(), refusal: None }
    } else if !below(path, base) {
        PlanView { steps: Seq::<Step>::empty(), refusal: Some(ErrorKind::InvalidPath) }
    } else {
        PlanView {
            steps: Seq::new(
                settings.len(),
                |i: int| Step { path: join_spec(path, settings[i].path), ..settings[i] },
            ),
            refusal: None,
        }
    }
}

/// The task that one line of a `tasks` file names. A line that spells no
/// number counts as task `0`.
pub open spec fn task_of_line(line: Seq<char>) -> CgroupPid {
    match parse_u64_spec(trim_spec(line)) {
        Some(v) => CgroupPid { pid: v },
        None => CgroupPid { pid: 0 },
    }
}

/// The tasks that the text of a `tasks` file lists, line by line.
pub open spec fn tasks_of_text(text: Seq<char>) -> Seq<CgroupPid> {
    let l = lines_spec(text);
    Seq::new(l.len(), |i: int| task_of_line(l[i]))
}

/// The text of the file `name` of the controller `c`, as seen in `fs`.
pub open spec fn text_in<C: ControllerInternal>(c: &C, fs: &Snapshot, name: Seq<char>) -> Result<
    Seq<char>,
    ErrorKind,
> {
    file_text(c.base_spec(), c.path_spec(), fs.files(), name)
}

/// The number that the file `name` of the controller `c` spells, as seen in `fs`.
pub open spec fn number_in<C: ControllerInternal>(c: &C, fs: &Snapshot, name: Seq<char>) -> Result<
    u64,
    ErrorKind,
> {
    file_number(c.base_spec(), c.path_spec(), fs.files(), name)
}

/// The number that the file `name` of the controller `c` spells, or `0` where it cannot be had.
pub open spec fn counter_in<C: ControllerInternal>(c: &C, fs: &Snapshot, name: Seq<char>) -> u64 {
    file_number_or_zero(c.base_spec(), c.path_spec(), fs.files(), name)
}

/// Whether the file `name` of the controller `c` spells the number one.
pub open spec fn flag_in<C: ControllerInternal>(c: &C, fs: &Snapshot, name: Seq<char>) -> bool {
    file_flag(c.base_spec(), c.path_spec(), fs.files(), name)
}

/// The text of the file `name` of the controller `c` without the white space
/// around it, or the empty text where the file cannot be had.
pub open spec fn trimmed_in<C: ControllerInternal>(
    c: &C,
    fs: &Snapshot,
    name: Seq<char>,
) -> Seq<char> {
    file_trimmed_or_empty(c.base_spec(), c.path_spec(), fs.files(), name)
}

/// The write of `data` to the file `name` of the controller `c`, or
/// `InvalidPath` where the controller's path has left its base directory.
pub open spec fn write_in<C: ControllerInternal>(c: &C, name: Seq<char>, data: Seq<char>) -> Result<
    (Seq<char>, Seq<char>),
    ErrorKind,
> {
    write_spec(c.base_spec(), c.path_spec(), name, data)
}

/// The plan that carries out `settings` for the controller `c`.
pub open spec fn plan_in<C: ControllerInternal>(c: &C, settings: Seq<Step>) -> PlanView {
    plan_of(c.base_spec(), c.path_spec(), settings)
}

/// The plan that does nothing and succeeds.
pub open spec fn no_plan() -> PlanView {
    PlanView { steps: Seq::<Step>::empty(), refusal: None }
}

/// The number that `content` spells once the white space around it is cut.
pub fn read_u64_from(content: &str) -> (r: Result<u64, Error>)
    ensures
        crate::error::by_kind(r) == number_of(content@),
        crate::error::bare(r),
{
    let t = trim(&to_chars(content));
    match parse_u64(&t) {
        Some(v) => Ok(v),
        None => Err(Error::new(ErrorKind::ParseError)),
    }
}

/// `content` without the white space around it.
pub fn read_string_from(content: &str) -> (r: String)
    ensures
        r@ == trim_spec(content@),
{
    let t = trim(&to_chars(content));
    to_text(&t)
}

/// The tasks that the text of a `tasks` file lists, line by line.
pub fn parse_tasks(content: &str) -> (r: Vec<CgroupPid>)
    ensures
        r@ == tasks_of_text(content@),
{
    let ls = lines(&to_chars(content));
    let ghost l = lines_spec(content@);
    let mut out: Vec<CgroupPid> = Vec::new();
    let mut i: usize = 0;
    while i < ls.len()
        invariant
            i <= ls.len(),
            texts(ls@) == l,
            out@ == Seq::new(i as nat, |k: int| task_of_line(l[k])),
        decreases ls.len() - i,
    {
        assert(l[i as int] == ls[i as int]@);
        let t = trim(&ls[i]);
        let pid = match parse_u64(&t) {
            Some(v) => v,
            None => 0,
        };
        out.push(CgroupPid { pid });
        i += 1;
        assert(out@ =~= Seq::new(i as nat, |k: int| task_of_line(l[k])));
    }
    assert(out@ =~= tasks_of_text(content@));
    out
}

/// The part of a controller that the controllers share: its two paths, its
/// subsystem, and the check that keeps every file below the base directory.
pub trait ControllerInternal: Sized {
    /// The directory of the subsystem.
    spec fn base_spec(&self) -> Seq<char>;

    /// The directory of the control group.
    spec fn path_spec(&self) -> Seq<char>;

    /// The subsystem that this controller belongs to.
    spec fn kind_spec(&self) -> Controllers;

    /// The plan that applies `res` to this controller.
    spec fn plan_spec(&self, res: &Resources) -> PlanView;

    /// The plan that applies the section of `res` that concerns this
    /// controller: nothing where the section does not ask to be applied.
    fn apply(&self, res: &Resources) -> (p: Plan)
        ensures
            p@ == self.plan_spec(res),
    ;

    /// The subsystem that this controller belongs to.
    fn control_type(&self) -> (r: Controllers)
        ensures
            r == self.kind_spec(),
    ;

    /// The directory of the control group.
    fn get_path(&self) -> (r: &String)
        ensures
            r@ == self.path_spec(),
    ;

    /// The directory of the subsystem.
    fn get_base(&self) -> (r: &String)
        ensures
            r@ == self.base_spec(),
    ;

    /// The controller of the group `name` below this controller's group. The
    /// base directory stays; an absolute `name` replaces the path, and so
    /// leaves the base directory.
    fn scoped_to(&self, name: &str) -> (r: Self)
        ensures
            r.base_spec() == self.base_spec(),
            r.path_spec() == join_spec(self.path_spec(), name@),
            r.kind_spec() == self.kind_spec(),
    ;

    /// Checks that the group's directory lies at or below the subsystem's.
    fn verify_path(&self) -> (r: Result<(), Error>)
        ensures
            crate::error::by_kind(r) == (if below(self.path_spec(), self.base_spec()) {
                Ok::<(), ErrorKind>(())
            } else {
                Err::<(), ErrorKind>(ErrorKind::InvalidPath)
            }),
            crate::error::bare(r),
    {
        if starts_with(self.get_path().as_str(), self.get_base().as_str()) {
            Ok(())
        } else {
            Err(Error::new(ErrorKind::InvalidPath))
        }
    }

    /// Agrees to open the file `p` of the group for writing (`w`) or for
    /// reading. A controller whose path has left its base directory agrees to
    /// nothing, whatever the file and the intent.
    fn open_path(&self, p: &str, w: bool) -> (r: Result<OpenFile, Error>)
        ensures
            match r {
                Ok(f) => {
                    &&& below(self.path_spec(), self.base_spec())
                    &&& f.path@ == join_spec(self.path_spec(), p@)
                    &&& f.write == w
                },
                Err(e) => {
                    &&& !below(self.path_spec(), self.base_spec())
                    &&& e.kind_spec() == ErrorKind::InvalidPath
                },
            },
            crate::error::bare(r),
    {
        let path = join(self.get_path().as_str(), p);
        match self.verify_path() {
            Err(e) => Err(e),
            Ok(_) => Ok(OpenFile { path, write: w }),
        }
    }

    /// Whether the file `p` of the group can be seen in `fs`.
    fn path_exists(&self, fs: &Snapshot, p: &str) -> (r: bool)
        ensures
            r == (file_text(self.base_spec(), self.path_spec(), fs.files(), p@) is Ok),
    {
        match self.open_path(p, false) {
            Err(_) => false,
            Ok(f) => fs.has_file(f.path.as_str()),
        }
    }

    /// The write of `data` to the file `name` of the group.
    fn write_to(&self, name: &str, data: String) -> (r: Result<FileWrite, Error>)
        ensures
            write_view(r) == write_spec(self.base_spec(), self.path_spec(), name@, data@),
            crate::error::bare(r),
    {
        match self.open_path(name, true) {
            Err(e) => Err(e),
            Ok(f) => Ok(FileWrite { path: f.path, data }),
        }
    }

    /// The text of the file `name` of the group.
    fn read_file(&self, fs: &Snapshot, name: &str) -> (r: Result<String, Error>)
        ensures
            match r {
                Ok(t) => file_text(self.base_spec(), self.path_spec(), fs.files(), name@) == Ok::<
                    Seq<char>,
                    ErrorKind,
                >(t@),
                Err(e) => file_text(self.base_spec(), self.path_spec(), fs.files(), name@) == Err::<
                    Seq<char>,
                    ErrorKind,
                >(e.kind_spec()),
            },
            crate::error::bare(r),
    {
        match self.open_path(name, false) {
            Err(e) => Err(e),
            Ok(f) => match fs.read(f.path.as_str()) {
                Some(t) => Ok(t),
                None => Err(Error::new(ErrorKind::ReadFailed)),
            },
        }
    }

    /// The plan that carries out `settings`, whose paths name files of the group.
    fn plan_for(&self, settings: Vec<ApplyStep>) -> (p: Plan)
        ensures
            p@ == plan_of(self.base_spec(), self.path_spec(), steps_view(settings@)),
    {
        if settings.len() == 0 {
            return Plan::new();
        }
        match self.verify_path() {
            Err(_) => {
                return Plan::refused(ErrorKind::InvalidPath);
            },
            Ok(_) => {},
        }
        let ghost wanted = steps_view(settings@);
        let ghost dir = self.path_spec();
        let mut plan = Plan::new();
        let mut i: usize = 0;
        while i < settings.len()
            invariant
                i <= settings.len(),
                wanted == steps_view(settings@),
                dir == self.path_spec(),
                plan@.refusal is None,
                plan@.steps =~= Seq::new(
                    i as nat,
                    |k: int| Step { path: join_spec(dir, wanted[k].path), ..wanted[k] },
                ),
            decreases settings.len() - i,
        {
            let s = &settings[i];
            assert(wanted[i as int] == s@);
            let step = ApplyStep::new(
                join(self.get_path().as_str(), s.write.path.as_str()),
                s.write.data.clone(),
                s.expect,
            );
            plan.push(step);
            i += 1;
        }
        assert(plan@.steps =~= plan_of(self.base_spec(), dir, wanted).steps);
        plan
    }

    /// The number that the file `name` of the group spells.
    fn read_number(&self, fs: &Snapshot, name: &str) -> (r: Result<u64, Error>)
        ensures
            crate::error::by_kind(r) == file_number(
                self.base_spec(),
                self.path_spec(),
                fs.files(),
                name@,
            ),
            crate::error::bare(r),
    {
        match self.read_file(fs, name) {
            Err(e) => Err(e),
            Ok(t) => read_u64_from(t.as_str()),
        }
    }

    /// The number that the file `name` of the group spells, or `0` where it cannot be had.
    fn read_number_or_zero(&self, fs: &Snapshot, name: &str) -> (r: u64)
        ensures
            r == file_number_or_zero(self.base_spec(), self.path_spec(), fs.files(), name@),
    {
        match self.read_number(fs, name) {
            Ok(v) => v,
            Err(_) => 0,
        }
    }

    /// Whether the file `name` of the group spells the number one.
    fn read_flag(&self, fs: &Snapshot, name: &str) -> (r: bool)
        ensures
            r == file_flag(self.base_spec(), self.path_spec(), fs.files(), name@),
    {
        match self.read_number(fs, name) {
            Ok(v) => v == 1,
            Err(_) => false,
        }
    }

    /// The text of the file `name` of the group without the white space around
    /// it, or the empty text where the file cannot be had.
    fn read_trimmed_or_empty(&self, fs: &Snapshot, name: &str) -> (r: String)
        ensures
            r@ == file_trimmed_or_empty(self.base_spec(), self.path_spec(), fs.files(), name@),
    {
        match self.read_file(fs, name) {
            Ok(t) => read_string_from(t.as_str()),
            Err(_) => String::new(),
        }
    }
}

/// A Controller is a subsystem attached to the control group.
///
/// Implementors are able to control certain aspects of a control group.
///
/// What a controller is and what applying resources to it asks for are part of
/// [`ControllerInternal`], which every controller has: `control_type` and `apply`.
pub trait Controller: ControllerInternal {
    /// The file system path to the controller.
    fn path(&self) -> (p: &String)
        ensures
            p@ == self.path_spec(),
    ;

    /// The directory to make so that this controller exists, or `InvalidPath`
    /// where the controller's path has left its base directory.
    fn create(&self) -> (r: Result<String, Error>)
        ensures
            match r {
                Ok(dir) => below(self.path_spec(), self.base_spec()) && dir@ == self.path_spec(),
                Err(e) => !below(self.path_spec(), self.base_spec()) && e.kind_spec()
                    == ErrorKind::InvalidPath,
            },
            crate::error::bare(r),
    ;

    /// Does this controller already exist?
    fn exists_in(&self, fs: &Snapshot) -> (r: bool)
        ensures
            r == fs.dirs().contains(self.path_spec()),
    ;

    /// The directory to remove so that this controller is deleted: its own, if it exists.
    fn delete(&self, fs: &Snapshot) -> (r: Option<String>)
        ensures
            match r {
                Some(dir) => fs.dirs().contains(self.path_spec()) && dir@ == self.path_spec(),
                None => !fs.dirs().contains(self.path_spec()),
            },
    ;

    /// The write that attaches a task to this controller.
    fn add_task(&self, pid: &CgroupPid) -> (r: Result<FileWrite, Error>)
        ensures
            write_view(r) == write_spec(
                self.base_spec(),
                self.path_spec(),
                "tasks"@,
                decimal(pid.pid as nat),
            ),
            crate::error::bare(r),
    ;

    /// Get the list of tasks that this controller has. A controller whose
    /// `tasks` file cannot be had has none.
    fn tasks(&self, fs: &Snapshot) -> (r: Vec<CgroupPid>)
        ensures
            r@ == (match file_text(self.base_spec(), self.path_spec(), fs.files(), "tasks"@) {
                Ok(t) => tasks_of_text(t),
                Err(_) => Seq::<CgroupPid>::empty(),
            }),
    ;
}

impl<T: ControllerInternal> Controller for T {
    fn path(&self) -> (p: &String) {
        self.get_path()
    }

    fn create(&self) -> (r: Result<String, Error>) {
        match self.verify_path() {
            Err(e) => Err(e),
            Ok(_) => Ok(self.get_path().clone()),
        }
    }

    fn exists_in(&self, fs: &Snapshot) -> (r: bool) {
        fs.has_dir(self.get_path().as_str())
    }

    fn delete(&self, fs: &Snapshot) -> (r: Option<String>) {
        if fs.has_dir(self.get_path().as_str()) {
            Some(self.get_path().clone())
        } else {
            None
        }
    }

    fn add_task(&self, pid: &CgroupPid) -> (r: Result<FileWrite, Error>) {
        self.write_to("tasks", u64_to_string(pid.pid))
    }

    fn tasks(&self, fs: &Snapshot) -> (r: Vec<CgroupPid>) {
        match self.read_file(fs, "tasks") {
            Ok(t) => parse_tasks(t.as_str()),
            Err(_) => Vec::new(),
        }
    }
}

/// Names the subsystem of a type of controller, and finds a controller of that
/// type in a subsystem.
pub trait ControllIdentifier: Sized {
    /// The subsystem of this type of controller.
    spec fn type_spec() -> Controllers;

    /// The controller of this type that `sub` holds, if it holds one.
    spec fn held_by(sub: &Subsystem) -> Option<Self>;

    /// The subsystem of this type of controller.
    fn controller_type() -> (r: Controllers)
        ensures
            r == Self::type_spec(),
    ;

    /// The controller of this type that `sub` holds, if it holds one.
    fn of(sub: &Subsystem) -> (r: Option<&Self>)
        ensures
            match r {
                Some(c) => Self::held_by(sub) == Some(*c),
                None => Self::held_by(sub) is None,
            },
    ;
}

} // verus!

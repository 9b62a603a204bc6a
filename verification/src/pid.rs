//! The `pids` subsystem: a limit on the number of tasks of a control group.
use vstd::prelude::*;
use crate::apply::{steps_view, ApplyStep, Expected, Plan, PlanView, Step};
use crate::controller::{
    controller_name, no_plan, number_in, plan_of, text_in, write_in, write_view,
    ControllIdentifier, ControllerInternal, Controllers,
};
use crate::error::{Error, ErrorKind};
use crate::fs::{FileWrite, Snapshot};
use crate::path::{join, join_spec};
use crate::resources::Resources;
use crate::subsystem::Subsystem;
use crate::text::{
    fields, fields_spec, is_word, parse_i64, parse_i64_spec, parse_u64, parse_u64_spec,
    push_signed_decimal, push_str, signed_decimal, to_chars, to_text, trim, trim_spec,
};

verus! {

/// A controller that allows controlling the `pids` subsystem of a Cgroup.
#[derive(Debug)]
pub struct PidController {
    base: String,
    path: String,
}

/// The values found in the `pids.max` file in a Cgroup's `pids` subsystem.
#[derive(Debug, Clone, Copy, PartialEq, Eq, Structural)]
pub enum PidMax {
    /// This value is returned when the text found `pids.max` is `"max"`.
    Max,
    /// When the value in `pids.max` is a numerical value, they are returned via this enum field.
    Value(i64),
}

impl Default for PidMax {
    /// By default, (as per the kernel) `pids.max` should contain `"max"`.
    fn default() -> (r: Self)
        ensures
            r == PidMax::Max,
    {
        PidMax::Max
    }
}

/// The text that the kernel takes for the limit `max`.
pub open spec fn pid_max_text(max: PidMax) -> Seq<char> {
    match max {
        PidMax::Max => "max"@,
        PidMax::Value(n) => signed_decimal(n as int),
    }
}

/// The limit that the text of `pids.max` spells, if it spells one: `max`, or a
/// signed number, with white space around it.
pub open spec fn pid_max_spec(content: Seq<char>) -> Option<PidMax> {
    let t = trim_spec(content);
    if t == "max"@ {
        Some(PidMax::Max)
    } else {
        match parse_i64_spec(t) {
            Some(n) => Some(PidMax::Value(n)),
            None => None,
        }
    }
}

/// The text that the kernel takes for the limit `max`.
pub fn format_pid_max(max: PidMax) -> (s: String)
    ensures
        s@ == pid_max_text(max),
{
    let mut out: Vec<char> = Vec::new();
    match max {
        PidMax::Max => {
            push_str(&mut out, "max");
        },
        PidMax::Value(n) => {
            push_signed_decimal(&mut out, n);
        },
    }
    assert(out@ =~= pid_max_text(max));
    to_text(&out)
}

/// The limit that the text of `pids.max` spells, if it spells one.
pub fn parse_pid_max(content: &str) -> (r: Option<PidMax>)
    ensures
        r == pid_max_spec(content@),
{
    let t = trim(&to_chars(content));
    if is_word(&t, "max") {
        Some(PidMax::Max)
    } else {
        match parse_i64(&t) {
            Some(n) => Some(PidMax::Value(n)),
            None => None,
        }
    }
}


/// The count that the text of `pids.events` gives: its second field, as a
/// number.
pub open spec fn pid_events_spec(content: Seq<char>) -> Option<u64> {
    let f = fields_spec(content);
    if f.len() >= 2 {
        parse_u64_spec(f[1])
    } else {
        None
    }
}

/// The step that sets the limit on the number of tasks to `max` and expects
/// the file to spell that limit afterwards.
pub open spec fn pid_max_step(max: PidMax) -> Step {
    Step { path: "pids.max"@, data: pid_max_text(max), expect: Expected::Limit(max) }
}

/// The count that the text of `pids.events` gives.
pub fn parse_pid_events(content: &str) -> (r: Option<u64>)
    ensures
        r == pid_events_spec(content@),
{
    let f = fields(&to_chars(content));
    if f.len() >= 2 {
        assert(fields_spec(content@)[1] == f[1]@);
        parse_u64(&f[1])
    } else {
        None
    }
}

impl ControllerInternal for PidController {
    closed spec fn base_spec(&self) -> Seq<char> {
        self.base@
    }

    closed spec fn path_spec(&self) -> Seq<char> {
        self.path@
    }

    open spec fn kind_spec(&self) -> Controllers {
        Controllers::Pids
    }

    open spec fn plan_spec(&self, res: &Resources) -> PlanView {
        if res.pid.update_values {
            plan_of(
                self.base_spec(),
                self.path_spec(),
                seq![pid_max_step(res.pid.maximum_number_of_processes)],
            )
        } else {
            no_plan()
        }
    }

    fn apply(&self, res: &Resources) -> (p: Plan) {
        if !res.pid.update_values {
            return Plan::new();
        }
        let max = res.pid.maximum_number_of_processes;
        let mut settings: Vec<ApplyStep> = Vec::new();
        settings.push(
            ApplyStep::new(String::from_str("pids.max"), format_pid_max(max), Expected::Limit(max)),
        );
        assert(steps_view(settings@) =~= seq![pid_max_step(max)]);
        self.plan_for(settings)
    }

    fn control_type(&self) -> (r: Controllers) {
        Controllers::Pids
    }

    fn get_path(&self) -> (r: &String) {
        &self.path
    }

    fn get_base(&self) -> (r: &String) {
        &self.base
    }

    fn scoped_to(&self, name: &str) -> (r: Self) {
        PidController { base: self.base.clone(), path: join(self.path.as_str(), name) }
    }
}

impl Clone for PidController {
    fn clone(&self) -> (r: Self)
        ensures
            r == *self,
    {
        PidController { base: self.base.clone(), path: self.path.clone() }
    }
}

impl ControllIdentifier for PidController {
    open spec fn type_spec() -> Controllers {
        Controllers::Pids
    }

    open spec fn held_by(sub: &Subsystem) -> Option<Self> {
        match sub {
            Subsystem::Pid(c) => Some(*c),
            _ => None,
        }
    }

    fn controller_type() -> (r: Controllers) {
        Controllers::Pids
    }

    fn of(sub: &Subsystem) -> (r: Option<&Self>) {
        match sub {
            Subsystem::Pid(c) => Some(c),
            _ => None,
        }
    }
}

impl PidController {
    /// Constructs a new `PidController` with `oroot` serving as the root of the control group.
    pub fn new(oroot: String) -> (r: Self)
        ensures
            r.base_spec() == join_spec(oroot@, controller_name(Controllers::Pids)),
            r.path_spec() == r.base_spec(),
    {
        let root = join(oroot.as_str(), Controllers::Pids.to_string().as_str());
        PidController { base: root.clone(), path: root }
    }

    /// The number of times `fork` failed because the limit was hit.
    pub fn get_pid_events(&self, fs: &Snapshot) -> (r: Result<u64, Error>)
        ensures
            crate::error::by_kind(r) == (match text_in(self, fs, "pids.events"@) {
                Err(k) => Err::<u64, ErrorKind>(k),
                Ok(t) => match pid_events_spec(t) {
                    Some(v) => Ok::<u64, ErrorKind>(v),
                    None => Err::<u64, ErrorKind>(ErrorKind::ParseError),
                },
            }),
            crate::error::bare(r),
    {
        match self.read_file(fs, "pids.events") {
            Err(e) => Err(e),
            Ok(t) => match parse_pid_events(t.as_str()) {
                Some(v) => Ok(v),
                None => Err(Error::new(ErrorKind::ParseError)),
            },
        }
    }

    /// The number of processes currently.
    pub fn get_pid_current(&self, fs: &Snapshot) -> (r: Result<u64, Error>)
        ensures
            crate::error::by_kind(r) == number_in(self, fs, "pids.current"@),
            crate::error::bare(r),
    {
        self.read_number(fs, "pids.current")
    }

    /// The maximum number of processes that can exist at one time in the control group.
    pub fn get_pid_max(&self, fs: &Snapshot) -> (r: Result<PidMax, Error>)
        ensures
            crate::error::by_kind(r) == (match text_in(self, fs, "pids.max"@) {
                Err(k) => Err::<PidMax, ErrorKind>(k),
                Ok(t) => match pid_max_spec(t) {
                    Some(v) => Ok::<PidMax, ErrorKind>(v),
                    None => Err::<PidMax, ErrorKind>(ErrorKind::ParseError),
                },
            }),
            crate::error::bare(r),
    {
        match self.read_file(fs, "pids.max") {
            Err(e) => Err(e),
            Ok(t) => match parse_pid_max(t.as_str()) {
                Some(v) => Ok(v),
                None => Err(Error::new(ErrorKind::ParseError)),
            },
        }
    }

    /// Set the maximum number of processes that can exist in this control group.
    ///
    /// Note that if `get_pid_current()` returns a higher number than what you
    /// are about to set (`max_pid`), then no processess will be killed. Additonally, attaching
    /// extra processes to a control group disregards the limit.
    pub fn set_pid_max(&self, max_pid: PidMax) -> (r: Result<FileWrite, Error>)
        ensures
            write_view(r) == write_in(self, "pids.max"@, pid_max_text(max_pid)),
            crate::error::bare(r),
    {
        self.write_to("pids.max", format_pid_max(max_pid))
    }
}

} // verus!

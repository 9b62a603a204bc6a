//! How resources reach the kernel: as a plan of writes, carried out one step at
//! a time.
//!
//! A [`Plan`] lists the writes that an operation asks for, in order. Some writes
//! are checked: the file is read back, and the plan fails unless it then spells
//! the value that was asked for, since the kernel may clamp or drop a value
//! without failing the write. A plan stops at the first failure; what was
//! written before stays written, and nothing after it is attempted.
//!
//! A [`Run`] carries a plan out. It tells the caller what to do next, the caller
//! does it and reports what happened, until the run has finished.
use vstd::prelude::*;
use crate::error::{Error, ErrorKind};
use crate::fs::{FileWrite, Snapshot};
use crate::pid::{parse_pid_max, pid_max_spec, PidMax};
use crate::text::{decimal, parse_u64, parse_u64_spec, to_chars, trim, trim_spec, u64_to_string};

verus! {

/// What a file has to spell when it is read back after a write.
#[derive(Debug, Clone, Copy, PartialEq, Eq, Structural)]
pub enum Expected {
    /// The file is not read back.
    Unchecked,
    /// The file has to spell this number.
    Number(u64),
    /// The file has to spell this limit on the number of tasks.
    Limit(PidMax),
}

/// One step of a plan: a write, and what the file has to spell afterwards.
#[derive(Debug)]
pub struct ApplyStep {
    /// The write to carry out.
    pub write: FileWrite,
    /// What the file has to spell when read back.
    pub expect: Expected,
}

/// A step as a plain value.
pub struct Step {
    /// The file to write to.
    pub path: Seq<char>,
    /// The text to write.
    pub data: Seq<char>,
    /// What the file has to spell when read back.
    pub expect: Expected,
}

/// A plan as a plain value.
pub struct PlanView {
    /// The steps to carry out, in order.
    pub steps: Seq<Step>,
    /// The error to end with once every step has gone through, if any.
    pub refusal: Option<ErrorKind>,
}

/// The state of a run as a plain value.
pub struct RunView {
    /// The plan that is carried out.
    pub plan: PlanView,
    /// How many steps have gone through.
    pub done: nat,
    /// Whether the write of the current step has gone through and its file is to be read back.
    pub reading: bool,
    /// The failure that ended the run, if one did.
    pub failed: Option<ErrorKind>,
}

/// What the caller of a run has to do next, as a plain value.
pub enum ActionView {
    /// Write `data` to the file at `path`.
    Write { path: Seq<char>, data: Seq<char> },
    /// Read the file at `path`.
    Read { path: Seq<char> },
    /// Nothing: the run has ended with this result.
    Finished(Result<(), ErrorKind>),
}

/// The writes that an operation asks for, in order, and whether it ends in an error.
#[derive(Debug)]
pub struct Plan {
    steps: Vec<ApplyStep>,
    refusal: Option<ErrorKind>,
}

/// A plan that is being carried out.
#[derive(Debug)]
pub struct Run {
    plan: Plan,
    done: usize,
    reading: bool,
    failed: Option<ErrorKind>,
}

/// What the caller of a run has to do next.
#[derive(Debug)]
pub enum Action {
    /// Carry out this write, then report with [`Run::written`].
    Write(FileWrite),
    /// Read the file at this path, then report with [`Run::was_read`].
    Read(String),
    /// Nothing: the run has ended with this result.
    Finished(Result<(), Error>),
}

/// The steps of `v` as plain values.
pub open spec fn steps_view(v: Seq<ApplyStep>) -> Seq<Step> {
    Seq::new(v.len(), |i: int| v[i]@)
}

/// The failure that reading `content` back gives where `expect` was asked for,
/// if it gives one: the text does not spell a value, or it spells another.
pub open spec fn check_spec(expect: Expected, content: Seq<char>) -> Option<ErrorKind> {
    match expect {
        Expected::Unchecked => None,
        Expected::Number(v) => match parse_u64_spec(trim_spec(content)) {
            None => Some(ErrorKind::ParseError),
            Some(x) => if x == v {
                None
            } else {
                Some(ErrorKind::Other)
            },
        },
        Expected::Limit(m) => match pid_max_spec(content) {
            None => Some(ErrorKind::ParseError),
            Some(x) => if x == m {
                None
            } else {
                Some(ErrorKind::Other)
            },
        },
    }
}

/// The step that writes the decimal spelling of `v` to `path` and, where it is
/// `checked`, expects the file to spell `v` afterwards.
pub open spec fn number_step(path: Seq<char>, v: u64, checked: bool) -> Step {
    Step {
        path,
        data: decimal(v as nat),
        expect: if checked {
            Expected::Number(v)
        } else {
            Expected::Unchecked
        },
    }
}

/// The step that writes `data` to `path` and does not read the file back.
pub open spec fn text_step(path: Seq<char>, data: Seq<char>) -> Step {
    Step { path, data, expect: Expected::Unchecked }
}

/// The plan that carries out `a` and then `b`. Where `a` ends in an error,
/// nothing of `b` is reached.
pub open spec fn chain(a: PlanView, b: PlanView) -> PlanView {
    if a.refusal is Some {
        a
    } else {
        PlanView { steps: a.steps + b.steps, refusal: b.refusal }
    }
}

/// What the caller has to do next in the state `s`.
pub open spec fn next_spec(s: RunView) -> ActionView {
    if s.failed is Some {
        ActionView::Finished(Err(s.failed->0))
    } else if s.done < s.plan.steps.len() {
        let step = s.plan.steps[s.done as int];
        if s.reading {
            ActionView::Read { path: step.path }
        } else {
            ActionView::Write { path: step.path, data: step.data }
        }
    } else {
        match s.plan.refusal {
            Some(k) => ActionView::Finished(Err(k)),
            None => ActionView::Finished(Ok(())),
        }
    }
}

/// The state that follows `s` when the caller reports that the write it was
/// asked for went through (`ok`) or failed. A failed write ends the run. Where
/// no write was asked for, nothing changes.
pub open spec fn after_write(s: RunView, ok: bool) -> RunView {
    if next_spec(s) is Write {
        if !ok {
            RunView { failed: Some(ErrorKind::WriteFailed), ..s }
        } else if s.plan.steps[s.done as int].expect is Unchecked {
            RunView { done: s.done + 1, ..s }
        } else {
            RunView { reading: true, ..s }
        }
    } else {
        s
    }
}

/// The state that follows `s` when the caller reports the text of the file it
/// was asked to read, or that the file could not be read. A file that cannot be
/// read, or that does not spell what was asked for, ends the run. Where no read
/// was asked for, nothing changes.
pub open spec fn after_read(s: RunView, content: Option<Seq<char>>) -> RunView {
    if next_spec(s) is Read {
        match content {
            None => RunView { failed: Some(ErrorKind::ReadFailed), ..s },
            Some(text) => match check_spec(s.plan.steps[s.done as int].expect, text) {
                Some(k) => RunView { failed: Some(k), ..s },
                None => RunView { done: s.done + 1, reading: false, ..s },
            },
        }
    } else {
        s
    }
}

/// The result of carrying out `steps[from..]` and then ending with `refusal`,
/// on files that keep what is written to them: the result, and the files
/// afterwards.
pub open spec fn outcome_from(
    steps: Seq<Step>,
    refusal: Option<ErrorKind>,
    from: int,
    files: Map<Seq<char>, Seq<char>>,
) -> (Result<(), ErrorKind>, Map<Seq<char>, Seq<char>>)
    decreases steps.len() - from,
{
    if from < 0 || from >= steps.len() {
        match refusal {
            Some(k) => (Err(k), files),
            None => (Ok(()), files),
        }
    } else {
        let step = steps[from];
        let written = files.insert(step.path, step.data);
        match check_spec(step.expect, step.data) {
            Some(k) => (Err(k), written),
            None => outcome_from(steps, refusal, from + 1, written),
        }
    }
}

/// The result of carrying out `plan` on files that keep what is written to them.
pub open spec fn outcome(plan: PlanView, files: Map<Seq<char>, Seq<char>>) -> (
    Result<(), ErrorKind>,
    Map<Seq<char>, Seq<char>>,
) {
    outcome_from(plan.steps, plan.refusal, 0, files)
}

impl View for ApplyStep {
    type V = Step;

    open spec fn view(&self) -> Step {
        Step { path: self.write.path@, data: self.write.data@, expect: self.expect }
    }
}

impl View for Plan {
    type V = PlanView;

    closed spec fn view(&self) -> PlanView {
        PlanView { steps: steps_view(self.steps@), refusal: self.refusal }
    }
}

impl View for Run {
    type V = RunView;

    closed spec fn view(&self) -> RunView {
        RunView {
            plan: self.plan@,
            done: self.done as nat,
            reading: self.reading,
            failed: self.failed,
        }
    }
}

impl View for Action {
    type V = ActionView;

    open spec fn view(&self) -> ActionView {
        match self {
            Action::Write(w) => ActionView::Write { path: w.path@, data: w.data@ },
            Action::Read(p) => ActionView::Read { path: p@ },
            Action::Finished(r) => ActionView::Finished(crate::error::by_kind(*r)),
        }
    }
}

/// Whether reading `content` back meets `expect`; if not, the failure.
pub fn check(expect: Expected, content: &str) -> (r: Option<ErrorKind>)
    ensures
        r == check_spec(expect, content@),
{
    match expect {
        Expected::Unchecked => None,
        Expected::Number(v) => {
            let t = trim(&to_chars(content));
            match parse_u64(&t) {
                None => Some(ErrorKind::ParseError),
                Some(x) => if x == v {
                    None
                } else {
                    Some(ErrorKind::Other)
                },
            }
        },
        Expected::Limit(m) => match parse_pid_max(content) {
            None => Some(ErrorKind::ParseError),
            Some(x) => if x == m {
                None
            } else {
                Some(ErrorKind::Other)
            },
        },
    }
}

impl ApplyStep {
    /// The step that writes `data` to `path` and expects `expect` when the file is read back.
    pub fn new(path: String, data: String, expect: Expected) -> (s: ApplyStep)
        ensures
            s@ == (Step { path: path@, data: data@, expect }),
    {
        ApplyStep { write: FileWrite { path, data }, expect }
    }

    /// The step that writes the decimal spelling of `v` to `path` and, where it
    /// is `checked`, expects the file to spell `v` afterwards.
    pub fn number(path: &str, v: u64, checked: bool) -> (s: ApplyStep)
        ensures
            s@ == number_step(path@, v, checked),
    {
        let expect = if checked {
            Expected::Number(v)
        } else {
            Expected::Unchecked
        };
        ApplyStep::new(String::from_str(path), u64_to_string(v), expect)
    }

    /// The step that writes `data` to `path` and does not read the file back.
    pub fn text(path: &str, data: String) -> (s: ApplyStep)
        ensures
            s@ == text_step(path@, data@),
    {
        ApplyStep::new(String::from_str(path), data, Expected::Unchecked)
    }
}

impl Plan {
    /// The plan that does nothing and succeeds.
    pub fn new() -> (p: Plan)
        ensures
            p@ == (PlanView { steps: Seq::<Step>::empty(), refusal: None }),
    {
        let p = Plan { steps: Vec::new(), refusal: None };
        assert(p@.steps =~= Seq::<Step>::empty());
        p
    }

    /// The plan that does nothing and fails with `kind`.
    pub fn refused(kind: ErrorKind) -> (p: Plan)
        ensures
            p@ == (PlanView { steps: Seq::<Step>::empty(), refusal: Some(kind) }),
    {
        let p = Plan { steps: Vec::new(), refusal: Some(kind) };
        assert(p@.steps =~= Seq::<Step>::empty());
        p
    }

    /// Adds `step` to the end of the plan. A plan that ends in an error stays as it is.
    pub fn push(&mut self, step: ApplyStep)
        ensures
            final(self)@ == chain(
                old(self)@,
                PlanView { steps: seq![step@], refusal: None },
            ),
    {
        if self.refusal.is_none() {
            self.steps.push(step);
            assert(self@.steps =~= old(self)@.steps + seq![step@]);
        }
    }

    /// The plan that carries out `self` and then `next`.
    pub fn followed_by(self, next: Plan) -> (p: Plan)
        ensures
            p@ == chain(self@, next@),
    {
        if self.refusal.is_some() {
            return self;
        }
        let mut steps = self.steps;
        let mut more = next.steps;
        let ghost a = steps@;
        let ghost b = more@;
        steps.append(&mut more);
        let p = Plan { steps, refusal: next.refusal };
        assert(p@.steps =~= steps_view(a) + steps_view(b));
        p
    }

    /// The steps of the plan, in order.
    pub fn steps(&self) -> (s: &Vec<ApplyStep>)
        ensures
            steps_view(s@) == self@.steps,
    {
        &self.steps
    }

    /// The error that the plan ends with once every step has gone through, if any.
    pub fn refusal(&self) -> (r: Option<ErrorKind>)
        ensures
            r == self@.refusal,
    {
        self.refusal
    }

    /// Carries the plan out on `fs` as on a file system that keeps each text as
    /// it was written: every write goes through, and a file reads back as what
    /// was last written to it.
    pub fn run_on(self, fs: &mut Snapshot) -> (r: Result<(), Error>)
        ensures
            crate::error::by_kind(r) == outcome(self@, old(fs).files()).0,
            final(fs).files() == outcome(self@, old(fs).files()).1,
            final(fs).dirs() == old(fs).dirs(),
            crate::error::bare(r),
    {
        let ghost plan = self@;
        let mut i: usize = 0;
        while i < self.steps.len()
            invariant
                i <= self.steps.len(),
                plan == self@,
                fs.dirs() == old(fs).dirs(),
                outcome(plan, old(fs).files()) == outcome_from(
                    plan.steps,
                    plan.refusal,
                    i as int,
                    fs.files(),
                ),
            decreases self.steps.len() - i,
        {
            let step = &self.steps[i];
            assert(plan.steps[i as int] == step@);
            fs.write(&step.write);
            match check(step.expect, step.write.data.as_str()) {
                Some(k) => {
                    return Err(Error::new(k));
                },
                None => {},
            }
            i += 1;
        }
        match self.refusal {
            Some(k) => Err(Error::new(k)),
            None => Ok(()),
        }
    }
}

impl Run {
    /// Starts to carry out `plan`.
    pub fn start(plan: Plan) -> (r: Run)
        ensures
            r@ == (RunView { plan: plan@, done: 0, reading: false, failed: None }),
    {
        Run { plan, done: 0, reading: false, failed: None }
    }

    /// What the caller has to do next.
    pub fn next_action(&self) -> (a: Action)
        ensures
            a@ == next_spec(self@),
            a matches Action::Finished(r) ==> crate::error::bare(r),
    {
        match self.failed {
            Some(k) => Action::Finished(Err(Error::new(k))),
            None => {
                if self.done < self.plan.steps.len() {
                    let step = &self.plan.steps[self.done];
                    assert(self@.plan.steps[self.done as int] == step@);
                    if self.reading {
                        Action::Read(step.write.path.clone())
                    } else {
                        Action::Write(
                            FileWrite {
                                path: step.write.path.clone(),
                                data: step.write.data.clone(),
                            },
                        )
                    }
                } else {
                    match self.plan.refusal {
                        Some(k) => Action::Finished(Err(Error::new(k))),
                        None => Action::Finished(Ok(())),
                    }
                }
            },
        }
    }

    /// Whether the run has ended.
    pub fn is_finished(&self) -> (b: bool)
        ensures
            b == (next_spec(self@) is Finished),
    {
        self.failed.is_some() || self.done >= self.plan.steps.len()
    }

    /// Reports that the write that was asked for went through (`ok`) or failed.
    pub fn written(&mut self, ok: bool)
        ensures
            final(self)@ == after_write(old(self)@, ok),
    {
        if self.failed.is_none() && self.done < self.plan.steps.len() && !self.reading {
            let step = &self.plan.steps[self.done];
            assert(self@.plan.steps[self.done as int] == step@);
            if !ok {
                self.failed = Some(ErrorKind::WriteFailed);
            } else {
                match step.expect {
                    Expected::Unchecked => {
                        self.done = self.done + 1;
                    },
                    _ => {
                        self.reading = true;
                    },
                }
            }
        }
    }

    /// Reports the text of the file that was to be read, or that it could not be read.
    pub fn was_read(&mut self, content: Option<&str>)
        ensures
            final(self)@ == after_read(
                old(self)@,
                match content {
                    Some(t) => Some(t@),
                    None => None,
                },
            ),
    {
        if self.failed.is_none() && self.done < self.plan.steps.len() && self.reading {
            let step = &self.plan.steps[self.done];
            assert(self@.plan.steps[self.done as int] == step@);
            match content {
                None => {
                    self.failed = Some(ErrorKind::ReadFailed);
                },
                Some(text) => match check(step.expect, text) {
                    Some(k) => {
                        self.failed = Some(k);
                    },
                    None => {
                        self.done = self.done + 1;
                        self.reading = false;
                    },
                },
            }
        }
    }
}

} // verus!

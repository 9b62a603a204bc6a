//! This module handles cgroup operations. Start here!
use vstd::prelude::*;
use crate::apply::{chain, text_step, ApplyStep, Plan, PlanView};
use crate::controller::{
    no_plan, plan_of, tasks_of_text, file_text, ControllIdentifier, Controller,
    ControllerInternal,
};
use crate::fs::Snapshot;
use crate::hierarchies::{all_kinds, supported, Hierarchy};
use crate::path::below;
use crate::resources::{CgroupPid, Resources};
use crate::subsystem::{entered, view_plan, views, Subsystem, SubsystemView};
use crate::text::{decimal, u64_to_string};

verus! {

/// A control group is the central structure to this crate.
///
/// # What are control groups?
///
/// Lifting over from the Linux kernel sources:
///
/// > Control Groups provide a mechanism for aggregating/partitioning sets of
/// > tasks, and all their future children, into hierarchical groups with
/// > specialized behaviour.
///
/// This crate is an attempt at providing a Rust-native way of managing these cgroups.
pub struct Cgroup<'b, H: Hierarchy> {
    /// The list of subsystems that control this cgroup
    subsystems: Vec<Subsystem>,
    /// The hierarchy.
    hier: &'b H,
}

/// The texts that the strings of `v` hold.
pub open spec fn strings_view(v: Seq<String>) -> Seq<Seq<char>> {
    Seq::new(v.len(), |i: int| v[i]@)
}

/// The subsystems `subs`, each one group further down, in the group `name`.
/// The empty name leaves them where they are.
pub open spec fn entered_all(subs: Seq<SubsystemView>, name: Seq<char>) -> Seq<SubsystemView> {
    if name.len() == 0 {
        subs
    } else {
        Seq::new(subs.len(), |i: int| entered(subs[i], name))
    }
}

/// The plan that applies `res` to each of `subs` in turn. It stops at the first
/// subsystem that cannot be applied to.
pub open spec fn plan_all(subs: Seq<SubsystemView>, res: &Resources) -> PlanView
    decreases subs.len(),
{
    if subs.len() == 0 {
        no_plan()
    } else {
        chain(plan_all(subs.drop_last(), res), view_plan(subs.last(), res))
    }
}

/// The plan that attaches the task `pid` to the subsystem `v`.
pub open spec fn attach_plan(v: SubsystemView, pid: u64) -> PlanView {
    plan_of(v.base, v.path, seq![text_step("tasks"@, decimal(pid as nat))])
}

/// The plan that attaches the task `pid` to each of `subs` in turn.
pub open spec fn attach_all(subs: Seq<SubsystemView>, pid: u64) -> PlanView
    decreases subs.len(),
{
    if subs.len() == 0 {
        no_plan()
    } else {
        chain(attach_all(subs.drop_last(), pid), attach_plan(subs.last(), pid))
    }
}

/// The directories of those of `subs` whose path lies below their base, in order.
pub open spec fn valid_dirs(subs: Seq<SubsystemView>) -> Seq<Seq<char>>
    decreases subs.len(),
{
    if subs.len() == 0 {
        Seq::<Seq<char>>::empty()
    } else if below(subs.last().path, subs.last().base) {
        valid_dirs(subs.drop_last()).push(subs.last().path)
    } else {
        valid_dirs(subs.drop_last())
    }
}

/// The directories of those of `subs` that exist among `dirs`, in order.
pub open spec fn existing_dirs(subs: Seq<SubsystemView>, dirs: Set<Seq<char>>) -> Seq<Seq<char>>
    decreases subs.len(),
{
    if subs.len() == 0 {
        Seq::<Seq<char>>::empty()
    } else if dirs.contains(subs.last().path) {
        existing_dirs(subs.drop_last(), dirs).push(subs.last().path)
    } else {
        existing_dirs(subs.drop_last(), dirs)
    }
}

/// The tasks that the `tasks` file of the subsystem `v` lists; none where the
/// file cannot be had.
pub open spec fn tasks_in(v: SubsystemView, files: Map<Seq<char>, Seq<char>>) -> Seq<CgroupPid> {
    match file_text(v.base, v.path, files, "tasks"@) {
        Ok(t) => tasks_of_text(t),
        Err(_) => Seq::<CgroupPid>::empty(),
    }
}

/// The tasks that the subsystems `subs` list, one list after the other.
pub open spec fn tasks_listed(subs: Seq<SubsystemView>, files: Map<Seq<char>, Seq<char>>) -> Seq<
    CgroupPid,
>
    decreases subs.len(),
{
    if subs.len() == 0 {
        Seq::<CgroupPid>::empty()
    } else {
        tasks_listed(subs.drop_last(), files) + tasks_in(subs.last(), files)
    }
}

/// Whether the tasks of `s` come in strictly rising order, so that none comes twice.
pub open spec fn rising(s: Seq<CgroupPid>) -> bool {
    forall|i: int, j: int| 0 <= i < j < s.len() ==> s[i].pid < s[j].pid
}

/// The first of `subs` that belongs to the subsystem `kind`, if there is one.
pub open spec fn first_of(subs: Seq<Subsystem>, kind: crate::controller::Controllers, from: int) -> Option<
    int,
>
    decreases subs.len() - from,
{
    if from < 0 || from >= subs.len() {
        None
    } else if subs[from]@.kind == kind {
        Some(from)
    } else {
        first_of(subs, kind, from + 1)
    }
}

/// Puts `p` into the rising list `v`, unless it is there already.
fn insert_rising(v: &mut Vec<CgroupPid>, p: CgroupPid)
    requires
        rising(old(v)@),
    ensures
        rising(final(v)@),
        final(v)@.to_set() == old(v)@.to_set().insert(p),
{
    let mut i: usize = 0;
    while i < v.len() && v[i].pid < p.pid
        invariant
            i <= v.len(),
            v@ == old(v)@,
            rising(v@),
            forall|k: int| 0 <= k < i ==> v@[k].pid < p.pid,
        decreases v.len() - i,
    {
        i += 1;
    }
    let ghost before = v@;
    if i < v.len() && v[i].pid == p.pid {
        assert(before[i as int] == p);
        assert(before.to_set() =~= before.to_set().insert(p));
    } else {
        v.insert(i, p);
        let ghost after = v@;
        assert forall|a: int, b: int| 0 <= a < b < after.len() implies after[a].pid
            < after[b].pid by {
            if a < i && b > i {
                assert(after[b] == before[b - 1]);
            } else if a < i && b == i {
            } else if a == i {
                assert(after[b] == before[b - 1]);
            } else if a > i {
                assert(after[a] == before[a - 1]);
                assert(after[b] == before[b - 1]);
            }
        }
        assert(after.to_set() =~= before.to_set().insert(p)) by {
            assert forall|x: CgroupPid| after.to_set().contains(x) implies before.to_set().insert(
                p,
            ).contains(x) by {
                let k = choose|k: int| 0 <= k < after.len() && after[k] == x;
                if k < i {
                    assert(before[k] == x);
                } else if k > i {
                    assert(before[k - 1] == x);
                }
            }
            assert forall|x: CgroupPid| before.to_set().insert(p).contains(
                x,
            ) implies after.to_set().contains(x) by {
                if x == p {
                    assert(after[i as int] == x);
                } else {
                    let k = choose|k: int| 0 <= k < before.len() && before[k] == x;
                    if k < i {
                        assert(after[k] == x);
                    } else {
                        assert(after[k + 1] == x);
                    }
                }
            }
        }
    }
}

impl<'b, H: Hierarchy> View for Cgroup<'b, H> {
    type V = Seq<SubsystemView>;

    closed spec fn view(&self) -> Seq<SubsystemView> {
        views(self.subsystems@)
    }
}

impl<'b, H: Hierarchy> Cgroup<'b, H> {
    /// The subsystems that control this group.
    pub closed spec fn subs(&self) -> Seq<Subsystem> {
        self.subsystems@
    }

    /// The root directory of the hierarchy that this group belongs to.
    pub closed spec fn root_view(&self) -> Seq<char> {
        self.hier.root_view()
    }

    /// The directories to make so that this control group exists: that of each subsystem
    /// whose path lies below its base directory.
    pub fn create(&self) -> (r: Vec<String>)
        ensures
            strings_view(r@) == valid_dirs(self@),
    {
        let mut dirs: Vec<String> = Vec::new();
        let ghost v = views(self.subsystems@);
        let mut i: usize = 0;
        assert(v.take(0) =~= Seq::<SubsystemView>::empty());
        assert(strings_view(dirs@) =~= Seq::<Seq<char>>::empty());
        while i < self.subsystems.len()
            invariant
                i <= self.subsystems.len(),
                v == views(self.subsystems@),
                strings_view(dirs@) == valid_dirs(v.take(i as int)),
            decreases self.subsystems.len() - i,
        {
            assert(v.take(i as int + 1).drop_last() =~= v.take(i as int));
            assert(v.take(i as int + 1).last() == self.subsystems[i as int]@);
            match self.subsystems[i].create() {
                Ok(dir) => {
                    let ghost before = strings_view(dirs@);
                    dirs.push(dir);
                    assert(strings_view(dirs@) =~= before.push(dir@));
                },
                Err(_) => {},
            }
            i += 1;
        }
        assert(v.take(self.subsystems.len() as int) =~= v);
        dirs
    }

    /// Create a new control group in the hierarchy `hier`, with name `path`.
    ///
    /// Returns a handle to the control group that can be used to manipulate it, and the
    /// directories to make so that the group exists.
    ///
    /// Note that if the handle goes out of scope and is dropped, the control group is _not_
    /// destroyed.
    pub fn new(hier: &'b H, fs: &Snapshot, path: &str) -> (r: (Cgroup<'b, H>, Vec<String>))
        ensures
            r.0@ == entered_all(supported(all_kinds(), hier.root_view(), fs.dirs()), path@),
            r.0.root_view() == hier.root_view(),
            strings_view(r.1@) == valid_dirs(r.0@),
    {
        let cg = Cgroup::load(hier, fs, path);
        let dirs = cg.create();
        (cg, dirs)
    }

    /// Create a handle for a control group in the hierarchy `hier`, with name `path`.
    ///
    /// Returns a handle to the control group (that possibly does not exist until `create()` has
    /// been called on the cgroup.
    ///
    /// Note that if the handle goes out of scope and is dropped, the control group is _not_
    /// destroyed.
    pub fn load(hier: &'b H, fs: &Snapshot, path: &str) -> (r: Cgroup<'b, H>)
        ensures
            r@ == entered_all(supported(all_kinds(), hier.root_view(), fs.dirs()), path@),
            r.root_view() == hier.root_view(),
    {
        let roots = hier.subsystems(fs);
        let ghost rv = views(roots@);
        if path.unicode_len() == 0 {
            return Cgroup { subsystems: roots, hier };
        }
        let mut subsystems: Vec<Subsystem> = Vec::new();
        let mut i: usize = 0;
        while i < roots.len()
            invariant
                i <= roots.len(),
                rv == views(roots@),
                views(subsystems@) == Seq::new(i as nat, |k: int| entered(rv[k], path@)),
                views(subsystems@).len() == i,
            decreases roots.len() - i,
        {
            let sub = roots[i].scoped_to(path);
            assert(sub@ == entered(rv[i as int], path@));
            let ghost before = views(subsystems@);
            subsystems.push(sub);
            assert(views(subsystems@) =~= before.push(sub@));
            i += 1;
            assert(views(subsystems@) =~= Seq::new(i as nat, |k: int| entered(rv[k], path@)));
        }
        let cg = Cgroup { subsystems, hier };
        assert(cg@ =~= entered_all(rv, path@));
        cg
    }

    /// The list of subsystems that this control group supports.
    pub fn subsystems(&self) -> (r: &Vec<Subsystem>)
        ensures
            r@ == self.subs(),
            views(r@) == self@,
    {
        &self.subsystems
    }

    /// Deletes the control group: gives the directories to remove, that of each subsystem that
    /// exists in `fs`.
    ///
    /// Note that this function makes no effort in cleaning up the descendant and the underlying
    /// system call will fail if there are any descendants. Thus, one should check whether it was
    /// actually removed, and remove the descendants first if not.
    pub fn delete(self, fs: &Snapshot) -> (r: Vec<String>)
        ensures
            strings_view(r@) == existing_dirs(self@, fs.dirs()),
    {
        let mut dirs: Vec<String> = Vec::new();
        let ghost v = views(self.subsystems@);
        let mut i: usize = 0;
        assert(v.take(0) =~= Seq::<SubsystemView>::empty());
        assert(strings_view(dirs@) =~= Seq::<Seq<char>>::empty());
        while i < self.subsystems.len()
            invariant
                i <= self.subsystems.len(),
                v == views(self.subsystems@),
                strings_view(dirs@) == existing_dirs(v.take(i as int), fs.dirs()),
            decreases self.subsystems.len() - i,
        {
            assert(v.take(i as int + 1).drop_last() =~= v.take(i as int));
            assert(v.take(i as int + 1).last() == self.subsystems[i as int]@);
            match self.subsystems[i].delete(fs) {
                Some(dir) => {
                    let ghost before = strings_view(dirs@);
                    dirs.push(dir);
                    assert(strings_view(dirs@) =~= before.push(dir@));
                },
                None => {},
            }
            i += 1;
        }
        assert(v.take(self.subsystems.len() as int) =~= v);
        dirs
    }

    /// The plan that applies a set of resource limits to the control group: the plan of each
    /// subsystem in turn. Carrying it out stops at the first failure.
    pub fn apply(&self, res: &Resources) -> (p: Plan)
        ensures
            p@ == plan_all(self@, res),
    {
        let mut plan = Plan::new();
        let ghost v = views(self.subsystems@);
        let mut i: usize = 0;
        assert(v.take(0) =~= Seq::<SubsystemView>::empty());
        while i < self.subsystems.len()
            invariant
                i <= self.subsystems.len(),
                v == views(self.subsystems@),
                plan@ == plan_all(v.take(i as int), res),
            decreases self.subsystems.len() - i,
        {
            assert(v.take(i as int + 1).drop_last() =~= v.take(i as int));
            assert(v.take(i as int + 1).last() == self.subsystems[i as int]@);
            let next = ControllerInternal::apply(&self.subsystems[i], res);
            plan = plan.followed_by(next);
            i += 1;
        }
        assert(v.take(self.subsystems.len() as int) =~= v);
        plan
    }

    /// Retrieve a container based on type inference: the controller of the first subsystem
    /// of this group that is of the type asked for, if there is one.
    ///
    /// ## Example:
    ///
    /// ```text
    /// let pids: &PidController = control_group.controller_of()
    ///                             .expect("No pids controller attached!");
    /// let cpu: &CpuController = control_group.controller_of()
    ///                             .expect("No cpu controller attached!");
    /// ```
    pub fn controller_of<'a, T: ControllIdentifier>(&'a self) -> (r: Option<&'a T>)
        ensures
            match first_of(self.subs(), T::type_spec(), 0) {
                Some(i) => match r {
                    Some(c) => T::held_by(&self.subs()[i]) == Some(*c),
                    None => T::held_by(&self.subs()[i]) is None,
                },
                None => r is None,
            },
    {
        let mut i: usize = 0;
        while i < self.subsystems.len()
            invariant
                i <= self.subsystems.len(),
                first_of(self.subs(), T::type_spec(), 0) == first_of(
                    self.subs(),
                    T::type_spec(),
                    i as int,
                ),
            decreases self.subsystems.len() - i,
        {
            let sub = &self.subsystems[i];
            if sub.control_type() == T::controller_type() {
                return T::of(sub);
            }
            i += 1;
        }
        None
    }

    /// The plan that removes a task from the control group.
    ///
    /// Note that this means that the task will be moved back to the root control group in the
    /// hierarchy and any rules applied to that control group will _still_ apply to the task:
    /// the plan attaches the task to the root control group of the hierarchy, as `fs` shows it.
    pub fn remove_task(&self, fs: &Snapshot, pid: CgroupPid) -> (p: Plan)
        ensures
            p@ == attach_all(supported(all_kinds(), self.root_view(), fs.dirs()), pid.pid),
    {
        proof {
            reveal_strlit("");
        }
        let root = Cgroup::load(self.hier, fs, "");
        root.add_task(pid)
    }

    /// The plan that attaches a task to the control group: one write to the `tasks` file of
    /// each subsystem, in turn.
    pub fn add_task(&self, pid: CgroupPid) -> (p: Plan)
        ensures
            p@ == attach_all(self@, pid.pid),
    {
        let mut plan = Plan::new();
        let ghost v = views(self.subsystems@);
        let mut i: usize = 0;
        assert(v.take(0) =~= Seq::<SubsystemView>::empty());
        while i < self.subsystems.len()
            invariant
                i <= self.subsystems.len(),
                v == views(self.subsystems@),
                plan@ == attach_all(v.take(i as int), pid.pid),
            decreases self.subsystems.len() - i,
        {
            assert(v.take(i as int + 1).drop_last() =~= v.take(i as int));
            assert(v.take(i as int + 1).last() == self.subsystems[i as int]@);
            let mut settings: Vec<ApplyStep> = Vec::new();
            settings.push(ApplyStep::text("tasks", u64_to_string(pid.pid)));
            assert(crate::apply::steps_view(settings@) =~= seq![
                text_step("tasks"@, decimal(pid.pid as nat)),
            ]);
            let next = self.subsystems[i].plan_for(settings);
            plan = plan.followed_by(next);
            i += 1;
        }
        assert(v.take(self.subsystems.len() as int) =~= v);
        plan
    }

    /// The tasks that are currently in the control group: those that the subsystems list, in
    /// rising order, each once.
    pub fn tasks(&self, fs: &Snapshot) -> (r: Vec<CgroupPid>)
        ensures
            rising(r@),
            r@.to_set() == tasks_listed(self@, fs.files()).to_set(),
    {
        let mut out: Vec<CgroupPid> = Vec::new();
        let ghost v = views(self.subsystems@);
        let mut i: usize = 0;
        assert(v.take(0) =~= Seq::<SubsystemView>::empty());
        assert(out@.to_set() =~= tasks_listed(v.take(0), fs.files()).to_set());
        while i < self.subsystems.len()
            invariant
                i <= self.subsystems.len(),
                v == views(self.subsystems@),
                rising(out@),
                out@.to_set() == tasks_listed(v.take(i as int), fs.files()).to_set(),
            decreases self.subsystems.len() - i,
        {
            assert(v.take(i as int + 1).drop_last() =~= v.take(i as int));
            assert(v.take(i as int + 1).last() == self.subsystems[i as int]@);
            let listed = self.subsystems[i].tasks(fs);
            let ghost head = tasks_listed(v.take(i as int), fs.files());
            assert(listed@ == tasks_in(self.subsystems[i as int]@, fs.files()));
            let mut k: usize = 0;
            assert(head + listed@.take(0) =~= head);
            while k < listed.len()
                invariant
                    k <= listed.len(),
                    rising(out@),
                    out@.to_set() == (head + listed@.take(k as int)).to_set(),
                decreases listed.len() - k,
            {
                let ghost before = head + listed@.take(k as int);
                insert_rising(&mut out, listed[k]);
                k += 1;
                assert((head + listed@.take(k as int)) =~= before.push(listed@[k - 1]));
                assert(before.push(listed@[k - 1]).to_set() =~= before.to_set().insert(
                    listed@[k - 1],
                )) by {
                    let after = before.push(listed@[k - 1]);
                    assert forall|x: CgroupPid| after.to_set().contains(x) implies before.to_set().insert(
                        listed@[k - 1],
                    ).contains(x) by {
                        let j = choose|j: int| 0 <= j < after.len() && after[j] == x;
                        if j < before.len() {
                            assert(before[j] == x);
                        }
                    }
                    assert forall|x: CgroupPid|
                        before.to_set().insert(listed@[k - 1]).contains(
                            x,
                        ) implies after.to_set().contains(x) by {
                        if x == listed@[k - 1] {
                            assert(after[before.len() as int] == x);
                        } else {
                            let j = choose|j: int| 0 <= j < before.len() && before[j] == x;
                            assert(after[j] == x);
                        }
                    }
                }
            }
            assert(listed@.take(listed.len() as int) =~= listed@);
            i += 1;
        }
        assert(v.take(self.subsystems.len() as int) =~= v);
        out
    }
}

} // verus!

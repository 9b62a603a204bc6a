//! What holds of the library as a whole, beyond the contract of any one function.
//!
//! Where a law speaks of what files hold after a write, it speaks of files that
//! keep each text as it was written. The files of the kernel do so for the
//! values that the kernel takes as they are.
use vstd::prelude::*;
use crate::apply::{
    after_read, after_write, chain, check_spec, next_spec, outcome, outcome_from, ActionView,
    Expected, PlanView, RunView, Step,
};
use crate::cgroup::{attach_all, attach_plan, plan_all, rising, tasks_in, tasks_listed};
use crate::controller::{
    file_number, file_text, no_plan, number_of, plan_of, tasks_of_text, task_of_line, write_spec,
    Controllers,
};
use crate::devices::{
    number_or_any, number_text, perm_char, perm_of_char, perms_of, perms_text, perms_valid,
    rule_of_line, rule_text, type_char, DevicePermissions, DeviceRule, DeviceType,
};
use crate::error::ErrorKind;
use crate::net_cls::{class_text, hex_value, lemma_class_text_value};
use crate::path::{below, join_spec};
use crate::pid::{pid_max_spec, pid_max_text, PidMax};
use crate::resources::{CgroupPid, Resources};
use crate::subsystem::{settings_for, view_plan, SubsystemView};
use crate::text::{
    decimal, digit, lemma_decimal_value, lemma_parse_decimal, lemma_parse_signed_decimal,
    lines_spec, signed_decimal, space, split_spec, trim_spec,
};

verus! {

/// Whether the section of `res` that concerns the subsystem `kind` asks to be
/// applied. Subsystems that take no resources have no such section.
pub open spec fn section_set(kind: Controllers, res: &Resources) -> bool {
    match kind {
        Controllers::Pids => res.pid.update_values,
        Controllers::Mem => res.memory.update_values,
        Controllers::CpuSet => res.cpu.update_values,
        Controllers::Cpu => res.cpu.update_values,
        Controllers::Devices => res.devices.update_values,
        Controllers::NetCls => res.network.update_values,
        Controllers::NetPrio => res.network.update_values,
        Controllers::BlkIo => res.blkio.update_values,
        Controllers::HugeTlb => res.hugepages.update_values,
        Controllers::CpuAcct => false,
        Controllers::Freezer => false,
        Controllers::PerfEvent => false,
        Controllers::Rdma => false,
    }
}

/// A controller whose path has left its base directory names no file: it gives
/// no write, reads no file, and refuses every plan that has something to set,
/// whatever the file and whatever is to be done with it.
pub proof fn law_escaped_path_is_refused(
    base: Seq<char>,
    path: Seq<char>,
    name: Seq<char>,
    data: Seq<char>,
    files: Map<Seq<char>, Seq<char>>,
    settings: Seq<Step>,
)
    requires
        !below(path, base),
    ensures
        write_spec(base, path, name, data) == Err::<(Seq<char>, Seq<char>), ErrorKind>(
            ErrorKind::InvalidPath,
        ),
        file_text(base, path, files, name) == Err::<Seq<char>, ErrorKind>(ErrorKind::InvalidPath),
        settings.len() > 0 ==> plan_of(base, path, settings) == (PlanView {
            steps: Seq::<Step>::empty(),
            refusal: Some(ErrorKind::InvalidPath),
        }),
{
}

/// Applying resources writes nothing to the files of a subsystem whose section
/// does not ask to be applied: the plan for that subsystem is empty.
pub proof fn law_unset_section_writes_nothing(v: SubsystemView, res: &Resources)
    requires
        !section_set(v.kind, res),
    ensures
        view_plan(v, res) == no_plan(),
{
    assert(settings_for(v.kind, v.unified, res) =~= Seq::<Step>::empty());
}

/// Carrying out a plan and then one that is empty is carrying out the first.
pub proof fn lemma_chain_nothing(a: PlanView)
    ensures
        chain(a, no_plan()) == a,
{
    if a.refusal is None {
        assert(a.steps + Seq::<Step>::empty() =~= a.steps);
    }
}

/// A subsystem whose section does not ask to be applied adds nothing to the
/// plan of a control group: the plan is what it would be without that subsystem.
pub proof fn law_unset_subsystem_is_passed_over(
    subs: Seq<SubsystemView>,
    k: int,
    res: &Resources,
)
    requires
        0 <= k < subs.len(),
        !section_set(subs[k].kind, res),
    ensures
        plan_all(subs, res) == plan_all(subs.remove(k), res),
    decreases subs.len(),
{
    law_unset_section_writes_nothing(subs[k], res);
    if k == subs.len() - 1 {
        assert(subs.remove(k) =~= subs.drop_last());
        lemma_chain_nothing(plan_all(subs.drop_last(), res));
    } else {
        law_unset_subsystem_is_passed_over(subs.drop_last(), k, res);
        assert(subs.remove(k).drop_last() =~= subs.drop_last().remove(k));
        assert(subs.remove(k).last() == subs.last());
    }
}

/// Resources that ask for nothing give the empty plan, whatever the subsystems
/// of the control group.
pub proof fn law_nothing_asked_nothing_written(subs: Seq<SubsystemView>, res: &Resources)
    requires
        res.asks_nothing(),
    ensures
        plan_all(subs, res) == no_plan(),
    decreases subs.len(),
{
    if subs.len() > 0 {
        law_nothing_asked_nothing_written(subs.drop_last(), res);
        law_unset_section_writes_nothing(subs.last(), res);
        lemma_chain_nothing(no_plan());
    }
}

/// A text that neither starts nor ends with white space is left as it is when
/// the white space around it is cut.
pub proof fn lemma_trim_keeps(s: Seq<char>)
    requires
        s.len() > 0,
        !space(s[0]),
        !space(s.last()),
    ensures
        trim_spec(s) == s,
{
}

/// The decimal spelling of a number reads back as that number, also through a
/// reader that cuts white space first.
pub proof fn lemma_number_of_decimal(v: u64)
    ensures
        number_of(decimal(v as nat)) == Ok::<u64, ErrorKind>(v),
        check_spec(Expected::Number(v), decimal(v as nat)) is None,
{
    let d = decimal(v as nat);
    lemma_decimal_value(v as nat);
    lemma_parse_decimal(v);
    assert(digit(d[0]) && digit(d.last()));
    lemma_trim_keeps(d);
}

/// The text written for a limit on the number of tasks reads back as that limit.
pub proof fn lemma_pid_max_round_trip(max: PidMax)
    ensures
        pid_max_spec(pid_max_text(max)) == Some(max),
        check_spec(Expected::Limit(max), pid_max_text(max)) is None,
{
    reveal_strlit("max");
    match max {
        PidMax::Max => {
            let t = "max"@;
            assert(t[0] == 'm' && t.last() == 'x');
            lemma_trim_keeps(t);
        },
        PidMax::Value(n) => {
            let t = signed_decimal(n as int);
            if n < 0 {
                lemma_decimal_value((-n) as nat);
                let d = decimal((-n) as nat);
                assert(t.last() == d.last());
                assert(digit(d.last()));
                assert(t[0] == '-');
            } else {
                lemma_decimal_value(n as nat);
                assert(digit(t[0]) && digit(t.last()));
            }
            lemma_trim_keeps(t);
            lemma_parse_signed_decimal(n);
            assert(t[0] != 'm');
        },
    }
}

/// Round trip of a number through a file: where a controller with a valid path
/// writes the decimal spelling of `v` to its file `name`, and the file keeps
/// what was written, reading the number of that file gives `v`. This is how
/// `set_shares` and `shares`, `set_cfs_period` and `cfs_period`, `set_cfs_quota`
/// and `cfs_quota` go together, and every other setter of a number with the
/// getter of the same file.
pub proof fn law_number_round_trip(
    base: Seq<char>,
    path: Seq<char>,
    name: Seq<char>,
    v: u64,
    files: Map<Seq<char>, Seq<char>>,
)
    requires
        below(path, base),
    ensures
        write_spec(base, path, name, decimal(v as nat)) == Ok::<
            (Seq<char>, Seq<char>),
            ErrorKind,
        >((join_spec(path, name), decimal(v as nat))),
        file_number(
            base,
            path,
            files.insert(join_spec(path, name), decimal(v as nat)),
            name,
        ) == Ok::<u64, ErrorKind>(v),
{
    lemma_number_of_decimal(v);
}

/// Round trip of the limit on the number of tasks: where a controller with a
/// valid path writes the text of `max` to `pids.max`, as `set_pid_max` asks,
/// and the file keeps what was written, `get_pid_max` reads `max`.
pub proof fn law_pid_max_round_trip(
    base: Seq<char>,
    path: Seq<char>,
    max: PidMax,
    files: Map<Seq<char>, Seq<char>>,
)
    requires
        below(path, base),
    ensures
        write_spec(base, path, "pids.max"@, pid_max_text(max)) == Ok::<
            (Seq<char>, Seq<char>),
            ErrorKind,
        >((join_spec(path, "pids.max"@), pid_max_text(max))),
        file_text(
            base,
            path,
            files.insert(join_spec(path, "pids.max"@), pid_max_text(max)),
            "pids.max"@,
        ) == Ok::<Seq<char>, ErrorKind>(pid_max_text(max)),
        pid_max_spec(pid_max_text(max)) == Some(max),
{
    lemma_pid_max_round_trip(max);
}

/// Round trip of the class identifier. What `set_class` writes is `0x` and the
/// identifier in hexadecimal, and the kernel lists the identifier in decimal;
/// `get_class` reads that decimal spelling as the identifier.
pub proof fn law_class_round_trip(class: u64)
    ensures
        class_text(class)[0] == '0',
        class_text(class)[1] == 'x',
        hex_value(class_text(class).skip(2)) == class,
        number_of(decimal(class as nat)) == Ok::<u64, ErrorKind>(class),
{
    lemma_class_text_value(class);
    lemma_number_of_decimal(class);
}

/// The files after the writes of `steps[from..to]`, in order.
pub open spec fn written(
    steps: Seq<Step>,
    from: int,
    to: int,
    files: Map<Seq<char>, Seq<char>>,
) -> Map<Seq<char>, Seq<char>>
    decreases to - from,
{
    if to <= from {
        files
    } else {
        written(steps, from, to - 1, files).insert(steps[to - 1].path, steps[to - 1].data)
    }
}

/// The text that the last of the writes of `steps[from..to]` to the file `p`
/// leaves there, if one of them writes to `p`.
pub open spec fn last_write(steps: Seq<Step>, from: int, to: int, p: Seq<char>) -> Option<
    Seq<char>,
>
    decreases to - from,
{
    if to <= from {
        None
    } else if steps[to - 1].path == p {
        Some(steps[to - 1].data)
    } else {
        last_write(steps, from, to - 1, p)
    }
}

/// Where carrying out `steps[from..]` stops: behind the first step whose file
/// does not read back as asked, or behind the last step.
pub open spec fn reached(steps: Seq<Step>, from: int) -> int
    decreases steps.len() - from,
{
    if from < 0 || from >= steps.len() {
        from
    } else if check_spec(steps[from].expect, steps[from].data) is Some {
        from + 1
    } else {
        reached(steps, from + 1)
    }
}

/// Carrying out steps goes forward, and no further than the last step.
pub proof fn lemma_reached_bounds(steps: Seq<Step>, from: int)
    requires
        0 <= from <= steps.len(),
    ensures
        from <= reached(steps, from) <= steps.len(),
        from < steps.len() ==> from < reached(steps, from),
    decreases steps.len() - from,
{
    if from < steps.len() && check_spec(steps[from].expect, steps[from].data) is None {
        lemma_reached_bounds(steps, from + 1);
    }
}

/// The writes of `steps[from..to]` are the write of `steps[from]` and then
/// those of `steps[from + 1..to]`.
pub proof fn lemma_written_first(
    steps: Seq<Step>,
    from: int,
    to: int,
    files: Map<Seq<char>, Seq<char>>,
)
    requires
        0 <= from < to <= steps.len(),
    ensures
        written(steps, from, to, files) == written(
            steps,
            from + 1,
            to,
            files.insert(steps[from].path, steps[from].data),
        ),
    decreases to - from,
{
    let next = files.insert(steps[from].path, steps[from].data);
    if to > from + 1 {
        lemma_written_first(steps, from, to - 1, files);
    } else {
        assert(written(steps, from, from, files) == files);
        assert(written(steps, from + 1, from + 1, next) == next);
    }
}

/// What a file holds after the writes of `steps[from..to]`: what the last
/// write to it left, or what it held before where none wrote to it.
pub proof fn lemma_written_at(
    steps: Seq<Step>,
    from: int,
    to: int,
    files: Map<Seq<char>, Seq<char>>,
    p: Seq<char>,
)
    requires
        0 <= from <= to <= steps.len(),
    ensures
        written(steps, from, to, files).contains_key(p) <==> (last_write(steps, from, to, p)
            is Some || files.contains_key(p)),
        last_write(steps, from, to, p) is Some ==> written(steps, from, to, files)[p]
            == last_write(steps, from, to, p)->0,
        last_write(steps, from, to, p) is None && files.contains_key(p) ==> written(
            steps,
            from,
            to,
            files,
        )[p] == files[p],
    decreases to - from,
{
    if to > from {
        lemma_written_at(steps, from, to - 1, files, p);
    }
}

/// What carrying out `steps[from..]` gives: the files after the writes up to
/// where it stops, and a result that does not depend on the files.
pub proof fn lemma_outcome_is_written(
    steps: Seq<Step>,
    refusal: Option<ErrorKind>,
    from: int,
    files: Map<Seq<char>, Seq<char>>,
    other: Map<Seq<char>, Seq<char>>,
)
    requires
        0 <= from <= steps.len(),
    ensures
        outcome_from(steps, refusal, from, files).1 == written(
            steps,
            from,
            reached(steps, from),
            files,
        ),
        outcome_from(steps, refusal, from, files).0 == outcome_from(steps, refusal, from, other).0,
    decreases steps.len() - from,
{
    if from < steps.len() {
        let step = steps[from];
        let next = files.insert(step.path, step.data);
        if check_spec(step.expect, step.data) is None {
            lemma_outcome_is_written(
                steps,
                refusal,
                from + 1,
                next,
                other.insert(step.path, step.data),
            );
            lemma_reached_bounds(steps, from);
            lemma_written_first(steps, from, reached(steps, from), files);
        } else {
            assert(written(steps, from, from, files) == files);
        }
    }
}

/// Making the same writes a second time changes nothing.
pub proof fn lemma_written_twice(
    steps: Seq<Step>,
    from: int,
    to: int,
    files: Map<Seq<char>, Seq<char>>,
)
    requires
        0 <= from <= to <= steps.len(),
    ensures
        written(steps, from, to, written(steps, from, to, files)) == written(
            steps,
            from,
            to,
            files,
        ),
{
    let once = written(steps, from, to, files);
    let twice = written(steps, from, to, once);
    assert forall|p: Seq<char>| twice.dom().contains(p) <==> once.dom().contains(p) by {
        lemma_written_at(steps, from, to, files, p);
        lemma_written_at(steps, from, to, once, p);
    }
    assert forall|p: Seq<char>| once.dom().contains(p) implies twice[p] == once[p] by {
        lemma_written_at(steps, from, to, files, p);
        lemma_written_at(steps, from, to, once, p);
    }
    assert(twice =~= once);
}

/// Applying the same resources twice leaves what applying them once leaves:
/// carrying out a plan on the files that carrying it out has left gives the
/// same result and the same files. This holds of files that keep the last text
/// written to them. The kernel's `devices.allow`, `devices.deny` and the files
/// that take one entry for each device or interface are not such files: each
/// write adds to what they list.
pub proof fn law_apply_twice_is_apply_once(plan: PlanView, files: Map<Seq<char>, Seq<char>>)
    ensures
        outcome(plan, outcome(plan, files).1) == outcome(plan, files),
{
    let once = outcome(plan, files).1;
    lemma_outcome_is_written(plan.steps, plan.refusal, 0, files, once);
    lemma_outcome_is_written(plan.steps, plan.refusal, 0, once, files);
    lemma_reached_bounds(plan.steps, 0);
    lemma_written_twice(plan.steps, 0, reached(plan.steps, 0), files);
}

/// The plan that attaches `pid` to the subsystem `v`, as a step.
pub open spec fn attach_step(v: SubsystemView, pid: u64) -> Step {
    Step {
        path: join_spec(v.path, "tasks"@),
        data: decimal(pid as nat),
        expect: Expected::Unchecked,
    }
}

/// Whether each of `subs` has a path that lies at or below its base directory.
pub open spec fn all_valid(subs: Seq<SubsystemView>) -> bool {
    forall|i: int| 0 <= i < subs.len() ==> below(#[trigger] subs[i].path, subs[i].base)
}

/// Attaching a task to subsystems with valid paths is one write for each, in order.
pub proof fn lemma_attach_steps(subs: Seq<SubsystemView>, pid: u64)
    requires
        all_valid(subs),
    ensures
        attach_all(subs, pid) == (PlanView {
            steps: Seq::new(subs.len(), |i: int| attach_step(subs[i], pid)),
            refusal: None,
        }),
    decreases subs.len(),
{
    let want = Seq::new(subs.len(), |i: int| attach_step(subs[i], pid));
    if subs.len() == 0 {
        assert(attach_all(subs, pid).steps =~= want);
    } else {
        let rest = subs.drop_last();
        assert(all_valid(rest)) by {
            assert forall|i: int| 0 <= i < rest.len() implies below(
                #[trigger] rest[i].path,
                rest[i].base,
            ) by {
                assert(rest[i] == subs[i]);
            }
        }
        lemma_attach_steps(rest, pid);
        let last = subs.last();
        assert(below(subs[subs.len() - 1].path, subs[subs.len() - 1].base));
        let one = attach_plan(last, pid);
        assert(one.steps =~= seq![attach_step(last, pid)]);
        assert(attach_all(subs, pid).steps =~= want);
    }
}

/// Steps that are not read back all go through.
pub proof fn lemma_unchecked_reach_end(steps: Seq<Step>, from: int)
    requires
        0 <= from <= steps.len(),
        forall|i: int| 0 <= i < steps.len() ==> (#[trigger] steps[i]).expect is Unchecked,
    ensures
        reached(steps, from) == steps.len(),
        forall|files: Map<Seq<char>, Seq<char>>|
            (#[trigger] outcome_from(steps, None, from, files)).0 is Ok,
    decreases steps.len() - from,
{
    if from < steps.len() {
        lemma_unchecked_reach_end(steps, from + 1);
        assert forall|files: Map<Seq<char>, Seq<char>>|
            (#[trigger] outcome_from(steps, None, from, files)).0 is Ok by {
            let next = files.insert(steps[from].path, steps[from].data);
            assert(outcome_from(steps, None, from + 1, next).0 is Ok);
        }
    }
}

/// Where every step writes the same text, a file that one of them writes to
/// holds that text afterwards.
pub proof fn lemma_same_text_written(
    steps: Seq<Step>,
    from: int,
    to: int,
    d: Seq<char>,
    i: int,
)
    requires
        0 <= from <= i < to <= steps.len(),
        forall|k: int| 0 <= k < steps.len() ==> (#[trigger] steps[k]).data == d,
    ensures
        last_write(steps, from, to, steps[i].path) == Some(d),
    decreases to - from,
{
    if steps[to - 1].path != steps[i].path {
        lemma_same_text_written(steps, from, to - 1, d, i);
    }
}

/// A text without separators is one piece.
pub proof fn lemma_split_whole(s: Seq<char>, a: char, b: char)
    requires
        forall|i: int| 0 <= i < s.len() ==> s[i] != a && s[i] != b,
    ensures
        split_spec(s, a, b) == seq![s],
    decreases s.len(),
{
    if s.len() == 0 {
        assert(s =~= Seq::<char>::empty());
    } else {
        lemma_split_whole(s.drop_last(), a, b);
        let p = split_spec(s.drop_last(), a, b);
        assert(p.last().push(s.last()) =~= s);
        assert(p.drop_last().push(s) =~= seq![s]);
    }
}

/// A `tasks` file that holds the decimal spelling of `pid` lists that task and no other.
pub proof fn lemma_tasks_of_decimal(pid: u64)
    ensures
        tasks_of_text(decimal(pid as nat)) == seq![CgroupPid { pid }],
{
    let d = decimal(pid as nat);
    lemma_decimal_value(pid as nat);
    assert forall|i: int| 0 <= i < d.len() implies d[i] != '\n' by {
        assert(digit(d[i]));
    }
    lemma_split_whole(d, '\n', '\n');
    let l = lines_spec(d);
    assert(l =~= seq![d]);
    lemma_number_of_decimal(pid);
    assert(task_of_line(d) == CgroupPid { pid });
    assert(tasks_of_text(d) =~= seq![CgroupPid { pid }]);
}

/// Subsystems that each list the one task `x` list, together, `x` and nothing else.
pub proof fn lemma_all_list_one(
    subs: Seq<SubsystemView>,
    files: Map<Seq<char>, Seq<char>>,
    x: CgroupPid,
)
    requires
        forall|i: int| 0 <= i < subs.len() ==> tasks_in(#[trigger] subs[i], files) == seq![x],
    ensures
        tasks_listed(subs, files) == Seq::new(subs.len(), |i: int| x),
    decreases subs.len(),
{
    if subs.len() == 0 {
        assert(tasks_listed(subs, files) =~= Seq::new(0, |i: int| x));
    } else {
        let rest = subs.drop_last();
        assert forall|i: int| 0 <= i < rest.len() implies tasks_in(#[trigger] rest[i], files)
            == seq![x] by {
            assert(rest[i] == subs[i]);
        }
        lemma_all_list_one(rest, files, x);
        assert(tasks_in(subs[subs.len() - 1], files) == seq![x]);
        assert(tasks_listed(subs, files) =~= Seq::new(subs.len(), |i: int| x));
    }
}

/// A rising list that holds `x` and nothing else is the list of `x` alone.
pub proof fn lemma_rising_one(r: Seq<CgroupPid>, x: CgroupPid)
    requires
        rising(r),
        r.to_set() == set![x],
    ensures
        r == seq![x],
{
    assert(r.to_set().contains(x));
    assert(r.len() > 0);
    assert forall|i: int| 0 <= i < r.len() implies r[i] == x by {
        assert(r.to_set().contains(r[i]));
    }
    if r.len() >= 2 {
        assert(r[0].pid < r[1].pid);
    }
    assert(r =~= seq![x]);
}

/// After a task has been attached to a control group, the group lists that
/// task, once: where the group has a subsystem, the paths of its subsystems
/// are valid and the `tasks` files keep what is written to them, carrying out
/// the plan of `add_task` succeeds, and what `tasks` then returns, a rising
/// list of the tasks that the subsystems list, is the list of that task alone.
/// Attaching the task a second time changes nothing.
pub proof fn law_attached_task_is_listed_once(
    subs: Seq<SubsystemView>,
    pid: u64,
    files: Map<Seq<char>, Seq<char>>,
    listed: Seq<CgroupPid>,
)
    requires
        subs.len() > 0,
        all_valid(subs),
        rising(listed),
        listed.to_set() == tasks_listed(
            subs,
            outcome(attach_all(subs, pid), files).1,
        ).to_set(),
    ensures
        outcome(attach_all(subs, pid), files).0 is Ok,
        listed == seq![CgroupPid { pid }],
        outcome(attach_all(subs, pid), outcome(attach_all(subs, pid), files).1) == outcome(
            attach_all(subs, pid),
            files,
        ),
{
    let plan = attach_all(subs, pid);
    let steps = plan.steps;
    let d = decimal(pid as nat);
    let x = CgroupPid { pid };
    lemma_attach_steps(subs, pid);
    assert(steps.len() == subs.len());
    assert forall|i: int| 0 <= i < steps.len() implies (#[trigger] steps[i]).expect
        is Unchecked by {
        assert(steps[i] == attach_step(subs[i], pid));
    }
    assert forall|k: int| 0 <= k < steps.len() implies (#[trigger] steps[k]).data == d by {
        assert(steps[k] == attach_step(subs[k], pid));
    }
    lemma_unchecked_reach_end(steps, 0);
    let after = outcome(plan, files).1;
    assert(outcome_from(steps, None, 0, files).0 is Ok);
    lemma_outcome_is_written(steps, None, 0, files, files);
    assert(after == written(steps, 0, steps.len() as int, files));
    lemma_tasks_of_decimal(pid);
    assert forall|i: int| 0 <= i < subs.len() implies tasks_in(#[trigger] subs[i], after)
        == seq![x] by {
        assert(steps[i] == attach_step(subs[i], pid));
        lemma_same_text_written(steps, 0, steps.len() as int, d, i);
        lemma_written_at(steps, 0, steps.len() as int, files, steps[i].path);
        assert(below(subs[i].path, subs[i].base));
    }
    lemma_all_list_one(subs, after, x);
    let all = tasks_listed(subs, after);
    assert(all.to_set() =~= set![x]) by {
        assert(all[0] == x);
        assert forall|y: CgroupPid| all.to_set().contains(y) implies y == x by {
            let k = choose|k: int| 0 <= k < all.len() && all[k] == y;
        }
    }
    lemma_rising_one(listed, x);
    law_apply_twice_is_apply_once(plan, files);
}


/// One turn of a caller that carries out a run on files that keep what is
/// written to them: it does what the run asks for next and reports what
/// happened. A write goes through, and a file reads as it was last written.
pub open spec fn turn(s: RunView, files: Map<Seq<char>, Seq<char>>) -> (
    RunView,
    Map<Seq<char>, Seq<char>>,
) {
    match next_spec(s) {
        ActionView::Write { path, data } => (after_write(s, true), files.insert(path, data)),
        ActionView::Read { path } => (
            after_read(
                s,
                if files.contains_key(path) {
                    Some(files[path])
                } else {
                    None
                },
            ),
            files,
        ),
        ActionView::Finished(_) => (s, files),
    }
}

/// `n` turns of such a caller, one after the other.
pub open spec fn turns(s: RunView, files: Map<Seq<char>, Seq<char>>, n: nat) -> (
    RunView,
    Map<Seq<char>, Seq<char>>,
)
    decreases n,
{
    if n == 0 {
        (s, files)
    } else {
        let t = turn(s, files);
        turns(t.0, t.1, (n - 1) as nat)
    }
}

/// A run that has finished stays as it is.
pub proof fn lemma_finished_stays(s: RunView, files: Map<Seq<char>, Seq<char>>, n: nat)
    requires
        next_spec(s) is Finished,
    ensures
        turns(s, files, n) == (s, files),
    decreases n,
{
    if n > 0 {
        lemma_finished_stays(s, files, (n - 1) as nat);
    }
}

/// From a state between two steps, two turns for each step that is left bring
/// the run to its end, with the result and the files that carrying out the
/// rest of the plan gives.
pub proof fn lemma_turns_reach_outcome(s: RunView, files: Map<Seq<char>, Seq<char>>, n: nat)
    requires
        s.failed is None,
        !s.reading,
        s.done <= s.plan.steps.len(),
        n >= 2 * (s.plan.steps.len() - s.done),
    ensures
        next_spec(turns(s, files, n).0) == ActionView::Finished(
            outcome_from(s.plan.steps, s.plan.refusal, s.done as int, files).0,
        ),
        turns(s, files, n).1 == outcome_from(
            s.plan.steps,
            s.plan.refusal,
            s.done as int,
            files,
        ).1,
    decreases s.plan.steps.len() - s.done,
{
    if s.done >= s.plan.steps.len() {
        lemma_finished_stays(s, files, n);
    } else {
        let step = s.plan.steps[s.done as int];
        let wrote = files.insert(step.path, step.data);
        let s1 = after_write(s, true);
        assert(turn(s, files) == (s1, wrote));
        assert(turns(s, files, n) == turns(s1, wrote, (n - 1) as nat));
        if step.expect is Unchecked {
            lemma_turns_reach_outcome(s1, wrote, (n - 1) as nat);
        } else {
            let s2 = after_read(s1, Some(step.data));
            assert(next_spec(s1) == ActionView::Read { path: step.path });
            assert(turn(s1, wrote) == (s2, wrote));
            assert(turns(s1, wrote, (n - 1) as nat) == turns(s2, wrote, (n - 2) as nat));
            if check_spec(step.expect, step.data) is Some {
                lemma_finished_stays(s2, wrote, (n - 2) as nat);
            } else {
                lemma_turns_reach_outcome(s2, wrote, (n - 2) as nat);
            }
        }
    }
}

/// Carrying out a plan turn by turn, through a run, comes to the result and to
/// the files that the plan as a whole is said to give: on files that keep what
/// is written to them, a run that is started on `plan` has finished after two
/// turns for each step, with the result `outcome(plan, files).0`, and leaves
/// the files `outcome(plan, files).1`.
pub proof fn law_run_reaches_outcome(plan: PlanView, files: Map<Seq<char>, Seq<char>>, n: nat)
    requires
        n >= 2 * plan.steps.len(),
    ensures
        next_spec(
            turns(RunView { plan, done: 0, reading: false, failed: None }, files, n).0,
        ) == ActionView::Finished(outcome(plan, files).0),
        turns(RunView { plan, done: 0, reading: false, failed: None }, files, n).1 == outcome(
            plan,
            files,
        ).1,
{
    lemma_turns_reach_outcome(RunView { plan, done: 0, reading: false, failed: None }, files, n);
}


/// The pieces of a text that has a separator between `x` and `y` are the pieces
/// of `x` and then the pieces of `y`.
pub proof fn lemma_split_at_separator(x: Seq<char>, sep: char, y: Seq<char>, a: char, b: char)
    requires
        sep == a || sep == b,
    ensures
        split_spec(x.push(sep) + y, a, b) == split_spec(x, a, b) + split_spec(y, a, b),
    decreases y.len(),
{
    let whole = x.push(sep) + y;
    crate::text::lemma_split_nonempty(x, a, b);
    if y.len() == 0 {
        assert(whole =~= x.push(sep));
        assert(whole.drop_last() =~= x);
        assert(split_spec(whole, a, b) =~= split_spec(x, a, b) + split_spec(y, a, b));
    } else {
        lemma_split_at_separator(x, sep, y.drop_last(), a, b);
        crate::text::lemma_split_nonempty(y.drop_last(), a, b);
        assert(whole.drop_last() =~= x.push(sep) + y.drop_last());
        assert(whole.last() == y.last());
        assert(split_spec(whole, a, b) =~= split_spec(x, a, b) + split_spec(y, a, b));
    }
}

/// The text of a device number holds neither a space nor a colon, and reads
/// back as that number.
pub proof fn lemma_number_text(n: i64)
    ensures
        forall|i: int| 0 <= i < number_text(n).len() ==> number_text(n)[i] != ' ' && number_text(
            n,
        )[i] != ':',
        number_or_any(number_text(n)) == Some(n),
{
    let t = number_text(n);
    if n == -1 {
        assert(t =~= seq!['*']);
        assert(crate::text::parse_i64_spec(t) is None) by {
            assert(!digit(t[0]));
            assert(crate::text::without_plus(t) =~= t);
        }
    } else {
        lemma_parse_signed_decimal(n);
        if n < 0 {
            let d = decimal((-n) as nat);
            lemma_decimal_value((-n) as nat);
            assert forall|i: int| 0 <= i < t.len() implies t[i] != ' ' && t[i] != ':' by {
                if i > 0 {
                    assert(t[i] == d[i - 1]);
                    assert(digit(d[i - 1]));
                }
            }
        } else {
            lemma_decimal_value(n as nat);
            assert forall|i: int| 0 <= i < t.len() implies t[i] != ' ' && t[i] != ':' by {
                assert(digit(t[i]));
            }
        }
    }
}

/// The characters written for kinds of access read back as those kinds.
pub proof fn lemma_perms_text(perms: Seq<DevicePermissions>)
    ensures
        perms_of(perms_text(perms)) == perms,
        forall|i: int|
            0 <= i < perms.len() ==> perm_of_char(#[trigger] perms_text(perms)[i]) is Some,
    decreases perms.len(),
{
    let t = perms_text(perms);
    if perms.len() == 0 {
        assert(perms_of(t) =~= perms);
    } else {
        lemma_perms_text(perms.drop_last());
        assert(t.drop_last() =~= perms_text(perms.drop_last()));
        assert(perm_of_char(t.last()) == Some(perms.last()));
        assert(perms_of(t) =~= perms);
    }
}

/// A rule that is written as the kernel takes it reads back from the kernel's
/// list as the same rule: for every type of device, all device numbers and
/// every access that names at least one kind, the line `rule_text` gives is
/// read by `rule_of_line` as an allowed device with that type, those numbers
/// and that access.
pub proof fn law_rule_round_trip(
    devtype: DeviceType,
    major: i64,
    minor: i64,
    perms: Seq<DevicePermissions>,
)
    requires
        perms.len() > 0,
    ensures
        rule_of_line(rule_text(devtype, major, minor, perms)) == Some(
            DeviceRule { allow: true, devtype, major, minor, access: perms },
        ),
{
    let t = seq![type_char(devtype)];
    let ma = number_text(major);
    let mi = number_text(minor);
    let pt = perms_text(perms);
    let line = rule_text(devtype, major, minor, perms);
    lemma_number_text(major);
    lemma_number_text(minor);
    lemma_perms_text(perms);
    assert forall|i: int| 0 <= i < pt.len() implies pt[i] != ' ' && pt[i] != ':' by {
        assert(perm_of_char(pt[i]) is Some);
    }
    lemma_split_whole(t, ' ', ':');
    lemma_split_whole(ma, ' ', ':');
    lemma_split_whole(mi, ' ', ':');
    lemma_split_whole(pt, ' ', ':');
    let x1 = t.push(' ') + ma;
    let x2 = x1.push(':') + mi;
    let x3 = x2.push(' ') + pt;
    assert(line =~= x3);
    lemma_split_at_separator(t, ' ', ma, ' ', ':');
    lemma_split_at_separator(x1, ':', mi, ' ', ':');
    lemma_split_at_separator(x2, ' ', pt, ' ', ':');
    let ls = split_spec(line, ' ', ':');
    assert(ls =~= seq![t, ma, mi, pt]);
    assert(perms_valid(pt));
}

} // verus!

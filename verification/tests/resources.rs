//! Integration test about setting resources using `apply()`
use cgroups::apply::{Action, Plan, Run};
use cgroups::error::{Error, ErrorKind};
use cgroups::fs::Snapshot;
use cgroups::hierarchies::V1;
use cgroups::pid::{PidController, PidMax};
use cgroups::cpu::CpuController;
use cgroups::{Cgroup, ControllerInternal, CpuResources, PidResources, Resources};

const MOUNTINFO: &str =
    "36 25 0:31 / /sys/fs/cgroup ro,nosuid,nodev,noexec - tmpfs tmpfs ro,mode=755\n";

const NAMES: [&str; 13] = [
    "pids", "memory", "cpuset", "cpuacct", "cpu", "devices", "freezer", "net_cls", "blkio",
    "perf_event", "net_prio", "hugetlb", "rdma",
];

fn mounted() -> Snapshot {
    let mut fs = Snapshot::new();
    for name in NAMES {
        fs.add_dir(&format!("/sys/fs/cgroup/{}", name));
    }
    fs
}

/// Carries out a plan on files that keep what is written, and counts the writes.
fn carry_out(plan: Plan, fs: &mut Snapshot) -> (Result<(), Error>, usize) {
    let mut run = Run::start(plan);
    let mut writes = 0;
    loop {
        match run.next_action() {
            Action::Write(w) => {
                fs.write(&w);
                writes += 1;
                run.written(true);
            }
            Action::Read(path) => {
                let text = fs.read(&path);
                run.was_read(text.as_deref());
            }
            Action::Finished(result) => return (result, writes),
        }
    }
}

#[test]
fn pid_resources() {
    let h = V1::new(MOUNTINFO).unwrap();
    let mut fs = mounted();
    let (cg, dirs) = Cgroup::new(&h, &fs, "pid_resources");
    for dir in &dirs {
        fs.add_dir(dir);
    }
    {
        let res = Resources {
            pid: PidResources {
                update_values: true,
                maximum_number_of_processes: PidMax::Value(512),
            },
            ..Default::default()
        };
        carry_out(cg.apply(&res), &mut fs).0.unwrap();

        // verify
        let pidcontroller: &PidController = cg.controller_of().unwrap();
        let pid_max = pidcontroller.get_pid_max(&fs);
        assert_eq!(pid_max.is_ok(), true);
        assert_eq!(pid_max.unwrap(), PidMax::Value(512));
    }
    for dir in cg.delete(&fs) {
        fs.remove_dir(&dir);
    }
}

#[test]
fn applying_shares_sets_shares() {
    let h = V1::new(MOUNTINFO).unwrap();
    let mut fs = mounted();
    let (cg, dirs) = Cgroup::new(&h, &fs, "shares");
    for dir in &dirs {
        fs.add_dir(dir);
    }
    let res = Resources {
        cpu: CpuResources { shares: 85, update_values: true, ..Default::default() },
        ..Default::default()
    };
    let (result, writes) = carry_out(cg.apply(&res), &mut fs);
    assert!(result.is_ok());
    // Two lists for cpuset, then shares, period and quota for cpu.
    assert_eq!(writes, 5);
    let cpu: &CpuController = cg.controller_of().unwrap();
    assert_eq!(cpu.shares(&fs).unwrap(), 85);
    assert_eq!(cpu.cfs_period(&fs).unwrap(), 0);
    assert_eq!(cpu.cfs_quota(&fs).unwrap(), 0);
}

#[test]
fn resources_that_ask_for_nothing_write_nothing() {
    let h = V1::new(MOUNTINFO).unwrap();
    let mut fs = mounted();
    let (cg, _dirs) = Cgroup::new(&h, &fs, "idle");
    let mut res = Resources::default();
    // Values without the flag of their section mean nothing.
    res.cpu.shares = 85;
    res.memory.memory_hard_limit = 4096;
    res.pid.maximum_number_of_processes = PidMax::Value(3);
    res.network.class_id = 7;
    let plan = cg.apply(&res);
    assert_eq!(plan.steps().len(), 0);
    assert_eq!(plan.refusal(), None);
    let (result, writes) = carry_out(plan, &mut fs);
    assert!(result.is_ok());
    assert_eq!(writes, 0);
    for sub in cg.subsystems() {
        assert_eq!(sub.apply(&res).steps().len(), 0);
    }
}

#[test]
fn applying_twice_is_applying_once() {
    let h = V1::new(MOUNTINFO).unwrap();
    let mut fs = mounted();
    let (cg, _dirs) = Cgroup::new(&h, &fs, "again");
    let mut res = Resources::default();
    res.memory.update_values = true;
    res.memory.memory_hard_limit = 1 << 30;
    res.pid.update_values = true;
    res.pid.maximum_number_of_processes = PidMax::Value(9);
    assert!(cg.apply(&res).run_on(&mut fs).is_ok());
    let c: &PidController = cg.controller_of().unwrap();
    let once = (
        c.get_pid_max(&fs).unwrap(),
        fs.read("/sys/fs/cgroup/memory/again/memory.limit_in_bytes"),
        fs.read("/sys/fs/cgroup/memory/again/memory.swappiness"),
    );
    assert!(cg.apply(&res).run_on(&mut fs).is_ok());
    let twice = (
        c.get_pid_max(&fs).unwrap(),
        fs.read("/sys/fs/cgroup/memory/again/memory.limit_in_bytes"),
        fs.read("/sys/fs/cgroup/memory/again/memory.swappiness"),
    );
    assert_eq!(once, twice);
    assert_eq!(once.0, PidMax::Value(9));
    assert_eq!(once.1, Some("1073741824".to_string()));
    assert_eq!(once.2, Some("0".to_string()));
}

#[test]
fn a_failed_write_ends_the_run() {
    let h = V1::new(MOUNTINFO).unwrap();
    let fs = mounted();
    let (cg, _dirs) = Cgroup::new(&h, &fs, "stops");
    let mut res = Resources::default();
    res.pid.update_values = true;
    res.cpu.update_values = true;
    let mut run = Run::start(cg.apply(&res));
    assert!(!run.is_finished());
    match run.next_action() {
        Action::Write(w) => {
            assert_eq!(w.path, "/sys/fs/cgroup/pids/stops/pids.max");
            assert_eq!(w.data, "max");
        }
        other => panic!("{:?}", other),
    }
    // A report of a read that was not asked for changes nothing.
    run.was_read(Some("max"));
    assert!(matches!(run.next_action(), Action::Write(_)));
    run.written(false);
    assert!(run.is_finished());
    match run.next_action() {
        Action::Finished(Err(e)) => assert_eq!(e.kind(), &ErrorKind::WriteFailed),
        other => panic!("{:?}", other),
    }
    // Nothing more is asked for, whatever is reported.
    run.written(true);
    assert!(matches!(run.next_action(), Action::Finished(Err(_))));
}

#[test]
fn a_value_that_did_not_take_fails_the_run() {
    let h = V1::new(MOUNTINFO).unwrap();
    let fs = mounted();
    let (cg, _dirs) = Cgroup::new(&h, &fs, "clamped");
    let mut res = Resources::default();
    res.pid.update_values = true;
    res.pid.maximum_number_of_processes = PidMax::Value(100);

    let kinds = [
        (Some("99\n"), ErrorKind::Other),
        (Some("max\n"), ErrorKind::Other),
        (Some("plenty\n"), ErrorKind::ParseError),
        (None, ErrorKind::ReadFailed),
    ];
    for (read_back, kind) in kinds {
        let mut run = Run::start(cg.apply(&res));
        assert!(matches!(run.next_action(), Action::Write(_)));
        run.written(true);
        match run.next_action() {
            Action::Read(path) => assert_eq!(path, "/sys/fs/cgroup/pids/clamped/pids.max"),
            other => panic!("{:?}", other),
        }
        // A report of a write that was not asked for changes nothing.
        run.written(false);
        assert!(matches!(run.next_action(), Action::Read(_)));
        run.was_read(read_back);
        match run.next_action() {
            Action::Finished(Err(e)) => assert_eq!(e.kind(), &kind),
            other => panic!("{:?}", other),
        }
    }

    let mut run = Run::start(cg.apply(&res));
    run.written(true);
    run.was_read(Some(" 100\n"));
    assert!(matches!(run.next_action(), Action::Finished(Ok(()))));
}

#[test]
fn a_group_that_left_its_base_is_refused() {
    let h = V1::new(MOUNTINFO).unwrap();
    let mut fs = mounted();
    let (cg, dirs) = Cgroup::new(&h, &fs, "/etc");
    assert_eq!(dirs, Vec::<String>::new());
    assert_eq!(cg.subsystems()[0].get_path(), "/etc");
    let mut res = Resources::default();
    res.blkio.update_values = true;
    let plan = cg.apply(&res);
    assert_eq!(plan.steps().len(), 0);
    assert_eq!(plan.refusal(), Some(ErrorKind::InvalidPath));
    let (result, writes) = carry_out(plan, &mut fs);
    assert_eq!(result.unwrap_err().kind(), &ErrorKind::InvalidPath);
    assert_eq!(writes, 0);
    // Where nothing is asked for, nothing is refused.
    let plan = cg.apply(&Resources::default());
    assert_eq!(plan.refusal(), None);
}

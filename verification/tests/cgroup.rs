//! Simple unit tests about the control groups system.
use cgroups::apply::{Action, Plan, Run};
use cgroups::error::Error;
use cgroups::fs::Snapshot;
use cgroups::hierarchies::V1;
use cgroups::{Cgroup, CgroupPid, Controller, ControllerInternal, Controllers, Hierarchy};

const MOUNTINFO: &str =
    "36 25 0:31 / /sys/fs/cgroup ro,nosuid,nodev,noexec - tmpfs tmpfs ro,mode=755\n";

const NAMES: [&str; 13] = [
    "pids", "memory", "cpuset", "cpuacct", "cpu", "devices", "freezer", "net_cls", "blkio",
    "perf_event", "net_prio", "hugetlb", "rdma",
];

/// A file system on which every subsystem is mounted, with the task `1` in each root group.
fn mounted() -> Snapshot {
    let mut fs = Snapshot::new();
    for name in NAMES {
        fs.add_dir(&format!("/sys/fs/cgroup/{}", name));
        fs.set_file(&format!("/sys/fs/cgroup/{}/tasks", name), "1\n");
    }
    fs
}

/// Makes the directories of a new group, each with an empty list of tasks.
fn make_dirs(fs: &mut Snapshot, dirs: &[String]) {
    for dir in dirs {
        fs.add_dir(dir);
        fs.set_file(&format!("{}/tasks", dir), "");
    }
}

/// What the kernel makes of a write to a `tasks` file: the task joins the group of that
/// file and leaves the other group of the same subsystem. A task is listed once, however
/// often it is written.
fn kernel_write(fs: &mut Snapshot, group: &str, path: &str, data: &str) {
    let pid = data.trim().to_string();
    let subsystem = path.split('/').nth(4).unwrap().to_string();
    let root = format!("/sys/fs/cgroup/{}/tasks", subsystem);
    let inner = format!("/sys/fs/cgroup/{}/{}/tasks", subsystem, group);
    for file in [root, inner] {
        let text = fs.read(&file).unwrap_or_default();
        let mut listed: Vec<String> =
            text.lines().filter(|l| *l != pid).map(|l| l.to_string()).collect();
        if file == path {
            listed.push(pid.clone());
        }
        let mut text = listed.join("\n");
        if !text.is_empty() {
            text.push('\n');
        }
        fs.set_file(&file, &text);
    }
}

fn carry_out(plan: Plan, fs: &mut Snapshot, group: &str) -> Result<(), Error> {
    let mut run = Run::start(plan);
    loop {
        match run.next_action() {
            Action::Write(w) => {
                kernel_write(fs, group, &w.path, &w.data);
                run.written(true);
            }
            Action::Read(path) => {
                let text = fs.read(&path);
                run.was_read(text.as_deref());
            }
            Action::Finished(result) => return result,
        }
    }
}

#[test]
fn test_tasks_iterator() {
    let h = V1::new(MOUNTINFO).unwrap();
    let mut fs = mounted();
    let pid: u64 = 31415;
    let (cg, dirs) = Cgroup::new(&h, &fs, "test_tasks_iterator");
    make_dirs(&mut fs, &dirs);
    {
        // Add a task to the control group.
        carry_out(cg.add_task(CgroupPid::from(pid)), &mut fs, "test_tasks_iterator").unwrap();

        let mut tasks = cg.tasks(&fs).into_iter();
        // Verify that the task is indeed in the control group
        assert_eq!(tasks.next(), Some(CgroupPid::from(pid)));
        assert_eq!(tasks.next(), None);

        // Now, try removing it.
        let _ = carry_out(cg.remove_task(&fs, CgroupPid::from(pid)), &mut fs, "test_tasks_iterator");
        tasks = cg.tasks(&fs).into_iter();

        // Verify that it was indeed removed.
        assert_eq!(tasks.next(), None);
    }
    for dir in cg.delete(&fs) {
        fs.remove_dir(&dir);
    }
}

#[test]
fn a_task_attached_twice_is_listed_once() {
    let h = V1::new(MOUNTINFO).unwrap();
    let mut fs = mounted();
    let (cg, dirs) = Cgroup::new(&h, &fs, "twice");
    make_dirs(&mut fs, &dirs);
    carry_out(cg.add_task(CgroupPid::from(4321)), &mut fs, "twice").unwrap();
    carry_out(cg.add_task(CgroupPid::from(4321)), &mut fs, "twice").unwrap();
    assert_eq!(cg.tasks(&fs), vec![CgroupPid::from(4321)]);
}

#[test]
fn a_removed_task_is_in_the_root_group_only() {
    let h = V1::new(MOUNTINFO).unwrap();
    let mut fs = mounted();
    let (cg, dirs) = Cgroup::new(&h, &fs, "gone");
    make_dirs(&mut fs, &dirs);
    carry_out(cg.add_task(CgroupPid::from(77)), &mut fs, "gone").unwrap();
    let plan = cg.remove_task(&fs, CgroupPid::from(77));
    let paths: Vec<String> = plan.steps().iter().map(|s| s.write.path.clone()).collect();
    assert_eq!(paths.len(), 13);
    assert_eq!(paths[0], "/sys/fs/cgroup/pids/tasks");
    assert!(plan.steps().iter().all(|s| s.write.data == "77"));
    carry_out(plan, &mut fs, "gone").unwrap();
    assert_eq!(cg.tasks(&fs), vec![]);
    let root = h.root_control_group(&fs);
    assert_eq!(root.tasks(&fs), vec![CgroupPid::from(1), CgroupPid::from(77)]);
}

#[test]
fn tasks_are_put_together_in_rising_order() {
    let h = V1::new(MOUNTINFO).unwrap();
    let mut fs = mounted();
    let (cg, dirs) = Cgroup::new(&h, &fs, "many");
    make_dirs(&mut fs, &dirs);
    fs.set_file("/sys/fs/cgroup/pids/many/tasks", "30\n10\n20\n");
    fs.set_file("/sys/fs/cgroup/memory/many/tasks", "20\n5\n30\n");
    fs.set_file("/sys/fs/cgroup/cpu/many/tasks", " 7 \nnot a number\n");
    assert_eq!(
        cg.tasks(&fs),
        vec![
            CgroupPid::from(0),
            CgroupPid::from(5),
            CgroupPid::from(7),
            CgroupPid::from(10),
            CgroupPid::from(20),
            CgroupPid::from(30),
        ]
    );
}

#[test]
fn a_hierarchy_lists_the_subsystems_that_are_mounted() {
    let h = V1::new(MOUNTINFO).unwrap();
    assert_eq!(h.root(), "/sys/fs/cgroup");
    let mut fs = Snapshot::new();
    fs.add_dir("/sys/fs/cgroup/cpu");
    fs.add_dir("/sys/fs/cgroup/pids");
    fs.add_dir("/sys/fs/cgroup/unknown");
    assert!(h.check_support(&fs, Controllers::Cpu));
    assert!(!h.check_support(&fs, Controllers::Mem));
    let subs = h.subsystems(&fs);
    let kinds: Vec<Controllers> = subs.iter().map(|s| s.control_type()).collect();
    assert_eq!(kinds, vec![Controllers::Pids, Controllers::Cpu]);
    assert_eq!(subs[1].path(), "/sys/fs/cgroup/cpu");
    assert_eq!(subs[1].get_base(), "/sys/fs/cgroup/cpu");
}

#[test]
fn a_group_is_deleted_where_it_exists() {
    let h = V1::new(MOUNTINFO).unwrap();
    let mut fs = mounted();
    let (cg, dirs) = Cgroup::new(&h, &fs, "short_lived");
    assert_eq!(dirs.len(), 13);
    // Only some of the directories get made.
    fs.add_dir(&dirs[0]);
    fs.add_dir(&dirs[4]);
    assert!(cg.subsystems()[0].exists_in(&fs));
    assert!(!cg.subsystems()[1].exists_in(&fs));
    let paths: Vec<String> = cg.subsystems().iter().map(|s| s.path().clone()).collect();
    let gone = cg.delete(&fs);
    assert_eq!(gone, vec![dirs[0].clone(), dirs[4].clone()]);
    for dir in &gone {
        fs.remove_dir(dir);
    }
    for path in &paths {
        assert!(!fs.has_dir(path));
    }
    let again = Cgroup::load(&h, &fs, "short_lived");
    assert!(again.subsystems().iter().all(|s| !s.exists_in(&fs)));
    assert_eq!(again.delete(&fs), Vec::<String>::new());
}

#[test]
fn the_root_group_is_the_group_with_no_name() {
    let h = V1::new(MOUNTINFO).unwrap();
    let fs = mounted();
    let root = Cgroup::load(&h, &fs, "");
    assert_eq!(root.subsystems()[0].path(), "/sys/fs/cgroup/pids");
    let nested = Cgroup::load(&h, &fs, "a/b");
    assert_eq!(nested.subsystems()[0].path(), "/sys/fs/cgroup/pids/a/b");
    assert_eq!(nested.subsystems()[0].get_base(), "/sys/fs/cgroup/pids");
}

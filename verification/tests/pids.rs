//! Integration tests about the pids subsystem
use cgroups::error::ErrorKind;
use cgroups::fs::Snapshot;
use cgroups::hierarchies::V1;
use cgroups::pid::{PidController, PidMax};
use cgroups::{Cgroup, CgroupPid, Controller};

const MOUNTINFO: &str =
    "36 25 0:31 / /sys/fs/cgroup ro,nosuid,nodev,noexec - tmpfs tmpfs ro,mode=755\n";

/// A file system with the `pids` subsystem, and a new group as the kernel makes it.
fn new_group<'a>(hier: &'a V1, name: &str) -> (Cgroup<'a, V1>, Snapshot) {
    let mut fs = Snapshot::new();
    fs.add_dir("/sys/fs/cgroup/pids");
    let (cg, dirs) = Cgroup::new(hier, &fs, name);
    for dir in &dirs {
        fs.add_dir(dir);
        fs.set_file(&format!("{}/pids.current", dir), "0\n");
        fs.set_file(&format!("{}/pids.events", dir), "max 0\n");
        fs.set_file(&format!("{}/pids.max", dir), "max\n");
        fs.set_file(&format!("{}/tasks", dir), "");
    }
    (cg, fs)
}

#[test]
fn create_and_delete_cgroup() {
    let hier = V1::new(MOUNTINFO).unwrap();
    let (cg, mut fs) = new_group(&hier, "create_and_delete_cgroup");
    {
        let pidcontroller: &PidController = cg.controller_of().unwrap();
        let w = pidcontroller
            .set_pid_max(PidMax::Value(1337))
            .expect("Failed to set max pid");
        fs.write(&w);
        let max = pidcontroller.get_pid_max(&fs);
        assert!(max.is_ok());
        assert_eq!(max.unwrap(), PidMax::Value(1337));
    }
    for dir in cg.delete(&fs) {
        fs.remove_dir(&dir);
    }
}

#[test]
fn test_pids_current_is_zero() {
    let hier = V1::new(MOUNTINFO).unwrap();
    let (cg, mut fs) = new_group(&hier, "test_pids_current_is_zero");
    {
        let pidcontroller: &PidController = cg.controller_of().unwrap();
        let current = pidcontroller.get_pid_current(&fs);
        assert_eq!(current.unwrap(), 0);
    }
    for dir in cg.delete(&fs) {
        fs.remove_dir(&dir);
    }
}

#[test]
fn test_pids_events_is_zero() {
    let hier = V1::new(MOUNTINFO).unwrap();
    let (cg, mut fs) = new_group(&hier, "test_pids_events_is_zero");
    {
        let pidcontroller: &PidController = cg.controller_of().unwrap();
        let events = pidcontroller.get_pid_events(&fs);
        assert!(events.is_ok());
        assert_eq!(events.unwrap(), 0);
    }
    for dir in cg.delete(&fs) {
        fs.remove_dir(&dir);
    }
}

#[test]
fn the_limit_is_max_or_a_number() {
    let hier = V1::new(MOUNTINFO).unwrap();
    let (cg, mut fs) = new_group(&hier, "limits");
    let pids: &PidController = cg.controller_of().unwrap();
    assert_eq!(pids.get_pid_max(&fs).unwrap(), PidMax::Max);
    let w = pids.set_pid_max(PidMax::Max).unwrap();
    assert_eq!(w.path, "/sys/fs/cgroup/pids/limits/pids.max");
    assert_eq!(w.data, "max");
    assert_eq!(pids.set_pid_max(PidMax::Value(-1)).unwrap().data, "-1");
    assert_eq!(pids.set_pid_max(PidMax::Value(i64::MIN)).unwrap().data, "-9223372036854775808");
    assert_eq!(pids.set_pid_max(PidMax::Value(i64::MAX)).unwrap().data, "9223372036854775807");
    fs.set_file(&w.path, " 42 \n");
    assert_eq!(pids.get_pid_max(&fs).unwrap(), PidMax::Value(42));
    fs.set_file(&w.path, "-9223372036854775808");
    assert_eq!(pids.get_pid_max(&fs).unwrap(), PidMax::Value(i64::MIN));
    fs.set_file(&w.path, "9223372036854775808");
    assert_eq!(pids.get_pid_max(&fs).unwrap_err().kind(), &ErrorKind::ParseError);
    fs.set_file(&w.path, "maximum");
    assert_eq!(pids.get_pid_max(&fs).unwrap_err().kind(), &ErrorKind::ParseError);
    assert_eq!(PidMax::default(), PidMax::Max);
}

#[test]
fn events_are_the_second_field() {
    let hier = V1::new(MOUNTINFO).unwrap();
    let (cg, mut fs) = new_group(&hier, "events");
    let pids: &PidController = cg.controller_of().unwrap();
    let file = "/sys/fs/cgroup/pids/events/pids.events";
    fs.set_file(file, "max 17\n");
    assert_eq!(pids.get_pid_events(&fs).unwrap(), 17);
    fs.set_file(file, "max\n");
    assert_eq!(pids.get_pid_events(&fs).unwrap_err().kind(), &ErrorKind::ParseError);
    fs.set_file(file, "max many\n");
    assert_eq!(pids.get_pid_events(&fs).unwrap_err().kind(), &ErrorKind::ParseError);
    let other = PidController::new("/elsewhere".to_string());
    assert_eq!(other.get_pid_events(&fs).unwrap_err().kind(), &ErrorKind::ReadFailed);
    assert_eq!(other.get_pid_current(&fs).unwrap_err().kind(), &ErrorKind::ReadFailed);
}

#[test]
fn a_task_is_attached_by_its_number() {
    let c = PidController::new("/sys/fs/cgroup".to_string());
    let w = c.add_task(&CgroupPid::from(4242)).unwrap();
    assert_eq!(w.path, "/sys/fs/cgroup/pids/tasks");
    assert_eq!(w.data, "4242");
    let mut fs = Snapshot::new();
    assert_eq!(c.tasks(&fs), vec![]);
    fs.write(&w);
    assert_eq!(c.tasks(&fs), vec![CgroupPid::from(4242)]);
    fs.set_file(&w.path, "3\r\n1\n\nx\n2");
    assert_eq!(
        c.tasks(&fs),
        vec![
            CgroupPid::from(3),
            CgroupPid::from(1),
            CgroupPid::from(0),
            CgroupPid::from(0),
            CgroupPid::from(2),
        ]
    );
}

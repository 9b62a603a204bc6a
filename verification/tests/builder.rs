//! Some simple tests covering the builder pattern for control groups.
use cgroups::apply::{Action, Plan, Run};
use cgroups::blkio::BlkIoController;
use cgroups::cgroup_builder::CgroupBuilder;
use cgroups::cpu::CpuController;
use cgroups::devices::{DevicePermissions, DeviceType, DevicesController};
use cgroups::error::Error;
use cgroups::fs::Snapshot;
use cgroups::hierarchies::V1;
use cgroups::hugetlb::HugeTlbController;
use cgroups::memory::MemController;
use cgroups::net_cls::NetClsController;
use cgroups::pid::{PidController, PidMax};
use cgroups::{Controller, DeviceResource};

const MOUNTINFO: &str =
    "36 25 0:31 / /sys/fs/cgroup ro,nosuid,nodev,noexec - tmpfs tmpfs ro,mode=755\n";

const NAMES: [&str; 13] = [
    "pids", "memory", "cpuset", "cpuacct", "cpu", "devices", "freezer", "net_cls", "blkio",
    "perf_event", "net_prio", "hugetlb", "rdma",
];

/// A file system on which every subsystem is mounted.
fn mounted() -> Snapshot {
    let mut fs = Snapshot::new();
    for name in NAMES {
        fs.add_dir(&format!("/sys/fs/cgroup/{}", name));
    }
    fs
}

/// What the kernel makes of a text written to a file: the class identifier is
/// taken in hexadecimal and listed in decimal, a rule on devices goes to the
/// list of allowed devices, and anything else is kept as written.
fn kernel_write(fs: &mut Snapshot, path: &str, data: &str) {
    if path.ends_with("/net_cls.classid") {
        let class = u64::from_str_radix(data.trim_start_matches("0x"), 16).unwrap();
        fs.set_file(path, &format!("{}\n", class));
    } else if path.ends_with("/devices.allow") {
        let list = path.replace("devices.allow", "devices.list");
        let mut text = fs.read(&list).unwrap_or_default();
        text.push_str(data);
        text.push('\n');
        fs.set_file(&list, &text);
    } else {
        fs.set_file(path, data);
    }
}

/// Carries out a plan step by step, as a program with a file system would.
fn carry_out(plan: Plan, fs: &mut Snapshot) -> Result<(), Error> {
    let mut run = Run::start(plan);
    loop {
        match run.next_action() {
            Action::Write(w) => {
                kernel_write(fs, &w.path, &w.data);
                run.written(true);
            }
            Action::Read(path) => {
                let text = fs.read(&path);
                run.was_read(text.as_deref());
            }
            Action::Finished(result) => return result,
        }
    }
}

#[test]
pub fn test_cpu_res_build() {
    let v1 = V1::new(MOUNTINFO).unwrap();
    let mut fs = mounted();
    let (cg, dirs, plan) = CgroupBuilder::new("test_cpu_res_build", &v1)
        .cpu()
            .shares(85)
            .done()
        .build(&fs);
    for dir in &dirs {
        fs.add_dir(dir);
    }
    let _ = carry_out(plan, &mut fs);

    {
        let cpu: &CpuController = cg.controller_of().unwrap();
        assert!(cpu.shares(&fs).is_ok());
        assert_eq!(cpu.shares(&fs).unwrap(), 85);
    }

    for dir in cg.delete(&fs) {
        fs.remove_dir(&dir);
    }
}

#[test]
pub fn test_memory_res_build() {
    let v1 = V1::new(MOUNTINFO).unwrap();
    let mut fs = mounted();
    let (cg, dirs, plan) = CgroupBuilder::new("test_memory_res_build", &v1)
        .memory()
            .kernel_memory_limit(128 * 1024 * 1024)
            .swappiness(70)
            .memory_hard_limit(1024 * 1024 * 1024)
            .done()
        .build(&fs);
    for dir in &dirs {
        fs.add_dir(dir);
    }
    let _ = carry_out(plan, &mut fs);

    {
        let c: &MemController = cg.controller_of().unwrap();
        assert_eq!(c.kmem_stat(&fs).limit_in_bytes, 128 * 1024 * 1024);
        assert_eq!(c.memory_stat(&fs).swappiness, 70);
        assert_eq!(c.memory_stat(&fs).limit_in_bytes, 1024 * 1024 * 1024);
    }

    for dir in cg.delete(&fs) {
        fs.remove_dir(&dir);
    }
}

#[test]
pub fn test_pid_res_build() {
    let v1 = V1::new(MOUNTINFO).unwrap();
    let mut fs = mounted();
    let (cg, dirs, plan) = CgroupBuilder::new("test_pid_res_build", &v1)
        .pid()
            .maximum_number_of_processes(PidMax::Value(123))
            .done()
        .build(&fs);
    for dir in &dirs {
        fs.add_dir(dir);
    }
    let _ = carry_out(plan, &mut fs);

    {
        let c: &PidController = cg.controller_of().unwrap();
        assert!(c.get_pid_max(&fs).is_ok());
        assert_eq!(c.get_pid_max(&fs).unwrap(), PidMax::Value(123));
    }

    for dir in cg.delete(&fs) {
        fs.remove_dir(&dir);
    }
}

#[test]
pub fn test_devices_res_build() {
    let v1 = V1::new(MOUNTINFO).unwrap();
    let mut fs = mounted();
    let (cg, dirs, plan) = CgroupBuilder::new("test_devices_res_build", &v1)
        .devices()
            .device(1, 6, DeviceType::Char, true,
                    vec![DevicePermissions::Read])
            .done()
        .build(&fs);
    for dir in &dirs {
        fs.add_dir(dir);
    }
    let _ = carry_out(plan, &mut fs);

    {
        let c: &DevicesController = cg.controller_of().unwrap();
        assert!(c.allowed_devices(&fs).is_ok());
        assert_eq!(c.allowed_devices(&fs).unwrap(), vec![
                   DeviceResource {
                       allow: true,
                       devtype: DeviceType::Char,
                       major: 1,
                       minor: 6,
                       access: vec![DevicePermissions::Read],
                   }
        ]);
    }
    for dir in cg.delete(&fs) {
        fs.remove_dir(&dir);
    }
}

#[test]
pub fn test_network_res_build() {
    let v1 = V1::new(MOUNTINFO).unwrap();
    let mut fs = mounted();
    let (cg, dirs, plan) = CgroupBuilder::new("test_network_res_build", &v1)
        .network()
            .class_id(1337)
            .done()
        .build(&fs);
    for dir in &dirs {
        fs.add_dir(dir);
    }
    let _ = carry_out(plan, &mut fs);

    {
        let c: &NetClsController = cg.controller_of().unwrap();
        assert!(c.get_class(&fs).is_ok());
        assert_eq!(c.get_class(&fs).unwrap(), 1337);
    }
    for dir in cg.delete(&fs) {
        fs.remove_dir(&dir);
    }
}

#[test]
pub fn test_hugepages_res_build() {
    let v1 = V1::new(MOUNTINFO).unwrap();
    let mut fs = mounted();
    let (cg, dirs, plan) = CgroupBuilder::new("test_hugepages_res_build", &v1)
        .hugepages()
            .limit("2MB".to_string(), 4 * 2 * 1024 * 1024)
            .done()
        .build(&fs);
    for dir in &dirs {
        fs.add_dir(dir);
    }
    let _ = carry_out(plan, &mut fs);

    {
        let c: &HugeTlbController = cg.controller_of().unwrap();
        assert!(c.limit_in_bytes(&fs, &"2MB".to_string()).is_ok());
        assert_eq!(c.limit_in_bytes(&fs, &"2MB".to_string()).unwrap(), 4 * 2 * 1024 * 1024);
    }
    for dir in cg.delete(&fs) {
        fs.remove_dir(&dir);
    }
}

#[test]
pub fn test_blkio_res_build() {
    let v1 = V1::new(MOUNTINFO).unwrap();
    let mut fs = mounted();
    let (cg, dirs, plan) = CgroupBuilder::new("test_blkio_res_build", &v1)
        .blkio()
            .weight(100)
            .done()
        .build(&fs);
    for dir in &dirs {
        fs.add_dir(dir);
    }
    let _ = carry_out(plan, &mut fs);

    {
        let c: &BlkIoController = cg.controller_of().unwrap();
        assert_eq!(c.blkio(&fs).weight, 100);
    }
    for dir in cg.delete(&fs) {
        fs.remove_dir(&dir);
    }
}

#[test]
fn build_makes_the_group_in_every_subsystem() {
    let v1 = V1::new(MOUNTINFO).unwrap();
    let fs = mounted();
    let (cg, dirs, _plan) = CgroupBuilder::new("grp", &v1).build(&fs);
    assert_eq!(cg.subsystems().len(), 13);
    assert_eq!(dirs.len(), 13);
    assert_eq!(dirs[0], "/sys/fs/cgroup/pids/grp");
    assert_eq!(dirs[12], "/sys/fs/cgroup/rdma/grp");
    let pids: &PidController = cg.controller_of().unwrap();
    assert_eq!(pids.path(), "/sys/fs/cgroup/pids/grp");
}

#[test]
fn builder_keeps_each_section_apart() {
    let v1 = V1::new(MOUNTINFO).unwrap();
    let fs = mounted();
    let (_cg, _dirs, plan) = CgroupBuilder::new("grp", &v1)
        .blkio()
            .weight(10)
            .leaf_weight(20)
            .weight_device(8, 0, 30, 40)
            .throttle_iops()
                .read(8, 0, 1)
                .write(8, 16, 2)
            .throttle_bps()
                .read(8, 0, 3)
                .write(8, 16, 4)
            .done()
        .build(&fs);
    let steps = plan.steps();
    let wrote: Vec<(String, String)> =
        steps.iter().map(|s| (s.write.path.clone(), s.write.data.clone())).collect();
    let dir = "/sys/fs/cgroup/blkio/grp/";
    assert_eq!(
        wrote,
        vec![
            (format!("{}blkio.weight", dir), "10".to_string()),
            (format!("{}blkio.leaf_weight", dir), "20".to_string()),
            (format!("{}blkio.weight_device", dir), "8:0 30".to_string()),
            (format!("{}blkio.throttle.read_bps_device", dir), "8:0 3".to_string()),
            (format!("{}blkio.throttle.write_bps_device", dir), "8:16 4".to_string()),
            (format!("{}blkio.throttle.read_iops_device", dir), "8:0 1".to_string()),
            (format!("{}blkio.throttle.write_iops_device", dir), "8:16 2".to_string()),
        ]
    );
}

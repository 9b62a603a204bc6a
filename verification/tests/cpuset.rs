use cgroups::cpuset::CpuSetController;
use cgroups::error::ErrorKind;
use cgroups::fs::Snapshot;
use cgroups::hierarchies::V1;
use cgroups::Cgroup;

const MOUNTINFO: &str =
    "36 25 0:31 / /sys/fs/cgroup ro,nosuid,nodev,noexec - tmpfs tmpfs ro,mode=755\n";

/// A file system with the `cpuset` subsystem, and a new group as the kernel makes it.
fn new_group<'a>(h: &'a V1, name: &str) -> (Cgroup<'a, V1>, Snapshot) {
    let mut fs = Snapshot::new();
    fs.add_dir("/sys/fs/cgroup/cpuset");
    fs.set_file("/sys/fs/cgroup/cpuset/cpuset.memory_pressure_enabled", "0\n");
    fs.set_file("/sys/fs/cgroup/cpuset/cpuset.cpus", "0-3\n");
    let (cg, dirs) = Cgroup::new(h, &fs, name);
    for dir in &dirs {
        fs.add_dir(dir);
        fs.set_file(&format!("{}/cpuset.cpus", dir), "\n");
        fs.set_file(&format!("{}/cpuset.mems", dir), "\n");
    }
    (cg, fs)
}

#[test]
fn test_cpuset_memory_pressure_root_cg() {
    let h = V1::new(MOUNTINFO).unwrap();
    let (cg, mut fs) = new_group(&h, "test_cpuset_memory_pressure_root_cg");
    {
        let cpuset: &CpuSetController = cg.controller_of().unwrap();

        // This is not a root control group, so it should fail via InvalidOperation.
        let res = cpuset.set_enable_memory_pressure(&fs, true);
        assert_eq!(res.unwrap_err().kind(), &ErrorKind::InvalidOperation);
    }
    for dir in cg.delete(&fs) {
        fs.remove_dir(&dir);
    }
}

#[test]
fn test_cpuset_set_cpus() {
    let h = V1::new(MOUNTINFO).unwrap();
    let (cg, mut fs) = new_group(&h, "test_cpuset_set_cpus");
    {
        let cpuset: &CpuSetController = cg.controller_of().unwrap();

        let set = cpuset.cpuset(&fs);
        assert_eq!(0, set.cpus.len());

        // 0
        let r = cpuset.set_cpus("0");
        assert_eq!(true, r.is_ok());
        fs.write(&r.unwrap());

        let set = cpuset.cpuset(&fs);
        assert_eq!(1, set.cpus.len());
        assert_eq!((0,0), set.cpus[0]);


        // 0-1
        let r = cpuset.set_cpus("0-1");
        assert_eq!(true, r.is_ok());
        fs.write(&r.unwrap());

        let set = cpuset.cpuset(&fs);
        assert_eq!(1, set.cpus.len());
        assert_eq!((0,1), set.cpus[0]);



    }
    for dir in cg.delete(&fs) {
        fs.remove_dir(&dir);
    }
}

#[test]
fn memory_pressure_is_switched_in_the_root_group() {
    let h = V1::new(MOUNTINFO).unwrap();
    let (_cg, fs) = new_group(&h, "inner");
    let root = h.root_control_group(&fs);
    let cpuset: &CpuSetController = root.controller_of().unwrap();
    let w = cpuset.set_enable_memory_pressure(&fs, true).unwrap();
    assert_eq!(w.path, "/sys/fs/cgroup/cpuset/cpuset.memory_pressure_enabled");
    assert_eq!(w.data, "1");
    assert_eq!(cpuset.set_enable_memory_pressure(&fs, false).unwrap().data, "0");
    assert_eq!(cpuset.cpuset(&fs).memory_pressure_enabled, Some(false));
    assert_eq!(cpuset.cpuset(&fs).cpus, vec![(0, 3)]);
}

#[test]
fn the_state_is_read_file_by_file() {
    let c = CpuSetController::new("/sys/fs/cgroup".to_string());
    let mut fs = Snapshot::new();
    let dir = "/sys/fs/cgroup/cpuset/";
    let empty = c.cpuset(&fs);
    assert_eq!(empty.cpu_exclusive, false);
    assert_eq!(empty.memory_pressure_enabled, None);
    assert_eq!(empty.memory_pressure, 0);
    assert_eq!(empty.mems, vec![]);

    fs.set_file(&format!("{}cpuset.cpu_exclusive", dir), "1\n");
    fs.set_file(&format!("{}cpuset.cpus", dir), "0-3,8\n");
    fs.set_file(&format!("{}cpuset.effective_cpus", dir), "0-1\n");
    fs.set_file(&format!("{}cpuset.effective_mems", dir), "0\n");
    fs.set_file(&format!("{}cpuset.mem_exclusive", dir), "0\n");
    fs.set_file(&format!("{}cpuset.mem_hardwall", dir), "1\n");
    fs.set_file(&format!("{}cpuset.memory_migrate", dir), "2\n");
    fs.set_file(&format!("{}cpuset.memory_pressure", dir), "12\n");
    fs.set_file(&format!("{}cpuset.memory_pressure_enabled", dir), "1\n");
    fs.set_file(&format!("{}cpuset.memory_spread_page", dir), "1\n");
    fs.set_file(&format!("{}cpuset.memory_spread_slab", dir), "x\n");
    fs.set_file(&format!("{}cpuset.mems", dir), "0-1\n");
    fs.set_file(&format!("{}cpuset.sched_load_balance", dir), "1\n");
    fs.set_file(&format!("{}cpuset.sched_relax_domain_level", dir), "5\n");
    let set = c.cpuset(&fs);
    assert_eq!(set.cpu_exclusive, true);
    assert_eq!(set.cpus, vec![(0, 3), (8, 8)]);
    assert_eq!(set.effective_cpus, vec![(0, 1)]);
    assert_eq!(set.effective_mems, vec![(0, 0)]);
    assert_eq!(set.mem_exclusive, false);
    assert_eq!(set.mem_hardwall, true);
    assert_eq!(set.memory_migrate, false);
    assert_eq!(set.memory_pressure, 12);
    assert_eq!(set.memory_pressure_enabled, Some(true));
    assert_eq!(set.memory_spread_page, true);
    assert_eq!(set.memory_spread_slab, false);
    assert_eq!(set.mems, vec![(0, 1)]);
    assert_eq!(set.sched_load_balance, true);
    assert_eq!(set.sched_relax_domain_level, 5);

    fs.set_file(&format!("{}cpuset.cpus", dir), "0-3,x\n");
    assert_eq!(c.cpuset(&fs).cpus, vec![]);
}

#[test]
fn flags_are_written_as_one_or_zero() {
    let c = CpuSetController::new("/sys/fs/cgroup".to_string());
    let dir = "/sys/fs/cgroup/cpuset/";
    let w = c.set_cpu_exclusive(true).unwrap();
    assert_eq!((w.path, w.data), (format!("{}cpuset.cpu_exclusive", dir), "1".to_string()));
    let w = c.set_mem_exclusive(false).unwrap();
    assert_eq!((w.path, w.data), (format!("{}cpuset.mem_exclusive", dir), "0".to_string()));
    let w = c.set_hardwall(true).unwrap();
    assert_eq!((w.path, w.data), (format!("{}cpuset.mem_hardwall", dir), "1".to_string()));
    let w = c.set_load_balancing(false).unwrap();
    assert_eq!((w.path, w.data), (format!("{}cpuset.sched_load_balance", dir), "0".to_string()));
    let w = c.set_memory_migration(true).unwrap();
    assert_eq!((w.path, w.data), (format!("{}cpuset.memory_migrate", dir), "1".to_string()));
    let w = c.set_memory_spread_page(true).unwrap();
    assert_eq!((w.path, w.data), (format!("{}cpuset.memory_spread_page", dir), "1".to_string()));
    let w = c.set_memory_spread_slab(false).unwrap();
    assert_eq!((w.path, w.data), (format!("{}cpuset.memory_spread_slab", dir), "0".to_string()));
    let w = c.set_rebalance_relax_domain_level(-1).unwrap();
    assert_eq!(
        (w.path, w.data),
        (format!("{}cpuset.sched_relax_domain_level", dir), "-1".to_string())
    );
    let w = c.set_mems("0-1").unwrap();
    assert_eq!((w.path, w.data), (format!("{}cpuset.mems", dir), "0-1".to_string()));
}

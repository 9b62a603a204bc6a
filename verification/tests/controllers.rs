//! What each controller writes and reads.
use cgroups::blkio::BlkIoController;
use cgroups::cpu::CpuController;
use cgroups::cpuacct::CpuAcctController;
use cgroups::error::{Error, ErrorKind};
use cgroups::freezer::{FreezerController, FreezerState};
use cgroups::fs::Snapshot;
use cgroups::hierarchies::{find_v1_mount, V1};
use cgroups::memory::{MemController, MemoryStat, NumaStat, OomControl};
use cgroups::net_cls::{format_class, NetClsController};
use cgroups::net_prio::NetPrioController;
use cgroups::perf_event::PerfEventController;
use cgroups::rdma::RdmaController;
use cgroups::subsystem::Subsystem;
use cgroups::{
    ControllIdentifier, Controller, ControllerInternal, Controllers, NetworkPriority, Resources,
};

const ROOT: &str = "/sys/fs/cgroup";

#[test]
fn open_path_rejects_a_path_that_left_the_base() {
    let c = CpuController::new(ROOT.to_string(), false);
    for (name, inside) in [("grp", true), ("a/b", true), ("", true), ("/etc", false),
                           ("/sys/fs/cgroup/cpux", false), ("/sys/fs/cgroup/cpu/grp", true),
                           ("/", false)] {
        let scoped = c.scoped_to(name);
        assert_eq!(scoped.get_base(), "/sys/fs/cgroup/cpu");
        for write in [true, false] {
            let r = scoped.open_path("cpu.shares", write);
            assert_eq!(r.is_ok(), inside, "{:?}", name);
            match r {
                Ok(f) => {
                    assert_eq!(f.write, write);
                    assert!(f.path.ends_with("/cpu.shares"));
                    assert!(f.path.starts_with("/sys/fs/cgroup/cpu"));
                }
                Err(e) => assert_eq!(e.kind(), &ErrorKind::InvalidPath),
            }
        }
        assert_eq!(scoped.verify_path().is_ok(), inside);
    }
}

#[test]
fn a_controller_that_left_its_base_does_nothing() {
    let c = CpuController::new(ROOT.to_string(), false).scoped_to("/etc");
    let mut fs = Snapshot::new();
    fs.add_dir("/etc");
    fs.set_file("/etc/cpu.shares", "5\n");
    fs.set_file("/etc/tasks", "5\n");
    assert_eq!(c.set_shares(1).unwrap_err().kind(), &ErrorKind::InvalidPath);
    assert_eq!(c.shares(&fs).unwrap_err().kind(), &ErrorKind::InvalidPath);
    assert_eq!(c.create().unwrap_err().kind(), &ErrorKind::InvalidPath);
    assert_eq!(c.add_task(&7.into()).unwrap_err().kind(), &ErrorKind::InvalidPath);
    assert_eq!(c.tasks(&fs), vec![]);
    assert!(!c.path_exists(&fs, "cpu.shares"));
    assert_eq!(c.cpu(&fs).stat, "");
    let plan = c.set_cfs_quota_and_period(1, 2);
    assert_eq!(plan.refusal(), Some(ErrorKind::InvalidPath));
    assert_eq!(plan.steps().len(), 0);
}

#[test]
fn subsystems_have_their_names() {
    let names = [
        (Controllers::Pids, "pids"),
        (Controllers::Mem, "memory"),
        (Controllers::CpuSet, "cpuset"),
        (Controllers::CpuAcct, "cpuacct"),
        (Controllers::Cpu, "cpu"),
        (Controllers::Devices, "devices"),
        (Controllers::Freezer, "freezer"),
        (Controllers::NetCls, "net_cls"),
        (Controllers::BlkIo, "blkio"),
        (Controllers::PerfEvent, "perf_event"),
        (Controllers::NetPrio, "net_prio"),
        (Controllers::HugeTlb, "hugetlb"),
        (Controllers::Rdma, "rdma"),
    ];
    for (kind, name) in names {
        assert_eq!(kind.to_string(), name);
        let sub = Subsystem::root_of(kind, ROOT.to_string());
        assert_eq!(sub.control_type(), kind);
        assert_eq!(sub.path(), &format!("{}/{}", ROOT, name));
        assert_eq!(sub.get_base(), &format!("{}/{}", ROOT, name));
        let inner = sub.enter("grp");
        assert_eq!(inner.control_type(), kind);
        assert_eq!(inner.path(), &format!("{}/{}/grp", ROOT, name));
        assert_eq!(inner.get_base(), &format!("{}/{}", ROOT, name));
    }
}

#[test]
fn a_controller_is_found_by_its_type() {
    let sub = Subsystem::root_of(Controllers::Freezer, ROOT.to_string());
    assert!(FreezerController::of(&sub).is_some());
    assert!(RdmaController::of(&sub).is_none());
    assert!(PerfEventController::of(&sub).is_none());
    assert_eq!(FreezerController::controller_type(), Controllers::Freezer);
    assert_eq!(PerfEventController::controller_type(), Controllers::PerfEvent);
    assert_eq!(sub.to_controller().control_type(), Controllers::Freezer);
    let perf = PerfEventController::new(ROOT.to_string());
    assert_eq!(perf.path(), "/sys/fs/cgroup/perf_event");
    assert_eq!(perf.apply(&Resources::default()).steps().len(), 0);
    assert_eq!(perf.create().unwrap(), "/sys/fs/cgroup/perf_event");
    let copy = perf.clone();
    assert_eq!(copy.path(), perf.path());
}

#[test]
fn errors_have_messages() {
    let messages = [
        (ErrorKind::WriteFailed, "unable to write to a control group file"),
        (ErrorKind::ReadFailed, "unable to read a control group file"),
        (ErrorKind::ParseError, "unable to parse control group file"),
        (ErrorKind::InvalidOperation, "the requested operation is invalid"),
        (ErrorKind::InvalidPath, "the given path is invalid"),
        (ErrorKind::Other, "an unknown error"),
    ];
    for (kind, message) in messages {
        let e = Error::new(kind);
        assert_eq!(e.kind(), &kind);
        assert_eq!(e.cause(), None);
        assert_eq!(e.to_string(), message);
        let e = Error::with_cause(kind, "permission denied".to_string());
        assert_eq!(e.kind(), &kind);
        assert_eq!(e.cause(), Some(&"permission denied".to_string()));
        assert_eq!(e.to_string(), message);
    }
}

#[test]
fn cpu_settings_go_to_their_files() {
    let c = CpuController::new(ROOT.to_string(), false);
    let dir = "/sys/fs/cgroup/cpu/";
    let w = c.set_shares(85).unwrap();
    assert_eq!((w.path.clone(), w.data.clone()), (format!("{}cpu.shares", dir), "85".to_string()));
    let mut fs = Snapshot::new();
    fs.write(&w);
    assert_eq!(c.shares(&fs).unwrap(), 85);
    let w = c.set_cfs_period(100000).unwrap();
    assert_eq!((w.path.clone(), w.data.clone()), (format!("{}cpu.cfs_period_us", dir), "100000".to_string()));
    fs.write(&w);
    assert_eq!(c.cfs_period(&fs).unwrap(), 100000);
    let w = c.set_cfs_quota(50000).unwrap();
    assert_eq!((w.path.clone(), w.data.clone()), (format!("{}cpu.cfs_quota_us", dir), "50000".to_string()));
    fs.write(&w);
    assert_eq!(c.cfs_quota(&fs).unwrap(), 50000);
    let w = c.set_rt_runtime(-1).unwrap();
    assert_eq!((w.path, w.data), (format!("{}cpu.rt_runtime_us", dir), "-1".to_string()));
    let w = c.set_rt_period_us(7).unwrap();
    assert_eq!((w.path, w.data), (format!("{}cpu.rt_period_us", dir), "7".to_string()));

    fs.set_file(&format!("{}cpu.cfs_quota_us", dir), "-1\n");
    assert_eq!(c.cfs_quota(&fs).unwrap_err().kind(), &ErrorKind::ParseError);
    fs.set_file(&format!("{}cpu.stat", dir), "nr_periods 0\nnr_throttled 0\n");
    assert_eq!(c.cpu(&fs).stat, "nr_periods 0\nnr_throttled 0\n");

    let plan = c.set_cfs_quota_and_period(50000, 100000);
    let wrote: Vec<(String, String)> =
        plan.steps().iter().map(|s| (s.write.path.clone(), s.write.data.clone())).collect();
    assert_eq!(
        wrote,
        vec![
            (format!("{}cpu.cfs_quota_us", dir), "50000".to_string()),
            (format!("{}cpu.cfs_period_us", dir), "100000".to_string()),
        ]
    );
}

#[test]
fn the_unified_hierarchy_has_other_files() {
    let c = CpuController::new("/sys/fs/cgroup/unified".to_string(), true);
    assert_eq!(c.path(), "/sys/fs/cgroup/unified");
    let w = c.set_shares(100).unwrap();
    assert_eq!(w.path, "/sys/fs/cgroup/unified/cpu.weight");
    let mut fs = Snapshot::new();
    fs.write(&w);
    assert_eq!(c.shares(&fs).unwrap(), 100);
    for (quota, period, line) in [(50000, 100000, "50000 100000"), (0, 0, "max 100000"),
                                  (0, 5, "max 5"), (7, 0, "7 100000")] {
        let plan = c.set_cfs_quota_and_period(quota, period);
        assert_eq!(plan.steps().len(), 1);
        assert_eq!(plan.steps()[0].write.path, "/sys/fs/cgroup/unified/cpu.max");
        assert_eq!(plan.steps()[0].write.data, line);
    }
    let mut res = Resources::default();
    res.cpu.update_values = true;
    res.cpu.quota = -1;
    let plan = c.scoped_to("grp").apply(&res);
    let wrote: Vec<(String, String)> =
        plan.steps().iter().map(|s| (s.write.path.clone(), s.write.data.clone())).collect();
    assert_eq!(
        wrote,
        vec![
            ("/sys/fs/cgroup/unified/grp/cpu.weight".to_string(), "0".to_string()),
            ("/sys/fs/cgroup/unified/grp/cpu.cfs_period_us".to_string(), "0".to_string()),
            (
                "/sys/fs/cgroup/unified/grp/cpu.cfs_quota_us".to_string(),
                "18446744073709551615".to_string()
            ),
        ]
    );
}

#[test]
fn the_class_is_written_in_hexadecimal() {
    assert_eq!(format_class(1337), "0x000539");
    assert_eq!(format_class(0), "0x000000");
    assert_eq!(format_class(0xABCDEF), "0xABCDEF");
    assert_eq!(format_class(0x10_0001), "0x100001");
    assert_eq!(format_class(0x1234567), "0x1234567");
    assert_eq!(format_class(u64::MAX), "0xFFFFFFFFFFFFFFFF");
    for v in [0u64, 1, 15, 16, 255, 1337, 0xFFFFF, 0xFFFFFF, 0x1000000, u64::MAX] {
        assert_eq!(format_class(v), format!("{:#08X}", v));
    }
    let c = NetClsController::new(ROOT.to_string());
    let w = c.set_class(1337).unwrap();
    assert_eq!(w.path, "/sys/fs/cgroup/net_cls/net_cls.classid");
    assert_eq!(w.data, "0x000539");
    let mut fs = Snapshot::new();
    fs.set_file(&w.path, "1337\n");
    assert_eq!(c.get_class(&fs).unwrap(), 1337);
    // The file is listed in decimal; what was written is not what is read.
    fs.write(&w);
    assert_eq!(c.get_class(&fs).unwrap_err().kind(), &ErrorKind::ParseError);
}

#[test]
fn priorities_are_listed_by_interface() {
    let c = NetPrioController::new(ROOT.to_string());
    let w = c.set_if_prio("eth0", 5).unwrap();
    assert_eq!(w.path, "/sys/fs/cgroup/net_prio/net_prio.ifpriomap");
    assert_eq!(w.data, "eth0 5");
    let mut fs = Snapshot::new();
    assert_eq!(c.prio_idx(&fs), 0);
    assert_eq!(c.ifpriomap(&fs).unwrap_err().kind(), &ErrorKind::ReadFailed);
    fs.set_file("/sys/fs/cgroup/net_prio/net_prio.prioidx", "3\n");
    assert_eq!(c.prio_idx(&fs), 3);
    fs.set_file(&w.path, "lo 0\neth0 5\nwl0 7\neth0 9\n");
    let mut map = c.ifpriomap(&fs).unwrap();
    map.sort_by(|a, b| a.name.cmp(&b.name));
    assert_eq!(
        map,
        vec![
            NetworkPriority { name: "eth0".to_string(), priority: 9 },
            NetworkPriority { name: "lo".to_string(), priority: 0 },
            NetworkPriority { name: "wl0".to_string(), priority: 7 },
        ]
    );
    for bad in ["lo\n", "lo zero\n", "lo 0\n\n", "lo 0\neth0\n"] {
        fs.set_file(&w.path, bad);
        assert_eq!(c.ifpriomap(&fs).unwrap_err().kind(), &ErrorKind::ParseError, "{:?}", bad);
    }
    fs.set_file(&w.path, "");
    assert_eq!(c.ifpriomap(&fs).unwrap(), vec![]);

    let mut res = Resources::default();
    res.network.update_values = true;
    res.network.priorities.push(NetworkPriority { name: "eth0".to_string(), priority: 1 });
    res.network.priorities.push(NetworkPriority { name: "wl0".to_string(), priority: 2 });
    let plan = c.apply(&res);
    let wrote: Vec<String> = plan.steps().iter().map(|s| s.write.data.clone()).collect();
    assert_eq!(wrote, vec!["eth0 1", "wl0 2"]);
}

#[test]
fn the_freezer_has_three_states() {
    let c = FreezerController::new(ROOT.to_string());
    let w = c.freeze().unwrap();
    assert_eq!(w.path, "/sys/fs/cgroup/freezer/freezer.state");
    assert_eq!(w.data, "FROZEN");
    let mut fs = Snapshot::new();
    assert_eq!(c.state(&fs).unwrap_err().kind(), &ErrorKind::ReadFailed);
    fs.write(&w);
    assert_eq!(c.state(&fs).unwrap(), FreezerState::Frozen);
    let w = c.thaw().unwrap();
    assert_eq!(w.data, "THAWED");
    fs.write(&w);
    assert_eq!(c.state(&fs).unwrap(), FreezerState::Thawed);
    fs.set_file(&w.path, "FREEZING\n");
    assert_eq!(c.state(&fs).unwrap(), FreezerState::Freezing);
    fs.set_file(&w.path, "frozen\n");
    assert_eq!(c.state(&fs).unwrap_err().kind(), &ErrorKind::ParseError);
}

#[test]
fn accounts_are_read_file_by_file() {
    let c = CpuAcctController::new(ROOT.to_string());
    let mut fs = Snapshot::new();
    let dir = "/sys/fs/cgroup/cpuacct/";
    let none = c.cpuacct(&fs);
    assert_eq!(none.stat, "");
    assert_eq!(none.usage, 0);
    fs.set_file(&format!("{}cpuacct.stat", dir), "user 5\nsystem 6\n");
    fs.set_file(&format!("{}cpuacct.usage", dir), "12345\n");
    fs.set_file(&format!("{}cpuacct.usage_all", dir), "cpu user system\n0 1 2\n");
    fs.set_file(&format!("{}cpuacct.usage_percpu", dir), "1 2 \n");
    fs.set_file(&format!("{}cpuacct.usage_percpu_sys", dir), "3 4 \n");
    fs.set_file(&format!("{}cpuacct.usage_percpu_user", dir), "5 6 \n");
    fs.set_file(&format!("{}cpuacct.usage_sys", dir), "7\n");
    fs.set_file(&format!("{}cpuacct.usage_user", dir), "eight\n");
    let acct = c.cpuacct(&fs);
    assert_eq!(acct.stat, "user 5\nsystem 6");
    assert_eq!(acct.usage, 12345);
    assert_eq!(acct.usage_all, "cpu user system\n0 1 2");
    assert_eq!(acct.usage_percpu, "1 2");
    assert_eq!(acct.usage_percpu_sys, "3 4");
    assert_eq!(acct.usage_percpu_user, "5 6");
    assert_eq!(acct.usage_sys, 7);
    assert_eq!(acct.usage_user, 0);
    let w = c.reset().unwrap();
    assert_eq!((w.path, w.data), (format!("{}cpuacct.usage", dir), "0".to_string()));
}

#[test]
fn rdma_is_read_and_written_as_text() {
    let c = RdmaController::new(ROOT.to_string());
    let mut fs = Snapshot::new();
    assert_eq!(c.current(&fs).unwrap_err().kind(), &ErrorKind::ReadFailed);
    fs.set_file("/sys/fs/cgroup/rdma/rdma.current", "mlx4_0 hca_handle=1 hca_object=20\n");
    assert_eq!(c.current(&fs).unwrap(), "mlx4_0 hca_handle=1 hca_object=20");
    let w = c.set_max(&"mlx4_0 hca_handle=2".to_string()).unwrap();
    assert_eq!(w.path, "/sys/fs/cgroup/rdma/rdma.max");
    assert_eq!(w.data, "mlx4_0 hca_handle=2");
}

#[test]
fn block_io_is_read_and_written() {
    let c = BlkIoController::new(ROOT.to_string());
    let dir = "/sys/fs/cgroup/blkio/";
    let mut fs = Snapshot::new();
    let none = c.blkio(&fs);
    assert_eq!(none.weight, 0);
    assert_eq!(none.io_merged, "");
    assert_eq!(none.throttle.read_bps_device, "");
    let w = c.set_weight(100).unwrap();
    assert_eq!((w.path.clone(), w.data.clone()), (format!("{}blkio.weight", dir), "100".to_string()));
    fs.write(&w);
    let w = c.set_leaf_weight(200).unwrap();
    assert_eq!((w.path.clone(), w.data.clone()), (format!("{}blkio.leaf_weight", dir), "200".to_string()));
    fs.write(&w);
    let w = c.set_weight_for_device("8:0 300".to_string()).unwrap();
    assert_eq!((w.path.clone(), w.data.clone()), (format!("{}blkio.weight_device", dir), "8:0 300".to_string()));
    fs.write(&w);
    let w = c.set_leaf_weight_for_device("8:0 400".to_string()).unwrap();
    assert_eq!((w.path.clone(), w.data.clone()), (format!("{}blkio.leaf_weight_device", dir), "8:0 400".to_string()));
    fs.write(&w);
    let w = c.throttle_read_bps_for_device(8, 0, 1024).unwrap();
    assert_eq!((w.path.clone(), w.data.clone()), (format!("{}blkio.throttle.read_bps_device", dir), "8:0 1024".to_string()));
    fs.write(&w);
    let w = c.throttle_read_iops_for_device(8, 16, 10).unwrap();
    assert_eq!((w.path.clone(), w.data.clone()), (format!("{}blkio.throttle.read_iops_device", dir), "8:16 10".to_string()));
    fs.write(&w);
    let w = c.throttle_write_bps_for_device(8, 0, 2048).unwrap();
    assert_eq!((w.path.clone(), w.data.clone()), (format!("{}blkio.throttle.write_bps_device", dir), "8:0 2048".to_string()));
    fs.write(&w);
    let w = c.throttle_write_iops_for_device(8, 16, 20).unwrap();
    assert_eq!((w.path.clone(), w.data.clone()), (format!("{}blkio.throttle.write_iops_device", dir), "8:16 20".to_string()));
    fs.write(&w);
    let w = c.reset_stats().unwrap();
    assert_eq!((w.path, w.data), (format!("{}blkio.reset_stats", dir), "1".to_string()));
    fs.set_file(&format!("{}blkio.sectors", dir), "8:0 77\n");
    fs.set_file(&format!("{}blkio.throttle.io_serviced", dir), "8:0 Read 5\nTotal 5\n");
    let io = c.blkio(&fs);
    assert_eq!(io.weight, 100);
    assert_eq!(io.leaf_weight, 200);
    assert_eq!(io.weight_device, "8:0 300");
    assert_eq!(io.leaf_weight_device, "8:0 400");
    assert_eq!(io.sectors, "8:0 77");
    assert_eq!(io.throttle.read_bps_device, "8:0 1024");
    assert_eq!(io.throttle.read_iops_device, "8:16 10");
    assert_eq!(io.throttle.write_bps_device, "8:0 2048");
    assert_eq!(io.throttle.write_iops_device, "8:16 20");
    assert_eq!(io.throttle.io_serviced, "8:0 Read 5\nTotal 5");
    assert_eq!(io.time, "");
}

#[test]
fn memory_is_read_and_written() {
    let c = MemController::new(ROOT.to_string());
    let dir = "/sys/fs/cgroup/memory/";
    let mut fs = Snapshot::new();
    let none = c.memory_stat(&fs);
    assert_eq!(none.limit_in_bytes, 0);
    assert_eq!(none.oom_control, OomControl::default());
    assert_eq!(none.stat, MemoryStat::default());
    assert_eq!(none.numa_stat, NumaStat::default());
    assert_eq!(none.numa_stat.total_pages_per_node, vec![]);

    let setters = [
        (c.set_limit(1).unwrap(), "memory.limit_in_bytes", "1"),
        (c.set_kmem_limit(2).unwrap(), "memory.kmem.limit_in_bytes", "2"),
        (c.set_memswap_limit(3).unwrap(), "memory.memsw.limit_in_bytes", "3"),
        (c.set_tcp_limit(4).unwrap(), "memory.kmem.tcp.limit_in_bytes", "4"),
        (c.set_soft_limit(5).unwrap(), "memory.soft_limit_in_bytes", "5"),
        (c.set_swappiness(60).unwrap(), "memory.swappiness", "60"),
        (c.reset_fail_count().unwrap(), "memory.failcnt", "0"),
        (c.reset_kmem_fail_count().unwrap(), "memory.kmem.failcnt", "0"),
        (c.reset_tcp_fail_count().unwrap(), "memory.kmem.tcp.failcnt", "0"),
        (c.reset_memswap_fail_count().unwrap(), "memory.memsw.failcnt", "0"),
    ];
    for (w, file, data) in setters {
        assert_eq!(w.path, format!("{}{}", dir, file));
        assert_eq!(w.data, data);
        fs.write(&w);
    }
    fs.set_file(&format!("{}memory.oom_control", dir), "oom_kill_disable 1\nunder_oom 0\noom_kill 3\n");
    fs.set_file(&format!("{}memory.usage_in_bytes", dir), "4096\n");
    fs.set_file(&format!("{}memory.kmem.slabinfo", dir), "slabinfo - version: 2.1\n");
    fs.set_file(&format!("{}memory.memsw.usage_in_bytes", dir), "8192\n");
    fs.set_file(&format!("{}memory.kmem.tcp.max_usage_in_bytes", dir), "9\n");
    let m = c.memory_stat(&fs);
    assert_eq!(m.limit_in_bytes, 1);
    assert_eq!(m.soft_limit_in_bytes, 5);
    assert_eq!(m.swappiness, 60);
    assert_eq!(m.usage_in_bytes, 4096);
    assert_eq!(m.fail_cnt, 0);
    assert_eq!(m.oom_control, OomControl { oom_kill_disable: true, under_oom: false, oom_kill: 3 });
    let k = c.kmem_stat(&fs);
    assert_eq!(k.limit_in_bytes, 2);
    assert_eq!(k.slabinfo, "slabinfo - version: 2.1");
    let t = c.kmem_tcp_stat(&fs);
    assert_eq!(t.limit_in_bytes, 4);
    assert_eq!(t.max_usage_in_bytes, 9);
    let s = c.memswap(&fs);
    assert_eq!(s.limit_in_bytes, 3);
    assert_eq!(s.usage_in_bytes, 8192);

    let mut res = Resources::default();
    res.memory.update_values = true;
    res.memory.memory_hard_limit = 10;
    res.memory.memory_soft_limit = 20;
    res.memory.kernel_memory_limit = 30;
    res.memory.memory_swap_limit = 40;
    res.memory.kernel_tcp_memory_limit = 50;
    res.memory.swappiness = 60;
    let plan = c.apply(&res);
    let wrote: Vec<(String, String)> =
        plan.steps().iter().map(|s| (s.write.path.clone(), s.write.data.clone())).collect();
    assert_eq!(
        wrote,
        vec![
            (format!("{}memory.limit_in_bytes", dir), "10".to_string()),
            (format!("{}memory.soft_limit_in_bytes", dir), "20".to_string()),
            (format!("{}memory.kmem.limit_in_bytes", dir), "30".to_string()),
            (format!("{}memory.memsw.limit_in_bytes", dir), "40".to_string()),
            (format!("{}memory.kmem.tcp.limit_in_bytes", dir), "50".to_string()),
            (format!("{}memory.swappiness", dir), "60".to_string()),
        ]
    );
    assert!(plan.run_on(&mut fs).is_ok());
    assert_eq!(c.memory_stat(&fs).limit_in_bytes, 10);
    assert_eq!(c.memswap(&fs).limit_in_bytes, 40);
}

#[test]
fn the_mount_point_is_found_in_the_mount_table() {
    let table = "\
22 27 0:21 / /sys rw,nosuid,nodev,noexec,relatime shared:7 - sysfs sysfs rw
23 27 0:4 / /proc rw,nosuid,nodev,noexec,relatime shared:13 - proc proc rw
30 22 0:26 / /sys/fs/cgroup ro,nosuid,nodev,noexec shared:9 - tmpfs tmpfs ro,mode=755
31 30 0:27 / /sys/fs/cgroup/systemd rw,nosuid shared:10 - cgroup cgroup rw,xattr,name=systemd
40 27 0:35 / /run rw,nosuid shared:5 - tmpfs tmpfs rw,size=1024k
";
    assert_eq!(find_v1_mount(table), Some("/sys/fs/cgroup".to_string()));
    assert_eq!(V1::new(table).unwrap().root_control_group(&Snapshot::new()).subsystems().len(), 0);
    assert_eq!(find_v1_mount(""), None);
    assert_eq!(find_v1_mount("no separator here\n"), None);
    assert_eq!(find_v1_mount("a b c d e - tmpfs tmpfs rw\n"), None);
    assert_eq!(find_v1_mount("a b c d e - ext4 dev ro\n"), None);
    assert_eq!(find_v1_mount("a b c d e - tmpfs tmpfs\n"), None);
    assert_eq!(find_v1_mount("a - tmpfs tmpfs ro\n"), Some("ro".to_string()));
    assert_eq!(find_v1_mount(" - tmpfs tmpfs ro\n"), None);
    assert!(V1::new("nothing\n").is_none());
}

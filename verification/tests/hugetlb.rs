//! Integration tests about the hugetlb subsystem
use cgroups::error::{Error, ErrorKind};
use cgroups::fs::Snapshot;
use cgroups::hierarchies::V1;
use cgroups::hugetlb::HugeTlbController;
use cgroups::Cgroup;

const MOUNTINFO: &str =
    "36 25 0:31 / /sys/fs/cgroup ro,nosuid,nodev,noexec - tmpfs tmpfs ro,mode=755\n";

#[test]
fn test_hugetlb_sizes() {
    let h = V1::new(MOUNTINFO).unwrap();
    let mut fs = Snapshot::new();
    fs.add_dir("/sys/fs/cgroup/hugetlb");
    let (cg, dirs) = Cgroup::new(&h, &fs, "test_hugetlb_sizes");
    for dir in &dirs {
        fs.add_dir(dir);
        fs.set_file(&format!("{}/hugetlb.2MB.failcnt", dir), "0\n");
        fs.set_file(&format!("{}/hugetlb.2MB.limit_in_bytes", dir), "9223372036854771712\n");
        fs.set_file(&format!("{}/hugetlb.2MB.usage_in_bytes", dir), "0\n");
        fs.set_file(&format!("{}/hugetlb.2MB.max_usage_in_bytes", dir), "0\n");
    }
    {
        let hugetlb_controller: &HugeTlbController = cg.controller_of().unwrap();

        let size = "2MB";

        let supported = hugetlb_controller.size_supported(size);
        assert_eq!(supported, true);

        assert_no_error(hugetlb_controller.failcnt(&fs, size));
        assert_no_error(hugetlb_controller.limit_in_bytes(&fs, size));
        assert_no_error(hugetlb_controller.usage_in_bytes(&fs, size));
        assert_no_error(hugetlb_controller.max_usage_in_bytes(&fs, size));
    }
    for dir in cg.delete(&fs) {
        fs.remove_dir(&dir);
    }
}

fn assert_no_error(r: Result<u64, Error>) {
    assert_eq!(!r.is_err(), true)
}

#[test]
fn each_size_has_its_files() {
    let c = HugeTlbController::new("/sys/fs/cgroup".to_string());
    let w = c.set_limit_in_bytes("1GB", 1 << 31).unwrap();
    assert_eq!(w.path, "/sys/fs/cgroup/hugetlb/hugetlb.1GB.limit_in_bytes");
    assert_eq!(w.data, "2147483648");
    let mut fs = Snapshot::new();
    fs.write(&w);
    assert_eq!(c.limit_in_bytes(&fs, "1GB").unwrap(), 1 << 31);
    assert_eq!(c.limit_in_bytes(&fs, "2MB").unwrap_err().kind(), &ErrorKind::ReadFailed);
    fs.set_file("/sys/fs/cgroup/hugetlb/hugetlb.1GB.failcnt", "3\n");
    fs.set_file("/sys/fs/cgroup/hugetlb/hugetlb.1GB.usage_in_bytes", "4\n");
    fs.set_file("/sys/fs/cgroup/hugetlb/hugetlb.1GB.max_usage_in_bytes", "five\n");
    assert_eq!(c.failcnt(&fs, "1GB").unwrap(), 3);
    assert_eq!(c.usage_in_bytes(&fs, "1GB").unwrap(), 4);
    assert_eq!(c.max_usage_in_bytes(&fs, "1GB").unwrap_err().kind(), &ErrorKind::ParseError);
}

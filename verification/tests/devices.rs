//! Integration tests about the devices subsystem
use cgroups::devices::{DevicePermissions, DeviceType, DevicesController};
use cgroups::error::ErrorKind;
use cgroups::fs::{FileWrite, Snapshot};
use cgroups::hierarchies::V1;
use cgroups::{Cgroup, DeviceResource};

const MOUNTINFO: &str =
    "36 25 0:31 / /sys/fs/cgroup ro,nosuid,nodev,noexec - tmpfs tmpfs ro,mode=755\n";

/// What the kernel makes of a rule written to `devices.allow` or `devices.deny`: an allowed
/// device is added to the list, a denied one is taken from it, and denying all empties it.
fn kernel_write(fs: &mut Snapshot, w: &FileWrite) {
    let dir = w.path.rsplit_once('/').unwrap().0;
    let list = format!("{}/devices.list", dir);
    let mut lines: Vec<String> =
        fs.read(&list).unwrap_or_default().lines().map(|l| l.to_string()).collect();
    let device = w.data.rsplit_once(' ').unwrap().0.to_string();
    if w.path.ends_with("devices.allow") {
        lines.push(w.data.clone());
    } else if w.data.starts_with('a') {
        lines.clear();
    } else {
        lines.retain(|l| !l.starts_with(&device));
    }
    let mut text = lines.join("\n");
    if !text.is_empty() {
        text.push('\n');
    }
    fs.set_file(&list, &text);
}

#[test]
fn test_devices_parsing() {
    let hier = V1::new(MOUNTINFO).unwrap();
    let mut fs = Snapshot::new();
    fs.add_dir("/sys/fs/cgroup/devices");
    let (cg, dirs) = Cgroup::new(&hier, &fs, "test_devices_parsing");
    for dir in &dirs {
        fs.add_dir(dir);
        fs.set_file(&format!("{}/devices.list", dir), "a *:* rwm\n");
    }
    {
        let devices: &DevicesController = cg.controller_of().unwrap();

        // Deny access to all devices first
        let w = devices
            .deny_device(
                DeviceType::All,
                -1,
                -1,
                &vec![
                    DevicePermissions::Read,
                    DevicePermissions::Write,
                    DevicePermissions::MkNod,
                ],
            )
            .expect("Failed to deny device");
        kernel_write(&mut fs, &w);
        // Acquire the list of allowed devices after we denied all
        let allowed_devices = devices.allowed_devices(&fs);
        // Verify that there are no devices that we can access.
        assert!(allowed_devices.is_ok());
        assert_eq!(allowed_devices.unwrap(), Vec::new());

        // Now add mknod access to /dev/null device
        let w = devices
            .allow_device(DeviceType::Char, 1, 3, &vec![DevicePermissions::MkNod])
            .expect("Failed to allow device");
        kernel_write(&mut fs, &w);
        let allowed_devices = devices.allowed_devices(&fs);
        assert!(allowed_devices.is_ok());
        let allowed_devices = allowed_devices.unwrap();
        assert_eq!(allowed_devices.len(), 1);
        assert_eq!(
            allowed_devices[0],
            DeviceResource {
                allow: true,
                devtype: DeviceType::Char,
                major: 1,
                minor: 3,
                access: vec![DevicePermissions::MkNod],
            }
        );

        // Now deny, this device explicitly.
        let w = devices
            .deny_device(DeviceType::Char, 1, 3, &DevicePermissions::all())
            .expect("Failed to deny device");
        kernel_write(&mut fs, &w);
        // Finally, check that.
        let allowed_devices = devices.allowed_devices(&fs);
        // Verify that there are no devices that we can access.
        assert!(allowed_devices.is_ok());
        assert_eq!(allowed_devices.unwrap(), Vec::new());
    }
    for dir in cg.delete(&fs) {
        fs.remove_dir(&dir);
    }
}

#[test]
fn rules_are_written_as_the_kernel_reads_them() {
    let c = DevicesController::new("/sys/fs/cgroup".to_string());
    let w = c.deny_device(DeviceType::All, -1, -1, &DevicePermissions::all()).unwrap();
    assert_eq!(w.path, "/sys/fs/cgroup/devices/devices.deny");
    assert_eq!(w.data, "a *:* rwm");
    let w = c.allow_device(DeviceType::Char, 1, 3, &vec![DevicePermissions::MkNod]).unwrap();
    assert_eq!(w.path, "/sys/fs/cgroup/devices/devices.allow");
    assert_eq!(w.data, "c 1:3 m");
    let w = c
        .allow_device(
            DeviceType::Block,
            8,
            -1,
            &vec![DevicePermissions::Read, DevicePermissions::Write],
        )
        .unwrap();
    assert_eq!(w.data, "b 8:* rw");
}

#[test]
fn the_list_is_read_strictly() {
    let c = DevicesController::new("/sys/fs/cgroup".to_string());
    let mut fs = Snapshot::new();
    let list = "/sys/fs/cgroup/devices/devices.list";
    assert_eq!(c.allowed_devices(&fs).unwrap_err().kind(), &ErrorKind::ReadFailed);

    fs.set_file(list, "a *:* rwm\nc 1:3 m\nb 8:0 rw\n");
    assert_eq!(
        c.allowed_devices(&fs).unwrap(),
        vec![
            DeviceResource {
                allow: true,
                devtype: DeviceType::All,
                major: -1,
                minor: -1,
                access: DevicePermissions::all(),
            },
            DeviceResource {
                allow: true,
                devtype: DeviceType::Char,
                major: 1,
                minor: 3,
                access: vec![DevicePermissions::MkNod],
            },
            DeviceResource {
                allow: true,
                devtype: DeviceType::Block,
                major: 8,
                minor: 0,
                access: vec![DevicePermissions::Read, DevicePermissions::Write],
            },
        ]
    );

    for bad in ["c 1:3 m\nrubbish\n", "x 1:3 m\n", "c 1:3\n", "c 1:3 mx\n", "c one:3 m\n", "c 1:3 m extra\n", "c 1:3 \n", "\n"] {
        fs.set_file(list, bad);
        assert_eq!(c.allowed_devices(&fs).unwrap_err().kind(), &ErrorKind::ParseError, "{:?}", bad);
    }

    fs.set_file(list, "");
    assert_eq!(c.allowed_devices(&fs).unwrap(), Vec::new());
}

#[test]
fn types_and_permissions_have_their_characters() {
    assert_eq!(DeviceType::All.to_char(), 'a');
    assert_eq!(DeviceType::Char.to_char(), 'c');
    assert_eq!(DeviceType::Block.to_char(), 'b');
    assert_eq!(DeviceType::from_char(Some('a')), Some(DeviceType::All));
    assert_eq!(DeviceType::from_char(Some('c')), Some(DeviceType::Char));
    assert_eq!(DeviceType::from_char(Some('b')), Some(DeviceType::Block));
    assert_eq!(DeviceType::from_char(Some('x')), None);
    assert_eq!(DeviceType::from_char(None), None);
    assert_eq!(DeviceType::default(), DeviceType::All);
    assert_eq!(DevicePermissions::Read.to_char(), 'r');
    assert_eq!(DevicePermissions::Write.to_char(), 'w');
    assert_eq!(DevicePermissions::MkNod.to_char(), 'm');
    assert_eq!(DevicePermissions::from_char('r'), Some(DevicePermissions::Read));
    assert_eq!(DevicePermissions::from_char('w'), Some(DevicePermissions::Write));
    assert_eq!(DevicePermissions::from_char('m'), Some(DevicePermissions::MkNod));
    assert_eq!(DevicePermissions::from_char('a'), None);
    assert!(DevicePermissions::is_valid(&"rwm".to_string()));
    assert!(DevicePermissions::is_valid(&"mm".to_string()));
    assert!(!DevicePermissions::is_valid(&"".to_string()));
    assert!(!DevicePermissions::is_valid(&"rwx".to_string()));
    assert_eq!(
        DevicePermissions::all(),
        vec![DevicePermissions::Read, DevicePermissions::Write, DevicePermissions::MkNod]
    );
    assert_eq!(
        DevicePermissions::from_string(&"mr".to_string()),
        vec![DevicePermissions::MkNod, DevicePermissions::Read]
    );
    assert_eq!(DevicePermissions::from_string(&"".to_string()), vec![]);
    assert_eq!(
        DevicePermissions::from_string(&"r-w".to_string()),
        vec![DevicePermissions::Read, DevicePermissions::Write]
    );
}

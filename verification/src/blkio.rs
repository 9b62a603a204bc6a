//! The `blkio` subsystem: weights and throttles for the block devices that the
//! tasks of a control group use.
use vstd::prelude::*;
use crate::apply::{number_step, steps_view, text_step, ApplyStep, Plan, PlanView, Step};
use crate::controller::{
    controller_name, counter_in, no_plan, plan_of, trimmed_in, write_in, write_view,
    ControllIdentifier, ControllerInternal, Controllers,
};
use crate::error::Error;
use crate::fs::{FileWrite, Snapshot};
use crate::path::{join, join_spec};
use crate::resources::{
    BlkIoDeviceResource, BlkIoDeviceThrottleResource, BlkIoResources, Resources,
};
use crate::subsystem::Subsystem;
use crate::text::{decimal, push_decimal, to_text, u64_to_string};

verus! {

/// A controller that allows controlling the `blkio` subsystem of a Cgroup.
///
/// In essence, using the `blkio` controller one can limit and throttle the tasks' usage of block
/// devices in the control group.
#[derive(Debug)]
pub struct BlkIoController {
    base: String,
    path: String,
}

/// Current state and statistics about how throttled are the block devices when accessed from the
/// controller's control group.
#[derive(Debug)]
pub struct BlkIoThrottle {
    /// Total amount of bytes transferred to and from the block devices.
    pub io_service_bytes: String,
    /// Same as `io_service_bytes`, but contains all descendant control groups.
    pub io_service_bytes_recursive: String,
    /// The number of I/O operations performed on the devices as seen by the throttling policy.
    pub io_serviced: String,
    /// Same as `io_serviced`, but contains all descendant control groups.
    pub io_serviced_recursive: String,
    /// The upper limit of bytes per second rate of read operation on the block devices by the
    /// control group's tasks.
    pub read_bps_device: String,
    /// The upper limit of I/O operation per second, when said operation is a read operation.
    pub read_iops_device: String,
    /// The upper limit of bytes per second rate of write operation on the block devices by the
    /// control group's tasks.
    pub write_bps_device: String,
    /// The upper limit of I/O operation per second, when said operation is a write operation.
    pub write_iops_device: String,
}

/// Statistics and state of the block devices.
#[derive(Debug)]
pub struct BlkIo {
    /// The number of BIOS requests merged into I/O requests by the control group's tasks.
    pub io_merged: String,
    /// Same as `io_merged`, but contains all descendant control groups.
    pub io_merged_recursive: String,
    /// The number of requests queued for I/O operations by the tasks of the control group.
    pub io_queued: String,
    /// Same as `io_queued`, but contains all descendant control groups.
    pub io_queued_recursive: String,
    /// The number of bytes transferred from and to the block device (as seen by the CFQ I/O
    /// scheduler).
    pub io_service_bytes: String,
    /// Same as `io_service_bytes`, but contains all descendant control groups.
    pub io_service_bytes_recursive: String,
    /// The number of I/O operations (as seen by the CFQ I/O scheduler) between the devices and the
    /// control group's tasks.
    pub io_serviced: String,
    /// Same as `io_serviced`, but contains all descendant control groups.
    pub io_serviced_recursive: String,
    /// The total time spent between dispatch and request completion for I/O requests (as seen by
    /// the CFQ I/O scheduler) by the control group's tasks.
    pub io_service_time: String,
    /// Same as `io_service_time`, but contains all descendant control groups.
    pub io_service_time_recursive: String,
    /// Total amount of time spent waiting for a free slot in the CFQ I/O scheduler's queue.
    pub io_wait_time: String,
    /// Same as `io_wait_time`, but contains all descendant control groups.
    pub io_wait_time_recursive: String,
    /// How much weight do the control group's tasks have when competing against the descendant
    /// control group's tasks.
    pub leaf_weight: u64,
    /// Same as `leaf_weight`, but per-block-device.
    pub leaf_weight_device: String,
    /// Total number of sectors transferred between the block devices and the control group's
    /// tasks.
    pub sectors: String,
    /// Same as `sectors`, but contains all descendant control groups.
    pub sectors_recursive: String,
    /// Similar statistics, but as seen by the throttle policy.
    pub throttle: BlkIoThrottle,
    /// The time the control group had access to the I/O devices.
    pub time: String,
    /// Same as `time`, but contains all descendant control groups.
    pub time_recursive: String,
    /// The weight of this control group.
    pub weight: u64,
    /// Same as `weight`, but per-block-device.
    pub weight_device: String,
}

/// The text that sets `value` for the device `major:minor`.
pub open spec fn device_entry(major: u64, minor: u64, value: u64) -> Seq<char> {
    decimal(major as nat).push(':') + decimal(minor as nat).push(' ') + decimal(value as nat)
}

/// The steps that set the weight of each device of `list`, in order.
pub open spec fn weight_steps(list: Seq<BlkIoDeviceResource>) -> Seq<Step> {
    Seq::new(
        list.len(),
        |i: int|
            text_step(
                "blkio.weight_device"@,
                device_entry(list[i].major, list[i].minor, list[i].weight as u64),
            ),
    )
}

/// The steps that write the rate of each device of `list` to `file`, in order.
pub open spec fn throttle_steps(file: Seq<char>, list: Seq<BlkIoDeviceThrottleResource>) -> Seq<
    Step,
> {
    Seq::new(
        list.len(),
        |i: int| text_step(file, device_entry(list[i].major, list[i].minor, list[i].rate)),
    )
}

/// The settings that the block I/O section `b` asks for, in the order in which
/// they are made: the weight, the leaf weight, the weight of each device, then
/// for each device the throttles of read bytes, written bytes, read operations
/// and write operations. None is read back.
pub open spec fn blkio_settings(b: BlkIoResources) -> Seq<Step> {
    seq![
        number_step("blkio.weight"@, b.weight as u64, false),
        number_step("blkio.leaf_weight"@, b.leaf_weight as u64, false),
    ] + weight_steps(b.weight_device@) + throttle_steps(
        "blkio.throttle.read_bps_device"@,
        b.throttle_read_bps_device@,
    ) + throttle_steps("blkio.throttle.write_bps_device"@, b.throttle_write_bps_device@)
        + throttle_steps("blkio.throttle.read_iops_device"@, b.throttle_read_iops_device@)
        + throttle_steps("blkio.throttle.write_iops_device"@, b.throttle_write_iops_device@)
}

/// The text that sets `value` for the device `major:minor`.
pub fn format_device_entry(major: u64, minor: u64, value: u64) -> (s: String)
    ensures
        s@ == device_entry(major, minor, value),
{
    let mut out: Vec<char> = Vec::new();
    push_decimal(&mut out, major);
    out.push(':');
    push_decimal(&mut out, minor);
    out.push(' ');
    push_decimal(&mut out, value);
    assert(out@ =~= device_entry(major, minor, value));
    to_text(&out)
}

/// Adds to `settings` the steps that write the rate of each device of `list` to `file`.
fn push_throttles(
    settings: &mut Vec<ApplyStep>,
    file: &str,
    list: &Vec<BlkIoDeviceThrottleResource>,
)
    ensures
        steps_view(final(settings)@) == steps_view(old(settings)@) + throttle_steps(
            file@,
            list@,
        ),
{
    let ghost before = steps_view(settings@);
    let mut i: usize = 0;
    assert(steps_view(settings@) =~= before + throttle_steps(file@, list@).take(0));
    while i < list.len()
        invariant
            i <= list.len(),
            steps_view(settings@) == before + throttle_steps(file@, list@).take(i as int),
        decreases list.len() - i,
    {
        let dev = &list[i];
        let ghost prev = steps_view(settings@);
        let step = ApplyStep::text(file, format_device_entry(dev.major, dev.minor, dev.rate));
        settings.push(step);
        assert(steps_view(settings@) =~= prev.push(step@));
        i += 1;
        assert(steps_view(settings@) =~= before + throttle_steps(file@, list@).take(i as int));
    }
    assert(throttle_steps(file@, list@).take(list.len() as int) =~= throttle_steps(file@, list@));
}

/// Adds to `settings` the steps that set the weight of each device of `list`.
fn push_weights(settings: &mut Vec<ApplyStep>, list: &Vec<BlkIoDeviceResource>)
    ensures
        steps_view(final(settings)@) == steps_view(old(settings)@) + weight_steps(list@),
{
    let ghost before = steps_view(settings@);
    let mut i: usize = 0;
    assert(steps_view(settings@) =~= before + weight_steps(list@).take(0));
    while i < list.len()
        invariant
            i <= list.len(),
            steps_view(settings@) == before + weight_steps(list@).take(i as int),
        decreases list.len() - i,
    {
        let dev = &list[i];
        let ghost prev = steps_view(settings@);
        let step = ApplyStep::text(
            "blkio.weight_device",
            format_device_entry(dev.major, dev.minor, dev.weight as u64),
        );
        settings.push(step);
        assert(steps_view(settings@) =~= prev.push(step@));
        i += 1;
        assert(steps_view(settings@) =~= before + weight_steps(list@).take(i as int));
    }
    assert(weight_steps(list@).take(list.len() as int) =~= weight_steps(list@));
}

impl ControllerInternal for BlkIoController {
    closed spec fn base_spec(&self) -> Seq<char> {
        self.base@
    }

    closed spec fn path_spec(&self) -> Seq<char> {
        self.path@
    }

    open spec fn kind_spec(&self) -> Controllers {
        Controllers::BlkIo
    }

    open spec fn plan_spec(&self, res: &Resources) -> PlanView {
        if res.blkio.update_values {
            plan_of(self.base_spec(), self.path_spec(), blkio_settings(res.blkio))
        } else {
            no_plan()
        }
    }

    fn apply(&self, res: &Resources) -> (p: Plan) {
        let b = &res.blkio;
        if !b.update_values {
            return Plan::new();
        }
        let mut settings: Vec<ApplyStep> = Vec::new();
        settings.push(ApplyStep::number("blkio.weight", b.weight as u64, false));
        settings.push(ApplyStep::number("blkio.leaf_weight", b.leaf_weight as u64, false));
        assert(steps_view(settings@) =~= seq![
            number_step("blkio.weight"@, b.weight as u64, false),
            number_step("blkio.leaf_weight"@, b.leaf_weight as u64, false),
        ]);
        push_weights(&mut settings, &b.weight_device);
        push_throttles(&mut settings, "blkio.throttle.read_bps_device", &b.throttle_read_bps_device);
        push_throttles(
            &mut settings,
            "blkio.throttle.write_bps_device",
            &b.throttle_write_bps_device,
        );
        push_throttles(
            &mut settings,
            "blkio.throttle.read_iops_device",
            &b.throttle_read_iops_device,
        );
        push_throttles(
            &mut settings,
            "blkio.throttle.write_iops_device",
            &b.throttle_write_iops_device,
        );
        self.plan_for(settings)
    }

    fn control_type(&self) -> (r: Controllers) {
        Controllers::BlkIo
    }

    fn get_path(&self) -> (r: &String) {
        &self.path
    }

    fn get_base(&self) -> (r: &String) {
        &self.base
    }

    fn scoped_to(&self, name: &str) -> (r: Self) {
        BlkIoController { base: self.base.clone(), path: join(self.path.as_str(), name) }
    }
}

impl Clone for BlkIoController {
    fn clone(&self) -> (r: Self)
        ensures
            r == *self,
    {
        BlkIoController { base: self.base.clone(), path: self.path.clone() }
    }
}

impl ControllIdentifier for BlkIoController {
    open spec fn type_spec() -> Controllers {
        Controllers::BlkIo
    }

    open spec fn held_by(sub: &Subsystem) -> Option<Self> {
        match sub {
            Subsystem::BlkIo(c) => Some(*c),
            _ => None,
        }
    }

    fn controller_type() -> (r: Controllers) {
        Controllers::BlkIo
    }

    fn of(sub: &Subsystem) -> (r: Option<&Self>) {
        match sub {
            Subsystem::BlkIo(c) => Some(c),
            _ => None,
        }
    }
}

impl BlkIoController {
    /// Constructs a new `BlkIoController` with `oroot` serving as the root of the control group.
    pub fn new(oroot: String) -> (r: Self)
        ensures
            r.base_spec() == join_spec(oroot@, controller_name(Controllers::BlkIo)),
            r.path_spec() == r.base_spec(),
    {
        let root = join(oroot.as_str(), Controllers::BlkIo.to_string().as_str());
        BlkIoController { base: root.clone(), path: root }
    }

    /// Gathers the statistics of the throttle policy.
    fn throttle(&self, fs: &Snapshot) -> (r: BlkIoThrottle)
        ensures
            r.io_service_bytes@ == trimmed_in(self, fs, "blkio.throttle.io_service_bytes"@),
            r.io_service_bytes_recursive@ == trimmed_in(self, fs, "blkio.throttle.io_service_bytes_recursive"@),
            r.io_serviced@ == trimmed_in(self, fs, "blkio.throttle.io_serviced"@),
            r.io_serviced_recursive@ == trimmed_in(self, fs, "blkio.throttle.io_serviced_recursive"@),
            r.read_bps_device@ == trimmed_in(self, fs, "blkio.throttle.read_bps_device"@),
            r.read_iops_device@ == trimmed_in(self, fs, "blkio.throttle.read_iops_device"@),
            r.write_bps_device@ == trimmed_in(self, fs, "blkio.throttle.write_bps_device"@),
            r.write_iops_device@ == trimmed_in(self, fs, "blkio.throttle.write_iops_device"@),
    {
        BlkIoThrottle {
            io_service_bytes: self.read_trimmed_or_empty(fs, "blkio.throttle.io_service_bytes"),
            io_service_bytes_recursive: self.read_trimmed_or_empty(fs, "blkio.throttle.io_service_bytes_recursive"),
            io_serviced: self.read_trimmed_or_empty(fs, "blkio.throttle.io_serviced"),
            io_serviced_recursive: self.read_trimmed_or_empty(fs, "blkio.throttle.io_serviced_recursive"),
            read_bps_device: self.read_trimmed_or_empty(fs, "blkio.throttle.read_bps_device"),
            read_iops_device: self.read_trimmed_or_empty(fs, "blkio.throttle.read_iops_device"),
            write_bps_device: self.read_trimmed_or_empty(fs, "blkio.throttle.write_bps_device"),
            write_iops_device: self.read_trimmed_or_empty(fs, "blkio.throttle.write_iops_device"),
        }
    }

    /// Gathers statistics about and reports the state of the block devices used by the control
    /// group's tasks. A file that cannot be had leaves its field empty, or at zero.
    pub fn blkio(&self, fs: &Snapshot) -> (r: BlkIo)
        ensures
            r.io_merged@ == trimmed_in(self, fs, "blkio.io_merged"@),
            r.io_merged_recursive@ == trimmed_in(self, fs, "blkio.io_merged_recursive"@),
            r.io_queued@ == trimmed_in(self, fs, "blkio.io_queued"@),
            r.io_queued_recursive@ == trimmed_in(self, fs, "blkio.io_queued_recursive"@),
            r.io_service_bytes@ == trimmed_in(self, fs, "blkio.io_service_bytes"@),
            r.io_service_bytes_recursive@ == trimmed_in(self, fs, "blkio.io_service_bytes_recursive"@),
            r.io_serviced@ == trimmed_in(self, fs, "blkio.io_serviced"@),
            r.io_serviced_recursive@ == trimmed_in(self, fs, "blkio.io_serviced_recursive"@),
            r.io_service_time@ == trimmed_in(self, fs, "blkio.io_service_time"@),
            r.io_service_time_recursive@ == trimmed_in(self, fs, "blkio.io_service_time_recursive"@),
            r.io_wait_time@ == trimmed_in(self, fs, "blkio.io_wait_time"@),
            r.io_wait_time_recursive@ == trimmed_in(self, fs, "blkio.io_wait_time_recursive"@),
            r.leaf_weight == counter_in(self, fs, "blkio.leaf_weight"@),
            r.leaf_weight_device@ == trimmed_in(self, fs, "blkio.leaf_weight_device"@),
            r.sectors@ == trimmed_in(self, fs, "blkio.sectors"@),
            r.sectors_recursive@ == trimmed_in(self, fs, "blkio.sectors_recursive"@),
            r.throttle.io_service_bytes@ == trimmed_in(self, fs, "blkio.throttle.io_service_bytes"@),
            r.throttle.io_service_bytes_recursive@ == trimmed_in(self, fs, "blkio.throttle.io_service_bytes_recursive"@),
            r.throttle.io_serviced@ == trimmed_in(self, fs, "blkio.throttle.io_serviced"@),
            r.throttle.io_serviced_recursive@ == trimmed_in(self, fs, "blkio.throttle.io_serviced_recursive"@),
            r.throttle.read_bps_device@ == trimmed_in(self, fs, "blkio.throttle.read_bps_device"@),
            r.throttle.read_iops_device@ == trimmed_in(self, fs, "blkio.throttle.read_iops_device"@),
            r.throttle.write_bps_device@ == trimmed_in(self, fs, "blkio.throttle.write_bps_device"@),
            r.throttle.write_iops_device@ == trimmed_in(self, fs, "blkio.throttle.write_iops_device"@),
            r.time@ == trimmed_in(self, fs, "blkio.time"@),
            r.time_recursive@ == trimmed_in(self, fs, "blkio.time_recursive"@),
            r.weight == counter_in(self, fs, "blkio.weight"@),
            r.weight_device@ == trimmed_in(self, fs, "blkio.weight_device"@),
    {
        BlkIo {
            io_merged: self.read_trimmed_or_empty(fs, "blkio.io_merged"),
            io_merged_recursive: self.read_trimmed_or_empty(fs, "blkio.io_merged_recursive"),
            io_queued: self.read_trimmed_or_empty(fs, "blkio.io_queued"),
            io_queued_recursive: self.read_trimmed_or_empty(fs, "blkio.io_queued_recursive"),
            io_service_bytes: self.read_trimmed_or_empty(fs, "blkio.io_service_bytes"),
            io_service_bytes_recursive: self.read_trimmed_or_empty(fs, "blkio.io_service_bytes_recursive"),
            io_serviced: self.read_trimmed_or_empty(fs, "blkio.io_serviced"),
            io_serviced_recursive: self.read_trimmed_or_empty(fs, "blkio.io_serviced_recursive"),
            io_service_time: self.read_trimmed_or_empty(fs, "blkio.io_service_time"),
            io_service_time_recursive: self.read_trimmed_or_empty(fs, "blkio.io_service_time_recursive"),
            io_wait_time: self.read_trimmed_or_empty(fs, "blkio.io_wait_time"),
            io_wait_time_recursive: self.read_trimmed_or_empty(fs, "blkio.io_wait_time_recursive"),
            leaf_weight: self.read_number_or_zero(fs, "blkio.leaf_weight"),
            leaf_weight_device: self.read_trimmed_or_empty(fs, "blkio.leaf_weight_device"),
            sectors: self.read_trimmed_or_empty(fs, "blkio.sectors"),
            sectors_recursive: self.read_trimmed_or_empty(fs, "blkio.sectors_recursive"),
            throttle: self.throttle(fs),
            time: self.read_trimmed_or_empty(fs, "blkio.time"),
            time_recursive: self.read_trimmed_or_empty(fs, "blkio.time_recursive"),
            weight: self.read_number_or_zero(fs, "blkio.weight"),
            weight_device: self.read_trimmed_or_empty(fs, "blkio.weight_device"),
        }
    }

    /// Set the leaf weight on the control group's tasks, i.e., how are they weighted against the
    /// descendant control groups' tasks.
    pub fn set_leaf_weight(&self, w: u64) -> (r: Result<FileWrite, Error>)
        ensures
            write_view(r) == write_in(self, "blkio.leaf_weight"@, decimal(w as nat)),
            crate::error::bare(r),
    {
        self.write_to("blkio.leaf_weight", u64_to_string(w))
    }

    /// Same as `set_leaf_weight()`, but settable per each block device.
    pub fn set_leaf_weight_for_device(&self, d: String) -> (r: Result<FileWrite, Error>)
        ensures
            write_view(r) == write_in(self, "blkio.leaf_weight_device"@, d@),
            crate::error::bare(r),
    {
        self.write_to("blkio.leaf_weight_device", d)
    }

    /// Reset the statistics the kernel has gathered so far and start fresh.
    pub fn reset_stats(&self) -> (r: Result<FileWrite, Error>)
        ensures
            write_view(r) == write_in(self, "blkio.reset_stats"@, "1"@),
            crate::error::bare(r),
    {
        self.write_to("blkio.reset_stats", String::from_str("1"))
    }

    /// Throttle the bytes per second rate of read operation affecting the block device
    /// `major:minor` to `bps`.
    pub fn throttle_read_bps_for_device(&self, major: u64, minor: u64, bps: u64) -> (r: Result<FileWrite, Error>)
        ensures
            write_view(r) == write_in(self, "blkio.throttle.read_bps_device"@, device_entry(major, minor, bps)),
            crate::error::bare(r),
    {
        self.write_to("blkio.throttle.read_bps_device", format_device_entry(major, minor, bps))
    }

    /// Throttle the I/O operations per second rate of read operation affecting the block device
    /// `major:minor` to `iops`.
    pub fn throttle_read_iops_for_device(&self, major: u64, minor: u64, iops: u64) -> (r: Result<FileWrite, Error>)
        ensures
            write_view(r) == write_in(self, "blkio.throttle.read_iops_device"@, device_entry(major, minor, iops)),
            crate::error::bare(r),
    {
        self.write_to("blkio.throttle.read_iops_device", format_device_entry(major, minor, iops))
    }

    /// Throttle the bytes per second rate of write operation affecting the block device
    /// `major:minor` to `bps`.
    pub fn throttle_write_bps_for_device(&self, major: u64, minor: u64, bps: u64) -> (r: Result<FileWrite, Error>)
        ensures
            write_view(r) == write_in(self, "blkio.throttle.write_bps_device"@, device_entry(major, minor, bps)),
            crate::error::bare(r),
    {
        self.write_to("blkio.throttle.write_bps_device", format_device_entry(major, minor, bps))
    }

    /// Throttle the I/O operations per second rate of write operation affecting the block device
    /// `major:minor` to `iops`.
    pub fn throttle_write_iops_for_device(&self, major: u64, minor: u64, iops: u64) -> (r: Result<FileWrite, Error>)
        ensures
            write_view(r) == write_in(self, "blkio.throttle.write_iops_device"@, device_entry(major, minor, iops)),
            crate::error::bare(r),
    {
        self.write_to("blkio.throttle.write_iops_device", format_device_entry(major, minor, iops))
    }

    /// Set the weight of the control group's tasks.
    pub fn set_weight(&self, w: u64) -> (r: Result<FileWrite, Error>)
        ensures
            write_view(r) == write_in(self, "blkio.weight"@, decimal(w as nat)),
            crate::error::bare(r),
    {
        self.write_to("blkio.weight", u64_to_string(w))
    }

    /// Same as `set_weight()`, but settable per each block device.
    pub fn set_weight_for_device(&self, d: String) -> (r: Result<FileWrite, Error>)
        ensures
            write_view(r) == write_in(self, "blkio.weight_device"@, d@),
            crate::error::bare(r),
    {
        self.write_to("blkio.weight_device", d)
    }
}

} // verus!

//! The `hugetlb` subsystem: limits on the memory that the tasks of a control
//! group may have backed by huge pages.
use vstd::prelude::*;
use crate::apply::{number_step, steps_view, ApplyStep, Plan, PlanView, Step};
use crate::controller::{
    controller_name, no_plan, number_in, plan_of, write_in, write_view, ControllIdentifier,
    ControllerInternal, Controllers,
};
use crate::error::Error;
use crate::fs::{FileWrite, Snapshot};
use crate::path::{join, join_spec};
use crate::resources::{HugePageResource, Resources};
use crate::subsystem::Subsystem;
use crate::text::{decimal, u64_to_string};

verus! {

/// A controller that allows controlling the `hugetlb` subsystem of a Cgroup.
///
/// In essence, using this controller it is possible to limit the use of hugepages in the tasks of
/// the control group.
#[derive(Debug)]
pub struct HugeTlbController {
    base: String,
    path: String,
}

/// The name of the file that holds `what` for huge pages of the size `size`.
pub open spec fn hugetlb_file(size: Seq<char>, what: Seq<char>) -> Seq<char> {
    "hugetlb."@ + size + what
}

/// The settings that the limits `list` ask for, one for each size, in order.
/// None is read back.
pub open spec fn hugetlb_settings(list: Seq<HugePageResource>) -> Seq<Step> {
    Seq::new(
        list.len(),
        |i: int|
            number_step(hugetlb_file(list[i].size@, ".limit_in_bytes"@), list[i].limit, false),
    )
}

/// The name of the file that holds `what` for huge pages of the size `size`.
pub fn hugetlb_file_name(size: &str, what: &str) -> (s: String)
    ensures
        s@ == hugetlb_file(size@, what@),
{
    let mut s = String::from_str("hugetlb.");
    s.append(size);
    s.append(what);
    s
}

impl ControllerInternal for HugeTlbController {
    closed spec fn base_spec(&self) -> Seq<char> {
        self.base@
    }

    closed spec fn path_spec(&self) -> Seq<char> {
        self.path@
    }

    open spec fn kind_spec(&self) -> Controllers {
        Controllers::HugeTlb
    }

    open spec fn plan_spec(&self, res: &Resources) -> PlanView {
        if res.hugepages.update_values {
            plan_of(self.base_spec(), self.path_spec(), hugetlb_settings(res.hugepages.limits@))
        } else {
            no_plan()
        }
    }

    fn apply(&self, res: &Resources) -> (p: Plan) {
        let h = &res.hugepages;
        if !h.update_values {
            return Plan::new();
        }
        let mut settings: Vec<ApplyStep> = Vec::new();
        let mut i: usize = 0;
        assert(steps_view(settings@) =~= hugetlb_settings(h.limits@).take(0));
        while i < h.limits.len()
            invariant
                i <= h.limits.len(),
                steps_view(settings@) == hugetlb_settings(h.limits@).take(i as int),
            decreases h.limits.len() - i,
        {
            let e = &h.limits[i];
            let file = hugetlb_file_name(e.size.as_str(), ".limit_in_bytes");
            let step = ApplyStep::number(file.as_str(), e.limit, false);
            let ghost before = steps_view(settings@);
            settings.push(step);
            assert(steps_view(settings@) =~= before.push(step@));
            i += 1;
            assert(steps_view(settings@) =~= hugetlb_settings(h.limits@).take(i as int));
        }
        assert(hugetlb_settings(h.limits@).take(h.limits.len() as int) =~= hugetlb_settings(
            h.limits@,
        ));
        self.plan_for(settings)
    }

    fn control_type(&self) -> (r: Controllers) {
        Controllers::HugeTlb
    }

    fn get_path(&self) -> (r: &String) {
        &self.path
    }

    fn get_base(&self) -> (r: &String) {
        &self.base
    }

    fn scoped_to(&self, name: &str) -> (r: Self) {
        HugeTlbController { base: self.base.clone(), path: join(self.path.as_str(), name) }
    }
}

impl Clone for HugeTlbController {
    fn clone(&self) -> (r: Self)
        ensures
            r == *self,
    {
        HugeTlbController { base: self.base.clone(), path: self.path.clone() }
    }
}

impl ControllIdentifier for HugeTlbController {
    open spec fn type_spec() -> Controllers {
        Controllers::HugeTlb
    }

    open spec fn held_by(sub: &Subsystem) -> Option<Self> {
        match sub {
            Subsystem::HugeTlb(c) => Some(*c),
            _ => None,
        }
    }

    fn controller_type() -> (r: Controllers) {
        Controllers::HugeTlb
    }

    fn of(sub: &Subsystem) -> (r: Option<&Self>) {
        match sub {
            Subsystem::HugeTlb(c) => Some(c),
            _ => None,
        }
    }
}

impl HugeTlbController {
    /// Constructs a new `HugeTlbController` with `oroot` serving as the root of the control group.
    pub fn new(oroot: String) -> (r: Self)
        ensures
            r.base_spec() == join_spec(oroot@, controller_name(Controllers::HugeTlb)),
            r.path_spec() == r.base_spec(),
    {
        let root = join(oroot.as_str(), Controllers::HugeTlb.to_string().as_str());
        HugeTlbController { base: root.clone(), path: root }
    }

    /// Whether the system supports `hugetlb_size` hugepages.
    pub fn size_supported(&self, _hugetlb_size: &str) -> (r: bool)
        ensures
            r,
    {
        true
    }

    /// Check how many times has the limit of `hugetlb_size` hugepages been hit.
    pub fn failcnt(&self, fs: &Snapshot, hugetlb_size: &str) -> (r: Result<u64, Error>)
        ensures
            crate::error::by_kind(r) == number_in(
                self,
                fs,
                hugetlb_file(hugetlb_size@, ".failcnt"@),
            ),
            crate::error::bare(r),
    {
        let file = hugetlb_file_name(hugetlb_size, ".failcnt");
        self.read_number(fs, file.as_str())
    }

    /// Get the limit (in bytes) of how much memory can be backed by hugepages of a certain size
    /// (`hugetlb_size`).
    pub fn limit_in_bytes(&self, fs: &Snapshot, hugetlb_size: &str) -> (r: Result<u64, Error>)
        ensures
            crate::error::by_kind(r) == number_in(
                self,
                fs,
                hugetlb_file(hugetlb_size@, ".limit_in_bytes"@),
            ),
            crate::error::bare(r),
    {
        let file = hugetlb_file_name(hugetlb_size, ".limit_in_bytes");
        self.read_number(fs, file.as_str())
    }

    /// Get the current usage of memory that is backed by hugepages of a certain size
    /// (`hugetlb_size`).
    pub fn usage_in_bytes(&self, fs: &Snapshot, hugetlb_size: &str) -> (r: Result<u64, Error>)
        ensures
            crate::error::by_kind(r) == number_in(
                self,
                fs,
                hugetlb_file(hugetlb_size@, ".usage_in_bytes"@),
            ),
            crate::error::bare(r),
    {
        let file = hugetlb_file_name(hugetlb_size, ".usage_in_bytes");
        self.read_number(fs, file.as_str())
    }

    /// Get the maximum observed usage of memory that is backed by hugepages of a certain size
    /// (`hugetlb_size`).
    pub fn max_usage_in_bytes(&self, fs: &Snapshot, hugetlb_size: &str) -> (r: Result<u64, Error>)
        ensures
            crate::error::by_kind(r) == number_in(
                self,
                fs,
                hugetlb_file(hugetlb_size@, ".max_usage_in_bytes"@),
            ),
            crate::error::bare(r),
    {
        let file = hugetlb_file_name(hugetlb_size, ".max_usage_in_bytes");
        self.read_number(fs, file.as_str())
    }

    /// Set the limit (in bytes) of how much memory can be backed by hugepages of a certain size
    /// (`hugetlb_size`).
    pub fn set_limit_in_bytes(&self, hugetlb_size: &str, limit: u64) -> (r: Result<
        FileWrite,
        Error,
    >)
        ensures
            write_view(r) == write_in(
                self,
                hugetlb_file(hugetlb_size@, ".limit_in_bytes"@),
                decimal(limit as nat),
            ),
            crate::error::bare(r),
    {
        let file = hugetlb_file_name(hugetlb_size, ".limit_in_bytes");
        self.write_to(file.as_str(), u64_to_string(limit))
    }
}

} // verus!

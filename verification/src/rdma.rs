//! The `rdma` subsystem: limits on the RDMA resources that the tasks of a
//! control group may use.
use vstd::prelude::*;
use crate::apply::{Plan, PlanView};
use crate::controller::{
    controller_name, no_plan, read_string_from, text_in, write_in, write_view,
    ControllIdentifier, ControllerInternal, Controllers,
};
use crate::error::{Error, ErrorKind};
use crate::fs::{FileWrite, Snapshot};
use crate::path::{join, join_spec};
use crate::resources::Resources;
use crate::subsystem::Subsystem;
use crate::text::trim_spec;

verus! {

/// A controller that allows controlling the `rdma` subsystem of a Cgroup.
///
/// In essence, using this controller one can limit the RDMA/IB specific resources that the tasks
/// in the control group can use.
#[derive(Debug)]
pub struct RdmaController {
    base: String,
    path: String,
}

impl ControllerInternal for RdmaController {
    closed spec fn base_spec(&self) -> Seq<char> {
        self.base@
    }

    closed spec fn path_spec(&self) -> Seq<char> {
        self.path@
    }

    open spec fn kind_spec(&self) -> Controllers {
        Controllers::Rdma
    }

    open spec fn plan_spec(&self, res: &Resources) -> PlanView {
        no_plan()
    }

    fn apply(&self, res: &Resources) -> (p: Plan) {
        Plan::new()
    }

    fn control_type(&self) -> (r: Controllers) {
        Controllers::Rdma
    }

    fn get_path(&self) -> (r: &String) {
        &self.path
    }

    fn get_base(&self) -> (r: &String) {
        &self.base
    }

    fn scoped_to(&self, name: &str) -> (r: Self) {
        RdmaController { base: self.base.clone(), path: join(self.path.as_str(), name) }
    }
}

impl Clone for RdmaController {
    fn clone(&self) -> (r: Self)
        ensures
            r == *self,
    {
        RdmaController { base: self.base.clone(), path: self.path.clone() }
    }
}

impl ControllIdentifier for RdmaController {
    open spec fn type_spec() -> Controllers {
        Controllers::Rdma
    }

    open spec fn held_by(sub: &Subsystem) -> Option<Self> {
        match sub {
            Subsystem::Rdma(c) => Some(*c),
            _ => None,
        }
    }

    fn controller_type() -> (r: Controllers) {
        Controllers::Rdma
    }

    fn of(sub: &Subsystem) -> (r: Option<&Self>) {
        match sub {
            Subsystem::Rdma(c) => Some(c),
            _ => None,
        }
    }
}

impl RdmaController {
    /// Constructs a new `RdmaController` with `oroot` serving as the root of the control group.
    pub fn new(oroot: String) -> (r: Self)
        ensures
            r.base_spec() == join_spec(oroot@, controller_name(Controllers::Rdma)),
            r.path_spec() == r.base_spec(),
    {
        let root = join(oroot.as_str(), Controllers::Rdma.to_string().as_str());
        RdmaController { base: root.clone(), path: root }
    }

    /// Returns the current usage of RDMA/IB specific resources: the text of `rdma.current`
    /// without the white space around it.
    pub fn current(&self, fs: &Snapshot) -> (r: Result<String, Error>)
        ensures
            match r {
                Ok(t) => text_in(self, fs, "rdma.current"@) is Ok && t@ == trim_spec(
                    text_in(self, fs, "rdma.current"@)->Ok_0,
                ),
                Err(e) => text_in(self, fs, "rdma.current"@) == Err::<Seq<char>, ErrorKind>(
                    e.kind_spec(),
                ),
            },
            crate::error::bare(r),
    {
        match self.read_file(fs, "rdma.current") {
            Err(e) => Err(e),
            Ok(t) => Ok(read_string_from(t.as_str())),
        }
    }

    /// Set a maximum usage for each RDMA/IB resource.
    pub fn set_max(&self, max: &String) -> (r: Result<FileWrite, Error>)
        ensures
            write_view(r) == write_in(self, "rdma.max"@, max@),
            crate::error::bare(r),
    {
        self.write_to("rdma.max", max.clone())
    }
}

} // verus!

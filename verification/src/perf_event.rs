//! The `perf_event` subsystem: groups of tasks that `perf` can watch together.
use vstd::prelude::*;
use crate::apply::{Plan, PlanView};
use crate::controller::{
    controller_name, no_plan, ControllIdentifier, ControllerInternal, Controllers,
};
use crate::path::{join, join_spec};
use crate::resources::Resources;
use crate::subsystem::Subsystem;

verus! {

/// A controller that allows controlling the `perf_event` subsystem of a Cgroup.
///
/// In essence, when processes belong to the same `perf_event` controller, they can be monitored
/// together using the `perf` performance monitoring and reporting tool.
#[derive(Debug)]
pub struct PerfEventController {
    base: String,
    path: String,
}

impl ControllerInternal for PerfEventController {
    closed spec fn base_spec(&self) -> Seq<char> {
        self.base@
    }

    closed spec fn path_spec(&self) -> Seq<char> {
        self.path@
    }

    open spec fn kind_spec(&self) -> Controllers {
        Controllers::PerfEvent
    }

    open spec fn plan_spec(&self, res: &Resources) -> PlanView {
        no_plan()
    }

    fn apply(&self, res: &Resources) -> (p: Plan) {
        Plan::new()
    }

    fn control_type(&self) -> (r: Controllers) {
        Controllers::PerfEvent
    }

    fn get_path(&self) -> (r: &String) {
        &self.path
    }

    fn get_base(&self) -> (r: &String) {
        &self.base
    }

    fn scoped_to(&self, name: &str) -> (r: Self) {
        PerfEventController { base: self.base.clone(), path: join(self.path.as_str(), name) }
    }
}

impl Clone for PerfEventController {
    fn clone(&self) -> (r: Self)
        ensures
            r == *self,
    {
        PerfEventController { base: self.base.clone(), path: self.path.clone() }
    }
}

impl ControllIdentifier for PerfEventController {
    open spec fn type_spec() -> Controllers {
        Controllers::PerfEvent
    }

    open spec fn held_by(sub: &Subsystem) -> Option<Self> {
        match sub {
            Subsystem::PerfEvent(c) => Some(*c),
            _ => None,
        }
    }

    fn controller_type() -> (r: Controllers) {
        Controllers::PerfEvent
    }

    fn of(sub: &Subsystem) -> (r: Option<&Self>) {
        match sub {
            Subsystem::PerfEvent(c) => Some(c),
            _ => None,
        }
    }
}

impl PerfEventController {
    /// Constructs a new `PerfEventController` with `oroot` serving as the root of the control group.
    pub fn new(oroot: String) -> (r: Self)
        ensures
            r.base_spec() == join_spec(oroot@, controller_name(Controllers::PerfEvent)),
            r.path_spec() == r.base_spec(),
    {
        let root = join(oroot.as_str(), Controllers::PerfEvent.to_string().as_str());
        PerfEventController { base: root.clone(), path: root }
    }
}

} // verus!

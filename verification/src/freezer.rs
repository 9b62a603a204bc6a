//! The `freezer` subsystem: stopping and resuming the tasks of a control group.
use vstd::prelude::*;
use crate::apply::{Plan, PlanView};
use crate::controller::{
    controller_name, no_plan, text_in, write_in, write_view, ControllIdentifier,
    ControllerInternal, Controllers,
};
use crate::error::{Error, ErrorKind};
use crate::fs::{FileWrite, Snapshot};
use crate::path::{join, join_spec};
use crate::resources::Resources;
use crate::subsystem::Subsystem;
use crate::text::{is_word, to_chars, trim, trim_spec};

verus! {

/// A controller that allows controlling the `freezer` subsystem of a Cgroup.
///
/// In essence, this subsystem allows the user to freeze and thaw (== "un-freeze") the processes in
/// the control group. This is done _transparently_ so that neither the parent, nor the children of
/// the processes can observe the freeze.
///
/// Note that if the control group is currently in the `Frozen` or `Freezing` state, then no
/// processes can be added to it.
#[derive(Debug)]
pub struct FreezerController {
    base: String,
    path: String,
}

/// The current state of the control group
#[derive(Debug, Clone, Copy, PartialEq, Eq, Structural)]
pub enum FreezerState {
    /// The processes in the control group are _not_ frozen.
    Thawed,
    /// The processes in the control group are in the processes of being frozen.
    Freezing,
    /// The processes in the control group are frozen.
    Frozen,
}

/// The state that the text of `freezer.state` spells, with white space around
/// it, if it spells one.
pub open spec fn freezer_state_spec(content: Seq<char>) -> Option<FreezerState> {
    let t = trim_spec(content);
    if t == "FROZEN"@ {
        Some(FreezerState::Frozen)
    } else if t == "THAWED"@ {
        Some(FreezerState::Thawed)
    } else if t == "FREEZING"@ {
        Some(FreezerState::Freezing)
    } else {
        None
    }
}

/// The state that the text of `freezer.state` spells, if it spells one.
pub fn parse_freezer_state(content: &str) -> (r: Option<FreezerState>)
    ensures
        r == freezer_state_spec(content@),
{
    let t = trim(&to_chars(content));
    if is_word(&t, "FROZEN") {
        Some(FreezerState::Frozen)
    } else if is_word(&t, "THAWED") {
        Some(FreezerState::Thawed)
    } else if is_word(&t, "FREEZING") {
        Some(FreezerState::Freezing)
    } else {
        None
    }
}

impl ControllerInternal for FreezerController {
    closed spec fn base_spec(&self) -> Seq<char> {
        self.base@
    }

    closed spec fn path_spec(&self) -> Seq<char> {
        self.path@
    }

    open spec fn kind_spec(&self) -> Controllers {
        Controllers::Freezer
    }

    open spec fn plan_spec(&self, res: &Resources) -> PlanView {
        no_plan()
    }

    fn apply(&self, res: &Resources) -> (p: Plan) {
        Plan::new()
    }

    fn control_type(&self) -> (r: Controllers) {
        Controllers::Freezer
    }

    fn get_path(&self) -> (r: &String) {
        &self.path
    }

    fn get_base(&self) -> (r: &String) {
        &self.base
    }

    fn scoped_to(&self, name: &str) -> (r: Self) {
        FreezerController { base: self.base.clone(), path: join(self.path.as_str(), name) }
    }
}

impl Clone for FreezerController {
    fn clone(&self) -> (r: Self)
        ensures
            r == *self,
    {
        FreezerController { base: self.base.clone(), path: self.path.clone() }
    }
}

impl ControllIdentifier for FreezerController {
    open spec fn type_spec() -> Controllers {
        Controllers::Freezer
    }

    open spec fn held_by(sub: &Subsystem) -> Option<Self> {
        match sub {
            Subsystem::Freezer(c) => Some(*c),
            _ => None,
        }
    }

    fn controller_type() -> (r: Controllers) {
        Controllers::Freezer
    }

    fn of(sub: &Subsystem) -> (r: Option<&Self>) {
        match sub {
            Subsystem::Freezer(c) => Some(c),
            _ => None,
        }
    }
}

impl FreezerController {
    /// Constructs a new `FreezerController` with `oroot` serving as the root of the control group.
    pub fn new(oroot: String) -> (r: Self)
        ensures
            r.base_spec() == join_spec(oroot@, controller_name(Controllers::Freezer)),
            r.path_spec() == r.base_spec(),
    {
        let root = join(oroot.as_str(), Controllers::Freezer.to_string().as_str());
        FreezerController { base: root.clone(), path: root }
    }

    /// Freezes the processes in the control group.
    pub fn freeze(&self) -> (r: Result<FileWrite, Error>)
        ensures
            write_view(r) == write_in(self, "freezer.state"@, "FROZEN"@),
            crate::error::bare(r),
    {
        self.write_to("freezer.state", String::from_str("FROZEN"))
    }

    /// Thaws, that is, unfreezes the processes in the control group.
    pub fn thaw(&self) -> (r: Result<FileWrite, Error>)
        ensures
            write_view(r) == write_in(self, "freezer.state"@, "THAWED"@),
            crate::error::bare(r),
    {
        self.write_to("freezer.state", String::from_str("THAWED"))
    }

    /// Retrieve the state of processes in the control group.
    pub fn state(&self, fs: &Snapshot) -> (r: Result<FreezerState, Error>)
        ensures
            crate::error::by_kind(r) == (match text_in(self, fs, "freezer.state"@) {
                Err(k) => Err::<FreezerState, ErrorKind>(k),
                Ok(t) => match freezer_state_spec(t) {
                    Some(v) => Ok::<FreezerState, ErrorKind>(v),
                    None => Err::<FreezerState, ErrorKind>(ErrorKind::ParseError),
                },
            }),
            crate::error::bare(r),
    {
        match self.read_file(fs, "freezer.state") {
            Err(e) => Err(e),
            Ok(t) => match parse_freezer_state(t.as_str()) {
                Some(v) => Ok(v),
                None => Err(Error::new(ErrorKind::ParseError)),
            },
        }
    }
}

} // verus!

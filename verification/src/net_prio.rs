//! The `net_prio` subsystem: the priority of the network traffic that the tasks
//! of a control group send, interface by interface.
use vstd::prelude::*;
use crate::apply::{steps_view, text_step, ApplyStep, Plan, PlanView, Step};
use crate::controller::{
    controller_name, counter_in, no_plan, plan_of, text_in, write_in, write_view,
    ControllIdentifier, ControllerInternal, Controllers,
};
use crate::error::{Error, ErrorKind};
use crate::fs::{FileWrite, Snapshot};
use crate::path::{join, join_spec};
use crate::resources::{NetworkPriority, Resources};
use crate::subsystem::Subsystem;
use crate::text::{
    decimal, fields, fields_spec, lines, lines_spec, parse_u64, parse_u64_spec, push_decimal, texts,
    to_chars, to_text,
};

verus! {

/// A controller that allows controlling the `net_prio` subsystem of a Cgroup.
///
/// In essence, using `net_prio` one can set the priority of the packets emitted from the control
/// group's tasks. This can then be used to have QoS restrictions on certain control groups and
/// thus, prioritizing certain tasks.
#[derive(Debug)]
pub struct NetPrioController {
    base: String,
    path: String,
}

/// The text that sets the priority of the interface `eif` to `prio`.
pub open spec fn prio_entry(eif: Seq<char>, prio: u64) -> Seq<char> {
    eif.push(' ') + decimal(prio as nat)
}

/// The interface and priority that one line of `net_prio.ifpriomap` gives: its
/// first field names the interface, its second is the priority. A line with
/// fewer fields, or whose second field is no number, gives nothing.
pub open spec fn prio_of_line(line: Seq<char>) -> Option<(Seq<char>, u64)> {
    let f = fields_spec(line);
    if f.len() >= 2 && parse_u64_spec(f[1]) is Some {
        Some((f[0], parse_u64_spec(f[1])->0))
    } else {
        None
    }
}

/// The priority of each interface that `lines` give, if each line gives one.
/// Where an interface comes twice, the later line counts.
pub open spec fn priorities_of(lines: Seq<Seq<char>>) -> Option<Map<Seq<char>, u64>>
    decreases lines.len(),
{
    if lines.len() == 0 {
        Some(Map::<Seq<char>, u64>::empty())
    } else {
        match (priorities_of(lines.drop_last()), prio_of_line(lines.last())) {
            (Some(m), Some(e)) => Some(m.insert(e.0, e.1)),
            _ => None,
        }
    }
}

/// The priority of each interface that a file gives. One line that gives
/// nothing makes the whole file a parse error.
pub open spec fn ifpriomap_spec(file: Result<Seq<char>, ErrorKind>) -> Result<
    Map<Seq<char>, u64>,
    ErrorKind,
> {
    match file {
        Err(k) => Err(k),
        Ok(t) => match priorities_of(lines_spec(t)) {
            Some(m) => Ok(m),
            None => Err(ErrorKind::ParseError),
        },
    }
}

/// Whether `list` has an entry for the interface `name`.
pub open spec fn lists(list: Seq<NetworkPriority>, name: Seq<char>) -> bool {
    exists|i: int| 0 <= i < list.len() && #[trigger] list[i].name@ == name
}

/// Whether `list` holds exactly the priorities of `m`: one entry for each
/// interface of `m`, with its priority, and no interface twice.
pub open spec fn holds(list: Seq<NetworkPriority>, m: Map<Seq<char>, u64>) -> bool {
    &&& forall|i: int|
        0 <= i < list.len() ==> m.contains_key(#[trigger] list[i].name@) && m[list[i].name@]
            == list[i].priority
    &&& forall|name: Seq<char>| m.contains_key(name) ==> lists(list, name)
    &&& forall|i: int, j: int|
        0 <= i < j < list.len() ==> #[trigger] list[i].name@ != #[trigger] list[j].name@
}

/// The settings that the priorities `list` ask for, one for each, in order.
pub open spec fn prio_settings(list: Seq<NetworkPriority>) -> Seq<Step> {
    Seq::new(
        list.len(),
        |i: int| text_step("net_prio.ifpriomap"@, prio_entry(list[i].name@, list[i].priority)),
    )
}

/// The text that sets the priority of the interface `eif` to `prio`.
pub fn format_prio_entry(eif: &str, prio: u64) -> (s: String)
    ensures
        s@ == prio_entry(eif@, prio),
{
    let mut out = to_chars(eif);
    out.push(' ');
    push_decimal(&mut out, prio);
    assert(out@ =~= prio_entry(eif@, prio));
    to_text(&out)
}

/// Records in `list` that the interface `name` has the priority `prio`.
fn record(list: &mut Vec<NetworkPriority>, name: String, prio: u64, Ghost(m): Ghost<
    Map<Seq<char>, u64>,
>)
    requires
        holds(old(list)@, m),
    ensures
        holds(final(list)@, m.insert(name@, prio)),
{
    let mut j: usize = 0;
    while j < list.len()
        invariant
            j <= list.len(),
            list@ == old(list)@,
            holds(list@, m),
            forall|k: int| 0 <= k < j ==> list@[k].name@ != name@,
        decreases list.len() - j,
    {
        if list[j].name == name {
            let ghost before = list@;
            list.set(j, NetworkPriority { name, priority: prio });
            proof {
                let after = list@;
                let m2 = m.insert(name@, prio);
                assert forall|i: int| 0 <= i < after.len() implies after[i].name@
                    == before[i].name@ by {}
                assert forall|n: Seq<char>| m2.contains_key(n) implies lists(after, n) by {
                    if n == name@ {
                        assert(after[j as int].name@ == n);
                    } else {
                        assert(lists(before, n));
                        let i = choose|i: int| 0 <= i < before.len() && before[i].name@ == n;
                        assert(after[i].name@ == n);
                    }
                }
                assert forall|i: int| 0 <= i < after.len() implies m2.contains_key(
                    #[trigger] after[i].name@,
                ) && m2[after[i].name@] == after[i].priority by {
                    if i != j {
                        assert(before[i].name@ != before[j as int].name@);
                    }
                }
            }
            return ;
        }
        j += 1;
    }
    let ghost before = list@;
    list.push(NetworkPriority { name, priority: prio });
    proof {
        let after = list@;
        let m2 = m.insert(name@, prio);
        assert forall|n: Seq<char>| m2.contains_key(n) implies lists(after, n) by {
            if n == name@ {
                assert(after[before.len() as int].name@ == n);
            } else {
                assert(lists(before, n));
                let i = choose|i: int| 0 <= i < before.len() && before[i].name@ == n;
                assert(after[i].name@ == n);
            }
        }
        assert forall|i: int| 0 <= i < after.len() implies m2.contains_key(
            #[trigger] after[i].name@,
        ) && m2[after[i].name@] == after[i].priority by {
            if i < before.len() {
                assert(after[i] == before[i]);
            }
        }
    }
}

/// The priority of each interface that the text of `net_prio.ifpriomap` gives.
pub fn parse_ifpriomap(content: &str) -> (r: Result<Vec<NetworkPriority>, Error>)
    ensures
        match r {
            Ok(v) => priorities_of(lines_spec(content@)) is Some && holds(
                v@,
                priorities_of(lines_spec(content@))->0,
            ),
            Err(e) => priorities_of(lines_spec(content@)) is None && e.kind_spec()
                == ErrorKind::ParseError,
        },
        crate::error::bare(r),
{
    let ls = lines(&to_chars(content));
    let ghost l = texts(ls@);
    let mut out: Vec<NetworkPriority> = Vec::new();
    let mut ok = true;
    let mut i: usize = 0;
    assert(l.take(0) =~= Seq::<Seq<char>>::empty());
    while i < ls.len()
        invariant
            i <= ls.len(),
            l == texts(ls@),
            ok ==> priorities_of(l.take(i as int)) is Some && holds(
                out@,
                priorities_of(l.take(i as int))->0,
            ),
            !ok ==> priorities_of(l.take(i as int)) is None,
        decreases ls.len() - i,
    {
        assert(l.take(i as int + 1).drop_last() =~= l.take(i as int));
        assert(l.take(i as int + 1).last() == ls[i as int]@);
        let f = fields(&ls[i]);
        let ghost fv = fields_spec(ls[i as int]@);
        if ok && f.len() >= 2 {
            assert(fv[0] == f[0]@ && fv[1] == f[1]@);
            match parse_u64(&f[1]) {
                Some(prio) => {
                    let ghost m = priorities_of(l.take(i as int))->0;
                    record(&mut out, to_text(&f[0]), prio, Ghost(m));
                },
                None => {
                    ok = false;
                },
            }
        } else {
            ok = false;
        }
        i += 1;
    }
    assert(l.take(ls.len() as int) =~= l);
    if ok {
        Ok(out)
    } else {
        Err(Error::new(ErrorKind::ParseError))
    }
}

impl ControllerInternal for NetPrioController {
    closed spec fn base_spec(&self) -> Seq<char> {
        self.base@
    }

    closed spec fn path_spec(&self) -> Seq<char> {
        self.path@
    }

    open spec fn kind_spec(&self) -> Controllers {
        Controllers::NetPrio
    }

    open spec fn plan_spec(&self, res: &Resources) -> PlanView {
        if res.network.update_values {
            plan_of(self.base_spec(), self.path_spec(), prio_settings(res.network.priorities@))
        } else {
            no_plan()
        }
    }

    fn apply(&self, res: &Resources) -> (p: Plan) {
        let n = &res.network;
        if !n.update_values {
            return Plan::new();
        }
        let mut settings: Vec<ApplyStep> = Vec::new();
        let mut i: usize = 0;
        assert(steps_view(settings@) =~= prio_settings(n.priorities@).take(0));
        while i < n.priorities.len()
            invariant
                i <= n.priorities.len(),
                steps_view(settings@) == prio_settings(n.priorities@).take(i as int),
            decreases n.priorities.len() - i,
        {
            let e = &n.priorities[i];
            let step = ApplyStep::text(
                "net_prio.ifpriomap",
                format_prio_entry(e.name.as_str(), e.priority),
            );
            let ghost before = steps_view(settings@);
            settings.push(step);
            assert(steps_view(settings@) =~= before.push(step@));
            i += 1;
            assert(steps_view(settings@) =~= prio_settings(n.priorities@).take(i as int));
        }
        assert(prio_settings(n.priorities@).take(n.priorities.len() as int) =~= prio_settings(
            n.priorities@,
        ));
        self.plan_for(settings)
    }

    fn control_type(&self) -> (r: Controllers) {
        Controllers::NetPrio
    }

    fn get_path(&self) -> (r: &String) {
        &self.path
    }

    fn get_base(&self) -> (r: &String) {
        &self.base
    }

    fn scoped_to(&self, name: &str) -> (r: Self) {
        NetPrioController { base: self.base.clone(), path: join(self.path.as_str(), name) }
    }
}

impl Clone for NetPrioController {
    fn clone(&self) -> (r: Self)
        ensures
            r == *self,
    {
        NetPrioController { base: self.base.clone(), path: self.path.clone() }
    }
}

impl ControllIdentifier for NetPrioController {
    open spec fn type_spec() -> Controllers {
        Controllers::NetPrio
    }

    open spec fn held_by(sub: &Subsystem) -> Option<Self> {
        match sub {
            Subsystem::NetPrio(c) => Some(*c),
            _ => None,
        }
    }

    fn controller_type() -> (r: Controllers) {
        Controllers::NetPrio
    }

    fn of(sub: &Subsystem) -> (r: Option<&Self>) {
        match sub {
            Subsystem::NetPrio(c) => Some(c),
            _ => None,
        }
    }
}

impl NetPrioController {
    /// Constructs a new `NetPrioController` with `oroot` serving as the root of the control group.
    pub fn new(oroot: String) -> (r: Self)
        ensures
            r.base_spec() == join_spec(oroot@, controller_name(Controllers::NetPrio)),
            r.path_spec() == r.base_spec(),
    {
        let root = join(oroot.as_str(), Controllers::NetPrio.to_string().as_str());
        NetPrioController { base: root.clone(), path: root }
    }

    /// Retrieves the current priority of the emitted packets.
    pub fn prio_idx(&self, fs: &Snapshot) -> (r: u64)
        ensures
            r == counter_in(self, fs, "net_prio.prioidx"@),
    {
        self.read_number_or_zero(fs, "net_prio.prioidx")
    }

    /// The priority of each network interface, as `net_prio.ifpriomap` lists them: one entry
    /// for each interface, in no particular order.
    pub fn ifpriomap(&self, fs: &Snapshot) -> (r: Result<Vec<NetworkPriority>, Error>)
        ensures
            match r {
                Ok(v) => ifpriomap_spec(text_in(self, fs, "net_prio.ifpriomap"@)) is Ok && holds(
                    v@,
                    ifpriomap_spec(text_in(self, fs, "net_prio.ifpriomap"@))->Ok_0,
                ),
                Err(e) => ifpriomap_spec(text_in(self, fs, "net_prio.ifpriomap"@)) == Err::<
                    Map<Seq<char>, u64>,
                    ErrorKind,
                >(e.kind_spec()),
            },
            crate::error::bare(r),
    {
        match self.read_file(fs, "net_prio.ifpriomap") {
            Err(e) => Err(e),
            Ok(t) => parse_ifpriomap(t.as_str()),
        }
    }

    /// Set the priority of the network traffic on `eif` to be `prio`.
    pub fn set_if_prio(&self, eif: &str, prio: u64) -> (r: Result<FileWrite, Error>)
        ensures
            write_view(r) == write_in(self, "net_prio.ifpriomap"@, prio_entry(eif@, prio)),
            crate::error::bare(r),
    {
        self.write_to("net_prio.ifpriomap", format_prio_entry(eif, prio))
    }
}

} // verus!

//! The `net_cls` subsystem: a class identifier on the network packets that the
//! tasks of a control group send.
use vstd::prelude::*;
use crate::apply::{steps_view, ApplyStep, Expected, Plan, PlanView, Step};
use crate::controller::{
    controller_name, no_plan, number_in, plan_of, write_in, write_view, ControllIdentifier,
    ControllerInternal, Controllers,
};
use crate::error::Error;
use crate::fs::{FileWrite, Snapshot};
use crate::path::{join, join_spec};
use crate::resources::Resources;
use crate::subsystem::Subsystem;
use crate::text::to_text;

verus! {

/// A controller that allows controlling the `net_cls` subsystem of a Cgroup.
///
/// In esssence, using the `net_cls` controller, one can attach a custom class to the network
/// packets emitted by the control group's tasks. This can then later be used in iptables to have
/// custom firewall rules, QoS, etc.
#[derive(Debug)]
pub struct NetClsController {
    base: String,
    path: String,
}

/// The character for the hexadecimal digit `d`, in upper case.
pub open spec fn hex_char(d: int) -> char {
    if d == 0 {
        '0'
    } else if d == 1 {
        '1'
    } else if d == 2 {
        '2'
    } else if d == 3 {
        '3'
    } else if d == 4 {
        '4'
    } else if d == 5 {
        '5'
    } else if d == 6 {
        '6'
    } else if d == 7 {
        '7'
    } else if d == 8 {
        '8'
    } else if d == 9 {
        '9'
    } else if d == 10 {
        'A'
    } else if d == 11 {
        'B'
    } else if d == 12 {
        'C'
    } else if d == 13 {
        'D'
    } else if d == 14 {
        'E'
    } else {
        'F'
    }
}

/// The shortest hexadecimal spelling of `n`, in upper case.
pub open spec fn hex(n: nat) -> Seq<char>
    decreases n,
{
    if n < 16 {
        seq![hex_char(n as int)]
    } else {
        hex(n / 16).push(hex_char((n % 16) as int))
    }
}

/// The zeros that bring `digits` digits up to six.
pub open spec fn padding(digits: nat) -> Seq<char> {
    if digits < 6 {
        Seq::new((6 - digits) as nat, |i: int| '0')
    } else {
        Seq::<char>::empty()
    }
}

/// The text that the kernel takes for the class identifier `class`: `0x`, then
/// the identifier in hexadecimal, with zeros in front up to six digits.
pub open spec fn class_text(class: u64) -> Seq<char> {
    seq!['0', 'x'] + padding(hex(class as nat).len()) + hex(class as nat)
}

/// The value of the hexadecimal digit `c`, in upper case.
pub open spec fn hex_digit_value(c: char) -> int {
    if '0' <= c && c <= '9' {
        c as int - '0' as int
    } else {
        c as int - 'A' as int + 10
    }
}

/// The number that the upper-case hexadecimal digits of `s` denote.
pub open spec fn hex_value(s: Seq<char>) -> int
    decreases s.len(),
{
    if s.len() == 0 {
        0
    } else {
        hex_value(s.drop_last()) * 16 + hex_digit_value(s.last())
    }
}

/// The step that sets the class identifier to `class` and expects the file to
/// spell that number afterwards.
pub open spec fn class_step(class: u64) -> Step {
    Step { path: "net_cls.classid"@, data: class_text(class), expect: Expected::Number(class) }
}

/// The hexadecimal spelling of a number denotes that number.
pub proof fn lemma_hex_value(n: nat)
    ensures
        hex_value(hex(n)) == n,
    decreases n,
{
    if n < 16 {
        let s = hex(n);
        assert(s.drop_last() =~= Seq::<char>::empty());
        assert(hex_value(s.drop_last()) == 0);
    } else {
        lemma_hex_value(n / 16);
        let d = hex(n / 16);
        let c = hex_char((n % 16) as int);
        assert(d.push(c).drop_last() =~= d);
        assert(hex_digit_value(c) == n % 16);
    }
}

/// Zeros in front of hexadecimal digits do not change what they denote.
pub proof fn lemma_hex_zeros(k: nat, s: Seq<char>)
    ensures
        hex_value(Seq::new(k, |i: int| '0') + s) == hex_value(s),
    decreases s.len(),
{
    let z = Seq::new(k, |i: int| '0');
    if s.len() == 0 {
        assert(z + s =~= z);
        lemma_zeros_value(k);
    } else {
        lemma_hex_zeros(k, s.drop_last());
        assert((z + s).drop_last() =~= z + s.drop_last());
    }
}

/// A run of zeros denotes zero.
pub proof fn lemma_zeros_value(k: nat)
    ensures
        hex_value(Seq::new(k, |i: int| '0')) == 0,
    decreases k,
{
    let z = Seq::new(k, |i: int| '0');
    if k > 0 {
        lemma_zeros_value((k - 1) as nat);
        assert(z.drop_last() =~= Seq::new((k - 1) as nat, |i: int| '0'));
    }
}

/// What is written for a class identifier denotes that identifier: after the
/// `0x`, the text is the identifier in hexadecimal.
pub proof fn lemma_class_text_value(class: u64)
    ensures
        class_text(class).len() >= 8,
        class_text(class)[0] == '0',
        class_text(class)[1] == 'x',
        hex_value(class_text(class).skip(2)) == class,
{
    let h = hex(class as nat);
    lemma_hex_value(class as nat);
    let p = padding(h.len());
    assert(class_text(class).skip(2) =~= p + h);
    if h.len() < 6 {
        lemma_hex_zeros((6 - h.len()) as nat, h);
    } else {
        assert(p + h =~= h);
    }
}

/// The character for the hexadecimal digit `d`, in upper case.
fn hex_digit(d: u8) -> (c: char)
    requires
        d < 16,
    ensures
        c == hex_char(d as int),
{
    match d {
        0 => '0',
        1 => '1',
        2 => '2',
        3 => '3',
        4 => '4',
        5 => '5',
        6 => '6',
        7 => '7',
        8 => '8',
        9 => '9',
        10 => 'A',
        11 => 'B',
        12 => 'C',
        13 => 'D',
        14 => 'E',
        _ => 'F',
    }
}

/// Appends the hexadecimal spelling of `n` to `out`.
fn push_hex(out: &mut Vec<char>, n: u64)
    ensures
        final(out)@ == old(out)@ + hex(n as nat),
    decreases n,
{
    if n >= 16 {
        push_hex(out, n / 16);
    }
    out.push(hex_digit((n % 16) as u8));
    assert(final(out)@ =~= old(out)@ + hex(n as nat));
}

/// The text that the kernel takes for the class identifier `class`.
pub fn format_class(class: u64) -> (s: String)
    ensures
        s@ == class_text(class),
{
    let mut digits: Vec<char> = Vec::new();
    push_hex(&mut digits, class);
    assert(digits@ =~= hex(class as nat));
    let mut out: Vec<char> = Vec::new();
    out.push('0');
    out.push('x');
    let mut k: usize = digits.len();
    while k < 6
        invariant
            digits.len() <= k,
            k == digits.len() || k <= 6,
            out@ == seq!['0', 'x'] + Seq::new((k - digits.len()) as nat, |i: int| '0'),
        decreases 6 - k,
    {
        out.push('0');
        k += 1;
        assert(out@ =~= seq!['0', 'x'] + Seq::new((k - digits.len()) as nat, |i: int| '0'));
    }
    assert(out@ =~= seq!['0', 'x'] + padding(digits@.len()));
    crate::text::push_chars(&mut out, &digits);
    to_text(&out)
}

impl ControllerInternal for NetClsController {
    closed spec fn base_spec(&self) -> Seq<char> {
        self.base@
    }

    closed spec fn path_spec(&self) -> Seq<char> {
        self.path@
    }

    open spec fn kind_spec(&self) -> Controllers {
        Controllers::NetCls
    }

    open spec fn plan_spec(&self, res: &Resources) -> PlanView {
        if res.network.update_values {
            plan_of(self.base_spec(), self.path_spec(), seq![class_step(res.network.class_id)])
        } else {
            no_plan()
        }
    }

    fn apply(&self, res: &Resources) -> (p: Plan) {
        if !res.network.update_values {
            return Plan::new();
        }
        let class = res.network.class_id;
        let mut settings: Vec<ApplyStep> = Vec::new();
        settings.push(
            ApplyStep::new(
                String::from_str("net_cls.classid"),
                format_class(class),
                Expected::Number(class),
            ),
        );
        assert(steps_view(settings@) =~= seq![class_step(class)]);
        self.plan_for(settings)
    }

    fn control_type(&self) -> (r: Controllers) {
        Controllers::NetCls
    }

    fn get_path(&self) -> (r: &String) {
        &self.path
    }

    fn get_base(&self) -> (r: &String) {
        &self.base
    }

    fn scoped_to(&self, name: &str) -> (r: Self) {
        NetClsController { base: self.base.clone(), path: join(self.path.as_str(), name) }
    }
}

impl Clone for NetClsController {
    fn clone(&self) -> (r: Self)
        ensures
            r == *self,
    {
        NetClsController { base: self.base.clone(), path: self.path.clone() }
    }
}

impl ControllIdentifier for NetClsController {
    open spec fn type_spec() -> Controllers {
        Controllers::NetCls
    }

    open spec fn held_by(sub: &Subsystem) -> Option<Self> {
        match sub {
            Subsystem::NetCls(c) => Some(*c),
            _ => None,
        }
    }

    fn controller_type() -> (r: Controllers) {
        Controllers::NetCls
    }

    fn of(sub: &Subsystem) -> (r: Option<&Self>) {
        match sub {
            Subsystem::NetCls(c) => Some(c),
            _ => None,
        }
    }
}

impl NetClsController {
    /// Constructs a new `NetClsController` with `oroot` serving as the root of the control group.
    pub fn new(oroot: String) -> (r: Self)
        ensures
            r.base_spec() == join_spec(oroot@, controller_name(Controllers::NetCls)),
            r.path_spec() == r.base_spec(),
    {
        let root = join(oroot.as_str(), Controllers::NetCls.to_string().as_str());
        NetClsController { base: root.clone(), path: root }
    }

    /// Set the network class id of the outgoing packets of the control group's tasks.
    pub fn set_class(&self, class: u64) -> (r: Result<FileWrite, Error>)
        ensures
            write_view(r) == write_in(self, "net_cls.classid"@, class_text(class)),
            crate::error::bare(r),
    {
        self.write_to("net_cls.classid", format_class(class))
    }

    /// Get the network class id of the outgoing packets of the control group's tasks.
    pub fn get_class(&self, fs: &Snapshot) -> (r: Result<u64, Error>)
        ensures
            crate::error::by_kind(r) == number_in(self, fs, "net_cls.classid"@),
            crate::error::bare(r),
    {
        self.read_number(fs, "net_cls.classid")
    }
}

} // verus!

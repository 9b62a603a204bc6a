//! The `devices` subsystem: which devices the tasks of a control group may use.
use vstd::prelude::*;
use crate::apply::{steps_view, text_step, ApplyStep, Plan, PlanView, Step};
use crate::controller::{
    controller_name, no_plan, plan_of, text_in, write_in, write_view, ControllIdentifier,
    ControllerInternal, Controllers,
};
use crate::error::{Error, ErrorKind};
use crate::fs::{FileWrite, Snapshot};
use crate::path::{join, join_spec};
use crate::resources::{DeviceResource, Resources};
use crate::subsystem::Subsystem;
use crate::text::{
    lines, lines_spec, parse_i64, parse_i64_spec, push_signed_decimal, signed_decimal, split,
    split_spec, texts, to_chars, to_text,
};

verus! {

/// A controller that allows controlling the `devices` subsystem of a Cgroup.
///
/// In essence, using the devices controller, it is possible to allow or disallow sets of devices to
/// be used by the control group's tasks.
#[derive(Debug)]
pub struct DevicesController {
    base: String,
    path: String,
}

/// An enum holding the different types of devices that can be manipulated using this controller.
#[derive(Debug, Clone, Copy, PartialEq, Eq, Structural)]
pub enum DeviceType {
    /// The rule applies to all devices.
    All,
    /// The rule only applies to character devices.
    Char,
    /// The rule only applies to block devices.
    Block,
}

/// An enum with the permissions that can be allowed/denied to the control group.
#[derive(Debug, Clone, Copy, PartialEq, Eq, Structural)]
pub enum DevicePermissions {
    /// Permission to read from the device.
    Read,
    /// Permission to write to the device.
    Write,
    /// Permission to execute the `mknod(2)` system call with the device's major and minor numbers.
    /// That is, the permission to create a special file that refers to the device node.
    MkNod,
}

impl Default for DeviceType {
    fn default() -> (r: Self)
        ensures
            r == DeviceType::All,
    {
        DeviceType::All
    }
}

/// A rule on devices as a plain value.
pub struct DeviceRule {
    /// Whether the rule allows access, rather than denies it.
    pub allow: bool,
    /// The type of device that the rule is about.
    pub devtype: DeviceType,
    /// The major number of the device; `-1` stands for any.
    pub major: i64,
    /// The minor number of the device; `-1` stands for any.
    pub minor: i64,
    /// The kinds of access that the rule is about.
    pub access: Seq<DevicePermissions>,
}

impl View for DeviceResource {
    type V = DeviceRule;

    open spec fn view(&self) -> DeviceRule {
        DeviceRule {
            allow: self.allow,
            devtype: self.devtype,
            major: self.major,
            minor: self.minor,
            access: self.access@,
        }
    }
}

/// The rules of `v` as plain values.
pub open spec fn rules_view(v: Seq<DeviceResource>) -> Seq<DeviceRule> {
    Seq::new(v.len(), |i: int| v[i]@)
}

/// The character that the kernel uses for a type of device.
pub open spec fn type_char(t: DeviceType) -> char {
    match t {
        DeviceType::All => 'a',
        DeviceType::Char => 'c',
        DeviceType::Block => 'b',
    }
}

/// The type of device that a character stands for, if it stands for one.
pub open spec fn type_of_char(c: Option<char>) -> Option<DeviceType> {
    match c {
        Some(x) => if x == 'a' {
            Some(DeviceType::All)
        } else if x == 'c' {
            Some(DeviceType::Char)
        } else if x == 'b' {
            Some(DeviceType::Block)
        } else {
            None
        },
        None => None,
    }
}

/// The character that the kernel uses for a kind of access.
pub open spec fn perm_char(p: DevicePermissions) -> char {
    match p {
        DevicePermissions::Read => 'r',
        DevicePermissions::Write => 'w',
        DevicePermissions::MkNod => 'm',
    }
}

/// The kind of access that a character stands for, if it stands for one.
pub open spec fn perm_of_char(c: char) -> Option<DevicePermissions> {
    if c == 'r' {
        Some(DevicePermissions::Read)
    } else if c == 'w' {
        Some(DevicePermissions::Write)
    } else if c == 'm' {
        Some(DevicePermissions::MkNod)
    } else {
        None
    }
}

/// Whether `s` describes some access: it is not empty, and each of its
/// characters stands for a kind of access.
pub open spec fn perms_valid(s: Seq<char>) -> bool {
    s.len() > 0 && forall|i: int| 0 <= i < s.len() ==> perm_of_char(#[trigger] s[i]) is Some
}

/// The kinds of access that the characters of `s` stand for, in order.
/// Characters that stand for none are passed over.
pub open spec fn perms_of(s: Seq<char>) -> Seq<DevicePermissions>
    decreases s.len(),
{
    if s.len() == 0 {
        Seq::<DevicePermissions>::empty()
    } else {
        match perm_of_char(s.last()) {
            Some(p) => perms_of(s.drop_last()).push(p),
            None => perms_of(s.drop_last()),
        }
    }
}

/// The characters for the kinds of access `perms`, in order.
pub open spec fn perms_text(perms: Seq<DevicePermissions>) -> Seq<char> {
    Seq::new(perms.len(), |i: int| perm_char(perms[i]))
}

/// The text of a device number in a rule: `*` for any (`-1`), else the number.
pub open spec fn number_text(n: i64) -> Seq<char> {
    if n == -1 {
        seq!['*']
    } else {
        signed_decimal(n as int)
    }
}

/// The device number that `s` spells in the kernel's list: a signed number, or
/// `*` for any, which reads as `-1`.
pub open spec fn number_or_any(s: Seq<char>) -> Option<i64> {
    match parse_i64_spec(s) {
        Some(v) => Some(v),
        None => if s == seq!['*'] {
            Some(-1i64)
        } else {
            None
        },
    }
}

/// The text of a rule as the kernel takes it: `type major:minor access`.
pub open spec fn rule_text(
    devtype: DeviceType,
    major: i64,
    minor: i64,
    perms: Seq<DevicePermissions>,
) -> Seq<char> {
    seq![type_char(devtype), ' '] + number_text(major).push(':') + number_text(minor).push(' ')
        + perms_text(perms)
}

/// The first character of `s`, if it has one.
pub open spec fn first_char(s: Seq<char>) -> Option<char> {
    if s.len() > 0 {
        Some(s[0])
    } else {
        None
    }
}

/// The rule that one line of the kernel's list gives. The line has to read
/// `type major:minor access`: four pieces between its spaces and colons, the
/// first starting with the character of a type, the next two device numbers,
/// the last a valid description of access. Any other line gives nothing.
pub open spec fn rule_of_line(line: Seq<char>) -> Option<DeviceRule> {
    let ls = split_spec(line, ' ', ':');
    if ls.len() == 4 && type_of_char(first_char(ls[0])) is Some && number_or_any(ls[1]) is Some
        && number_or_any(ls[2]) is Some && perms_valid(ls[3]) {
        Some(
            DeviceRule {
                allow: true,
                devtype: type_of_char(first_char(ls[0]))->0,
                major: number_or_any(ls[1])->0,
                minor: number_or_any(ls[2])->0,
                access: perms_of(ls[3]),
            },
        )
    } else {
        None
    }
}

/// The rules that `lines` give, in order, if each of them gives one.
pub open spec fn rules_of(lines: Seq<Seq<char>>) -> Option<Seq<DeviceRule>>
    decreases lines.len(),
{
    if lines.len() == 0 {
        Some(Seq::<DeviceRule>::empty())
    } else {
        match (rules_of(lines.drop_last()), rule_of_line(lines.last())) {
            (Some(rest), Some(r)) => Some(rest.push(r)),
            _ => None,
        }
    }
}

/// The devices that the kernel's list allows: what the file gives line by
/// line. One line that is not a rule makes the whole list a parse error.
pub open spec fn allowed_spec(file: Result<Seq<char>, ErrorKind>) -> Result<
    Seq<DeviceRule>,
    ErrorKind,
> {
    match file {
        Err(k) => Err(k),
        Ok(t) => match rules_of(lines_spec(t)) {
            Some(v) => Ok(v),
            None => Err(ErrorKind::ParseError),
        },
    }
}

/// The step that lets the kernel know of one rule: a write to `devices.allow`
/// or to `devices.deny`.
pub open spec fn rule_step(r: DeviceRule) -> Step {
    text_step(
        if r.allow {
            "devices.allow"@
        } else {
            "devices.deny"@
        },
        rule_text(r.devtype, r.major, r.minor, r.access),
    )
}

/// The settings that the rules `list` ask for, one for each rule, in order.
pub open spec fn devices_settings(list: Seq<DeviceResource>) -> Seq<Step> {
    Seq::new(list.len(), |i: int| rule_step(list[i]@))
}

impl DeviceType {
    /// Convert a DeviceType into the character that the kernel recognizes.
    pub fn to_char(&self) -> (c: char)
        ensures
            c == type_char(*self),
    {
        match self {
            DeviceType::All => 'a',
            DeviceType::Char => 'c',
            DeviceType::Block => 'b',
        }
    }

    /// Convert the kenrel's representation into the DeviceType type.
    pub fn from_char(c: Option<char>) -> (r: Option<DeviceType>)
        ensures
            r == type_of_char(c),
    {
        match c {
            Some('a') => Some(DeviceType::All),
            Some('c') => Some(DeviceType::Char),
            Some('b') => Some(DeviceType::Block),
            _ => None,
        }
    }
}

impl DevicePermissions {
    /// Convert a DevicePermissions into the character that the kernel recognizes.
    pub fn to_char(&self) -> (c: char)
        ensures
            c == perm_char(*self),
    {
        match self {
            DevicePermissions::Read => 'r',
            DevicePermissions::Write => 'w',
            DevicePermissions::MkNod => 'm',
        }
    }

    /// Convert a char to a DevicePermission if there is such a mapping.
    pub fn from_char(c: char) -> (r: Option<DevicePermissions>)
        ensures
            r == perm_of_char(c),
    {
        match c {
            'r' => Some(DevicePermissions::Read),
            'w' => Some(DevicePermissions::Write),
            'm' => Some(DevicePermissions::MkNod),
            _ => None,
        }
    }

    /// Checks whether the string is a valid descriptor of DevicePermissions.
    pub fn is_valid(s: &String) -> (r: bool)
        ensures
            r == perms_valid(s@),
    {
        let v = to_chars(s.as_str());
        chars_valid(&v)
    }

    /// Returns a Vec will all the permissions that a device can have.
    pub fn all() -> (r: Vec<DevicePermissions>)
        ensures
            r@ == seq![DevicePermissions::Read, DevicePermissions::Write, DevicePermissions::MkNod],
    {
        let mut v: Vec<DevicePermissions> = Vec::new();
        v.push(DevicePermissions::Read);
        v.push(DevicePermissions::Write);
        v.push(DevicePermissions::MkNod);
        assert(v@ =~= seq![
            DevicePermissions::Read,
            DevicePermissions::Write,
            DevicePermissions::MkNod,
        ]);
        v
    }

    /// Convert a string into DevicePermissions.
    ///
    /// Characters that stand for no permission are passed over.
    pub fn from_string(s: &String) -> (r: Vec<DevicePermissions>)
        ensures
            r@ == perms_of(s@),
    {
        let v = to_chars(s.as_str());
        chars_to_perms(&v)
    }
}

/// Whether the characters of `v` are a valid description of access.
fn chars_valid(v: &Vec<char>) -> (r: bool)
    ensures
        r == perms_valid(v@),
{
    if v.len() == 0 {
        return false;
    }
    let mut i: usize = 0;
    while i < v.len()
        invariant
            i <= v.len(),
            forall|k: int| 0 <= k < i ==> perm_of_char(#[trigger] v@[k]) is Some,
        decreases v.len() - i,
    {
        if DevicePermissions::from_char(v[i]).is_none() {
            return false;
        }
        i += 1;
    }
    true
}

/// The kinds of access that the characters of `v` stand for, in order.
fn chars_to_perms(v: &Vec<char>) -> (r: Vec<DevicePermissions>)
    ensures
        r@ == perms_of(v@),
{
    let mut out: Vec<DevicePermissions> = Vec::new();
    let mut i: usize = 0;
    assert(v@.take(0) =~= Seq::<char>::empty());
    while i < v.len()
        invariant
            i <= v.len(),
            out@ == perms_of(v@.take(i as int)),
        decreases v.len() - i,
    {
        assert(v@.take(i as int + 1).drop_last() =~= v@.take(i as int));
        match DevicePermissions::from_char(v[i]) {
            Some(p) => {
                out.push(p);
            },
            None => {},
        }
        i += 1;
    }
    assert(v@.take(v.len() as int) =~= v@);
    out
}

/// Appends the text of a device number in a rule to `out`.
fn push_number_text(out: &mut Vec<char>, n: i64)
    ensures
        final(out)@ == old(out)@ + number_text(n),
{
    if n == -1 {
        out.push('*');
        assert(out@ =~= old(out)@ + number_text(n));
    } else {
        push_signed_decimal(out, n);
    }
}

/// The text of a rule as the kernel takes it.
pub fn format_rule(devtype: DeviceType, major: i64, minor: i64, perm: &Vec<DevicePermissions>) -> (s:
    String)
    ensures
        s@ == rule_text(devtype, major, minor, perm@),
{
    let mut out: Vec<char> = Vec::new();
    out.push(devtype.to_char());
    out.push(' ');
    push_number_text(&mut out, major);
    out.push(':');
    push_number_text(&mut out, minor);
    out.push(' ');
    let ghost head = out@;
    let mut i: usize = 0;
    while i < perm.len()
        invariant
            i <= perm.len(),
            out@ == head + perms_text(perm@).take(i as int),
        decreases perm.len() - i,
    {
        out.push(perm[i].to_char());
        i += 1;
        assert(out@ =~= head + perms_text(perm@).take(i as int));
    }
    assert(perms_text(perm@).take(perm.len() as int) =~= perms_text(perm@));
    assert(out@ =~= rule_text(devtype, major, minor, perm@));
    to_text(&out)
}

/// The device number that `v` spells in the kernel's list.
fn parse_number_or_any(v: &Vec<char>) -> (r: Option<i64>)
    ensures
        r == number_or_any(v@),
{
    match parse_i64(v) {
        Some(n) => Some(n),
        None => {
            if v.len() == 1 && v[0] == '*' {
                assert(v@ =~= seq!['*']);
                Some(-1)
            } else {
                None
            }
        },
    }
}

/// The rule that one line of the kernel's list gives.
fn parse_rule(line: &Vec<char>) -> (r: Option<DeviceResource>)
    ensures
        match r {
            Some(d) => rule_of_line(line@) == Some(d@),
            None => rule_of_line(line@) is None,
        },
{
    let ls = split(line, ' ', ':');
    let ghost lv = split_spec(line@, ' ', ':');
    if ls.len() != 4 {
        return None;
    }
    assert(lv[0] == ls[0]@ && lv[1] == ls[1]@ && lv[2] == ls[2]@ && lv[3] == ls[3]@);
    let first = if ls[0].len() > 0 {
        Some(ls[0][0])
    } else {
        None
    };
    let devtype = DeviceType::from_char(first);
    let major = parse_number_or_any(&ls[1]);
    let minor = parse_number_or_any(&ls[2]);
    match (devtype, major, minor) {
        (Some(t), Some(ma), Some(mi)) => {
            if chars_valid(&ls[3]) {
                Some(
                    DeviceResource {
                        allow: true,
                        devtype: t,
                        major: ma,
                        minor: mi,
                        access: chars_to_perms(&ls[3]),
                    },
                )
            } else {
                None
            }
        },
        _ => None,
    }
}

/// The rules that the text of the kernel's list gives, line by line.
pub fn parse_devices(content: &str) -> (r: Result<Vec<DeviceResource>, Error>)
    ensures
        match r {
            Ok(v) => rules_of(lines_spec(content@)) == Some(rules_view(v@)),
            Err(e) => rules_of(lines_spec(content@)) is None && e.kind_spec()
                == ErrorKind::ParseError,
        },
        crate::error::bare(r),
{
    let ls = lines(&to_chars(content));
    let ghost l = texts(ls@);
    let mut out: Vec<DeviceResource> = Vec::new();
    let mut ok = true;
    let mut i: usize = 0;
    assert(l.take(0) =~= Seq::<Seq<char>>::empty());
    assert(rules_view(out@) =~= Seq::<DeviceRule>::empty());
    while i < ls.len()
        invariant
            i <= ls.len(),
            l == texts(ls@),
            ok ==> rules_of(l.take(i as int)) == Some(rules_view(out@)),
            !ok ==> rules_of(l.take(i as int)) is None,
        decreases ls.len() - i,
    {
        assert(l.take(i as int + 1).drop_last() =~= l.take(i as int));
        assert(l.take(i as int + 1).last() == ls[i as int]@);
        match parse_rule(&ls[i]) {
            Some(d) => {
                if ok {
                    let ghost before = rules_view(out@);
                    out.push(d);
                    assert(rules_view(out@) =~= before.push(d@));
                }
            },
            None => {
                ok = false;
            },
        }
        i += 1;
    }
    assert(l.take(ls.len() as int) =~= l);
    if ok {
        Ok(out)
    } else {
        Err(Error::new(ErrorKind::ParseError))
    }
}

impl ControllerInternal for DevicesController {
    closed spec fn base_spec(&self) -> Seq<char> {
        self.base@
    }

    closed spec fn path_spec(&self) -> Seq<char> {
        self.path@
    }

    open spec fn kind_spec(&self) -> Controllers {
        Controllers::Devices
    }

    open spec fn plan_spec(&self, res: &Resources) -> PlanView {
        if res.devices.update_values {
            plan_of(self.base_spec(), self.path_spec(), devices_settings(res.devices.devices@))
        } else {
            no_plan()
        }
    }

    fn apply(&self, res: &Resources) -> (p: Plan) {
        let d = &res.devices;
        if !d.update_values {
            return Plan::new();
        }
        let mut settings: Vec<ApplyStep> = Vec::new();
        let mut i: usize = 0;
        assert(steps_view(settings@) =~= devices_settings(d.devices@).take(0));
        while i < d.devices.len()
            invariant
                i <= d.devices.len(),
                steps_view(settings@) == devices_settings(d.devices@).take(i as int),
            decreases d.devices.len() - i,
        {
            let rule = &d.devices[i];
            let text = format_rule(rule.devtype, rule.major, rule.minor, &rule.access);
            let step = if rule.allow {
                ApplyStep::text("devices.allow", text)
            } else {
                ApplyStep::text("devices.deny", text)
            };
            let ghost before = steps_view(settings@);
            settings.push(step);
            assert(steps_view(settings@) =~= before.push(step@));
            i += 1;
            assert(steps_view(settings@) =~= devices_settings(d.devices@).take(i as int));
        }
        assert(devices_settings(d.devices@).take(d.devices.len() as int) =~= devices_settings(
            d.devices@,
        ));
        self.plan_for(settings)
    }

    fn control_type(&self) -> (r: Controllers) {
        Controllers::Devices
    }

    fn get_path(&self) -> (r: &String) {
        &self.path
    }

    fn get_base(&self) -> (r: &String) {
        &self.base
    }

    fn scoped_to(&self, name: &str) -> (r: Self) {
        DevicesController { base: self.base.clone(), path: join(self.path.as_str(), name) }
    }
}

impl Clone for DevicesController {
    fn clone(&self) -> (r: Self)
        ensures
            r == *self,
    {
        DevicesController { base: self.base.clone(), path: self.path.clone() }
    }
}

impl ControllIdentifier for DevicesController {
    open spec fn type_spec() -> Controllers {
        Controllers::Devices
    }

    open spec fn held_by(sub: &Subsystem) -> Option<Self> {
        match sub {
            Subsystem::Devices(c) => Some(*c),
            _ => None,
        }
    }

    fn controller_type() -> (r: Controllers) {
        Controllers::Devices
    }

    fn of(sub: &Subsystem) -> (r: Option<&Self>) {
        match sub {
            Subsystem::Devices(c) => Some(c),
            _ => None,
        }
    }
}

impl DevicesController {
    /// Constructs a new `DevicesController` with `oroot` serving as the root of the control group.
    pub fn new(oroot: String) -> (r: Self)
        ensures
            r.base_spec() == join_spec(oroot@, controller_name(Controllers::Devices)),
            r.path_spec() == r.base_spec(),
    {
        let root = join(oroot.as_str(), Controllers::Devices.to_string().as_str());
        DevicesController { base: root.clone(), path: root }
    }

    /// Allow a (possibly, set of) device(s) to be used by the tasks in the control group.
    ///
    /// When `-1` is passed as `major` or `minor`, the kernel interprets that value as "any",
    /// meaning that it will match any device.
    pub fn allow_device(
        &self,
        devtype: DeviceType,
        major: i64,
        minor: i64,
        perm: &Vec<DevicePermissions>,
    ) -> (r: Result<FileWrite, Error>)
        ensures
            write_view(r) == write_in(
                self,
                "devices.allow"@,
                rule_text(devtype, major, minor, perm@),
            ),
            crate::error::bare(r),
    {
        self.write_to("devices.allow", format_rule(devtype, major, minor, perm))
    }

    /// Deny the control group's tasks access to the devices covered by `dev`.
    ///
    /// When `-1` is passed as `major` or `minor`, the kernel interprets that value as "any",
    /// meaning that it will match any device.
    pub fn deny_device(
        &self,
        devtype: DeviceType,
        major: i64,
        minor: i64,
        perm: &Vec<DevicePermissions>,
    ) -> (r: Result<FileWrite, Error>)
        ensures
            write_view(r) == write_in(
                self,
                "devices.deny"@,
                rule_text(devtype, major, minor, perm@),
            ),
            crate::error::bare(r),
    {
        self.write_to("devices.deny", format_rule(devtype, major, minor, perm))
    }

    /// Get the current list of allowed devices, as the kernel lists it in `devices.list`.
    pub fn allowed_devices(&self, fs: &Snapshot) -> (r: Result<Vec<DeviceResource>, Error>)
        ensures
            match r {
                Ok(v) => allowed_spec(text_in(self, fs, "devices.list"@)) == Ok::<
                    Seq<DeviceRule>,
                    ErrorKind,
                >(rules_view(v@)),
                Err(e) => allowed_spec(text_in(self, fs, "devices.list"@)) == Err::<
                    Seq<DeviceRule>,
                    ErrorKind,
                >(e.kind_spec()),
            },
            crate::error::bare(r),
    {
        match self.read_file(fs, "devices.list") {
            Err(e) => Err(e),
            Ok(t) => parse_devices(t.as_str()),
        }
    }
}

} // verus!

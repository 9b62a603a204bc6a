//! This module represents the various control group hierarchies the Linux kernel supports.
//!
//! Currently, only the first hierarchy ("cgroupv1") is supported, in which each
//! subsystem has a directory of its own below the mount point.
use vstd::prelude::*;
use crate::cgroup::Cgroup;
use crate::controller::{controller_name, Controllers};
use crate::fs::Snapshot;
use crate::path::{join, join_spec};
use crate::subsystem::{at_root, views, Subsystem, SubsystemView};
use crate::text::{
    contains, fields, fields_spec, find, find_spec, is_word, lines, lines_spec, slice_of, texts,
    to_chars, to_text,
};

verus! {

/// The first control group hierarchy of the kernel, often referred to as "cgroupv1".
#[derive(Debug)]
pub struct V1 {
    mount_point: String,
}

/// The subsystems, in the order in which a hierarchy lists them.
pub open spec fn all_kinds() -> Seq<Controllers> {
    seq![
        Controllers::Pids,
        Controllers::Mem,
        Controllers::CpuSet,
        Controllers::CpuAcct,
        Controllers::Cpu,
        Controllers::Devices,
        Controllers::Freezer,
        Controllers::NetCls,
        Controllers::BlkIo,
        Controllers::PerfEvent,
        Controllers::NetPrio,
        Controllers::HugeTlb,
        Controllers::Rdma,
    ]
}

/// Those of `kinds`, in order, that have a directory among `dirs` below
/// `root`, each as the controller of the topmost control group.
pub open spec fn supported(kinds: Seq<Controllers>, root: Seq<char>, dirs: Set<Seq<char>>) -> Seq<
    SubsystemView,
>
    decreases kinds.len(),
{
    if kinds.len() == 0 {
        Seq::<SubsystemView>::empty()
    } else {
        let rest = supported(kinds.drop_last(), root, dirs);
        if dirs.contains(join_spec(root, controller_name(kinds.last()))) {
            rest.push(at_root(kinds.last(), root))
        } else {
            rest
        }
    }
}

/// The mount point that one line of the mount table gives, if the line is
/// that of the control group file system. Such a line holds ` - `, and of the
/// fields after it the first is `tmpfs` and the third holds `ro`; the mount
/// point is then the fifth field of the line.
pub open spec fn mount_of_line(line: Seq<char>) -> Option<Seq<char>> {
    match find_spec(line, seq![' ', '-', ' ']) {
        None => None,
        Some(i) => {
            let more = fields_spec(line.skip(i + 3));
            let f = fields_spec(line);
            if more.len() >= 3 && more[0] == "tmpfs"@ && find_spec(more[2], seq!['r', 'o']) is Some
                && f.len() >= 5 {
                Some(f[4])
            } else {
                None
            }
        },
    }
}

/// The mount point that the first of the lines `lines[from..]` that gives one gives.
pub open spec fn first_mount(lines: Seq<Seq<char>>, from: int) -> Option<Seq<char>>
    decreases lines.len() - from,
{
    if from < 0 || from >= lines.len() {
        None
    } else {
        match mount_of_line(lines[from]) {
            Some(m) => Some(m),
            None => first_mount(lines, from + 1),
        }
    }
}

/// Where the mount table `mountinfo` says that control groups are mounted.
pub open spec fn find_v1_mount_spec(mountinfo: Seq<char>) -> Option<Seq<char>> {
    first_mount(lines_spec(mountinfo), 0)
}

/// Control group hierarchy (right now, only V1 is supported, but in the future Unified will be
/// implemented as well).
pub trait Hierarchy: Sized {
    /// The root directory of the hierarchy.
    spec fn root_view(&self) -> Seq<char>;

    /// Returns what subsystems are supported by the hierarchy.
    fn subsystems(&self, fs: &Snapshot) -> (r: Vec<Subsystem>)
        ensures
            views(r@) == supported(all_kinds(), self.root_view(), fs.dirs()),
    ;

    /// Returns the root directory of the hierarchy.
    fn root(&self) -> (r: String)
        ensures
            r@ == self.root_view(),
    ;

    /// Checks whether a certain subsystem is supported in the hierarchy: whether
    /// it has a directory below the root.
    fn check_support(&self, fs: &Snapshot, sub: Controllers) -> (r: bool)
        ensures
            r == fs.dirs().contains(join_spec(self.root_view(), controller_name(sub))),
    ;
}

/// The mount point that one line of the mount table gives.
fn parse_mount_line(line: &Vec<char>) -> (r: Option<String>)
    ensures
        match r {
            Some(m) => mount_of_line(line@) == Some(m@),
            None => mount_of_line(line@) is None,
        },
{
    let mut sep: Vec<char> = Vec::new();
    sep.push(' ');
    sep.push('-');
    sep.push(' ');
    assert(sep@ =~= seq![' ', '-', ' ']);
    let mut ro: Vec<char> = Vec::new();
    ro.push('r');
    ro.push('o');
    assert(ro@ =~= seq!['r', 'o']);
    match find(line, &sep) {
        None => None,
        Some(i) => {
            let rest = slice_of(line, i + 3, line.len());
            assert(rest@ =~= line@.skip(i as int + 3));
            let more = fields(&rest);
            let f = fields(line);
            let ghost mv = fields_spec(line@.skip(i as int + 3));
            let ghost fv = fields_spec(line@);
            if more.len() >= 3 && f.len() >= 5 {
                assert(mv[0] == more[0]@ && mv[2] == more[2]@ && fv[4] == f[4]@);
                if is_word(&more[0], "tmpfs") && contains(&more[2], &ro) {
                    Some(to_text(&f[4]))
                } else {
                    None
                }
            } else {
                None
            }
        },
    }
}

/// Finds where the mount table `mountinfo` says that control groups are mounted.
pub fn find_v1_mount(mountinfo: &str) -> (r: Option<String>)
    ensures
        match r {
            Some(m) => find_v1_mount_spec(mountinfo@) == Some(m@),
            None => find_v1_mount_spec(mountinfo@) is None,
        },
{
    let ls = lines(&to_chars(mountinfo));
    let ghost l = lines_spec(mountinfo@);
    let mut i: usize = 0;
    while i < ls.len()
        invariant
            i <= ls.len(),
            texts(ls@) == l,
            l == lines_spec(mountinfo@),
            find_v1_mount_spec(mountinfo@) == first_mount(l, i as int),
        decreases ls.len() - i,
    {
        assert(l[i as int] == ls[i as int]@);
        match parse_mount_line(&ls[i]) {
            Some(m) => {
                return Some(m);
            },
            None => {},
        }
        i += 1;
    }
    None
}

/// The subsystems as values, in the order in which a hierarchy lists them.
fn kinds() -> (r: Vec<Controllers>)
    ensures
        r@ == all_kinds(),
{
    let mut k: Vec<Controllers> = Vec::new();
    k.push(Controllers::Pids);
    k.push(Controllers::Mem);
    k.push(Controllers::CpuSet);
    k.push(Controllers::CpuAcct);
    k.push(Controllers::Cpu);
    k.push(Controllers::Devices);
    k.push(Controllers::Freezer);
    k.push(Controllers::NetCls);
    k.push(Controllers::BlkIo);
    k.push(Controllers::PerfEvent);
    k.push(Controllers::NetPrio);
    k.push(Controllers::HugeTlb);
    k.push(Controllers::Rdma);
    assert(k@ =~= all_kinds());
    k
}

impl Hierarchy for V1 {
    closed spec fn root_view(&self) -> Seq<char> {
        self.mount_point@
    }

    fn subsystems(&self, fs: &Snapshot) -> (r: Vec<Subsystem>) {
        let all = kinds();
        let ghost root = self.root_view();
        let mut subs: Vec<Subsystem> = Vec::new();
        let mut i: usize = 0;
        assert(all@.take(0) =~= Seq::<Controllers>::empty());
        assert(views(subs@) =~= Seq::<SubsystemView>::empty());
        while i < all.len()
            invariant
                i <= all.len(),
                root == self.root_view(),
                views(subs@) == supported(all@.take(i as int), root, fs.dirs()),
            decreases all.len() - i,
        {
            assert(all@.take(i as int + 1).drop_last() =~= all@.take(i as int));
            if self.check_support(fs, all[i]) {
                let ghost before = views(subs@);
                let sub = Subsystem::root_of(all[i], self.root());
                subs.push(sub);
                assert(views(subs@) =~= before.push(sub@));
            }
            i += 1;
        }
        assert(all@.take(all.len() as int) =~= all@);
        subs
    }

    fn check_support(&self, fs: &Snapshot, sub: Controllers) -> (r: bool) {
        let dir = join(self.mount_point.as_str(), sub.to_string().as_str());
        fs.has_dir(dir.as_str())
    }

    fn root(&self) -> (r: String) {
        self.mount_point.clone()
    }
}

impl V1 {
    /// Return a handle to the root control group in the hierarchy.
    pub fn root_control_group(&self, fs: &Snapshot) -> (r: Cgroup<'_, V1>)
        ensures
            r@ == supported(all_kinds(), self.root_view(), fs.dirs()),
            r.root_view() == self.root_view(),
    {
        proof {
            reveal_strlit("");
        }
        Cgroup::load(self, fs, "")
    }

    /// Finds where control groups are mounted to, going by the mount table `mountinfo`, and
    /// returns a hierarchy in which control groups can be created; none where the table lists
    /// no such mount.
    pub fn new(mountinfo: &str) -> (r: Option<V1>)
        ensures
            match r {
                Some(h) => find_v1_mount_spec(mountinfo@) == Some(h.root_view()),
                None => find_v1_mount_spec(mountinfo@) is None,
            },
    {
        match find_v1_mount(mountinfo) {
            Some(mount_point) => Some(V1 { mount_point }),
            None => None,
        }
    }
}

} // verus!

//! The `memory` subsystem: limits on and statistics of the memory that the tasks
//! of a control group use.
use vstd::prelude::*;
use crate::apply::{number_step, ApplyStep, Plan, PlanView, Step};
use crate::apply::steps_view;
use crate::controller::{
    controller_name, counter_in, no_plan, plan_of, read_string_from, text_in, trimmed_in, write_in,
    write_view, ControllIdentifier, ControllerInternal, Controllers,
};
use crate::error::{Error, ErrorKind};
use crate::fs::{FileWrite, Snapshot};
use crate::path::{join, join_spec};
use crate::resources::{MemoryResources, Resources};
use crate::subsystem::Subsystem;
use crate::text::{
    decimal, fields, fields_spec, lines, lines_spec, parse_u64, parse_u64_spec, split, split_spec,
    texts, to_chars, trim_spec, u64_to_string,
};

verus! {

/// A controller that allows controlling the `memory` subsystem of a Cgroup.
///
/// In essence, using the memory controller, the user can gather statistics about the memory usage
/// of the tasks in the control group. Additonally, one can also set powerful limits on their
/// memory usage.
#[derive(Debug)]
pub struct MemController {
    base: String,
    path: String,
}

/// Controls statistics and controls about the OOM killer operating in this control group.
#[derive(Debug, Clone, Copy, PartialEq, Eq, Structural)]
pub struct OomControl {
    /// If true, the OOM killer has been disabled for the tasks in this control group.
    pub oom_kill_disable: bool,
    /// Is the OOM killer currently running for the tasks in the control group?
    pub under_oom: bool,
    /// How many tasks were killed by the OOM killer so far.
    pub oom_kill: u64,
}

/// Contains statistics about the NUMA locality of the control group's tasks.
#[derive(Debug, PartialEq, Eq)]
pub struct NumaStat {
    /// Total amount of pages used by the control group.
    pub total_pages: u64,
    /// The same count, broken down by NUMA node.
    pub total_pages_per_node: Vec<u64>,
    /// Total amount of file pages used by the control group.
    pub file_pages: u64,
    /// The same count, broken down by NUMA node.
    pub file_pages_per_node: Vec<u64>,
    /// Total amount of anonymous pages used by the control group.
    pub anon_pages: u64,
    /// The same count, broken down by NUMA node.
    pub anon_pages_per_node: Vec<u64>,
    /// Total amount of unevictable pages used by the control group.
    pub unevictable_pages: u64,
    /// The same count, broken down by NUMA node.
    pub unevictable_pages_per_node: Vec<u64>,
    /// Same as `total_pages`, but includes the descedant control groups' number as well.
    pub hierarchical_total_pages: u64,
    /// The same count, broken down by NUMA node.
    pub hierarchical_total_pages_per_node: Vec<u64>,
    /// Same as `file_pages`, but includes the descedant control groups' number as well.
    pub hierarchical_file_pages: u64,
    /// The same count, broken down by NUMA node.
    pub hierarchical_file_pages_per_node: Vec<u64>,
    /// Same as `anon_pages`, but includes the descedant control groups' number as well.
    pub hierarchical_anon_pages: u64,
    /// The same count, broken down by NUMA node.
    pub hierarchical_anon_pages_per_node: Vec<u64>,
    /// Same as `unevictable_pages`, but includes the descedant control groups' number as well.
    pub hierarchical_unevictable_pages: u64,
    /// The same count, broken down by NUMA node.
    pub hierarchical_unevictable_pages_per_node: Vec<u64>,
}

/// The counters of the `memory.stat` file, in the order in which the kernel lists them.
#[derive(Debug, Clone, Copy, PartialEq, Eq, Structural)]
pub struct MemoryStat {
    pub cache: u64,
    pub rss: u64,
    pub rss_huge: u64,
    pub shmem: u64,
    pub mapped_file: u64,
    pub dirty: u64,
    pub writeback: u64,
    pub swap: u64,
    pub pgpgin: u64,
    pub pgpgout: u64,
    pub pgfault: u64,
    pub pgmajfault: u64,
    pub inactive_anon: u64,
    pub active_anon: u64,
    pub inactive_file: u64,
    pub active_file: u64,
    pub unevictable: u64,
    pub hierarchical_memory_limit: u64,
    pub hierarchical_memsw_limit: u64,
    pub total_cache: u64,
    pub total_rss: u64,
    pub total_rss_huge: u64,
    pub total_shmem: u64,
    pub total_mapped_file: u64,
    pub total_dirty: u64,
    pub total_writeback: u64,
    pub total_swap: u64,
    pub total_pgpgin: u64,
    pub total_pgpgout: u64,
    pub total_pgfault: u64,
    pub total_pgmajfault: u64,
    pub total_inactive_anon: u64,
    pub total_active_anon: u64,
    pub total_inactive_file: u64,
    pub total_active_file: u64,
    pub total_unevictable: u64,
}

/// Contains statistics about the current usage of memory and swap (together, not seperately) by
/// the control group's tasks.
#[derive(Debug, Clone, Copy, PartialEq, Eq, Structural)]
pub struct MemSwap {
    /// How many times the limit has been hit.
    pub fail_cnt: u64,
    /// Memory and swap usage limit in bytes.
    pub limit_in_bytes: u64,
    /// Current usage of memory and swap in bytes.
    pub usage_in_bytes: u64,
    /// The maximum observed usage of memory and swap in bytes.
    pub max_usage_in_bytes: u64,
}

/// State of and statistics gathered by the kernel about the memory usage of the control group's
/// tasks.
#[derive(Debug)]
pub struct Memory {
    /// How many times the limit has been hit.
    pub fail_cnt: u64,
    /// The limit in bytes of the memory usage of the control group's tasks.
    pub limit_in_bytes: u64,
    /// The current usage of memory by the control group's tasks.
    pub usage_in_bytes: u64,
    /// The maximum observed usage of memory by the control group's tasks.
    pub max_usage_in_bytes: u64,
    /// Whether moving charges at immigrate is allowed.
    pub move_charge_at_immigrate: u64,
    /// Contains various statistics about the NUMA locality of the control group's tasks.
    ///
    /// The format of this field (as lifted from the kernel sources):
    /// ```text
    /// total=<total pages> N0=<node 0 pages> N1=<node 1 pages> ...
    /// file=<total file pages> N0=<node 0 pages> N1=<node 1 pages> ...
    /// anon=<total anon pages> N0=<node 0 pages> N1=<node 1 pages> ...
    /// unevictable=<total anon pages> N0=<node 0 pages> N1=<node 1 pages> ...
    /// hierarchical_<counter>=<counter pages> N0=<node 0 pages> N1=<node 1 pages> ...
    /// ```
    pub numa_stat: NumaStat,
    /// Various statistics and control information about the Out Of Memory killer.
    pub oom_control: OomControl,
    /// Allows setting a limit to memory usage which is enforced when the system (note, _not_ the
    /// control group) detects memory pressure.
    pub soft_limit_in_bytes: u64,
    /// Contains a wide array of statistics about the memory usage of the tasks in the control
    /// group.
    pub stat: MemoryStat,
    /// Set the tendency of the kernel to swap out parts of the address space consumed by the
    /// control group's tasks.
    pub swappiness: u64,
    /// If set, then under OOM conditions, the kernel will try to reclaim memory from the children
    /// of the offending process too. By default, this is not allowed.
    pub use_hierarchy: u64,
}

/// The current state of and gathered statistics about the kernel's memory usage for TCP-related
/// data structures.
#[derive(Debug, Clone, Copy, PartialEq, Eq, Structural)]
pub struct Tcp {
    /// How many times the limit has been hit.
    pub fail_cnt: u64,
    /// The limit in bytes of the memory usage of the kernel's TCP buffers by control group's
    /// tasks.
    pub limit_in_bytes: u64,
    /// The current memory used by the kernel's TCP buffers related to these tasks.
    pub usage_in_bytes: u64,
    /// The observed maximum usage of memory by the kernel's TCP buffers (that originated from
    /// these tasks).
    pub max_usage_in_bytes: u64,
}

/// Gathered statistics and the current state of limitation of the kernel's memory usage.
#[derive(Debug)]
pub struct Kmem {
    /// How many times the limit has been hit.
    pub fail_cnt: u64,
    /// The limit in bytes of the kernel memory used by the control group's tasks.
    pub limit_in_bytes: u64,
    /// The current usage of kernel memory used by the control group's tasks, in bytes.
    pub usage_in_bytes: u64,
    /// The maximum observed usage of kernel memory used by the control group's tasks, in bytes.
    pub max_usage_in_bytes: u64,
    /// Contains information about the memory usage of the kernel's caches, per control group.
    pub slabinfo: String,
}

/// One line of `memory.numa_stat` as plain values: the total, then the count of each node.
pub type NumaLine = (u64, Seq<u64>);

/// The number that `s` spells, or `0` where it spells none.
pub open spec fn number_or_zero(s: Seq<char>) -> u64 {
    match parse_u64_spec(s) {
        Some(v) => v,
        None => 0,
    }
}

/// The state of the OOM killer that the text of `memory.oom_control` gives:
/// of its fields, the second, the fourth and the sixth are numbers, the first
/// two of them flags that are set where the number is one. A text with fewer
/// fields, or with something else in these places, gives nothing.
pub open spec fn oom_control_spec(s: Seq<char>) -> Option<OomControl> {
    let f = fields_spec(s);
    if f.len() >= 6 && parse_u64_spec(f[1]) is Some && parse_u64_spec(f[3]) is Some
        && parse_u64_spec(f[5]) is Some {
        Some(
            OomControl {
                oom_kill_disable: parse_u64_spec(f[1])->0 == 1,
                under_oom: parse_u64_spec(f[3])->0 == 1,
                oom_kill: parse_u64_spec(f[5])->0,
            },
        )
    } else {
        None
    }
}

/// The numbers among `fields`, in order; fields that spell no number are passed over.
pub open spec fn numbers_in(fields: Seq<Seq<char>>) -> Seq<u64>
    decreases fields.len(),
{
    if fields.len() == 0 {
        Seq::<u64>::empty()
    } else {
        match parse_u64_spec(fields.last()) {
            Some(v) => numbers_in(fields.drop_last()).push(v),
            None => numbers_in(fields.drop_last()),
        }
    }
}

/// The counters that the first numbers of `n` give, in the kernel's order.
pub open spec fn memory_stat_of(n: Seq<u64>) -> MemoryStat {
    MemoryStat {
        cache: n[0],
        rss: n[1],
        rss_huge: n[2],
        shmem: n[3],
        mapped_file: n[4],
        dirty: n[5],
        writeback: n[6],
        swap: n[7],
        pgpgin: n[8],
        pgpgout: n[9],
        pgfault: n[10],
        pgmajfault: n[11],
        inactive_anon: n[12],
        active_anon: n[13],
        inactive_file: n[14],
        active_file: n[15],
        unevictable: n[16],
        hierarchical_memory_limit: n[17],
        hierarchical_memsw_limit: n[18],
        total_cache: n[19],
        total_rss: n[20],
        total_rss_huge: n[21],
        total_shmem: n[22],
        total_mapped_file: n[23],
        total_dirty: n[24],
        total_writeback: n[25],
        total_swap: n[26],
        total_pgpgin: n[27],
        total_pgpgout: n[28],
        total_pgfault: n[29],
        total_pgmajfault: n[30],
        total_inactive_anon: n[31],
        total_active_anon: n[32],
        total_inactive_file: n[33],
        total_active_file: n[34],
        total_unevictable: n[35],
    }
}

/// The counters that the text of `memory.stat` gives: the numbers among its
/// fields, in order. A text with fewer numbers than there are counters gives
/// nothing.
pub open spec fn memory_stat_spec(s: Seq<char>) -> Option<MemoryStat> {
    let n = numbers_in(fields_spec(s));
    if n.len() >= 36 {
        Some(memory_stat_of(n))
    } else {
        None
    }
}

/// The count that one entry `name=count` gives: what follows the first `=`,
/// up to the next one, as a number, or `0` where that is no number. An entry
/// without `=` gives nothing.
pub open spec fn node_count(entry: Seq<char>) -> Option<u64> {
    let p = split_spec(entry, '=', '=');
    if p.len() >= 2 {
        Some(number_or_zero(p[1]))
    } else {
        None
    }
}

/// The counts that `entries` give, in order, if each of them gives one.
pub open spec fn node_counts(entries: Seq<Seq<char>>) -> Option<Seq<u64>>
    decreases entries.len(),
{
    if entries.len() == 0 {
        Some(Seq::<u64>::empty())
    } else {
        match (node_counts(entries.drop_last()), node_count(entries.last())) {
            (Some(rest), Some(c)) => Some(rest.push(c)),
            _ => None,
        }
    }
}

/// What one line of `memory.numa_stat` gives. The line reads
/// `name=total N0=count N1=count ...`: the total is what stands between the
/// first and the second of the line's spaces and equal signs, and the per-node
/// counts come from the entries after the first space. Totals and counts that
/// spell no number count as `0`; a line without a space or equal sign, or with
/// an entry without an equal sign, gives nothing.
pub open spec fn numa_line(line: Seq<char>) -> Option<NumaLine> {
    let p = split_spec(line, ' ', '=');
    let entries = split_spec(line, ' ', ' ');
    if p.len() >= 2 {
        match node_counts(entries.skip(1)) {
            Some(nodes) => Some((number_or_zero(p[1]), nodes)),
            None => None,
        }
    } else {
        None
    }
}

/// What the text of `memory.numa_stat` gives: what each of its first eight
/// lines gives, where there are eight lines and each of them gives something.
pub open spec fn numa_stat_spec(s: Seq<char>) -> Option<Seq<NumaLine>> {
    let l = lines_spec(s);
    if l.len() >= 8 && (forall|k: int| 0 <= k < 8 ==> (#[trigger] numa_line(l[k])) is Some) {
        Some(Seq::new(8, |k: int| numa_line(l[k])->0))
    } else {
        None
    }
}

impl NumaStat {
    /// The eight lines of the statistics as plain values, in the kernel's order.
    pub open spec fn lines_view(&self) -> Seq<NumaLine> {
        seq![
            (self.total_pages, self.total_pages_per_node@),
            (self.file_pages, self.file_pages_per_node@),
            (self.anon_pages, self.anon_pages_per_node@),
            (self.unevictable_pages, self.unevictable_pages_per_node@),
            (self.hierarchical_total_pages, self.hierarchical_total_pages_per_node@),
            (self.hierarchical_file_pages, self.hierarchical_file_pages_per_node@),
            (self.hierarchical_anon_pages, self.hierarchical_anon_pages_per_node@),
            (self.hierarchical_unevictable_pages, self.hierarchical_unevictable_pages_per_node@),
        ]
    }

    /// The statistics in which every count is zero and no node is listed.
    pub open spec fn empty_view() -> Seq<NumaLine> {
        Seq::new(8, |k: int| (0u64, Seq::<u64>::empty()))
    }
}

impl Default for OomControl {
    fn default() -> (r: Self)
        ensures
            r == (OomControl { oom_kill_disable: false, under_oom: false, oom_kill: 0 }),
    {
        OomControl { oom_kill_disable: false, under_oom: false, oom_kill: 0 }
    }
}

impl Default for NumaStat {
    fn default() -> (r: Self)
        ensures
            r.lines_view() == NumaStat::empty_view(),
    {
        let r = NumaStat {
            total_pages: 0,
            total_pages_per_node: Vec::new(),
            file_pages: 0,
            file_pages_per_node: Vec::new(),
            anon_pages: 0,
            anon_pages_per_node: Vec::new(),
            unevictable_pages: 0,
            unevictable_pages_per_node: Vec::new(),
            hierarchical_total_pages: 0,
            hierarchical_total_pages_per_node: Vec::new(),
            hierarchical_file_pages: 0,
            hierarchical_file_pages_per_node: Vec::new(),
            hierarchical_anon_pages: 0,
            hierarchical_anon_pages_per_node: Vec::new(),
            hierarchical_unevictable_pages: 0,
            hierarchical_unevictable_pages_per_node: Vec::new(),
        };
        assert(r.lines_view() =~= NumaStat::empty_view());
        r
    }
}

impl Default for MemoryStat {
    fn default() -> (r: Self)
        ensures
            r == memory_stat_of(Seq::new(36, |k: int| 0u64)),
    {
        MemoryStat {
            cache: 0,
            rss: 0,
            rss_huge: 0,
            shmem: 0,
            mapped_file: 0,
            dirty: 0,
            writeback: 0,
            swap: 0,
            pgpgin: 0,
            pgpgout: 0,
            pgfault: 0,
            pgmajfault: 0,
            inactive_anon: 0,
            active_anon: 0,
            inactive_file: 0,
            active_file: 0,
            unevictable: 0,
            hierarchical_memory_limit: 0,
            hierarchical_memsw_limit: 0,
            total_cache: 0,
            total_rss: 0,
            total_rss_huge: 0,
            total_shmem: 0,
            total_mapped_file: 0,
            total_dirty: 0,
            total_writeback: 0,
            total_swap: 0,
            total_pgpgin: 0,
            total_pgpgout: 0,
            total_pgfault: 0,
            total_pgmajfault: 0,
            total_inactive_anon: 0,
            total_active_anon: 0,
            total_inactive_file: 0,
            total_active_file: 0,
            total_unevictable: 0,
        }
    }
}

/// The state of the OOM killer that the text of `memory.oom_control` gives.
pub fn parse_oom_control(s: String) -> (r: Result<OomControl, Error>)
    ensures
        match r {
            Ok(c) => oom_control_spec(s@) == Some(c),
            Err(e) => oom_control_spec(s@) is None && e.kind_spec() == ErrorKind::ParseError,
        },
        crate::error::bare(r),
{
    let f = fields(&to_chars(s.as_str()));
    let ghost fs = fields_spec(s@);
    if f.len() < 6 {
        return Err(Error::new(ErrorKind::ParseError));
    }
    assert(fs[1] == f[1]@ && fs[3] == f[3]@ && fs[5] == f[5]@);
    match (parse_u64(&f[1]), parse_u64(&f[3]), parse_u64(&f[5])) {
        (Some(disable), Some(under), Some(kill)) => Ok(
            OomControl { oom_kill_disable: disable == 1, under_oom: under == 1, oom_kill: kill },
        ),
        _ => Err(Error::new(ErrorKind::ParseError)),
    }
}

/// The numbers among the fields of `v`, in order.
fn numbers_of(v: &Vec<Vec<char>>) -> (r: Vec<u64>)
    ensures
        r@ == numbers_in(texts(v@)),
{
    let ghost f = texts(v@);
    let mut out: Vec<u64> = Vec::new();
    let mut i: usize = 0;
    assert(f.take(0) =~= Seq::<Seq<char>>::empty());
    while i < v.len()
        invariant
            i <= v.len(),
            f == texts(v@),
            out@ == numbers_in(f.take(i as int)),
        decreases v.len() - i,
    {
        assert(f.take(i as int + 1).drop_last() =~= f.take(i as int));
        assert(f.take(i as int + 1).last() == v[i as int]@);
        match parse_u64(&v[i]) {
            Some(n) => {
                out.push(n);
            },
            None => {},
        }
        i += 1;
    }
    assert(f.take(v.len() as int) =~= f);
    out
}

/// The counters that the text of `memory.stat` gives.
pub fn parse_memory_stat(s: String) -> (r: Result<MemoryStat, Error>)
    ensures
        match r {
            Ok(m) => memory_stat_spec(s@) == Some(m),
            Err(e) => memory_stat_spec(s@) is None && e.kind_spec() == ErrorKind::ParseError,
        },
        crate::error::bare(r),
{
    let f = fields(&to_chars(s.as_str()));
    let n = numbers_of(&f);
    if n.len() < 36 {
        return Err(Error::new(ErrorKind::ParseError));
    }
    Ok(
        MemoryStat {
            cache: n[0],
            rss: n[1],
            rss_huge: n[2],
            shmem: n[3],
            mapped_file: n[4],
            dirty: n[5],
            writeback: n[6],
            swap: n[7],
            pgpgin: n[8],
            pgpgout: n[9],
            pgfault: n[10],
            pgmajfault: n[11],
            inactive_anon: n[12],
            active_anon: n[13],
            inactive_file: n[14],
            active_file: n[15],
            unevictable: n[16],
            hierarchical_memory_limit: n[17],
            hierarchical_memsw_limit: n[18],
            total_cache: n[19],
            total_rss: n[20],
            total_rss_huge: n[21],
            total_shmem: n[22],
            total_mapped_file: n[23],
            total_dirty: n[24],
            total_writeback: n[25],
            total_swap: n[26],
            total_pgpgin: n[27],
            total_pgpgout: n[28],
            total_pgfault: n[29],
            total_pgmajfault: n[30],
            total_inactive_anon: n[31],
            total_active_anon: n[32],
            total_inactive_file: n[33],
            total_active_file: n[34],
            total_unevictable: n[35],
        },
    )
}

/// The number that `v` spells, or `0` where it spells none.
fn parse_or_zero(v: &Vec<char>) -> (r: u64)
    ensures
        r == number_or_zero(v@),
{
    match parse_u64(v) {
        Some(n) => n,
        None => 0,
    }
}

/// The counts that the entries `entries[from..]` give, if each of them gives one.
fn parse_node_counts(entries: &Vec<Vec<char>>, from: usize) -> (r: Option<Vec<u64>>)
    requires
        from <= entries.len(),
    ensures
        match r {
            Some(v) => node_counts(texts(entries@).skip(from as int)) == Some(v@),
            None => node_counts(texts(entries@).skip(from as int)) is None,
        },
{
    let ghost e = texts(entries@);
    let mut out: Vec<u64> = Vec::new();
    let mut ok = true;
    let mut i: usize = from;
    assert(e.subrange(from as int, from as int) =~= Seq::<Seq<char>>::empty());
    while i < entries.len()
        invariant
            from <= i <= entries.len(),
            e == texts(entries@),
            ok ==> node_counts(e.subrange(from as int, i as int)) == Some(out@),
            !ok ==> node_counts(e.subrange(from as int, i as int)) is None,
        decreases entries.len() - i,
    {
        assert(e.subrange(from as int, i as int + 1).drop_last() =~= e.subrange(
            from as int,
            i as int,
        ));
        assert(e.subrange(from as int, i as int + 1).last() == entries[i as int]@);
        let p = split(&entries[i], '=', '=');
        if ok && p.len() >= 2 {
            assert(split_spec(entries[i as int]@, '=', '=')[1] == p[1]@);
            out.push(parse_or_zero(&p[1]));
        } else {
            ok = false;
        }
        i += 1;
    }
    assert(e.subrange(from as int, entries.len() as int) =~= e.skip(from as int));
    if ok {
        Some(out)
    } else {
        None
    }
}

/// What one line of `memory.numa_stat` gives.
fn parse_numa_line(line: &Vec<char>) -> (r: Option<(u64, Vec<u64>)>)
    ensures
        match r {
            Some(l) => numa_line(line@) == Some((l.0, l.1@)),
            None => numa_line(line@) is None,
        },
{
    let p = split(line, ' ', '=');
    let entries = split(line, ' ', ' ');
    if p.len() < 2 {
        return None;
    }
    assert(split_spec(line@, ' ', '=')[1] == p[1]@);
    let total = parse_or_zero(&p[1]);
    match parse_node_counts(&entries, 1) {
        Some(nodes) => Some((total, nodes)),
        None => None,
    }
}

/// The NUMA statistics that the text of `memory.numa_stat` gives.
pub fn parse_numa_stat(s: String) -> (r: Result<NumaStat, Error>)
    ensures
        match r {
            Ok(n) => numa_stat_spec(s@) == Some(n.lines_view()),
            Err(e) => numa_stat_spec(s@) is None && e.kind_spec() == ErrorKind::ParseError,
        },
        crate::error::bare(r),
{
    let ls = lines(&to_chars(s.as_str()));
    let ghost l = lines_spec(s@);
    if ls.len() < 8 {
        return Err(Error::new(ErrorKind::ParseError));
    }
    assert(forall|k: int| 0 <= k < 8 ==> l[k] == ls[k]@);
    let line0 = match parse_numa_line(&ls[0]) {
        Some(x) => x,
        None => {
            assert(numa_line(l[0]) is None);
            return Err(Error::new(ErrorKind::ParseError));
        },
    };
    let line1 = match parse_numa_line(&ls[1]) {
        Some(x) => x,
        None => {
            assert(numa_line(l[1]) is None);
            return Err(Error::new(ErrorKind::ParseError));
        },
    };
    let line2 = match parse_numa_line(&ls[2]) {
        Some(x) => x,
        None => {
            assert(numa_line(l[2]) is None);
            return Err(Error::new(ErrorKind::ParseError));
        },
    };
    let line3 = match parse_numa_line(&ls[3]) {
        Some(x) => x,
        None => {
            assert(numa_line(l[3]) is None);
            return Err(Error::new(ErrorKind::ParseError));
        },
    };
    let line4 = match parse_numa_line(&ls[4]) {
        Some(x) => x,
        None => {
            assert(numa_line(l[4]) is None);
            return Err(Error::new(ErrorKind::ParseError));
        },
    };
    let line5 = match parse_numa_line(&ls[5]) {
        Some(x) => x,
        None => {
            assert(numa_line(l[5]) is None);
            return Err(Error::new(ErrorKind::ParseError));
        },
    };
    let line6 = match parse_numa_line(&ls[6]) {
        Some(x) => x,
        None => {
            assert(numa_line(l[6]) is None);
            return Err(Error::new(ErrorKind::ParseError));
        },
    };
    let line7 = match parse_numa_line(&ls[7]) {
        Some(x) => x,
        None => {
            assert(numa_line(l[7]) is None);
            return Err(Error::new(ErrorKind::ParseError));
        },
    };
    let r = NumaStat {
        total_pages: line0.0,
        total_pages_per_node: line0.1,
        file_pages: line1.0,
        file_pages_per_node: line1.1,
        anon_pages: line2.0,
        anon_pages_per_node: line2.1,
        unevictable_pages: line3.0,
        unevictable_pages_per_node: line3.1,
        hierarchical_total_pages: line4.0,
        hierarchical_total_pages_per_node: line4.1,
        hierarchical_file_pages: line5.0,
        hierarchical_file_pages_per_node: line5.1,
        hierarchical_anon_pages: line6.0,
        hierarchical_anon_pages_per_node: line6.1,
        hierarchical_unevictable_pages: line7.0,
        hierarchical_unevictable_pages_per_node: line7.1,
    };
    assert(r.lines_view() =~= Seq::new(8, |k: int| numa_line(l[k])->0));
    Ok(r)
}

/// The settings that the memory section `m` asks for, in the order in which
/// they are made. Each is checked: the file has to spell the limit afterwards.
pub open spec fn memory_settings(m: MemoryResources) -> Seq<Step> {
    seq![
        number_step("memory.limit_in_bytes"@, m.memory_hard_limit, true),
        number_step("memory.soft_limit_in_bytes"@, m.memory_soft_limit, true),
        number_step("memory.kmem.limit_in_bytes"@, m.kernel_memory_limit, true),
        number_step("memory.memsw.limit_in_bytes"@, m.memory_swap_limit, true),
        number_step("memory.kmem.tcp.limit_in_bytes"@, m.kernel_tcp_memory_limit, true),
        number_step("memory.swappiness"@, m.swappiness, true),
    ]
}

/// The NUMA statistics that a file gives, or the empty statistics where the
/// file cannot be had or does not give any.
pub open spec fn numa_stat_or_empty(file: Result<Seq<char>, ErrorKind>) -> Seq<NumaLine> {
    match file {
        Ok(t) => match numa_stat_spec(trim_spec(t)) {
            Some(v) => v,
            None => NumaStat::empty_view(),
        },
        Err(_) => NumaStat::empty_view(),
    }
}

/// The state of the OOM killer that a file gives, or the state in which nothing
/// is set where the file cannot be had or does not give any.
pub open spec fn oom_control_or_default(file: Result<Seq<char>, ErrorKind>) -> OomControl {
    match file {
        Ok(t) => match oom_control_spec(trim_spec(t)) {
            Some(v) => v,
            None => OomControl { oom_kill_disable: false, under_oom: false, oom_kill: 0 },
        },
        Err(_) => OomControl { oom_kill_disable: false, under_oom: false, oom_kill: 0 },
    }
}

/// The counters that a file gives, or counters that are all zero where the file
/// cannot be had or does not give any.
pub open spec fn memory_stat_or_default(file: Result<Seq<char>, ErrorKind>) -> MemoryStat {
    match file {
        Ok(t) => match memory_stat_spec(trim_spec(t)) {
            Some(v) => v,
            None => memory_stat_of(Seq::new(36, |k: int| 0u64)),
        },
        Err(_) => memory_stat_of(Seq::new(36, |k: int| 0u64)),
    }
}

impl ControllerInternal for MemController {
    closed spec fn base_spec(&self) -> Seq<char> {
        self.base@
    }

    closed spec fn path_spec(&self) -> Seq<char> {
        self.path@
    }

    open spec fn kind_spec(&self) -> Controllers {
        Controllers::Mem
    }

    open spec fn plan_spec(&self, res: &Resources) -> PlanView {
        if res.memory.update_values {
            plan_of(self.base_spec(), self.path_spec(), memory_settings(res.memory))
        } else {
            no_plan()
        }
    }

    fn apply(&self, res: &Resources) -> (p: Plan) {
        let m = &res.memory;
        if !m.update_values {
            return Plan::new();
        }
        let mut settings: Vec<ApplyStep> = Vec::new();
        settings.push(ApplyStep::number("memory.limit_in_bytes", m.memory_hard_limit, true));
        settings.push(ApplyStep::number("memory.soft_limit_in_bytes", m.memory_soft_limit, true));
        settings.push(ApplyStep::number("memory.kmem.limit_in_bytes", m.kernel_memory_limit, true));
        settings.push(ApplyStep::number("memory.memsw.limit_in_bytes", m.memory_swap_limit, true));
        settings.push(
            ApplyStep::number("memory.kmem.tcp.limit_in_bytes", m.kernel_tcp_memory_limit, true),
        );
        settings.push(ApplyStep::number("memory.swappiness", m.swappiness, true));
        assert(steps_view(settings@) =~= memory_settings(res.memory));
        self.plan_for(settings)
    }

    fn control_type(&self) -> (r: Controllers) {
        Controllers::Mem
    }

    fn get_path(&self) -> (r: &String) {
        &self.path
    }

    fn get_base(&self) -> (r: &String) {
        &self.base
    }

    fn scoped_to(&self, name: &str) -> (r: Self) {
        MemController { base: self.base.clone(), path: join(self.path.as_str(), name) }
    }
}

impl Clone for MemController {
    fn clone(&self) -> (r: Self)
        ensures
            r == *self,
    {
        MemController { base: self.base.clone(), path: self.path.clone() }
    }
}

impl ControllIdentifier for MemController {
    open spec fn type_spec() -> Controllers {
        Controllers::Mem
    }

    open spec fn held_by(sub: &Subsystem) -> Option<Self> {
        match sub {
            Subsystem::Mem(c) => Some(*c),
            _ => None,
        }
    }

    fn controller_type() -> (r: Controllers) {
        Controllers::Mem
    }

    fn of(sub: &Subsystem) -> (r: Option<&Self>) {
        match sub {
            Subsystem::Mem(c) => Some(c),
            _ => None,
        }
    }
}

impl MemController {
    /// Constructs a new `MemController` with `oroot` serving as the root of the control group.
    pub fn new(oroot: String) -> (r: Self)
        ensures
            r.base_spec() == join_spec(oroot@, controller_name(Controllers::Mem)),
            r.path_spec() == r.base_spec(),
    {
        let root = join(oroot.as_str(), Controllers::Mem.to_string().as_str());
        MemController { base: root.clone(), path: root }
    }

    /// Gathers overall statistics (and the current state of) about the memory usage of the control
    /// group's tasks. A file that cannot be had, or that does not read as it should, leaves its
    /// field at zero or empty.
    pub fn memory_stat(&self, fs: &Snapshot) -> (r: Memory)
        ensures
            r.fail_cnt == counter_in(self, fs, "memory.failcnt"@),
            r.limit_in_bytes == counter_in(self, fs, "memory.limit_in_bytes"@),
            r.usage_in_bytes == counter_in(self, fs, "memory.usage_in_bytes"@),
            r.max_usage_in_bytes == counter_in(self, fs, "memory.max_usage_in_bytes"@),
            r.move_charge_at_immigrate == counter_in(self, fs, "memory.move_charge_at_immigrate"@),
            r.numa_stat.lines_view() == numa_stat_or_empty(
                text_in(self, fs, "memory.numa_stat"@),
            ),
            r.oom_control == oom_control_or_default(text_in(self, fs, "memory.oom_control"@)),
            r.soft_limit_in_bytes == counter_in(self, fs, "memory.soft_limit_in_bytes"@),
            r.stat == memory_stat_or_default(text_in(self, fs, "memory.stat"@)),
            r.swappiness == counter_in(self, fs, "memory.swappiness"@),
            r.use_hierarchy == counter_in(self, fs, "memory.use_hierarchy"@),
    {
        let numa_stat = match self.read_file(fs, "memory.numa_stat") {
            Ok(t) => match parse_numa_stat(read_string_from(t.as_str())) {
                Ok(n) => n,
                Err(_) => NumaStat::default(),
            },
            Err(_) => NumaStat::default(),
        };
        let oom_control = match self.read_file(fs, "memory.oom_control") {
            Ok(t) => match parse_oom_control(read_string_from(t.as_str())) {
                Ok(c) => c,
                Err(_) => OomControl::default(),
            },
            Err(_) => OomControl::default(),
        };
        let stat = match self.read_file(fs, "memory.stat") {
            Ok(t) => match parse_memory_stat(read_string_from(t.as_str())) {
                Ok(m) => m,
                Err(_) => MemoryStat::default(),
            },
            Err(_) => MemoryStat::default(),
        };
        Memory {
            fail_cnt: self.read_number_or_zero(fs, "memory.failcnt"),
            limit_in_bytes: self.read_number_or_zero(fs, "memory.limit_in_bytes"),
            usage_in_bytes: self.read_number_or_zero(fs, "memory.usage_in_bytes"),
            max_usage_in_bytes: self.read_number_or_zero(fs, "memory.max_usage_in_bytes"),
            move_charge_at_immigrate: self.read_number_or_zero(
                fs,
                "memory.move_charge_at_immigrate",
            ),
            numa_stat,
            oom_control,
            soft_limit_in_bytes: self.read_number_or_zero(fs, "memory.soft_limit_in_bytes"),
            stat,
            swappiness: self.read_number_or_zero(fs, "memory.swappiness"),
            use_hierarchy: self.read_number_or_zero(fs, "memory.use_hierarchy"),
        }
    }

    /// Gathers information about the kernel memory usage of the control group's tasks.
    pub fn kmem_stat(&self, fs: &Snapshot) -> (r: Kmem)
        ensures
            r.fail_cnt == counter_in(self, fs, "memory.kmem.failcnt"@),
            r.limit_in_bytes == counter_in(self, fs, "memory.kmem.limit_in_bytes"@),
            r.usage_in_bytes == counter_in(self, fs, "memory.kmem.usage_in_bytes"@),
            r.max_usage_in_bytes == counter_in(self, fs, "memory.kmem.max_usage_in_bytes"@),
            r.slabinfo@ == trimmed_in(self, fs, "memory.kmem.slabinfo"@),
    {
        Kmem {
            fail_cnt: self.read_number_or_zero(fs, "memory.kmem.failcnt"),
            limit_in_bytes: self.read_number_or_zero(fs, "memory.kmem.limit_in_bytes"),
            usage_in_bytes: self.read_number_or_zero(fs, "memory.kmem.usage_in_bytes"),
            max_usage_in_bytes: self.read_number_or_zero(fs, "memory.kmem.max_usage_in_bytes"),
            slabinfo: self.read_trimmed_or_empty(fs, "memory.kmem.slabinfo"),
        }
    }

    /// Gathers information about the control group's kernel memory usage where said memory is
    /// TCP-related.
    pub fn kmem_tcp_stat(&self, fs: &Snapshot) -> (r: Tcp)
        ensures
            r == (Tcp {
                fail_cnt: counter_in(self, fs, "memory.kmem.tcp.failcnt"@),
                limit_in_bytes: counter_in(self, fs, "memory.kmem.tcp.limit_in_bytes"@),
                usage_in_bytes: counter_in(self, fs, "memory.kmem.tcp.usage_in_bytes"@),
                max_usage_in_bytes: counter_in(self, fs, "memory.kmem.tcp.max_usage_in_bytes"@),
            }),
    {
        Tcp {
            fail_cnt: self.read_number_or_zero(fs, "memory.kmem.tcp.failcnt"),
            limit_in_bytes: self.read_number_or_zero(fs, "memory.kmem.tcp.limit_in_bytes"),
            usage_in_bytes: self.read_number_or_zero(fs, "memory.kmem.tcp.usage_in_bytes"),
            max_usage_in_bytes: self.read_number_or_zero(fs, "memory.kmem.tcp.max_usage_in_bytes"),
        }
    }

    /// Gathers information about the memory usage of the control group including the swap usage
    /// (if any).
    pub fn memswap(&self, fs: &Snapshot) -> (r: MemSwap)
        ensures
            r == (MemSwap {
                fail_cnt: counter_in(self, fs, "memory.memsw.failcnt"@),
                limit_in_bytes: counter_in(self, fs, "memory.memsw.limit_in_bytes"@),
                usage_in_bytes: counter_in(self, fs, "memory.memsw.usage_in_bytes"@),
                max_usage_in_bytes: counter_in(self, fs, "memory.memsw.max_usage_in_bytes"@),
            }),
    {
        MemSwap {
            fail_cnt: self.read_number_or_zero(fs, "memory.memsw.failcnt"),
            limit_in_bytes: self.read_number_or_zero(fs, "memory.memsw.limit_in_bytes"),
            usage_in_bytes: self.read_number_or_zero(fs, "memory.memsw.usage_in_bytes"),
            max_usage_in_bytes: self.read_number_or_zero(fs, "memory.memsw.max_usage_in_bytes"),
        }
    }

    /// Reset the fail counter
    pub fn reset_fail_count(&self) -> (r: Result<FileWrite, Error>)
        ensures
            write_view(r) == write_in(self, "memory.failcnt"@, "0"@),
            crate::error::bare(r),
    {
        self.write_to("memory.failcnt", String::from_str("0"))
    }

    /// Reset the kernel memory fail counter
    pub fn reset_kmem_fail_count(&self) -> (r: Result<FileWrite, Error>)
        ensures
            write_view(r) == write_in(self, "memory.kmem.failcnt"@, "0"@),
            crate::error::bare(r),
    {
        self.write_to("memory.kmem.failcnt", String::from_str("0"))
    }

    /// Reset the TCP related fail counter
    pub fn reset_tcp_fail_count(&self) -> (r: Result<FileWrite, Error>)
        ensures
            write_view(r) == write_in(self, "memory.kmem.tcp.failcnt"@, "0"@),
            crate::error::bare(r),
    {
        self.write_to("memory.kmem.tcp.failcnt", String::from_str("0"))
    }

    /// Reset the memory+swap fail counter
    pub fn reset_memswap_fail_count(&self) -> (r: Result<FileWrite, Error>)
        ensures
            write_view(r) == write_in(self, "memory.memsw.failcnt"@, "0"@),
            crate::error::bare(r),
    {
        self.write_to("memory.memsw.failcnt", String::from_str("0"))
    }

    /// Set the memory usage limit of the control group, in bytes.
    pub fn set_limit(&self, limit: u64) -> (r: Result<FileWrite, Error>)
        ensures
            write_view(r) == write_in(self, "memory.limit_in_bytes"@, decimal(limit as nat)),
            crate::error::bare(r),
    {
        self.write_to("memory.limit_in_bytes", u64_to_string(limit))
    }

    /// Set the kernel memory limit of the control group, in bytes.
    pub fn set_kmem_limit(&self, limit: u64) -> (r: Result<FileWrite, Error>)
        ensures
            write_view(r) == write_in(self, "memory.kmem.limit_in_bytes"@, decimal(limit as nat)),
            crate::error::bare(r),
    {
        self.write_to("memory.kmem.limit_in_bytes", u64_to_string(limit))
    }

    /// Set the memory+swap limit of the control group, in bytes.
    pub fn set_memswap_limit(&self, limit: u64) -> (r: Result<FileWrite, Error>)
        ensures
            write_view(r) == write_in(self, "memory.memsw.limit_in_bytes"@, decimal(limit as nat)),
            crate::error::bare(r),
    {
        self.write_to("memory.memsw.limit_in_bytes", u64_to_string(limit))
    }

    /// Set how much kernel memory can be used for TCP-related buffers by the control group.
    pub fn set_tcp_limit(&self, limit: u64) -> (r: Result<FileWrite, Error>)
        ensures
            write_view(r) == write_in(self, "memory.kmem.tcp.limit_in_bytes"@, decimal(limit as nat)),
            crate::error::bare(r),
    {
        self.write_to("memory.kmem.tcp.limit_in_bytes", u64_to_string(limit))
    }

    /// Set the soft limit of the control group, in bytes.
    ///
    /// This limit is enforced when the system is nearing OOM conditions. Contrast this with the
    /// hard limit, which is _always_ enforced.
    pub fn set_soft_limit(&self, limit: u64) -> (r: Result<FileWrite, Error>)
        ensures
            write_view(r) == write_in(self, "memory.soft_limit_in_bytes"@, decimal(limit as nat)),
            crate::error::bare(r),
    {
        self.write_to("memory.soft_limit_in_bytes", u64_to_string(limit))
    }

    /// Set how likely the kernel is to swap out parts of the address space used by the control
    /// group.
    ///
    /// Note that a value of zero does not imply that the process will not be swapped out.
    pub fn set_swappiness(&self, swp: u64) -> (r: Result<FileWrite, Error>)
        ensures
            write_view(r) == write_in(self, "memory.swappiness"@, decimal(swp as nat)),
            crate::error::bare(r),
    {
        self.write_to("memory.swappiness", u64_to_string(swp))
    }
}

} // verus!

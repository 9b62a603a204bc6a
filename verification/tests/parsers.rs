//! The texts of the kernel's files, read into values.
use cgroups::cpuset::parse_range;
use cgroups::error::ErrorKind;
use cgroups::memory::{
    parse_memory_stat, parse_numa_stat, parse_oom_control, MemoryStat, NumaStat, OomControl,
};

const GOOD_VALUE: &str = "\
total=51189 N0=51189 N1=123
file=50175 N0=50175 N1=123
anon=1014 N0=1014 N1=123
unevictable=0 N0=0 N1=123
hierarchical_total=1628573 N0=1628573 N1=123
hierarchical_file=858151 N0=858151 N1=123
hierarchical_anon=770402 N0=770402 N1=123
hierarchical_unevictable=20 N0=20 N1=123
";

const GOOD_OOMCONTROL_VAL: &str = "\
oom_kill_disable 0
under_oom 1
oom_kill 1337
";

const GOOD_MEMORYSTAT_VAL: &str = "\
cache 178880512
rss 4206592
rss_huge 0
shmem 106496
mapped_file 7491584
dirty 114688
writeback 49152
swap 0
pgpgin 213928
pgpgout 169220
pgfault 87064
pgmajfault 202
inactive_anon 0
active_anon 4153344
inactive_file 84779008
active_file 94273536
unevictable 0
hierarchical_memory_limit 9223372036854771712
hierarchical_memsw_limit 9223372036854771712
total_cache 4200333312
total_rss 2927677440
total_rss_huge 0
total_shmem 590061568
total_mapped_file 1086164992
total_dirty 1769472
total_writeback 602112
total_swap 0
total_pgpgin 5267326291
total_pgpgout 5265586647
total_pgfault 9947902469
total_pgmajfault 25132
total_inactive_anon 585981952
total_active_anon 2928996352
total_inactive_file 1272135680
total_active_file 2338816000
total_unevictable 81920
";

#[test]
fn test_parse_range() {
    let test_cases = vec![
        "1,2,4-6,9".to_string(),
        "".to_string(),
        "1".to_string(),
        "1-111".to_string(),
        "1,2,3,4".to_string(),
        "1-5,6-7,8-9".to_string(),
    ];
    let expecteds = vec![
        vec![(1, 1), (2, 2), (4, 6), (9, 9)],
        vec![],
        vec![(1, 1)],
        vec![(1, 111)],
        vec![(1, 1), (2, 2), (3, 3), (4, 4)],
        vec![(1, 5), (6, 7), (8, 9)],
    ];

    for (i, case) in test_cases.into_iter().enumerate() {
        let range = parse_range(case.clone());
        println!("{:?} => {:?}", case, range);
        assert!(range.is_ok());
        assert_eq!(range.unwrap(), expecteds[i]);
    }
}

#[test]
fn test_parse_numa_stat() {
    let ok = parse_numa_stat(GOOD_VALUE.to_string()).unwrap();
    assert_eq!(
        ok,
        NumaStat {
            total_pages: 51189,
            total_pages_per_node: vec![51189, 123],
            file_pages: 50175,
            file_pages_per_node: vec![50175, 123],
            anon_pages: 1014,
            anon_pages_per_node: vec![1014, 123],
            unevictable_pages: 0,
            unevictable_pages_per_node: vec![0, 123],

            hierarchical_total_pages: 1628573,
            hierarchical_total_pages_per_node: vec![1628573, 123],
            hierarchical_file_pages: 858151,
            hierarchical_file_pages_per_node: vec![858151, 123],
            hierarchical_anon_pages: 770402,
            hierarchical_anon_pages_per_node: vec![770402, 123],
            hierarchical_unevictable_pages: 20,
            hierarchical_unevictable_pages_per_node: vec![20, 123],
        }
    );
}

#[test]
fn test_parse_oom_control() {
    let ok = parse_oom_control(GOOD_OOMCONTROL_VAL.to_string()).unwrap();
    assert_eq!(
        ok,
        OomControl {
            oom_kill_disable: false,
            under_oom: true,
            oom_kill: 1337,
        }
    );
}

#[test]
fn test_parse_memory_stat() {
    let ok = parse_memory_stat(GOOD_MEMORYSTAT_VAL.to_string()).unwrap();
    assert_eq!(
        ok,
        MemoryStat {
            cache: 178880512,
            rss: 4206592,
            rss_huge: 0,
            shmem: 106496,
            mapped_file: 7491584,
            dirty: 114688,
            writeback: 49152,
            swap: 0,
            pgpgin: 213928,
            pgpgout: 169220,
            pgfault: 87064,
            pgmajfault: 202,
            inactive_anon: 0,
            active_anon: 4153344,
            inactive_file: 84779008,
            active_file: 94273536,
            unevictable: 0,
            hierarchical_memory_limit: 9223372036854771712,
            hierarchical_memsw_limit: 9223372036854771712,
            total_cache: 4200333312,
            total_rss: 2927677440,
            total_rss_huge: 0,
            total_shmem: 590061568,
            total_mapped_file: 1086164992,
            total_dirty: 1769472,
            total_writeback: 602112,
            total_swap: 0,
            total_pgpgin: 5267326291,
            total_pgpgout: 5265586647,
            total_pgfault: 9947902469,
            total_pgmajfault: 25132,
            total_inactive_anon: 585981952,
            total_active_anon: 2928996352,
            total_inactive_file: 1272135680,
            total_active_file: 2338816000,
            total_unevictable: 81920,
        }
    );
}

#[test]
fn parse_range_rejects_what_is_no_list() {
    for bad in ["1-", "-1", "1-2-3", "a", "1,,2", "1, 2", ","] {
        let r = parse_range(bad.to_string());
        assert!(r.is_err(), "{:?}", bad);
        assert_eq!(r.unwrap_err().kind(), &ErrorKind::ParseError);
    }
}

#[test]
fn parse_range_takes_the_largest_number() {
    assert_eq!(
        parse_range("18446744073709551615".to_string()).unwrap(),
        vec![(u64::MAX, u64::MAX)]
    );
    assert!(parse_range("18446744073709551616".to_string()).is_err());
}

#[test]
fn parse_oom_control_wants_six_fields() {
    let r = parse_oom_control("oom_kill_disable 0\nunder_oom 1\n".to_string());
    assert_eq!(r.unwrap_err().kind(), &ErrorKind::ParseError);
    let r = parse_oom_control("oom_kill_disable x\nunder_oom 1\noom_kill 2\n".to_string());
    assert_eq!(r.unwrap_err().kind(), &ErrorKind::ParseError);
    let ok = parse_oom_control("oom_kill_disable 1 under_oom 0 oom_kill 7".to_string()).unwrap();
    assert_eq!(ok, OomControl { oom_kill_disable: true, under_oom: false, oom_kill: 7 });
}

#[test]
fn parse_memory_stat_wants_all_counters() {
    let r = parse_memory_stat("cache 1\nrss 2\n".to_string());
    assert_eq!(r.unwrap_err().kind(), &ErrorKind::ParseError);
}

#[test]
fn parse_numa_stat_wants_eight_lines() {
    let r = parse_numa_stat("total=1 N0=1\nfile=1 N0=1\n".to_string());
    assert_eq!(r.unwrap_err().kind(), &ErrorKind::ParseError);
}

#[test]
fn parse_numa_stat_counts_what_is_no_number_as_zero() {
    let text = "total=x N0=y\nfile=1 N0=1\nanon=1 N0=1\nunevictable=1 N0=1\n\
                hierarchical_total=1 N0=1\nhierarchical_file=1 N0=1\n\
                hierarchical_anon=1 N0=1\nhierarchical_unevictable=1 N0=1\n";
    let ok = parse_numa_stat(text.to_string()).unwrap();
    assert_eq!(ok.total_pages, 0);
    assert_eq!(ok.total_pages_per_node, vec![0]);
    assert_eq!(ok.file_pages, 1);
}

#[test]
fn parse_numa_stat_rejects_an_entry_without_count() {
    let text = "total=1 N0\nfile=1 N0=1\nanon=1 N0=1\nunevictable=1 N0=1\n\
                hierarchical_total=1 N0=1\nhierarchical_file=1 N0=1\n\
                hierarchical_anon=1 N0=1\nhierarchical_unevictable=1 N0=1\n";
    let r = parse_numa_stat(text.to_string());
    assert_eq!(r.unwrap_err().kind(), &ErrorKind::ParseError);
}

use syslog_hv::stats::Stats;

#[test]
fn new_stats_are_zero() {
    assert_eq!(Stats::new(), Stats { packets: 0, bytes: 0 });
}

#[test]
fn count_adds_one_packet_and_its_bytes() {
    let mut stats = Stats::new();
    assert!(stats.count(17));
    assert_eq!(stats, Stats { packets: 1, bytes: 17 });
    assert!(stats.count(0));
    assert_eq!(stats, Stats { packets: 2, bytes: 17 });
    assert!(stats.count(1000));
    assert_eq!(stats, Stats { packets: 3, bytes: 1017 });
}

#[test]
fn count_refuses_to_pass_the_limit() {
    let mut full = Stats { packets: u64::MAX, bytes: 5 };
    assert!(!full.count(1));
    assert_eq!(full, Stats { packets: u64::MAX, bytes: 5 });
    let mut heavy = Stats { packets: 5, bytes: u64::MAX - 3 };
    assert!(!heavy.count(4));
    assert_eq!(heavy, Stats { packets: 5, bytes: u64::MAX - 3 });
    assert!(heavy.count(3));
    assert_eq!(heavy, Stats { packets: 6, bytes: u64::MAX });
}

#[test]
fn flush_adds_both_counters() {
    let mut shared = Stats { packets: 10, bytes: 400 };
    assert!(shared.flush(Stats { packets: 3, bytes: 99 }));
    assert_eq!(shared, Stats { packets: 13, bytes: 499 });
    assert!(shared.flush(Stats::new()));
    assert_eq!(shared, Stats { packets: 13, bytes: 499 });
}

#[test]
fn flush_refuses_to_pass_the_limit() {
    let mut shared = Stats { packets: u64::MAX - 1, bytes: 0 };
    assert!(!shared.flush(Stats { packets: 2, bytes: 1 }));
    assert_eq!(shared, Stats { packets: u64::MAX - 1, bytes: 0 });
    assert!(shared.flush(Stats { packets: 1, bytes: u64::MAX }));
    assert_eq!(shared, Stats { packets: u64::MAX, bytes: u64::MAX });
    assert!(!shared.flush(Stats { packets: 0, bytes: 1 }));
}

#[test]
fn drain_reads_and_resets() {
    let mut shared = Stats { packets: 7, bytes: 70 };
    assert_eq!(shared.drain(), Stats { packets: 7, bytes: 70 });
    assert_eq!(shared, Stats { packets: 0, bytes: 0 });
    assert_eq!(shared.drain(), Stats { packets: 0, bytes: 0 });
}

#[test]
fn drain_returns_the_sum_of_the_flushes_since_the_last_drain() {
    let mut shared = Stats::new();
    assert!(shared.flush(Stats { packets: 1, bytes: 10 }));
    assert!(shared.flush(Stats { packets: 2, bytes: 20 }));
    assert_eq!(shared.drain(), Stats { packets: 3, bytes: 30 });
    assert!(shared.flush(Stats { packets: 4, bytes: 40 }));
    assert_eq!(shared.drain(), Stats { packets: 4, bytes: 40 });
}

#[test]
fn counters_are_conserved_across_workers_and_drains() {
    let mut locals = vec![Stats::new(), Stats::new(), Stats::new(), Stats::new()];
    let mut shared = Stats::new();
    let mut sent = Stats::new();
    let mut reported = Stats::new();
    let mut seed: u64 = 12345;
    for round in 0..10_000u64 {
        seed = seed.wrapping_mul(6364136223846793005).wrapping_add(1442695040888963407);
        let worker = ((seed >> 33) % 4) as usize;
        let bytes = (seed >> 40) % 1500;
        assert!(locals[worker].count(bytes));
        assert!(sent.count(bytes));
        if round % 7 == 0 {
            let delta = locals[worker].drain();
            assert!(shared.flush(delta));
        }
        if round % 50 == 0 {
            let sample = shared.drain();
            assert!(reported.flush(sample));
            assert_eq!(shared, Stats::new());
        }
        let mut all = reported;
        assert!(all.flush(shared));
        for local in locals.iter() {
            assert!(all.flush(*local));
        }
        assert_eq!(all, sent);
        assert!(reported.packets <= sent.packets);
        assert!(reported.bytes <= sent.bytes);
    }
}

#[test]
fn bits_are_eight_times_the_bytes() {
    assert_eq!(Stats { packets: 1, bytes: 0 }.bits(), 0);
    assert_eq!(Stats { packets: 1, bytes: 131072 }.bits(), 1048576);
    assert_eq!(Stats { packets: 0, bytes: u64::MAX }.bits(), 147573952589676412920);
}

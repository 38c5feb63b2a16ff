use syslog_hv::config::{IpFamily, Target};
use syslog_hv::reporter::{
    throughput_line, ReportAction, ReportEvent, ReportStage, Reporter, REPORT_INTERVAL_SECS,
};
use syslog_hv::stats::Stats;

const ALL_REPORT_EVENTS: [ReportEvent; 7] = [
    ReportEvent::Started,
    ReportEvent::Woke,
    ReportEvent::Drained { sample: Stats { packets: 1, bytes: 2 } },
    ReportEvent::Printed,
    ReportEvent::Observed { shutdown: false },
    ReportEvent::Observed { shutdown: true },
    ReportEvent::Joined,
];

fn observing_reporter() -> Reporter {
    let mut reporter = Reporter::new();
    assert_eq!(reporter.advance(ReportEvent::Started), ReportAction::Sleep { secs: 1 });
    assert_eq!(reporter.advance(ReportEvent::Woke), ReportAction::Drain);
    let sample = Stats { packets: 5, bytes: 50 };
    assert_eq!(reporter.advance(ReportEvent::Drained { sample }), ReportAction::Print { sample });
    assert_eq!(reporter.advance(ReportEvent::Printed), ReportAction::Observe);
    reporter
}

#[test]
fn report_interval_is_one_second() {
    assert_eq!(REPORT_INTERVAL_SECS, 1);
}

#[test]
fn reporter_sleeps_first() {
    let mut reporter = Reporter::new();
    assert_eq!(reporter.stage(), ReportStage::Starting);
    assert_eq!(reporter.advance(ReportEvent::Started), ReportAction::Sleep { secs: 1 });
    assert_eq!(reporter.stage(), ReportStage::Sleeping);
}

#[test]
fn reporter_drains_prints_and_observes_in_turn() {
    let mut reporter = Reporter::new();
    assert_eq!(reporter.advance(ReportEvent::Started), ReportAction::Sleep { secs: 1 });
    assert_eq!(reporter.advance(ReportEvent::Woke), ReportAction::Drain);
    assert_eq!(reporter.stage(), ReportStage::Sampling);
    let sample = Stats { packets: 12000, bytes: 960000 };
    assert_eq!(reporter.advance(ReportEvent::Drained { sample }), ReportAction::Print { sample });
    assert_eq!(reporter.stage(), ReportStage::Printing);
    assert_eq!(reporter.advance(ReportEvent::Printed), ReportAction::Observe);
    assert_eq!(reporter.stage(), ReportStage::Observing);
}

#[test]
fn reporter_goes_round_while_the_flag_is_not_set() {
    let mut reporter = observing_reporter();
    for round in 0..20u64 {
        assert_eq!(
            reporter.advance(ReportEvent::Observed { shutdown: false }),
            ReportAction::Sleep { secs: 1 }
        );
        assert_eq!(reporter.advance(ReportEvent::Woke), ReportAction::Drain);
        let sample = Stats { packets: round, bytes: round * 100 };
        assert_eq!(
            reporter.advance(ReportEvent::Drained { sample }),
            ReportAction::Print { sample }
        );
        assert_eq!(reporter.advance(ReportEvent::Printed), ReportAction::Observe);
    }
}

#[test]
fn reporter_joins_the_workers_once_the_flag_is_set() {
    let mut reporter = observing_reporter();
    assert_eq!(reporter.advance(ReportEvent::Observed { shutdown: true }), ReportAction::Join);
    assert_eq!(reporter.stage(), ReportStage::Joining);
    assert_eq!(reporter.advance(ReportEvent::Joined), ReportAction::Done);
    assert_eq!(reporter.stage(), ReportStage::Exited);
}

#[test]
fn reporter_prints_the_line_of_the_tick_in_which_the_flag_was_set() {
    let mut reporter = Reporter::new();
    let mut event = ReportEvent::Started;
    let mut printed = 0;
    let mut sleeps = 0;
    loop {
        event = match reporter.advance(event) {
            ReportAction::Sleep { .. } => {
                sleeps += 1;
                ReportEvent::Woke
            }
            ReportAction::Drain => ReportEvent::Drained { sample: Stats::new() },
            ReportAction::Print { .. } => {
                printed += 1;
                ReportEvent::Printed
            }
            ReportAction::Observe => ReportEvent::Observed { shutdown: true },
            ReportAction::Join => ReportEvent::Joined,
            ReportAction::Done => break,
            ReportAction::Rejected => panic!("rejected"),
        };
    }
    assert_eq!(sleeps, 1);
    assert_eq!(printed, 1);
    assert_eq!(reporter.stage(), ReportStage::Exited);
}

#[test]
fn reporter_rejects_events_out_of_turn() {
    let mut reporter = Reporter::new();
    for event in ALL_REPORT_EVENTS {
        if event != ReportEvent::Started {
            assert_eq!(reporter.advance(event), ReportAction::Rejected);
            assert_eq!(reporter.stage(), ReportStage::Starting);
        }
    }
    let mut done = observing_reporter();
    assert_eq!(done.advance(ReportEvent::Observed { shutdown: true }), ReportAction::Join);
    assert_eq!(done.advance(ReportEvent::Joined), ReportAction::Done);
    for event in ALL_REPORT_EVENTS {
        assert_eq!(done.advance(event), ReportAction::Rejected);
        assert_eq!(done.stage(), ReportStage::Exited);
    }
}

#[test]
fn throughput_line_layout() {
    let v4 = Target { family: IpFamily::V4, ip: String::from("127.0.0.1"), port: 514 };
    assert_eq!(throughput_line("12.0", "7.3", &v4), "12.0 k pps, 7.3 Mbit/s -> 127.0.0.1:514");
    assert_eq!(throughput_line("0.0", "0.0", &v4), "0.0 k pps, 0.0 Mbit/s -> 127.0.0.1:514");
    let v6 = Target { family: IpFamily::V6, ip: String::from("::1"), port: 20001 };
    assert_eq!(throughput_line("40.1", "22.9", &v6), "40.1 k pps, 22.9 Mbit/s -> [::1]:20001");
}

#[test]
fn throughput_line_of_a_sample() {
    let sample = Stats { packets: 12000, bytes: 960000 };
    let kpps = format!("{:.1}", sample.packets as f64 / 1000.0);
    let mbits = format!("{:.1}", sample.bits() as f64 / 1048576.0);
    let target = Target { family: IpFamily::V4, ip: String::from("127.0.0.1"), port: 514 };
    assert_eq!(throughput_line(&kpps, &mbits, &target), "12.0 k pps, 7.3 Mbit/s -> 127.0.0.1:514");
}

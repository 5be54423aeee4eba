use esp32_sdcard::{
    advance, flush_due, format_csv_line, generate_random_filename, DummyTimeSource, Phase, Retry,
    RetryStep, Session, Timestamp, HEADER, MAX_RETRIES, RECORD_CAPACITY,
};

/// Drives the bring-up from stage 1, each operation's outcome taken in turn
/// from `outcomes`; returns the phases visited.
fn bring_up(outcomes: &[bool]) -> Vec<Phase> {
    let mut phases = vec![Phase::InitCard];
    let mut p = Phase::InitCard;
    let mut k = 0;
    while !p.finished() {
        p = advance(p, outcomes[k]);
        k += 1;
        phases.push(p);
    }
    phases
}

/// Runs `n` loop iterations, each write giving `write_ok`; returns
/// (writes issued, flushes issued, final counter).
fn run_loop(session: &mut Session, n: u32, write_ok: bool) -> (u32, u32, u32) {
    let mut writes = 0;
    let mut flushes = 0;
    for _ in 0..n {
        if session.begin_iteration() {
            writes += 1;
            if session.flush_after_write(write_ok) {
                flushes += 1;
            }
        }
    }
    (writes, flushes, session.counter)
}

#[test]
fn record_format_example() {
    let mut buffer = [0u8; RECORD_CAPACITY];
    let n = format_csv_line(&mut buffer, 1000, 42);
    assert_eq!(n, 14);
    assert_eq!(&buffer[..n], b"1000,count,42\n");
    assert!(buffer[n..].iter().all(|&b| b == 0));
}

#[test]
fn record_format_zero_and_largest() {
    let mut buffer = [0u8; RECORD_CAPACITY];
    let n = format_csv_line(&mut buffer, 0, 0);
    assert_eq!(&buffer[..n], b"0,count,0\n");
    let n = format_csv_line(&mut buffer, u64::MAX, u32::MAX);
    assert_eq!(&buffer[..n], b"18446744073709551615,count,4294967295\n");
}

#[test]
fn record_format_respects_buffer_bound() {
    let mut buffer = [7u8; 6];
    let n = format_csv_line(&mut buffer, 1000, 42);
    assert_eq!(n, 6);
    assert_eq!(&buffer, b"1000,c");
    let mut empty: [u8; 0] = [];
    assert_eq!(format_csv_line(&mut empty, 1000, 42), 0);
}

#[test]
fn durability_trigger() {
    assert!(flush_due(10));
    assert!(!flush_due(15));
    assert!(!flush_due(0));
    assert!(flush_due(20));
    assert!(!flush_due(1));
    assert!(flush_due(4294967290));
}

#[test]
fn retry_success_after_failures_stops() {
    for k in 0..MAX_RETRIES {
        let mut retry = Retry::new();
        let mut backoffs = 0;
        for _ in 0..k {
            match retry.record::<u32, &str>(Err("busy")) {
                RetryStep::Backoff => backoffs += 1,
                _ => panic!("a failure with attempts left must back off"),
            }
        }
        match retry.record::<u32, &str>(Ok(77)) {
            RetryStep::Done(v) => assert_eq!(v, 77),
            _ => panic!("a success must be handed back"),
        }
        assert_eq!(retry.attempts, k + 1);
        assert_eq!(backoffs, k);
    }
}

#[test]
fn retry_exhaustion_gives_up() {
    let mut retry = Retry::new();
    let mut backoffs = 0;
    let mut gave_up = false;
    while retry.attempts < MAX_RETRIES {
        match retry.record::<u32, &str>(Err("no card")) {
            RetryStep::Backoff => backoffs += 1,
            RetryStep::GiveUp => gave_up = true,
            RetryStep::Done(_) => panic!("nothing succeeded"),
        }
    }
    assert!(gave_up);
    assert_eq!(backoffs, 3);
    assert_eq!(retry.attempts, 4);
}

#[test]
fn all_stages_succeed_then_flush_at_ten() {
    let phases = bring_up(&[true; 6]);
    assert_eq!(
        phases,
        vec![
            Phase::InitCard,
            Phase::OpenVolume,
            Phase::OpenRootDir,
            Phase::RaiseBusSpeed { storage: true },
            Phase::CreateFile,
            Phase::WriteHeader,
            Phase::Logging,
        ]
    );
    assert_eq!(HEADER, "Timestamp,Counter,Value\n");
    let mut session = Session::after_bring_up(*phases.last().unwrap());
    assert!(session.logging);
    assert_eq!(run_loop(&mut session, 9, true), (9, 0, 9));
    assert_eq!(run_loop(&mut session, 1, true), (1, 1, 10));
}

#[test]
fn card_init_failure_counts_without_storage() {
    let phases = bring_up(&[false, true]);
    assert_eq!(
        phases,
        vec![Phase::InitCard, Phase::RaiseBusSpeed { storage: false }, Phase::CountingOnly]
    );
    let mut session = Session::after_bring_up(Phase::CountingOnly);
    assert_eq!(run_loop(&mut session, 25, true), (0, 0, 25));
}

#[test]
fn header_failure_drops_file() {
    let phases = bring_up(&[true, true, true, true, true, false]);
    assert_eq!(phases[5], Phase::WriteHeader);
    assert_eq!(phases[6], Phase::CountingOnly);
    assert_eq!(phases.len(), 7);
    let mut session = Session::after_bring_up(Phase::CountingOnly);
    assert!(!session.logging);
    assert_eq!(run_loop(&mut session, 20, true), (0, 0, 20));
}

#[test]
fn later_stage_failures_skip_the_rest() {
    let phases = bring_up(&[true, false, true]);
    assert_eq!(phases[2], Phase::RaiseBusSpeed { storage: false });
    assert_eq!(phases.last(), Some(&Phase::CountingOnly));
    let phases = bring_up(&[true, true, false, true]);
    assert_eq!(phases[3], Phase::RaiseBusSpeed { storage: false });
    assert_eq!(phases.last(), Some(&Phase::CountingOnly));
    let phases = bring_up(&[true, true, true, true, false]);
    assert_eq!(phases, vec![
        Phase::InitCard,
        Phase::OpenVolume,
        Phase::OpenRootDir,
        Phase::RaiseBusSpeed { storage: true },
        Phase::CreateFile,
        Phase::CountingOnly,
    ]);
}

#[test]
fn bus_speed_failure_halts() {
    let phases = bring_up(&[true, true, true, false]);
    assert_eq!(phases.last(), Some(&Phase::Halted));
    let phases = bring_up(&[false, false]);
    assert_eq!(phases.last(), Some(&Phase::Halted));
    assert_eq!(esp32_sdcard::pipeline::panic(Phase::CreateFile), Phase::Halted);
}

#[test]
fn failed_write_skips_flush_only() {
    let mut session = Session::new(true);
    assert_eq!(run_loop(&mut session, 10, false), (10, 0, 10));
    assert!(session.logging);
    assert!(session.flush_after_write(true));
}

#[test]
fn counter_wraps_to_zero() {
    let mut session = Session { counter: u32::MAX, logging: true };
    assert!(session.begin_iteration());
    assert_eq!(session.counter, 0);
    assert!(!session.flush_after_write(true));
}

#[test]
fn filename_from_draws() {
    let mut name = [0u8; 12];
    generate_random_filename(&[0, 1, 2, 26, 27, 35, 36, 1000], &mut name);
    assert_eq!(&name, b"ABC019A2.CSV");
    generate_random_filename(&[u32::MAX; 8], &mut name);
    assert_eq!(&name, b"DDDDDDDD.CSV");
}

#[test]
fn dummy_time_source_is_epoch() {
    let t = DummyTimeSource.get_timestamp();
    assert_eq!(
        t,
        Timestamp {
            year_since_1970: 0,
            zero_indexed_month: 0,
            zero_indexed_day: 0,
            hours: 0,
            minutes: 0,
            seconds: 0,
        }
    );
}

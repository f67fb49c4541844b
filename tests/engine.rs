use rusty_meter::engine::{Reply, SerialEngine, SessionConfig};
use rusty_meter::multimeter::{MeterMode, ScpiMode};
use rusty_meter::session::{Phase, WriteOutcome};

fn config(lock_remote: bool) -> SessionConfig {
    SessionConfig {
        lock_remote,
        beeper_enabled: true,
        cont_threshold: 50,
        diod_threshold: b"2".to_vec(),
        rate: 0,
    }
}

fn texts(q: &[Vec<u8>]) -> Vec<String> {
    q.iter().map(|c| String::from_utf8(c.clone()).unwrap()).collect()
}

fn write_next(e: &mut SerialEngine) -> String {
    let c = e.next_write().expect("a command is offered");
    e.write_done(WriteOutcome::Written);
    String::from_utf8(c).unwrap()
}

/// Writes the start-up commands and answers the identity query.
fn measuring_engine(identity: &str) -> SerialEngine {
    let mut e = SerialEngine::new(config(true), MeterMode::Vdc);
    assert_eq!(write_next(&mut e), "*IDN?\n");
    let r = e.receive(identity.as_bytes());
    assert!(matches!(r, Reply::Identity(_)));
    while e.next_write().is_some() {
        write_next(&mut e);
        if e.in_flight() {
            break;
        }
    }
    e
}

#[test]
fn startup_queue_holds_identity_query_and_configuration() {
    let e = SerialEngine::new(config(true), MeterMode::Vdc);
    assert_eq!(
        texts(e.queued()),
        vec![
            "*IDN?\n",
            "RATE S\n",
            "SYST:BEEP:STATe ON\n",
            "CONT:THREshold 50\n",
            "DIOD:THREshold 2\n"
        ]
    );
    assert_eq!(e.scpi_mode(), ScpiMode::Idn);
    assert_eq!(e.phase(), Phase::Running);
    assert!(!e.in_flight());
    assert_eq!(e.meas_count(), 0);
    assert!(e.identity().is_empty());
}

#[test]
fn startup_with_fast_rate_and_beeper_off() {
    let cfg = SessionConfig {
        lock_remote: false,
        beeper_enabled: false,
        cont_threshold: 1000,
        diod_threshold: b"0.5".to_vec(),
        rate: 2,
    };
    let e = SerialEngine::new(cfg, MeterMode::Res);
    assert_eq!(
        texts(e.queued()),
        vec![
            "*IDN?\n",
            "RATE F\n",
            "SYST:BEEP:STATe OFF\n",
            "CONT:THREshold 1000\n",
            "DIOD:THREshold 0.5\n"
        ]
    );
    assert_eq!(e.last_mode(), MeterMode::Res);
}

#[test]
fn identity_reply_starts_measuring_with_quirk() {
    let mut e = SerialEngine::new(config(true), MeterMode::Vdc);
    assert_eq!(write_next(&mut e), "*IDN?\n");
    assert!(e.in_flight());
    let q = texts(e.queued());
    assert_eq!(&q[q.len() - 2..], &["SYST:REM\n".to_string(), "MEAS?\n".to_string()]);
    assert!(e.next_write().is_none());
    let r = e.receive(b"OWON,XDM1041,SN1,V4.1.0\r\n");
    assert_eq!(r, Reply::Identity(b"OWON,XDM1041,SN1,V4.1.0".to_vec()));
    assert_eq!(e.identity(), &b"OWON,XDM1041,SN1,V4.1.0".to_vec());
    assert_eq!(e.scpi_mode(), ScpiMode::Meas);
    assert!(e.swap_diod_cont());
    assert!(!e.in_flight());
    assert_eq!(write_next(&mut e), "RATE S\n");
}

#[test]
fn identity_without_remote_lock_queues_only_measurement() {
    let mut e = SerialEngine::new(config(false), MeterMode::Vdc);
    write_next(&mut e);
    let q = texts(e.queued());
    assert_eq!(q.last().unwrap(), "MEAS?\n");
    assert!(!q.contains(&"SYST:REM\n".to_string()));
}

#[test]
fn measurement_reply_is_handed_out_and_counted() {
    let mut e = measuring_engine("OWON,XDM1041,SN1,V4.3.1\r\n");
    assert!(!e.swap_diod_cont());
    let before = e.meas_count();
    let r = e.receive(b"+1.234560E+01\r\n");
    assert_eq!(r, Reply::Value(b"+1.234560E+01".to_vec()));
    if let Reply::Value(t) = r {
        let v: f64 = std::str::from_utf8(&t).unwrap().parse().unwrap();
        assert!((v - 12.3456).abs() < 1e-12);
        e.count_measurement();
    }
    assert_eq!(e.meas_count(), before + 1);
    assert!(!e.in_flight());
}

#[test]
fn overload_value_passes_unchanged() {
    let mut e = measuring_engine("OWON,XDM1041,SN1,V4.3.1\r\n");
    let r = e.receive(b"1E+9\r\n");
    assert_eq!(r, Reply::Value(b"1E+9".to_vec()));
    if let Reply::Value(t) = r {
        let v: f64 = std::str::from_utf8(&t).unwrap().parse().unwrap();
        assert_eq!(v, 1e9);
    }
}

#[test]
fn garbage_line_is_handed_out_but_not_counted() {
    let mut e = measuring_engine("OWON,XDM1041,SN1,V4.3.1\r\n");
    let r = e.receive(b"#%garbage\r\n");
    assert_eq!(r, Reply::Value(b"#%garbage".to_vec()));
    if let Reply::Value(t) = r {
        assert!(std::str::from_utf8(&t).unwrap().parse::<f64>().is_err());
    }
    assert_eq!(e.meas_count(), 0);
    assert!(!e.in_flight());
}

#[test]
fn quoted_continuity_report_changes_mode_and_queues_follow_ups() {
    let mut e = measuring_engine("OWON,XDM1041,SN1,V4.3.1\r\n");
    assert!(!e.swap_diod_cont());
    assert_eq!(e.last_mode(), MeterMode::Vdc);
    let before = e.queued().len();
    let r = e.receive(b"\"CONT\"\r\n");
    assert_eq!(r, Reply::ModeChanged(MeterMode::Cont));
    assert_eq!(e.last_mode(), MeterMode::Cont);
    let q = texts(e.queued());
    assert_eq!(q.len(), before + 2);
    assert_eq!(
        &q[before..],
        &["SYST:BEEP:STATe ON\n".to_string(), "CONT:THREshold 50\n".to_string()]
    );
}

#[test]
fn diode_report_queues_diode_threshold() {
    let mut e = measuring_engine("OWON,XDM1041,SN1,V4.3.1\r\n");
    let before = e.queued().len();
    assert_eq!(e.receive(b"\"DIOD\"\r\n"), Reply::ModeChanged(MeterMode::Diod));
    let q = texts(e.queued());
    assert_eq!(
        &q[before..],
        &["SYST:BEEP:STATe ON\n".to_string(), "DIOD:THREshold 2\n".to_string()]
    );
}

#[test]
fn swapped_firmware_reads_continuity_as_diode() {
    let mut e = measuring_engine("OWON,XDM1041,SN123,V4.2.9\r\n");
    assert!(e.swap_diod_cont());
    assert_eq!(e.receive(b"\"CONT\"\r\n"), Reply::ModeChanged(MeterMode::Diod));
    assert_eq!(e.receive(b"\"DIOD\"\r\n"), Reply::ModeChanged(MeterMode::Cont));
}

#[test]
fn same_mode_report_is_ignored() {
    let mut e = measuring_engine("OWON,XDM1041,SN1,V4.3.1\r\n");
    let before = e.queued().len();
    assert_eq!(e.receive(b"\"VOLT\"\r\n"), Reply::Ignored);
    assert_eq!(e.queued().len(), before);
    assert_eq!(e.receive(b"\"VOLT AC\"\r\n"), Reply::ModeChanged(MeterMode::Vac));
    assert_eq!(e.queued().len(), before);
}

#[test]
fn reply_split_over_reads_waits_for_terminator() {
    let mut e = SerialEngine::new(config(true), MeterMode::Vdc);
    write_next(&mut e);
    assert_eq!(e.receive(b"OWON,XDM10"), Reply::Pending);
    assert!(e.in_flight());
    assert_eq!(e.scpi_mode(), ScpiMode::Idn);
    assert_eq!(e.receive(b"41,SN1,V4.1.0\r"), Reply::Pending);
    assert_eq!(
        e.receive(b"\n"),
        Reply::Identity(b"OWON,XDM1041,SN1,V4.1.0".to_vec())
    );
    assert!(!e.in_flight());
    assert!(e.swap_diod_cont());
}

#[test]
fn empty_read_produces_nothing() {
    let mut e = SerialEngine::new(config(true), MeterMode::Vdc);
    assert_eq!(e.receive(b""), Reply::Pending);
    assert_eq!(e.scpi_mode(), ScpiMode::Idn);
}

#[test]
fn commands_are_written_in_queue_order() {
    let mut e = measuring_engine("OWON,XDM1041,SN1,V4.3.1\r\n");
    e.receive(b"1.0\r\n");
    e.enqueue(b"CONF:RES AUTO\n");
    e.enqueue(b"RATE M\n");
    e.enqueue(b"CONF:VOLT:DC AUTO\n");
    let mut written = Vec::new();
    let mut rounds = 0;
    while let Some(c) = e.next_write() {
        // every other attempt would block first
        if rounds % 2 == 0 {
            e.write_done(WriteOutcome::WouldBlock);
            assert_eq!(e.next_write(), Some(c.clone()));
        }
        e.write_done(WriteOutcome::Written);
        written.push(String::from_utf8(c).unwrap());
        rounds += 1;
    }
    let tail: Vec<String> = written.iter().rev().take(3).rev().cloned().collect();
    assert_eq!(tail, vec!["CONF:RES AUTO\n", "RATE M\n", "CONF:VOLT:DC AUTO\n"]);
}

#[test]
fn no_write_while_reply_is_awaited() {
    let mut e = measuring_engine("OWON,XDM1041,SN1,V4.3.1\r\n");
    e.receive(b"1.0\r\n");
    e.enqueue(b"FUNC?\n");
    e.enqueue(b"SYST:BEEP:STATe OFF\n");
    assert_eq!(write_next(&mut e), "FUNC?\n");
    assert!(e.in_flight());
    assert!(e.next_write().is_none());
    let len = e.queued().len();
    e.write_done(WriteOutcome::Written);
    assert_eq!(e.queued().len(), len);
    e.receive(b"\"VOLT\"\r\n");
    assert_eq!(write_next(&mut e), "SYST:BEEP:STATe OFF\n");
    assert!(!e.in_flight());
}

#[test]
fn failed_write_drops_the_command() {
    let mut e = SerialEngine::new(config(true), MeterMode::Vdc);
    e.write_done(WriteOutcome::Failed);
    assert!(!e.in_flight());
    assert_eq!(texts(e.queued())[0], "RATE S\n");
    assert_eq!(e.queued().len(), 4);
}

#[test]
fn would_block_keeps_the_command() {
    let mut e = SerialEngine::new(config(true), MeterMode::Vdc);
    e.write_done(WriteOutcome::WouldBlock);
    assert_eq!(e.queued().len(), 5);
    assert_eq!(e.next_write(), Some(b"*IDN?\n".to_vec()));
}

#[test]
fn function_check_after_ten_measurements() {
    let mut e = measuring_engine("OWON,XDM1041,SN1,V4.3.1\r\n");
    e.receive(b"0.5\r\n");
    while e.next_write().is_some() {
        write_next(&mut e);
        e.receive(b"0.5\r\n");
    }
    assert!(e.queued().is_empty());
    for i in 0..10 {
        e.tick();
        assert_eq!(texts(e.queued()), vec!["MEAS?\n"], "round {}", i);
        assert_eq!(write_next(&mut e), "MEAS?\n");
        assert_eq!(e.receive(b"+5.000000E-01\r\n"), Reply::Value(b"+5.000000E-01".to_vec()));
        e.count_measurement();
    }
    assert_eq!(e.meas_count(), 10);
    e.tick();
    assert_eq!(texts(e.queued()), vec!["FUNC?\n"]);
    assert_eq!(e.meas_count(), 0);
    assert_eq!(write_next(&mut e), "FUNC?\n");
    e.receive(b"\"VOLT\"\r\n");
    e.tick();
    assert_eq!(texts(e.queued()), vec!["MEAS?\n"]);
}

#[test]
fn tick_does_nothing_before_identity_or_with_a_queue() {
    let mut e = SerialEngine::new(config(true), MeterMode::Vdc);
    e.tick();
    assert_eq!(e.queued().len(), 5);
    let mut e = measuring_engine("OWON,XDM1041,SN1,V4.3.1\r\n");
    e.enqueue(b"RATE M\n");
    let len = e.queued().len();
    assert_eq!(len, 1);
    e.tick();
    assert_eq!(e.queued().len(), len);
}

#[test]
fn shutdown_writes_unlock_then_reset_after_queued_commands() {
    let mut e = measuring_engine("OWON,XDM1041,SN1,V4.3.1\r\n");
    e.receive(b"1.0\r\n");
    e.enqueue(b"CONF:CAP AUTO\n");
    e.request_shutdown();
    assert_eq!(e.phase(), Phase::Draining);
    let q = texts(e.queued());
    assert_eq!(
        &q[q.len() - 3..],
        &[
            "CONF:CAP AUTO\n".to_string(),
            "SYST:LOC\n".to_string(),
            "*RST\n".to_string()
        ]
    );
    e.tick();
    assert_eq!(texts(e.queued()), q);
    let mut written = Vec::new();
    while let Some(c) = e.next_write() {
        assert!(!e.ready_to_release());
        e.write_done(WriteOutcome::Written);
        if e.in_flight() {
            e.receive(b"0\r\n");
        }
        written.push(String::from_utf8(c).unwrap());
    }
    let n = written.len();
    assert_eq!(&written[n - 3..], &["CONF:CAP AUTO\n", "SYST:LOC\n", "*RST\n"]);
    assert!(e.ready_to_release());
    assert_eq!(e.phase(), Phase::ReadyToRelease);
}

#[test]
fn second_shutdown_request_is_ignored() {
    let mut e = measuring_engine("OWON,XDM1041,SN1,V4.3.1\r\n");
    e.request_shutdown();
    let len = e.queued().len();
    e.request_shutdown();
    assert_eq!(e.queued().len(), len);
}

#[test]
fn reset_write_failure_still_releases() {
    let mut e = SerialEngine::new(config(true), MeterMode::Vdc);
    e.request_shutdown();
    for _ in 0..7 {
        e.write_done(WriteOutcome::Failed);
    }
    assert!(e.queued().is_empty());
    assert!(e.ready_to_release());
}

#[test]
fn identity_query_during_shutdown_does_not_start_polling() {
    let mut e = SerialEngine::new(config(true), MeterMode::Vdc);
    e.request_shutdown();
    assert_eq!(write_next(&mut e), "*IDN?\n");
    let q = texts(e.queued());
    assert!(!q.contains(&"MEAS?\n".to_string()));
    assert!(!q.contains(&"SYST:REM\n".to_string()));
}

#[test]
fn operator_commands_accepted_while_draining() {
    let mut e = SerialEngine::new(config(true), MeterMode::Vdc);
    e.request_shutdown();
    e.enqueue(b"RATE F\n");
    assert_eq!(texts(e.queued()).last().unwrap(), "RATE F\n");
}

use rusty_meter::multimeter::{
    command_is_query, detect_swap_diod_cont, mode_of_token, rate_command, GenScpi, MeterMode,
    RangeCmd, RateCmd,
};
use rusty_meter::operator::{conf_command, mode_switch_commands, range_name_of};
use rusty_meter::settings::GraphConfig;
use rusty_meter::text::{
    decimal_bytes, parse_u32, split_bytes, strip_leading_bytes, trim_byte_bytes, trim_end_bytes,
};

#[test]
fn firmware_4_2_9_swaps_diode_and_continuity() {
    assert!(detect_swap_diod_cont(b"OWON,XDM1041,SN123,V4.2.9"));
}

#[test]
fn firmware_4_3_0_does_not_swap() {
    assert!(!detect_swap_diod_cont(b"OWON,XDM1041,SN123,V4.3.0"));
}

#[test]
fn quirk_detection_edge_cases() {
    assert!(detect_swap_diod_cont(b"OWON,XDM1241,SN9,V3.9.9"));
    assert!(!detect_swap_diod_cont(b"OWON,XDM1041,SN9,V5.0.0"));
    assert!(!detect_swap_diod_cont(b"OWON,XDM2041,SN9,V4.1.0"));
    assert!(!detect_swap_diod_cont(b"ACME,XDM1041,SN9,V4.1.0"));
    assert!(!detect_swap_diod_cont(b"OWON,XDM1041,SN9"));
    assert!(!detect_swap_diod_cont(b"OWON,XDM1041,SN9,V4.1"));
    assert!(!detect_swap_diod_cont(b"OWON,XDM1041,SN9,Vx.1.0"));
    assert!(detect_swap_diod_cont(b"OWON,XDM1041,SN9,4.2.0"));
    assert!(!detect_swap_diod_cont(b""));
}

#[test]
fn tokens_map_to_modes() {
    let table: [(&[u8], MeterMode); 11] = [
        (b"VOLT", MeterMode::Vdc),
        (b"VOLT AC", MeterMode::Vac),
        (b"CURR", MeterMode::Adc),
        (b"CURR AC", MeterMode::Aac),
        (b"RES", MeterMode::Res),
        (b"CAP", MeterMode::Cap),
        (b"FREQ", MeterMode::Freq),
        (b"PER", MeterMode::Per),
        (b"TEMP", MeterMode::Temp),
        (b"DIOD", MeterMode::Diod),
        (b"CONT", MeterMode::Cont),
    ];
    for (t, m) in table {
        assert_eq!(mode_of_token(t, false), Some(m));
    }
    assert_eq!(mode_of_token(b"VOLT:DC", false), None);
    assert_eq!(mode_of_token(b"", false), None);
}

#[test]
fn swapped_tokens_for_diode_and_continuity() {
    assert_eq!(mode_of_token(b"CONT", true), Some(MeterMode::Diod));
    assert_eq!(mode_of_token(b"DIOD", true), Some(MeterMode::Cont));
    assert_eq!(mode_of_token(b"VOLT", true), Some(MeterMode::Vdc));
}

#[test]
fn query_detection() {
    assert!(command_is_query(b"MEAS?\n"));
    assert!(command_is_query(b"*IDN?\n"));
    assert!(!command_is_query(b"*RST\n"));
    assert!(!command_is_query(b"MEAS?"));
    assert!(!command_is_query(b"?"));
}

#[test]
fn unsigned_numbers() {
    assert_eq!(parse_u32(b"4"), Some(4));
    assert_eq!(parse_u32(b"+17"), Some(17));
    assert_eq!(parse_u32(b"007"), Some(7));
    assert_eq!(parse_u32(b"4294967295"), Some(u32::MAX));
    assert_eq!(parse_u32(b"4294967296"), None);
    assert_eq!(parse_u32(b"99999999999"), None);
    assert_eq!(parse_u32(b""), None);
    assert_eq!(parse_u32(b"+"), None);
    assert_eq!(parse_u32(b"-1"), None);
    assert_eq!(parse_u32(b"1a"), None);
}

#[test]
fn decimal_digits() {
    assert_eq!(decimal_bytes(0), b"0".to_vec());
    assert_eq!(decimal_bytes(50), b"50".to_vec());
    assert_eq!(decimal_bytes(u32::MAX), b"4294967295".to_vec());
}

#[test]
fn trimming_and_splitting() {
    assert_eq!(trim_end_bytes(b"abc \t\r\n"), b"abc".to_vec());
    assert_eq!(trim_end_bytes(b"  "), Vec::<u8>::new());
    assert_eq!(trim_byte_bytes(b"\"\"CONT\"", b'"'), b"CONT".to_vec());
    assert_eq!(trim_byte_bytes(b"\"\"", b'"'), Vec::<u8>::new());
    assert_eq!(strip_leading_bytes(b"VV4.2", b'V'), b"4.2".to_vec());
    assert_eq!(
        split_bytes(b"a,,b", b','),
        vec![b"a".to_vec(), Vec::new(), b"b".to_vec()]
    );
    assert_eq!(split_bytes(b"", b','), vec![Vec::<u8>::new()]);
}

#[test]
fn rate_table() {
    let r = RateCmd::default();
    assert_eq!(r.len(), 3);
    assert_eq!(r.get_opt(0), ("Slow", "S"));
    assert_eq!(r.get_opt(2), ("Fast", "F"));
    assert_eq!(r.gen_scpi("Medium"), "RATE M\n");
    assert_eq!(rate_command(1), b"RATE M\n".to_vec());
}

#[test]
fn range_tables() {
    let r = RangeCmd::default();
    assert_eq!(r.len(), 7);
    assert_eq!(r.gen_scpi("5V"), "CONF:VOLT:DC 5\n");
    let r = RangeCmd::new("OWON XDM1041", "CAP").unwrap();
    assert_eq!(r.len(), 8);
    assert_eq!(r.get_opt(7), ("50mF", "50E-3"));
    assert_eq!(r.gen_scpi("auto"), "CONF:CAP AUTO\n");
    let r = RangeCmd::new("OWON XDM1041", "TEMP").unwrap();
    assert_eq!(r.gen_scpi("K-type (KITS90)"), "CONF:TEMP:RTD KITS90\n");
    let r = RangeCmd::new("OWON XDM1041", "VAC").unwrap();
    assert_eq!(r.get_opt(5), ("750V", "750"));
    assert!(RangeCmd::new("OWON XDM1041", "FREQ").is_none());
    assert!(RangeCmd::new("OWON XDM1041", "DIOD").is_none());
    assert!(RangeCmd::new("OTHER", "VDC").is_none());
}

#[test]
fn mode_switch_sends_configuration() {
    let c = mode_switch_commands(MeterMode::Vdc, true, 50, b"2");
    assert_eq!(c, vec![b"CONF:VOLT:DC AUTO\n".to_vec()]);
    let c = mode_switch_commands(MeterMode::Cont, false, 30, b"2");
    assert_eq!(
        c,
        vec![
            b"CONF:CONT\n".to_vec(),
            b"SYST:BEEP:STATe OFF\n".to_vec(),
            b"CONT:THREshold 30\n".to_vec()
        ]
    );
    let c = mode_switch_commands(MeterMode::Diod, true, 30, b"1.5");
    assert_eq!(
        c,
        vec![
            b"CONF:DIOD\n".to_vec(),
            b"SYST:BEEP:STATe ON\n".to_vec(),
            b"DIOD:THREshold 1.5\n".to_vec()
        ]
    );
    assert_eq!(conf_command(MeterMode::Temp), b"CONF:TEMP:RTD PT100\n".to_vec());
    assert_eq!(range_name_of(MeterMode::Res), "RES");
}

#[test]
fn graph_config_default() {
    let g = GraphConfig::default();
    assert_eq!(g.num_bins, 0);
    assert_eq!(g.max_bins, 100);
}

use vstd::prelude::*;

use crate::multimeter::{
    beeper_cmd, beeper_command, cont_threshold_cmd, cont_threshold_command, diod_threshold_cmd,
    diod_threshold_command, MeterMode,
};
use crate::text::{ascii, ascii_bytes, views};

verus! {

/// The command that switches the instrument to `mode`, with automatic ranging
/// where the function has ranges.
pub open spec fn conf_cmd(mode: MeterMode) -> Seq<u8> {
    match mode {
        MeterMode::Vdc => ascii("CONF:VOLT:DC AUTO\n"@),
        MeterMode::Vac => ascii("CONF:VOLT:AC AUTO\n"@),
        MeterMode::Adc => ascii("CONF:CURR:DC AUTO\n"@),
        MeterMode::Aac => ascii("CONF:CURR:AC AUTO\n"@),
        MeterMode::Res => ascii("CONF:RES AUTO\n"@),
        MeterMode::Cap => ascii("CONF:CAP AUTO\n"@),
        MeterMode::Freq => ascii("CONF:FREQ\n"@),
        MeterMode::Per => ascii("CONF:PER\n"@),
        MeterMode::Diod => ascii("CONF:DIOD\n"@),
        MeterMode::Cont => ascii("CONF:CONT\n"@),
        MeterMode::Temp => ascii("CONF:TEMP:RTD PT100\n"@),
    }
}

pub fn conf_command(mode: MeterMode) -> (r: Vec<u8>)
    ensures
        r@ == conf_cmd(mode),
{
    match mode {
        MeterMode::Vdc => {
            proof {
                reveal_strlit("CONF:VOLT:DC AUTO\n");
            }
            ascii_bytes("CONF:VOLT:DC AUTO\n")
        },
        MeterMode::Vac => {
            proof {
                reveal_strlit("CONF:VOLT:AC AUTO\n");
            }
            ascii_bytes("CONF:VOLT:AC AUTO\n")
        },
        MeterMode::Adc => {
            proof {
                reveal_strlit("CONF:CURR:DC AUTO\n");
            }
            ascii_bytes("CONF:CURR:DC AUTO\n")
        },
        MeterMode::Aac => {
            proof {
                reveal_strlit("CONF:CURR:AC AUTO\n");
            }
            ascii_bytes("CONF:CURR:AC AUTO\n")
        },
        MeterMode::Res => {
            proof {
                reveal_strlit("CONF:RES AUTO\n");
            }
            ascii_bytes("CONF:RES AUTO\n")
        },
        MeterMode::Cap => {
            proof {
                reveal_strlit("CONF:CAP AUTO\n");
            }
            ascii_bytes("CONF:CAP AUTO\n")
        },
        MeterMode::Freq => {
            proof {
                reveal_strlit("CONF:FREQ\n");
            }
            ascii_bytes("CONF:FREQ\n")
        },
        MeterMode::Per => {
            proof {
                reveal_strlit("CONF:PER\n");
            }
            ascii_bytes("CONF:PER\n")
        },
        MeterMode::Diod => {
            proof {
                reveal_strlit("CONF:DIOD\n");
            }
            ascii_bytes("CONF:DIOD\n")
        },
        MeterMode::Cont => {
            proof {
                reveal_strlit("CONF:CONT\n");
            }
            ascii_bytes("CONF:CONT\n")
        },
        MeterMode::Temp => {
            proof {
                reveal_strlit("CONF:TEMP:RTD PT100\n");
            }
            ascii_bytes("CONF:TEMP:RTD PT100\n")
        },
    }
}

/// The name under which `mode`'s range table is looked up.
pub open spec fn range_name(mode: MeterMode) -> Seq<char> {
    match mode {
        MeterMode::Vdc => "VDC"@,
        MeterMode::Vac => "VAC"@,
        MeterMode::Adc => "ADC"@,
        MeterMode::Aac => "AAC"@,
        MeterMode::Res => "RES"@,
        MeterMode::Cap => "CAP"@,
        MeterMode::Freq => "FREQ"@,
        MeterMode::Per => "PER"@,
        MeterMode::Diod => "DIOD"@,
        MeterMode::Cont => "CONT"@,
        MeterMode::Temp => "TEMP"@,
    }
}

pub fn range_name_of(mode: MeterMode) -> (r: &'static str)
    ensures
        r@ == range_name(mode),
{
    match mode {
        MeterMode::Vdc => "VDC",
        MeterMode::Vac => "VAC",
        MeterMode::Adc => "ADC",
        MeterMode::Aac => "AAC",
        MeterMode::Res => "RES",
        MeterMode::Cap => "CAP",
        MeterMode::Freq => "FREQ",
        MeterMode::Per => "PER",
        MeterMode::Diod => "DIOD",
        MeterMode::Cont => "CONT",
        MeterMode::Temp => "TEMP",
    }
}

/// The commands that the operator's choice of `mode` sends, in order: the
/// configure command, and for diode and continuity the beeper state and the
/// function's threshold.
pub open spec fn mode_switch_cmds(
    mode: MeterMode,
    beeper_enabled: bool,
    cont_threshold: u32,
    diod_threshold: Seq<u8>,
) -> Seq<Seq<u8>> {
    if mode == MeterMode::Diod {
        seq![conf_cmd(mode), beeper_cmd(beeper_enabled), diod_threshold_cmd(diod_threshold)]
    } else if mode == MeterMode::Cont {
        seq![conf_cmd(mode), beeper_cmd(beeper_enabled), cont_threshold_cmd(cont_threshold)]
    } else {
        seq![conf_cmd(mode)]
    }
}

pub fn mode_switch_commands(
    mode: MeterMode,
    beeper_enabled: bool,
    cont_threshold: u32,
    diod_threshold: &[u8],
) -> (r: Vec<Vec<u8>>)
    ensures
        views(r@) == mode_switch_cmds(mode, beeper_enabled, cont_threshold, diod_threshold@),
{
    let mut r: Vec<Vec<u8>> = Vec::new();
    r.push(conf_command(mode));
    if mode == MeterMode::Diod {
        r.push(beeper_command(beeper_enabled));
        r.push(diod_threshold_command(diod_threshold));
    } else if mode == MeterMode::Cont {
        r.push(beeper_command(beeper_enabled));
        r.push(cont_threshold_command(cont_threshold));
    }
    assert(views(r@) =~= mode_switch_cmds(mode, beeper_enabled, cont_threshold, diod_threshold@));
    r
}

} // verus!

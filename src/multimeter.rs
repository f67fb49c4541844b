use vstd::prelude::*;

use crate::text::{
    ascii, ascii_bytes, bytes_eq_str, decimal, decimal_bytes, extend_bytes, parse_u32,
    parse_u32_spec, split_bytes, split_on, strip_leading, strip_leading_bytes, COMMA, DOT, LF,
    QUESTION, UPPER_V, str_eq,
};

verus! {

/// How the next received line is to be read: as the identity reply, or as a
/// measurement or function reply.
#[derive(PartialEq, Eq, Structural, Clone, Copy, Debug)]
pub enum ScpiMode {
    Idn,
    Meas,
}

/// The measurement function the instrument is configured for.
#[derive(PartialEq, Eq, Structural, Clone, Copy, Debug)]
pub enum MeterMode {
    Vdc,
    Vac,
    Adc,
    Aac,
    Res,
    Cap,
    Freq,
    Per,
    Diod,
    Cont,
    Temp,
}

/// Whether a command, terminator included, asks the instrument for a reply:
/// its text ends in `?` before the line feed.
pub open spec fn is_query(cmd: Seq<u8>) -> bool {
    cmd.len() >= 2 && cmd[cmd.len() - 1] == LF && cmd[cmd.len() - 2] == QUESTION
}

pub fn command_is_query(cmd: &[u8]) -> (r: bool)
    ensures
        r == is_query(cmd@),
{
    let n = cmd.len();
    n >= 2 && cmd[n - 1] == LF && cmd[n - 2] == QUESTION
}

pub open spec fn idn_cmd() -> Seq<u8> {
    ascii("*IDN?\n"@)
}

pub open spec fn remote_cmd() -> Seq<u8> {
    ascii("SYST:REM\n"@)
}

pub open spec fn local_cmd() -> Seq<u8> {
    ascii("SYST:LOC\n"@)
}

pub open spec fn reset_cmd() -> Seq<u8> {
    ascii("*RST\n"@)
}

pub open spec fn meas_cmd() -> Seq<u8> {
    ascii("MEAS?\n"@)
}

pub open spec fn func_cmd() -> Seq<u8> {
    ascii("FUNC?\n"@)
}

/// `SYST:BEEP:STATe ON` or `OFF`.
pub open spec fn beeper_cmd(on: bool) -> Seq<u8> {
    if on {
        ascii("SYST:BEEP:STATe ON\n"@)
    } else {
        ascii("SYST:BEEP:STATe OFF\n"@)
    }
}

/// `CONT:THREshold <ohms>`.
pub open spec fn cont_threshold_cmd(ohms: u32) -> Seq<u8> {
    ascii("CONT:THREshold "@) + decimal(ohms as nat) + seq![LF]
}

/// `DIOD:THREshold <volts>`, the volts given as the decimal text to send.
pub open spec fn diod_threshold_cmd(volts: Seq<u8>) -> Seq<u8> {
    ascii("DIOD:THREshold "@) + volts + seq![LF]
}

pub fn idn_command() -> (r: Vec<u8>)
    ensures
        r@ == idn_cmd(),
{
    proof {
        reveal_strlit("*IDN?\n");
    }
    ascii_bytes("*IDN?\n")
}

pub fn remote_command() -> (r: Vec<u8>)
    ensures
        r@ == remote_cmd(),
{
    proof {
        reveal_strlit("SYST:REM\n");
    }
    ascii_bytes("SYST:REM\n")
}

pub fn local_command() -> (r: Vec<u8>)
    ensures
        r@ == local_cmd(),
{
    proof {
        reveal_strlit("SYST:LOC\n");
    }
    ascii_bytes("SYST:LOC\n")
}

pub fn reset_command() -> (r: Vec<u8>)
    ensures
        r@ == reset_cmd(),
{
    proof {
        reveal_strlit("*RST\n");
    }
    ascii_bytes("*RST\n")
}

pub fn meas_command() -> (r: Vec<u8>)
    ensures
        r@ == meas_cmd(),
{
    proof {
        reveal_strlit("MEAS?\n");
    }
    ascii_bytes("MEAS?\n")
}

pub fn func_command() -> (r: Vec<u8>)
    ensures
        r@ == func_cmd(),
{
    proof {
        reveal_strlit("FUNC?\n");
    }
    ascii_bytes("FUNC?\n")
}

pub fn beeper_command(on: bool) -> (r: Vec<u8>)
    ensures
        r@ == beeper_cmd(on),
{
    if on {
        proof {
            reveal_strlit("SYST:BEEP:STATe ON\n");
        }
        ascii_bytes("SYST:BEEP:STATe ON\n")
    } else {
        proof {
            reveal_strlit("SYST:BEEP:STATe OFF\n");
        }
        ascii_bytes("SYST:BEEP:STATe OFF\n")
    }
}

pub fn cont_threshold_command(ohms: u32) -> (r: Vec<u8>)
    ensures
        r@ == cont_threshold_cmd(ohms),
{
    proof {
        reveal_strlit("CONT:THREshold ");
    }
    let mut r = ascii_bytes("CONT:THREshold ");
    let d = decimal_bytes(ohms);
    extend_bytes(&mut r, d.as_slice());
    r.push(LF);
    r
}

pub fn diod_threshold_command(volts: &[u8]) -> (r: Vec<u8>)
    ensures
        r@ == diod_threshold_cmd(volts@),
{
    proof {
        reveal_strlit("DIOD:THREshold ");
    }
    let mut r = ascii_bytes("DIOD:THREshold ");
    extend_bytes(&mut r, volts);
    r.push(LF);
    r
}

/// The function a `FUNC?` reply names, by the instrument's documented table.
pub open spec fn canonical_mode(t: Seq<u8>) -> Option<MeterMode> {
    if t == ascii("VOLT"@) {
        Some(MeterMode::Vdc)
    } else if t == ascii("VOLT AC"@) {
        Some(MeterMode::Vac)
    } else if t == ascii("CURR"@) {
        Some(MeterMode::Adc)
    } else if t == ascii("CURR AC"@) {
        Some(MeterMode::Aac)
    } else if t == ascii("RES"@) {
        Some(MeterMode::Res)
    } else if t == ascii("CAP"@) {
        Some(MeterMode::Cap)
    } else if t == ascii("FREQ"@) {
        Some(MeterMode::Freq)
    } else if t == ascii("PER"@) {
        Some(MeterMode::Per)
    } else if t == ascii("TEMP"@) {
        Some(MeterMode::Temp)
    } else if t == ascii("DIOD"@) {
        Some(MeterMode::Diod)
    } else if t == ascii("CONT"@) {
        Some(MeterMode::Cont)
    } else {
        None
    }
}

/// A reported mode as read on firmware that reports diode and continuity reversed.
pub open spec fn quirk_mode(m: MeterMode, swap_diod_cont: bool) -> MeterMode {
    if swap_diod_cont && m == MeterMode::Diod {
        MeterMode::Cont
    } else if swap_diod_cont && m == MeterMode::Cont {
        MeterMode::Diod
    } else {
        m
    }
}

/// The mode that a function token stands for in a session.
pub open spec fn token_mode(t: Seq<u8>, swap_diod_cont: bool) -> Option<MeterMode> {
    match canonical_mode(t) {
        Some(m) => Some(quirk_mode(m, swap_diod_cont)),
        None => None,
    }
}

/// Reads a function token; `None` where it names no known function.
pub fn mode_of_token(t: &[u8], swap_diod_cont: bool) -> (r: Option<MeterMode>)
    ensures
        r == token_mode(t@, swap_diod_cont),
{
    proof {
        reveal_strlit("VOLT");
        reveal_strlit("VOLT AC");
        reveal_strlit("CURR");
        reveal_strlit("CURR AC");
        reveal_strlit("RES");
        reveal_strlit("CAP");
        reveal_strlit("FREQ");
        reveal_strlit("PER");
        reveal_strlit("TEMP");
        reveal_strlit("DIOD");
        reveal_strlit("CONT");
    }
    let m = if bytes_eq_str(t, "VOLT") {
        MeterMode::Vdc
    } else if bytes_eq_str(t, "VOLT AC") {
        MeterMode::Vac
    } else if bytes_eq_str(t, "CURR") {
        MeterMode::Adc
    } else if bytes_eq_str(t, "CURR AC") {
        MeterMode::Aac
    } else if bytes_eq_str(t, "RES") {
        MeterMode::Res
    } else if bytes_eq_str(t, "CAP") {
        MeterMode::Cap
    } else if bytes_eq_str(t, "FREQ") {
        MeterMode::Freq
    } else if bytes_eq_str(t, "PER") {
        MeterMode::Per
    } else if bytes_eq_str(t, "TEMP") {
        MeterMode::Temp
    } else if bytes_eq_str(t, "DIOD") {
        MeterMode::Diod
    } else if bytes_eq_str(t, "CONT") {
        MeterMode::Cont
    } else {
        return None;
    };
    if swap_diod_cont && m == MeterMode::Diod {
        Some(MeterMode::Cont)
    } else if swap_diod_cont && m == MeterMode::Cont {
        Some(MeterMode::Diod)
    } else {
        Some(m)
    }
}

/// Whether an identity names a model whose firmware may report diode and
/// continuity reversed.
pub open spec fn affected_model(fields: Seq<Seq<u8>>) -> bool {
    &&& fields.len() >= 4
    &&& fields[0] == ascii("OWON"@)
    &&& (fields[1] == ascii("XDM1041"@) || fields[1] == ascii("XDM1241"@))
}

/// Whether a firmware version, `V` prefix included, is older than 4.3.
pub open spec fn firmware_before_4_3(version: Seq<u8>) -> bool {
    let v = split_on(strip_leading(version, UPPER_V), DOT);
    &&& v.len() >= 3
    &&& parse_u32_spec(v[0]) is Some
    &&& parse_u32_spec(v[1]) is Some
    &&& {
        let major = parse_u32_spec(v[0])->Some_0;
        let minor = parse_u32_spec(v[1])->Some_0;
        major < 4 || (major == 4 && minor < 3)
    }
}

/// Whether a session with the instrument of this identity reads the diode and
/// continuity tokens reversed. The identity is manufacturer, model, serial and
/// firmware version, separated by commas.
pub open spec fn swaps_diod_cont(identity: Seq<u8>) -> bool {
    let fields = split_on(identity, COMMA);
    affected_model(fields) && firmware_before_4_3(fields[3])
}

pub fn detect_swap_diod_cont(identity: &[u8]) -> (r: bool)
    ensures
        r == swaps_diod_cont(identity@),
{
    proof {
        reveal_strlit("OWON");
        reveal_strlit("XDM1041");
        reveal_strlit("XDM1241");
    }
    let fields = split_bytes(identity, COMMA);
    assert(fields@.len() == split_on(identity@, COMMA).len());
    if fields.len() < 4 {
        return false;
    }
    assert(fields@[0]@ == split_on(identity@, COMMA)[0]);
    assert(fields@[1]@ == split_on(identity@, COMMA)[1]);
    assert(fields@[3]@ == split_on(identity@, COMMA)[3]);
    if !bytes_eq_str(fields[0].as_slice(), "OWON") {
        return false;
    }
    if !bytes_eq_str(fields[1].as_slice(), "XDM1041") && !bytes_eq_str(
        fields[1].as_slice(),
        "XDM1241",
    ) {
        return false;
    }
    let version = strip_leading_bytes(fields[3].as_slice(), UPPER_V);
    let parts = split_bytes(version.as_slice(), DOT);
    assert(parts@.len() == split_on(version@, DOT).len());
    if parts.len() < 3 {
        return false;
    }
    assert(parts@[0]@ == split_on(version@, DOT)[0]);
    assert(parts@[1]@ == split_on(version@, DOT)[1]);
    let major = parse_u32(parts[0].as_slice());
    let minor = parse_u32(parts[1].as_slice());
    match (major, minor) {
        (Some(major), Some(minor)) => major < 4 || (major == 4 && minor < 3),
        _ => false,
    }
}

} // verus!

verus! {

/// The labels and values of an option table, as character sequences.
pub open spec fn option_views(opts: Seq<(&'static str, &'static str)>) -> Seq<(Seq<char>, Seq<char>)> {
    opts.map_values(|p: (&'static str, &'static str)| (p.0@, p.1@))
}

/// The value that a label selects: that of the first entry with the label.
pub open spec fn lookup(opts: Seq<(Seq<char>, Seq<char>)>, label: Seq<char>) -> Option<Seq<char>>
    decreases opts.len(),
{
    if opts.len() == 0 {
        None
    } else if opts[0].0 == label {
        Some(opts[0].1)
    } else {
        lookup(opts.drop_first(), label)
    }
}

/// A command with a table of options. `gen_scpi` gives the complete command,
/// line feed included, that selecting an option sends.
pub trait GenScpi {
    /// The command that selecting `opt_name` sends; `None` where there is no
    /// such option.
    spec fn scpi_for(&self, opt_name: Seq<char>) -> Option<Seq<char>>;

    fn gen_scpi(&self, opt_name: &str) -> (r: String)
        requires
            self.scpi_for(opt_name@) is Some,
        ensures
            r@ == self.scpi_for(opt_name@)->Some_0,
    ;
}

/// Finds the value of the first entry labelled `label`.
fn find_option(opts: &Vec<(&'static str, &'static str)>, label: &str) -> (r: Option<&'static str>)
    ensures
        r matches Some(v) ==> lookup(option_views(opts@), label@) == Some(v@),
        r is None ==> lookup(option_views(opts@), label@) is None,
{
    let mut i: usize = 0;
    assert(option_views(opts@).skip(0) =~= option_views(opts@));
    while i < opts.len()
        invariant
            i <= opts@.len(),
            lookup(option_views(opts@).skip(i as int), label@) == lookup(option_views(opts@), label@),
        decreases opts@.len() - i,
    {
        let ghost rest = option_views(opts@).skip(i as int);
        assert(rest.drop_first() =~= option_views(opts@).skip(i + 1));
        let (k, v) = opts[i];
        if str_eq(k, label) {
            return Some(v);
        }
        i = i + 1;
    }
    assert(option_views(opts@).skip(i as int).len() == 0);
    None
}

/// Builds `prefix`, `value` and a line feed into one command.
fn join_command(prefix: &str, value: &str) -> (r: String)
    ensures
        r@ == prefix@ + value@ + "\n"@,
{
    let mut r = String::from_str(prefix);
    r.append(value);
    r.append("\n");
    r
}

/// The sampling rate command, `RATE <S|M|F>`.
pub struct RateCmd {
    scpi: &'static str,
    opts: Vec<(&'static str, &'static str)>,
}

/// The sampling rates: label and value.
pub open spec fn rate_options() -> Seq<(Seq<char>, Seq<char>)> {
    seq![("Slow"@, "S"@), ("Medium"@, "M"@), ("Fast"@, "F"@)]
}

impl RateCmd {
    /// The text that comes before the option's value.
    pub closed spec fn prefix(&self) -> Seq<char> {
        self.scpi@
    }

    /// Each option's label and value, in the order they are offered.
    pub closed spec fn options(&self) -> Seq<(Seq<char>, Seq<char>)> {
        option_views(self.opts@)
    }

    pub fn get_opt(&self, index: usize) -> (r: (&'static str, &'static str))
        requires
            index < self.options().len(),
        ensures
            (r.0@, r.1@) == self.options()[index as int],
    {
        self.opts[index]
    }

    pub fn len(&self) -> (r: usize)
        ensures
            r == self.options().len(),
    {
        self.opts.len()
    }
}

impl Default for RateCmd {
    fn default() -> (r: Self)
        ensures
            r.prefix() == "RATE "@,
            r.options() == rate_options(),
    {
        let mut opts: Vec<(&'static str, &'static str)> = Vec::new();
        opts.push(("Slow", "S"));
        opts.push(("Medium", "M"));
        opts.push(("Fast", "F"));
        let r = RateCmd { scpi: "RATE ", opts };
        assert(r.options() =~= rate_options());
        r
    }
}

impl GenScpi for RateCmd {
    open spec fn scpi_for(&self, opt_name: Seq<char>) -> Option<Seq<char>> {
        match lookup(self.options(), opt_name) {
            Some(v) => Some(self.prefix() + v + "\n"@),
            None => None,
        }
    }

    fn gen_scpi(&self, opt_name: &str) -> (r: String) {
        let v = find_option(&self.opts, opt_name);
        match v {
            Some(v) => join_command(self.scpi, v),
            None => {
                assert(false);
                String::new()
            },
        }
    }
}

/// `RATE <value>` for the sampling rate at `index` in the rate table.
pub open spec fn rate_cmd(index: int) -> Seq<u8> {
    ascii("RATE "@ + rate_options()[index].1 + "\n"@)
}

pub fn rate_command(index: usize) -> (r: Vec<u8>)
    requires
        index < rate_options().len(),
    ensures
        r@ == rate_cmd(index as int),
{
    let table = RateCmd::default();
    let (_, code) = table.get_opt(index);
    proof {
        reveal_strlit("RATE ");
        reveal_strlit("S");
        reveal_strlit("M");
        reveal_strlit("F");
        reveal_strlit("\n");
        assert(table.options()[index as int].1 == code@);
    }
    let mut r = ascii_bytes("RATE ");
    let c = ascii_bytes(code);
    extend_bytes(&mut r, c.as_slice());
    r.push(LF);
    assert(r@ =~= rate_cmd(index as int));
    r
}

} // verus!

verus! {

/// The range command of one measurement function, `CONF:<function> <range>`.
pub struct RangeCmd {
    scpi: &'static str,
    opts: Vec<(&'static str, &'static str)>,
}
/// The VDC ranges of the OWON XDM1041: label and value.
pub open spec fn vdc_ranges() -> Seq<(Seq<char>, Seq<char>)> {
    seq![("auto"@, "AUTO"@), ("50mV"@, "50E-3"@), ("500mV"@, "500E-3"@), ("5V"@, "5"@), ("50V"@, "50"@), ("500V"@, "500"@), ("1000V"@, "1000"@)]
}
/// The VAC ranges of the OWON XDM1041: label and value.
pub open spec fn vac_ranges() -> Seq<(Seq<char>, Seq<char>)> {
    seq![("auto"@, "AUTO"@), ("500mV"@, "500E-3"@), ("5V"@, "5"@), ("50V"@, "50"@), ("500V"@, "500"@), ("750V"@, "750"@)]
}
/// The ADC ranges of the OWON XDM1041: label and value.
pub open spec fn adc_ranges() -> Seq<(Seq<char>, Seq<char>)> {
    seq![("auto"@, "AUTO"@), ("500uA"@, "500E-6"@), ("5mA"@, "5E-3"@), ("50mA"@, "50E-3"@), ("500mA"@, "500E-3"@), ("5A"@, "5"@), ("10A"@, "10"@)]
}
/// The AAC ranges of the OWON XDM1041: label and value.
pub open spec fn aac_ranges() -> Seq<(Seq<char>, Seq<char>)> {
    seq![("auto"@, "AUTO"@), ("500uA"@, "500E-6"@), ("5mA"@, "5E-3"@), ("50mA"@, "50E-3"@), ("500mA"@, "500E-3"@), ("5A"@, "5"@), ("10A"@, "10"@)]
}
/// The RES ranges of the OWON XDM1041: label and value.
pub open spec fn res_ranges() -> Seq<(Seq<char>, Seq<char>)> {
    seq![("auto"@, "AUTO"@), ("500Ohm"@, "500"@), ("5kOhm"@, "5E3"@), ("50kOhm"@, "50E3"@), ("500kOhm"@, "500E3"@), ("5MOhm"@, "5E6"@), ("50MOhm"@, "50E6"@)]
}
/// The CAP ranges of the OWON XDM1041: label and value.
pub open spec fn cap_ranges() -> Seq<(Seq<char>, Seq<char>)> {
    seq![("auto"@, "AUTO"@), ("50nF"@, "50E-9"@), ("500nF"@, "500E-9"@), ("5uF"@, "5E-6"@), ("50uF"@, "50E-6"@), ("500uF"@, "500E-6"@), ("5mF"@, "5E-3"@), ("50mF"@, "50E-3"@)]
}
/// The TEMP ranges of the OWON XDM1041: label and value.
pub open spec fn temp_ranges() -> Seq<(Seq<char>, Seq<char>)> {
    seq![("PT100"@, "PT100"@), ("K-type (KITS90)"@, "KITS90"@)]
}
/// The range command that a meter model and function name select: its prefix
/// and its options.
pub open spec fn range_table(meter: Seq<char>, mode: Seq<char>) -> Option<(Seq<char>, Seq<(Seq<char>, Seq<char>)>)> {
    if meter != "OWON XDM1041"@ {
        None
    } else if mode == "VDC"@ {
        Some(("CONF:VOLT:DC "@, vdc_ranges()))
    } else if mode == "VAC"@ {
        Some(("CONF:VOLT:AC "@, vac_ranges()))
    } else if mode == "ADC"@ {
        Some(("CONF:CURR:DC "@, adc_ranges()))
    } else if mode == "AAC"@ {
        Some(("CONF:CURR:AC "@, aac_ranges()))
    } else if mode == "RES"@ {
        Some(("CONF:RES "@, res_ranges()))
    } else if mode == "CAP"@ {
        Some(("CONF:CAP "@, cap_ranges()))
    } else if mode == "TEMP"@ {
        Some(("CONF:TEMP:RTD "@, temp_ranges()))
    } else {
        None
    }
}

impl RangeCmd {
    /// The text that comes before the option's value.
    pub closed spec fn prefix(&self) -> Seq<char> {
        self.scpi@
    }

    /// Each option's label and value, in the order they are offered.
    pub closed spec fn options(&self) -> Seq<(Seq<char>, Seq<char>)> {
        option_views(self.opts@)
    }

    /// The range command of a meter model's function; `None` where the model
    /// or the function has no range table.
    pub fn new(meter: &str, mode: &str) -> (r: Option<Self>)
        ensures
            r matches Some(c) ==> range_table(meter@, mode@) == Some((c.prefix(), c.options())),
            r is None ==> range_table(meter@, mode@) is None,
    {
        if !str_eq(meter, "OWON XDM1041") {
            return None;
        }
        if str_eq(mode, "VDC") {
            Some(Self::default())
        } else if str_eq(mode, "VAC") {
            Some(Self::owon_xdm1041_vac())
        } else if str_eq(mode, "ADC") {
            Some(Self::owon_xdm1041_adc())
        } else if str_eq(mode, "AAC") {
            Some(Self::owon_xdm1041_aac())
        } else if str_eq(mode, "RES") {
            Some(Self::owon_xdm1041_res())
        } else if str_eq(mode, "CAP") {
            Some(Self::owon_xdm1041_cap())
        } else if str_eq(mode, "TEMP") {
            Some(Self::owon_xdm1041_temp())
        } else {
            None
        }
    }

    pub fn get_opt(&self, index: usize) -> (r: (&'static str, &'static str))
        requires
            index < self.options().len(),
        ensures
            (r.0@, r.1@) == self.options()[index as int],
    {
        self.opts[index]
    }

    pub fn len(&self) -> (r: usize)
        ensures
            r == self.options().len(),
    {
        self.opts.len()
    }

    fn owon_xdm1041_vac() -> (r: Self)
        ensures
            r.prefix() == "CONF:VOLT:AC "@,
            r.options() == vac_ranges(),
    {
        let mut opts: Vec<(&'static str, &'static str)> = Vec::new();
        opts.push(("auto", "AUTO"));
        opts.push(("500mV", "500E-3"));
        opts.push(("5V", "5"));
        opts.push(("50V", "50"));
        opts.push(("500V", "500"));
        opts.push(("750V", "750"));
        let r = RangeCmd { scpi: "CONF:VOLT:AC ", opts };
        assert(r.options() =~= vac_ranges());
        r
    }

    fn owon_xdm1041_adc() -> (r: Self)
        ensures
            r.prefix() == "CONF:CURR:DC "@,
            r.options() == adc_ranges(),
    {
        let mut opts: Vec<(&'static str, &'static str)> = Vec::new();
        opts.push(("auto", "AUTO"));
        opts.push(("500uA", "500E-6"));
        opts.push(("5mA", "5E-3"));
        opts.push(("50mA", "50E-3"));
        opts.push(("500mA", "500E-3"));
        opts.push(("5A", "5"));
        opts.push(("10A", "10"));
        let r = RangeCmd { scpi: "CONF:CURR:DC ", opts };
        assert(r.options() =~= adc_ranges());
        r
    }

    fn owon_xdm1041_aac() -> (r: Self)
        ensures
            r.prefix() == "CONF:CURR:AC "@,
            r.options() == aac_ranges(),
    {
        let mut opts: Vec<(&'static str, &'static str)> = Vec::new();
        opts.push(("auto", "AUTO"));
        opts.push(("500uA", "500E-6"));
        opts.push(("5mA", "5E-3"));
        opts.push(("50mA", "50E-3"));
        opts.push(("500mA", "500E-3"));
        opts.push(("5A", "5"));
        opts.push(("10A", "10"));
        let r = RangeCmd { scpi: "CONF:CURR:AC ", opts };
        assert(r.options() =~= aac_ranges());
        r
    }

    fn owon_xdm1041_res() -> (r: Self)
        ensures
            r.prefix() == "CONF:RES "@,
            r.options() == res_ranges(),
    {
        let mut opts: Vec<(&'static str, &'static str)> = Vec::new();
        opts.push(("auto", "AUTO"));
        opts.push(("500Ohm", "500"));
        opts.push(("5kOhm", "5E3"));
        opts.push(("50kOhm", "50E3"));
        opts.push(("500kOhm", "500E3"));
        opts.push(("5MOhm", "5E6"));
        opts.push(("50MOhm", "50E6"));
        let r = RangeCmd { scpi: "CONF:RES ", opts };
        assert(r.options() =~= res_ranges());
        r
    }

    fn owon_xdm1041_cap() -> (r: Self)
        ensures
            r.prefix() == "CONF:CAP "@,
            r.options() == cap_ranges(),
    {
        let mut opts: Vec<(&'static str, &'static str)> = Vec::new();
        opts.push(("auto", "AUTO"));
        opts.push(("50nF", "50E-9"));
        opts.push(("500nF", "500E-9"));
        opts.push(("5uF", "5E-6"));
        opts.push(("50uF", "50E-6"));
        opts.push(("500uF", "500E-6"));
        opts.push(("5mF", "5E-3"));
        opts.push(("50mF", "50E-3"));
        let r = RangeCmd { scpi: "CONF:CAP ", opts };
        assert(r.options() =~= cap_ranges());
        r
    }

    fn owon_xdm1041_temp() -> (r: Self)
        ensures
            r.prefix() == "CONF:TEMP:RTD "@,
            r.options() == temp_ranges(),
    {
        let mut opts: Vec<(&'static str, &'static str)> = Vec::new();
        opts.push(("PT100", "PT100"));
        opts.push(("K-type (KITS90)", "KITS90"));
        let r = RangeCmd { scpi: "CONF:TEMP:RTD ", opts };
        assert(r.options() =~= temp_ranges());
        r
    }
}

impl Default for RangeCmd {
    /// The DC voltage ranges.
    fn default() -> (r: Self)
        ensures
            r.prefix() == "CONF:VOLT:DC "@,
            r.options() == vdc_ranges(),
    {
        let mut opts: Vec<(&'static str, &'static str)> = Vec::new();
        opts.push(("auto", "AUTO"));
        opts.push(("50mV", "50E-3"));
        opts.push(("500mV", "500E-3"));
        opts.push(("5V", "5"));
        opts.push(("50V", "50"));
        opts.push(("500V", "500"));
        opts.push(("1000V", "1000"));
        let r = RangeCmd { scpi: "CONF:VOLT:DC ", opts };
        assert(r.options() =~= vdc_ranges());
        r
    }
}

impl GenScpi for RangeCmd {
    open spec fn scpi_for(&self, opt_name: Seq<char>) -> Option<Seq<char>> {
        match lookup(self.options(), opt_name) {
            Some(v) => Some(self.prefix() + v + "\n"@),
            None => None,
        }
    }

    fn gen_scpi(&self, opt_name: &str) -> (r: String) {
        let v = find_option(&self.opts, opt_name);
        match v {
            Some(v) => join_command(self.scpi, v),
            None => {
                assert(false);
                String::new()
            },
        }
    }
}

} // verus!

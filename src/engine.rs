use vstd::prelude::*;

use crate::multimeter::{
    beeper_command, command_is_query, cont_threshold_command, detect_swap_diod_cont,
    diod_threshold_command, func_command, idn_cmd, local_command, meas_command, mode_of_token,
    rate_command, rate_options, remote_command, reset_cmd, reset_command, MeterMode, ScpiMode,
};
use crate::session::{
    initial_state, Phase, ReplyView, SessionState, Settings, WriteOutcome, FUNCTION_CHECK_EVERY,
};
use crate::text::{
    bytes_eq_str, copy_range, extend_bytes, trim_byte_bytes, trim_end_bytes, views, CR, LF, QUOTE,
};

verus! {

/// The operator's settings for a new session.
pub struct SessionConfig {
    pub lock_remote: bool,
    pub beeper_enabled: bool,
    /// Continuity threshold in ohms.
    pub cont_threshold: u32,
    /// Diode threshold in volts, as the decimal text to send.
    pub diod_threshold: Vec<u8>,
    /// Index of the sampling rate in the rate table.
    pub rate: usize,
}

impl SessionConfig {
    pub open spec fn settings(&self) -> Settings {
        Settings {
            lock_remote: self.lock_remote,
            beeper_enabled: self.beeper_enabled,
            cont_threshold: self.cont_threshold,
            diod_threshold: self.diod_threshold@,
        }
    }
}

/// What received bytes amount to.
#[derive(Debug, PartialEq, Eq)]
pub enum Reply {
    /// No complete line yet.
    Pending,
    /// The instrument's identity.
    Identity(Vec<u8>),
    /// The instrument reported a function other than the last known one.
    ModeChanged(MeterMode),
    /// The instrument reported the function already known.
    Ignored,
    /// A line to be read as a number; once it reads as one, report it with
    /// `count_measurement`.
    Value(Vec<u8>),
}

impl View for Reply {
    type V = ReplyView;

    open spec fn view(&self) -> ReplyView {
        match self {
            Reply::Pending => ReplyView::Pending,
            Reply::Identity(v) => ReplyView::Identity(v@),
            Reply::ModeChanged(m) => ReplyView::ModeChanged(*m),
            Reply::Ignored => ReplyView::Ignored,
            Reply::Value(v) => ReplyView::Value(v@),
        }
    }
}

/// The command/response engine of one session with the instrument. It owns no
/// transport: the caller writes what `next_write` offers and reports how that
/// went, hands over what it reads, and ends each poll round with `tick`.
pub struct SerialEngine {
    lock_remote: bool,
    beeper_enabled: bool,
    cont_threshold: u32,
    diod_threshold: Vec<u8>,
    queue: Vec<Vec<u8>>,
    in_flight: bool,
    scpi_mode: ScpiMode,
    swap_diod_cont: bool,
    meas_count: u32,
    last_mode: MeterMode,
    phase: Phase,
    buffer: Vec<u8>,
    identity: Vec<u8>,
    accepted: Ghost<Seq<Seq<u8>>>,
    dequeued: Ghost<Seq<Seq<u8>>>,
}

impl View for SerialEngine {
    type V = SessionState;

    closed spec fn view(&self) -> SessionState {
        SessionState {
            settings: Settings {
                lock_remote: self.lock_remote,
                beeper_enabled: self.beeper_enabled,
                cont_threshold: self.cont_threshold,
                diod_threshold: self.diod_threshold@,
            },
            queue: views(self.queue@),
            in_flight: self.in_flight,
            scpi_mode: self.scpi_mode,
            swap_diod_cont: self.swap_diod_cont,
            meas_count: self.meas_count,
            last_mode: self.last_mode,
            phase: self.phase,
            buffer: self.buffer@,
            identity: self.identity@,
            accepted: self.accepted@,
            dequeued: self.dequeued@,
        }
    }
}

impl SerialEngine {
    /// Opens a session with the instrument, last known to be in `mode`, and
    /// queues the identity query and the operator's configuration.
    pub fn new(config: SessionConfig, mode: MeterMode) -> (r: Self)
        requires
            config.rate < rate_options().len(),
        ensures
            r@ == initial_state(config.settings(), config.rate as int, mode),
    {
        let mut queue: Vec<Vec<u8>> = Vec::new();
        queue.push(crate::multimeter::idn_command());
        queue.push(rate_command(config.rate));
        queue.push(beeper_command(config.beeper_enabled));
        queue.push(cont_threshold_command(config.cont_threshold));
        queue.push(diod_threshold_command(config.diod_threshold.as_slice()));
        let ghost startup = views(queue@);
        assert(startup =~= crate::session::startup_commands(config.settings(), config.rate as int));
        let r = SerialEngine {
            lock_remote: config.lock_remote,
            beeper_enabled: config.beeper_enabled,
            cont_threshold: config.cont_threshold,
            diod_threshold: config.diod_threshold,
            queue,
            in_flight: false,
            scpi_mode: ScpiMode::Idn,
            swap_diod_cont: false,
            meas_count: 0,
            last_mode: mode,
            phase: Phase::Running,
            buffer: Vec::new(),
            identity: Vec::new(),
            accepted: Ghost(startup),
            dequeued: Ghost(Seq::empty()),
        };
        assert(r@.buffer =~= Seq::<u8>::empty());
        assert(r@.identity =~= Seq::<u8>::empty());
        assert(r@ == initial_state(config.settings(), config.rate as int, mode));
        r
    }

    fn push_command(&mut self, cmd: Vec<u8>)
        ensures
            final(self)@ == old(self)@.enqueue(cmd@),
    {
        let ghost c = cmd@;
        self.queue.push(cmd);
        self.accepted = Ghost(self.accepted@.push(c));
        assert(views(self.queue@) =~= views(old(self).queue@).push(c));
    }

    /// Queues a command from the operator. Commands are accepted at any time,
    /// also while the session shuts down.
    pub fn enqueue(&mut self, cmd: &[u8])
        ensures
            final(self)@ == old(self)@.enqueue(cmd@),
    {
        let c = copy_range(cmd, 0, cmd.len());
        assert(cmd@.subrange(0, cmd@.len() as int) =~= cmd@);
        self.push_command(c);
    }

    /// The command to write when the transport is writable: the head of the
    /// queue, unless the reply to a query is still awaited.
    pub fn next_write(&self) -> (r: Option<Vec<u8>>)
        ensures
            r matches Some(c) ==> self@.offered() == Some(c@),
            r is None ==> self@.offered() is None,
    {
        if self.in_flight || self.queue.len() == 0 {
            None
        } else {
            let head = &self.queue[0];
            let c = copy_range(head.as_slice(), 0, head.len());
            assert(head@.subrange(0, head@.len() as int) =~= head@);
            Some(c)
        }
    }

    /// Reports how writing the command that `next_write` offered went. A write
    /// that would block leaves it at the head of the queue; one that failed
    /// drops it, so that the queue cannot stall on it.
    pub fn write_done(&mut self, outcome: WriteOutcome)
        ensures
            final(self)@ == old(self)@.write_done(outcome),
    {
        if self.in_flight || self.queue.len() == 0 || outcome == WriteOutcome::WouldBlock {
            return ;
        }
        let cmd = self.queue.remove(0);
        assert(views(self.queue@) =~= views(old(self).queue@).drop_first());
        self.dequeued = Ghost(self.dequeued@.push(cmd@));
        proof {
            reveal_strlit("*IDN?\n");
            reveal_strlit("*RST\n");
        }
        let is_idn = bytes_eq_str(cmd.as_slice(), "*IDN?\n");
        let is_reset = bytes_eq_str(cmd.as_slice(), "*RST\n");
        assert(is_idn == (cmd@ == idn_cmd()));
        assert(is_reset == (cmd@ == reset_cmd()));
        if outcome == WriteOutcome::Written {
            self.in_flight = command_is_query(cmd.as_slice());
            if is_idn && self.phase == Phase::Running {
                if self.lock_remote {
                    self.push_command(remote_command());
                }
                self.push_command(meas_command());
            }
        }
        if self.phase == Phase::Draining && is_reset {
            self.phase = Phase::ReadyToRelease;
        }
    }

    fn follow_up(&mut self, m: MeterMode)
        ensures
            final(self)@ == old(self)@.follow_up(m),
    {
        if m == MeterMode::Cont {
            self.push_command(beeper_command(self.beeper_enabled));
            self.push_command(cont_threshold_command(self.cont_threshold));
        } else if m == MeterMode::Diod {
            self.push_command(beeper_command(self.beeper_enabled));
            let d = diod_threshold_command(self.diod_threshold.as_slice());
            self.push_command(d);
        }
    }

    fn on_line(&mut self, line: Vec<u8>) -> (r: Reply)
        ensures
            (final(self)@, r@) == old(self)@.on_line(line@),
    {
        if self.scpi_mode == ScpiMode::Idn {
            self.swap_diod_cont = detect_swap_diod_cont(line.as_slice());
            self.scpi_mode = ScpiMode::Meas;
            self.identity = copy_range(line.as_slice(), 0, line.len());
            assert(line@.subrange(0, line@.len() as int) =~= line@);
            return Reply::Identity(line);
        }
        let t = trim_byte_bytes(line.as_slice(), QUOTE);
        match mode_of_token(t.as_slice(), self.swap_diod_cont) {
            Some(m) => {
                if m != self.last_mode {
                    self.last_mode = m;
                    self.follow_up(m);
                    Reply::ModeChanged(m)
                } else {
                    Reply::Ignored
                }
            },
            None => Reply::Value(t),
        }
    }

    /// Hands over bytes read from the transport. A line is only read once the
    /// bytes held so far end with a carriage return and a line feed.
    pub fn receive(&mut self, chunk: &[u8]) -> (r: Reply)
        ensures
            (final(self)@, r@) == old(self)@.receive(chunk@),
    {
        extend_bytes(&mut self.buffer, chunk);
        let n = self.buffer.len();
        if n < 2 || self.buffer[n - 2] != CR || self.buffer[n - 1] != LF {
            return Reply::Pending;
        }
        let line = trim_end_bytes(self.buffer.as_slice());
        self.buffer = Vec::new();
        self.in_flight = false;
        self.on_line(line)
    }

    /// Records that the last value line read as a number.
    pub fn count_measurement(&mut self)
        ensures
            final(self)@ == old(self)@.count_measurement(),
    {
        if self.meas_count < u32::MAX {
            self.meas_count = self.meas_count + 1;
        }
    }

    /// Ends a poll round: while polling with nothing queued, queues the next
    /// measurement query, or every so often a function query.
    pub fn tick(&mut self)
        ensures
            final(self)@ == old(self)@.tick(),
    {
        if self.phase == Phase::Running && self.scpi_mode == ScpiMode::Meas && self.queue.len()
            == 0 {
            if self.meas_count >= FUNCTION_CHECK_EVERY {
                self.meas_count = 0;
                self.push_command(func_command());
            } else {
                self.push_command(meas_command());
            }
        }
    }

    /// Starts the orderly shutdown; only the first request counts.
    pub fn request_shutdown(&mut self)
        ensures
            final(self)@ == old(self)@.shutdown(),
    {
        if self.phase == Phase::Running {
            self.phase = Phase::Draining;
            self.push_command(local_command());
            self.push_command(reset_command());
        }
    }

    /// Whether the reset has gone out and the transport may be let go.
    pub fn ready_to_release(&self) -> (r: bool)
        ensures
            r == (self@.phase == Phase::ReadyToRelease),
    {
        self.phase == Phase::ReadyToRelease
    }

    pub fn phase(&self) -> (r: Phase)
        ensures
            r == self@.phase,
    {
        self.phase
    }

    pub fn scpi_mode(&self) -> (r: ScpiMode)
        ensures
            r == self@.scpi_mode,
    {
        self.scpi_mode
    }

    pub fn in_flight(&self) -> (r: bool)
        ensures
            r == self@.in_flight,
    {
        self.in_flight
    }

    pub fn swap_diod_cont(&self) -> (r: bool)
        ensures
            r == self@.swap_diod_cont,
    {
        self.swap_diod_cont
    }

    pub fn meas_count(&self) -> (r: u32)
        ensures
            r == self@.meas_count,
    {
        self.meas_count
    }

    pub fn last_mode(&self) -> (r: MeterMode)
        ensures
            r == self@.last_mode,
    {
        self.last_mode
    }

    /// The instrument's identity, empty until it has replied.
    pub fn identity(&self) -> (r: &Vec<u8>)
        ensures
            r@ == self@.identity,
    {
        &self.identity
    }

    /// The commands waiting to be written, oldest first.
    pub fn queued(&self) -> (r: &Vec<Vec<u8>>)
        ensures
            views(r@) == self@.queue,
    {
        &self.queue
    }
}

} // verus!

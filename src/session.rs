use vstd::prelude::*;

use crate::multimeter::{
    beeper_cmd, cont_threshold_cmd, diod_threshold_cmd, func_cmd, idn_cmd, is_query, local_cmd,
    meas_cmd, rate_cmd, remote_cmd, reset_cmd, swaps_diod_cont, token_mode, MeterMode, ScpiMode,
};
use crate::text::{ends_with_crlf, trim_byte, trim_end, QUOTE};

verus! {

/// After this many measurements in a row, the next poll asks for the function
/// instead of a measurement.
pub const FUNCTION_CHECK_EVERY: u32 = 10;

/// Where a session stands: polling the instrument, flushing its last commands
/// before the transport is let go, or done with the transport.
#[derive(PartialEq, Eq, Structural, Clone, Copy, Debug)]
pub enum Phase {
    Running,
    Draining,
    ReadyToRelease,
}

/// What an attempt to write the offered command reported.
#[derive(PartialEq, Eq, Structural, Clone, Copy, Debug)]
pub enum WriteOutcome {
    Written,
    WouldBlock,
    Failed,
}

/// What received bytes amount to.
pub enum ReplyView {
    /// No complete line yet.
    Pending,
    /// The instrument's identity.
    Identity(Seq<u8>),
    /// The instrument reported a function other than the last known one.
    ModeChanged(MeterMode),
    /// The instrument reported the function already known.
    Ignored,
    /// A line to be read as a number.
    Value(Seq<u8>),
}

/// The operator's settings that the session sends to the instrument.
pub struct Settings {
    pub lock_remote: bool,
    pub beeper_enabled: bool,
    pub cont_threshold: u32,
    /// The diode threshold in volts, as the decimal text that is sent.
    pub diod_threshold: Seq<u8>,
}

/// The state of a session with the instrument.
pub struct SessionState {
    pub settings: Settings,
    /// Commands waiting to be written, oldest first.
    pub queue: Seq<Seq<u8>>,
    /// A query was written and its reply has not arrived.
    pub in_flight: bool,
    pub scpi_mode: ScpiMode,
    pub swap_diod_cont: bool,
    /// Measurements received since the last function check.
    pub meas_count: u32,
    pub last_mode: MeterMode,
    pub phase: Phase,
    /// Received bytes of a line that has not ended yet.
    pub buffer: Seq<u8>,
    pub identity: Seq<u8>,
    /// Every command ever queued, in the order it was queued.
    pub accepted: Seq<Seq<u8>>,
    /// Every command that has left the queue (written, or dropped after a
    /// write error), in the order it left.
    pub dequeued: Seq<Seq<u8>>,
}

/// The commands queued when a session starts: identify, then the operator's
/// configuration.
pub open spec fn startup_commands(settings: Settings, rate: int) -> Seq<Seq<u8>> {
    seq![
        idn_cmd(),
        rate_cmd(rate),
        beeper_cmd(settings.beeper_enabled),
        cont_threshold_cmd(settings.cont_threshold),
        diod_threshold_cmd(settings.diod_threshold),
    ]
}

/// A session that has just been opened, with the instrument in `mode`.
pub open spec fn initial_state(settings: Settings, rate: int, mode: MeterMode) -> SessionState {
    SessionState {
        settings,
        queue: startup_commands(settings, rate),
        in_flight: false,
        scpi_mode: ScpiMode::Idn,
        swap_diod_cont: false,
        meas_count: 0,
        last_mode: mode,
        phase: Phase::Running,
        buffer: Seq::empty(),
        identity: Seq::empty(),
        accepted: startup_commands(settings, rate),
        dequeued: Seq::empty(),
    }
}

impl SessionState {
    /// What has left the queue and what is in it together make up, in order,
    /// everything that was queued.
    pub open spec fn wf(self) -> bool {
        self.accepted == self.dequeued + self.queue
    }

    pub open spec fn enqueue(self, cmd: Seq<u8>) -> SessionState {
        SessionState { queue: self.queue.push(cmd), accepted: self.accepted.push(cmd), ..self }
    }

    /// The command that a writable transport should be handed: the head of the
    /// queue, unless a reply is awaited.
    pub open spec fn offered(self) -> Option<Seq<u8>> {
        if !self.in_flight && self.queue.len() > 0 {
            Some(self.queue[0])
        } else {
            None
        }
    }

    /// After the identity query has gone out: lock the front panel if asked,
    /// then start polling.
    pub open spec fn after_identity_sent(self) -> SessionState {
        let s = if self.settings.lock_remote {
            self.enqueue(remote_cmd())
        } else {
            self
        };
        s.enqueue(meas_cmd())
    }

    /// The state after the offered command was tried.
    pub open spec fn write_done(self, outcome: WriteOutcome) -> SessionState {
        match self.offered() {
            None => self,
            Some(cmd) => if outcome == WriteOutcome::WouldBlock {
                self
            } else {
                let popped = SessionState {
                    queue: self.queue.drop_first(),
                    dequeued: self.dequeued.push(cmd),
                    ..self
                };
                let sent = if outcome == WriteOutcome::Written {
                    let s = SessionState { in_flight: is_query(cmd), ..popped };
                    if cmd == idn_cmd() && self.phase == Phase::Running {
                        s.after_identity_sent()
                    } else {
                        s
                    }
                } else {
                    popped
                };
                if self.phase == Phase::Draining && cmd == reset_cmd() {
                    SessionState { phase: Phase::ReadyToRelease, ..sent }
                } else {
                    sent
                }
            },
        }
    }

    /// The commands that keep the instrument's beeper and threshold in line
    /// with the operator's settings after a switch to `m`.
    pub open spec fn follow_up(self, m: MeterMode) -> SessionState {
        if m == MeterMode::Cont {
            self.enqueue(beeper_cmd(self.settings.beeper_enabled)).enqueue(
                cont_threshold_cmd(self.settings.cont_threshold),
            )
        } else if m == MeterMode::Diod {
            self.enqueue(beeper_cmd(self.settings.beeper_enabled)).enqueue(
                diod_threshold_cmd(self.settings.diod_threshold),
            )
        } else {
            self
        }
    }

    /// Reads one complete line, its trailing white space removed.
    pub open spec fn on_line(self, line: Seq<u8>) -> (SessionState, ReplyView) {
        if self.scpi_mode == ScpiMode::Idn {
            (
                SessionState {
                    identity: line,
                    scpi_mode: ScpiMode::Meas,
                    swap_diod_cont: swaps_diod_cont(line),
                    ..self
                },
                ReplyView::Identity(line),
            )
        } else {
            let t = trim_byte(line, QUOTE);
            match token_mode(t, self.swap_diod_cont) {
                Some(m) => if m != self.last_mode {
                    (SessionState { last_mode: m, ..self }.follow_up(m), ReplyView::ModeChanged(m))
                } else {
                    (self, ReplyView::Ignored)
                },
                None => (self, ReplyView::Value(t)),
            }
        }
    }

    /// The state after `chunk` was read, and what it amounts to. A line is
    /// complete when the bytes held so far end with a carriage return and a
    /// line feed; it then answers the awaited query.
    pub open spec fn receive(self, chunk: Seq<u8>) -> (SessionState, ReplyView) {
        let buf = self.buffer + chunk;
        if ends_with_crlf(buf) {
            SessionState { buffer: Seq::empty(), in_flight: false, ..self }.on_line(trim_end(buf))
        } else {
            (SessionState { buffer: buf, ..self }, ReplyView::Pending)
        }
    }

    /// The state after a value line was read as a number.
    pub open spec fn count_measurement(self) -> SessionState {
        if self.meas_count < u32::MAX {
            SessionState { meas_count: (self.meas_count + 1) as u32, ..self }
        } else {
            self
        }
    }

    /// The end of a poll round: while polling, an empty queue gets the next
    /// query, which is a function check once enough measurements came in.
    pub open spec fn tick(self) -> SessionState {
        if self.phase == Phase::Running && self.scpi_mode == ScpiMode::Meas && self.queue.len()
            == 0 {
            if self.meas_count >= FUNCTION_CHECK_EVERY {
                SessionState { meas_count: 0, ..self }.enqueue(func_cmd())
            } else {
                self.enqueue(meas_cmd())
            }
        } else {
            self
        }
    }

    /// The state after the operator asked to disconnect: polling stops and the
    /// instrument is handed back to its front panel and reset, after whatever
    /// was queued before.
    pub open spec fn shutdown(self) -> SessionState {
        if self.phase == Phase::Running {
            SessionState { phase: Phase::Draining, ..self }.enqueue(local_cmd()).enqueue(
                reset_cmd(),
            )
        } else {
            self
        }
    }
}

} // verus!

verus! {

/// Something that happens to a session.
pub enum Event {
    /// The operator queued a command.
    Command(Seq<u8>),
    /// The offered command was tried.
    WriteDone(WriteOutcome),
    /// Bytes were read.
    Received(Seq<u8>),
    /// A value line read as a number.
    Measured,
    /// A poll round ended.
    Tick,
    /// The operator asked to disconnect.
    Shutdown,
}

impl SessionState {
    pub open spec fn step(self, e: Event) -> SessionState {
        match e {
            Event::Command(c) => self.enqueue(c),
            Event::WriteDone(o) => self.write_done(o),
            Event::Received(chunk) => self.receive(chunk).0,
            Event::Measured => self.count_measurement(),
            Event::Tick => self.tick(),
            Event::Shutdown => self.shutdown(),
        }
    }
}

/// The state after the events, in order.
pub open spec fn run(s: SessionState, events: Seq<Event>) -> SessionState
    decreases events.len(),
{
    if events.len() == 0 {
        s
    } else {
        run(s, events.drop_last()).step(events.last())
    }
}

/// The state after `n` value lines in a row read as numbers.
pub open spec fn measured(s: SessionState, n: nat) -> SessionState
    decreases n,
{
    if n == 0 {
        s
    } else {
        measured(s, (n - 1) as nat).count_measurement()
    }
}

proof fn lemma_enqueue_keeps_wf(s: SessionState, c: Seq<u8>)
    requires
        s.wf(),
    ensures
        s.enqueue(c).wf(),
{
    assert(s.enqueue(c).accepted =~= s.dequeued + s.queue.push(c));
}

proof fn lemma_follow_up_keeps_wf(s: SessionState, m: MeterMode)
    requires
        s.wf(),
    ensures
        s.follow_up(m).wf(),
{
    let b = s.enqueue(beeper_cmd(s.settings.beeper_enabled));
    lemma_enqueue_keeps_wf(s, beeper_cmd(s.settings.beeper_enabled));
    lemma_enqueue_keeps_wf(b, cont_threshold_cmd(s.settings.cont_threshold));
    lemma_enqueue_keeps_wf(b, diod_threshold_cmd(s.settings.diod_threshold));
}

proof fn lemma_step_keeps_wf(s: SessionState, e: Event)
    requires
        s.wf(),
    ensures
        s.step(e).wf(),
{
    match e {
        Event::Command(c) => lemma_enqueue_keeps_wf(s, c),
        Event::WriteDone(o) => {
            if let Some(cmd) = s.offered() {
                if o != WriteOutcome::WouldBlock {
                    let popped = SessionState {
                        queue: s.queue.drop_first(),
                        dequeued: s.dequeued.push(cmd),
                        ..s
                    };
                    assert(popped.dequeued + popped.queue =~= s.dequeued + s.queue);
                    let w = SessionState { in_flight: is_query(cmd), ..popped };
                    let r = if w.settings.lock_remote {
                        w.enqueue(remote_cmd())
                    } else {
                        w
                    };
                    lemma_enqueue_keeps_wf(w, remote_cmd());
                    lemma_enqueue_keeps_wf(r, meas_cmd());
                }
            }
        },
        Event::Received(chunk) => {
            let buf = s.buffer + chunk;
            if ends_with_crlf(buf) {
                let c = SessionState { buffer: Seq::empty(), in_flight: false, ..s };
                if c.scpi_mode != ScpiMode::Idn {
                    let t = trim_byte(trim_end(buf), QUOTE);
                    if let Some(m) = token_mode(t, c.swap_diod_cont) {
                        lemma_follow_up_keeps_wf(SessionState { last_mode: m, ..c }, m);
                    }
                }
            }
        },
        Event::Measured => {},
        Event::Tick => {
            lemma_enqueue_keeps_wf(s, meas_cmd());
            lemma_enqueue_keeps_wf(SessionState { meas_count: 0, ..s }, func_cmd());
        },
        Event::Shutdown => {
            let d = SessionState { phase: Phase::Draining, ..s };
            lemma_enqueue_keeps_wf(d, local_cmd());
            lemma_enqueue_keeps_wf(d.enqueue(local_cmd()), reset_cmd());
        },
    }
}

/// Commands leave the queue in the order they were queued, whatever happens in
/// between: at every point, the commands that have left it (written, or dropped
/// after a write error) followed by those still waiting are exactly the commands
/// queued, in the order they were queued.
pub proof fn law_fifo(settings: Settings, rate: int, mode: MeterMode, events: Seq<Event>)
    ensures
        ({
            let t = run(initial_state(settings, rate, mode), events);
            &&& t.accepted == t.dequeued + t.queue
            &&& t.dequeued == t.accepted.take(t.dequeued.len() as int)
        }),
    decreases events.len(),
{
    let s0 = initial_state(settings, rate, mode);
    if events.len() == 0 {
        assert(s0.dequeued + s0.queue =~= s0.accepted);
    } else {
        law_fifo(settings, rate, mode, events.drop_last());
        lemma_step_keeps_wf(run(s0, events.drop_last()), events.last());
    }
    let t = run(s0, events);
    assert(t.accepted.take(t.dequeued.len() as int) =~= t.dequeued);
}

/// At most one query is outstanding: while a reply is awaited nothing is
/// offered for writing and a write report changes nothing; writing a query
/// makes its reply awaited; and only a complete received line ends the wait.
pub proof fn law_one_query_in_flight(s: SessionState, o: WriteOutcome, e: Event)
    ensures
        s.in_flight ==> s.offered() is None,
        s.in_flight ==> s.write_done(o) == s,
        (s.offered() matches Some(c) && is_query(c)) ==> s.write_done(WriteOutcome::Written).in_flight,
        s.in_flight && !s.step(e).in_flight ==> (e matches Event::Received(chunk) && ends_with_crlf(
            s.buffer + chunk,
        )),
{
}

/// A reply split over several reads is only read once its terminator is in:
/// bytes that do not complete a line produce nothing and are held, and reading
/// them followed by the rest amounts to reading everything at once.
pub proof fn law_line_framing(s: SessionState, a: Seq<u8>, b: Seq<u8>)
    requires
        !ends_with_crlf(s.buffer + a),
    ensures
        s.receive(a).1 == ReplyView::Pending,
        s.receive(a).0 == (SessionState { buffer: s.buffer + a, ..s }),
        s.receive(a).0.receive(b) == s.receive(a + b),
{
    assert(s.buffer + a + b =~= s.buffer + (a + b));
}

/// While polling with nothing queued, a poll round queues a measurement query,
/// or, once the measurements since the last check reach the threshold, a
/// function query and a fresh count.
pub proof fn law_function_check_cadence(s: SessionState)
    requires
        s.phase == Phase::Running,
        s.scpi_mode == ScpiMode::Meas,
        s.queue.len() == 0,
    ensures
        s.meas_count >= FUNCTION_CHECK_EVERY ==> s.tick().queue == seq![func_cmd()]
            && s.tick().meas_count == 0,
        s.meas_count < FUNCTION_CHECK_EVERY ==> s.tick().queue == seq![meas_cmd()]
            && s.tick().meas_count == s.meas_count,
{
    assert(seq![func_cmd()] =~= Seq::<Seq<u8>>::empty().push(func_cmd()));
    assert(seq![meas_cmd()] =~= Seq::<Seq<u8>>::empty().push(meas_cmd()));
}

proof fn lemma_measured(s: SessionState, n: nat)
    requires
        s.meas_count as nat + n <= u32::MAX,
    ensures
        measured(s, n) == (SessionState { meas_count: (s.meas_count + n) as u32, ..s }),
    decreases n,
{
    if n > 0 {
        lemma_measured(s, (n - 1) as nat);
    }
}

/// Counted from a fresh count, the poll round after exactly ten measurements
/// asks for the function, and every earlier one for a measurement.
pub proof fn law_function_check_after_ten(s: SessionState, n: nat)
    requires
        s.phase == Phase::Running,
        s.scpi_mode == ScpiMode::Meas,
        s.queue.len() == 0,
        s.meas_count == 0,
        n <= FUNCTION_CHECK_EVERY,
    ensures
        n == FUNCTION_CHECK_EVERY ==> measured(s, n).tick().queue == seq![func_cmd()]
            && measured(s, n).tick().meas_count == 0,
        n < FUNCTION_CHECK_EVERY ==> measured(s, n).tick().queue == seq![meas_cmd()],
{
    lemma_measured(s, n);
    law_function_check_cadence(measured(s, n));
}

/// A disconnect request, once, while polling: the front-panel unlock and then
/// the reset go behind whatever was already queued, and polling stops.
pub proof fn law_shutdown_order(s: SessionState)
    requires
        s.phase == Phase::Running,
    ensures
        s.shutdown().queue == s.queue + seq![local_cmd(), reset_cmd()],
        s.shutdown().phase == Phase::Draining,
        s.shutdown().shutdown() == s.shutdown(),
        s.shutdown().tick() == s.shutdown(),
{
    assert(s.queue.push(local_cmd()).push(reset_cmd()) =~= s.queue + seq![local_cmd(), reset_cmd()]);
}

/// The transport is only let go by the write report of the reset command while
/// draining: written, or dropped after a write error so that a broken port does
/// not keep the session alive.
pub proof fn law_release_after_reset(s: SessionState, e: Event)
    requires
        s.phase != Phase::ReadyToRelease,
        s.step(e).phase == Phase::ReadyToRelease,
    ensures
        s.phase == Phase::Draining,
        s.offered() == Some(reset_cmd()),
        e matches Event::WriteDone(o) && o != WriteOutcome::WouldBlock,
{
}

} // verus!

//! Transaction and initialization state machines of the driver controller.
//!
//! The controller never touches hardware itself. Each session (read,
//! read-modify-write, initialization) is a state machine that emits
//! [`Action`]s — pin changes, delays, and 16-bit bus transfers — and
//! consumes one [`BusReply`] per transfer. A platform layer performs each
//! action in order and feeds every transfer's outcome back in. Every
//! transition is specified exactly, so the order of pin toggles, delays and
//! frames is proved, not observed.

use crate::command::{frame_for_read, frame_for_write, spec_read_frame, spec_write_frame};
use crate::register::{ControlRegister1, ControlRegister2, Flag, PwmMode, Register};
use vstd::prelude::*;

verus! {

/// Cycles the chip needs between chip-select assertion and the first clock
/// edge (at least ~50 ns).
pub const SETUP_DELAY: u32 = 8;

/// Cycles chip-select must stay high between two frames (at least ~500 ns).
pub const HOLD_DELAY: u32 = 32;

/// Cycles of each step of the chip-enable reset pulse.
pub const PULSE_DELAY: u32 = 8;

/// Cycles the bus idles with chip-select low before the first transaction
/// of the initialization sequence.
pub const SETTLE_DELAY: u32 = 1000000;

/// Cycles the initialization settles after its last configuration write.
pub const CONFIG_DELAY: u32 = 8;

/// One primitive operation the platform layer must perform on the
/// hardware, in the order emitted.
#[derive(Clone, Copy, Debug, PartialEq, Eq, Structural)]
pub enum Action {
    /// Drive the chip-enable line high (output stage powered).
    EnGateHigh,
    /// Drive the chip-enable line low.
    EnGateLow,
    /// Drive chip-select high (de-asserted; the line is active low).
    NscsHigh,
    /// Drive chip-select low (asserted).
    NscsLow,
    /// Busy-wait for approximately this many cycles.
    Wait(u32),
    /// Exchange this 16-bit frame on the bus and feed the outcome back to
    /// the session as a [`BusReply`].
    Transfer(u16),
}

/// The platform's answer to a [`Action::Transfer`]: the word the chip
/// returned, or the transport error, surfaced verbatim.
pub enum BusReply<E> {
    Received(u16),
    Failed(E),
}

/// The actions that open one bus transaction: assert chip-select, honor
/// the setup time, and exchange the frame.
pub open spec fn select_trace(frame: u16) -> Seq<Action> {
    seq![Action::NscsLow, Action::Wait(SETUP_DELAY), Action::Transfer(frame)]
}

/// The actions that close one bus transaction: de-assert chip-select and
/// honor the hold time.
pub open spec fn deselect_trace() -> Seq<Action> {
    seq![Action::NscsHigh, Action::Wait(HOLD_DELAY)]
}

fn push_select(acts: &mut Vec<Action>, frame: u16)
    ensures
        final(acts)@ == old(acts)@ + select_trace(frame),
{
    acts.push(Action::NscsLow);
    acts.push(Action::Wait(SETUP_DELAY));
    acts.push(Action::Transfer(frame));
    proof {
        assert(acts@ =~= old(acts)@ + select_trace(frame));
    }
}

fn push_deselect(acts: &mut Vec<Action>)
    ensures
        final(acts)@ == old(acts)@ + deselect_trace(),
{
    acts.push(Action::NscsHigh);
    acts.push(Action::Wait(HOLD_DELAY));
    proof {
        assert(acts@ =~= old(acts)@ + deselect_trace());
    }
}

/// Which response a running two-phase read is waiting for.
#[derive(Clone, Copy, Debug, PartialEq, Eq, Structural)]
pub enum ReadPhase {
    /// The first read frame is out. The chip answers a transaction with
    /// the output latched by the *previous* one, so this response is
    /// undefined and will be discarded.
    AwaitDiscard,
    /// The second read frame is out; its response carries the requested
    /// register's value.
    AwaitValue,
}

/// State of one two-phase register read. The chip returns a register's
/// value only on the second of two consecutive read transactions, so a
/// read exchanges the same read frame twice; callers of `read` never
/// special-case this themselves.
#[derive(Clone, Copy, Debug, PartialEq, Eq, Structural)]
pub struct ReadSession {
    /// The target register's 4-bit bus address.
    pub addr: u8,
    pub phase: ReadPhase,
}

/// What a read session does after a reply: wait for the next response, or
/// finish with the raw register word or the transport error.
#[derive(Debug, PartialEq, Eq)]
pub enum ReadStep<E> {
    Continue(ReadSession),
    Done(Result<u16, E>),
}

/// The session state hidden in a `Continue`; meaningless for `Done`.
pub open spec fn read_continue<E>(t: ReadStep<E>) -> ReadSession {
    match t {
        ReadStep::Continue(s) => s,
        ReadStep::Done(_) => vstd::pervasive::arbitrary(),
    }
}

/// The first actions of a read and the session's initial state.
pub open spec fn spec_read_begin(addr: u8) -> (Seq<Action>, ReadSession) {
    (select_trace(spec_read_frame(addr)), ReadSession { addr, phase: ReadPhase::AwaitDiscard })
}

/// The exact transition of a read session on one bus reply: the actions
/// the platform must perform next, and the new state or the result. A
/// transport failure ends the read at once — the transaction is still
/// closed, chip-select de-asserted and the hold time honored — and the
/// error is surfaced verbatim as the only output.
pub open spec fn spec_read_step<E>(s: ReadSession, reply: BusReply<E>) -> (Seq<Action>, ReadStep<
    E,
>) {
    match reply {
        BusReply::Failed(e) => (deselect_trace(), ReadStep::Done(Err(e))),
        BusReply::Received(v) => match s.phase {
            ReadPhase::AwaitDiscard => (
                deselect_trace() + select_trace(spec_read_frame(s.addr)),
                ReadStep::Continue(ReadSession { addr: s.addr, phase: ReadPhase::AwaitValue }),
            ),
            ReadPhase::AwaitValue => (deselect_trace(), ReadStep::Done(Ok(v))),
        },
    }
}

impl ReadSession {
    /// The address fits the frame's 4 address bits.
    pub open spec fn wf(self) -> bool {
        self.addr <= 0xF
    }

    /// Starts a read of the register at `addr`: returns the actions that
    /// open the first transaction, and the session awaiting its response.
    pub fn begin(addr: u8) -> (r: (Vec<Action>, ReadSession))
        requires
            addr <= 0xF,
        ensures
            r.0@ == spec_read_begin(addr).0,
            r.1 == spec_read_begin(addr).1,
            r.1.wf(),
    {
        let mut acts: Vec<Action> = Vec::new();
        let frame: u16 = frame_for_read(addr);
        push_select(&mut acts, frame);
        proof {
            assert(acts@ =~= spec_read_begin(addr).0);
        }
        (acts, ReadSession { addr, phase: ReadPhase::AwaitDiscard })
    }

    /// Feeds the session the reply to its pending transfer.
    pub fn step<E>(self, reply: BusReply<E>) -> (r: (Vec<Action>, ReadStep<E>))
        requires
            self.wf(),
        ensures
            r.0@ == spec_read_step::<E>(self, reply).0,
            r.1 == spec_read_step::<E>(self, reply).1,
            (r.1 matches ReadStep::Continue(s2) ==> s2.wf()),
    {
        match reply {
            BusReply::Failed(e) => {
                let mut acts: Vec<Action> = Vec::new();
                push_deselect(&mut acts);
                (acts, ReadStep::Done(Err(e)))
            },
            BusReply::Received(v) => match self.phase {
                ReadPhase::AwaitDiscard => {
                    let mut acts: Vec<Action> = Vec::new();
                    push_deselect(&mut acts);
                    let frame: u16 = frame_for_read(self.addr);
                    push_select(&mut acts, frame);
                    proof {
                        assert(acts@ =~= deselect_trace() + select_trace(
                            spec_read_frame(self.addr),
                        ));
                    }
                    (
                        acts,
                        ReadStep::Continue(
                            ReadSession { addr: self.addr, phase: ReadPhase::AwaitValue },
                        ),
                    )
                },
                ReadPhase::AwaitValue => {
                    let mut acts: Vec<Action> = Vec::new();
                    push_deselect(&mut acts);
                    (acts, ReadStep::Done(Ok(v)))
                },
            },
        }
    }
}

/// The full action trace of a read that got two responses.
pub open spec fn read_trace(addr: u8) -> Seq<Action> {
    select_trace(spec_read_frame(addr)) + deselect_trace() + select_trace(spec_read_frame(addr))
        + deselect_trace()
}

/// Two-phase read law: whatever two responses the transport returns, a
/// read that completes returns the second one, never the first, and its
/// actions are exactly two read transactions of the same frame.
pub proof fn lemma_read_two_phase<E>(addr: u8, first: u16, second: u16)
    requires
        addr <= 0xF,
    ensures
        ({
            let (a0, s0) = spec_read_begin(addr);
            let (a1, t1) = spec_read_step::<E>(s0, BusReply::Received(first));
            let (a2, t2) = spec_read_step::<E>(read_continue(t1), BusReply::Received(second));
            (t1 is Continue) && t2 == ReadStep::<E>::Done(Ok(second)) && a0 + a1 + a2 == read_trace(
                addr,
            )
        }),
{
    let (a0, s0) = spec_read_begin(addr);
    let (a1, t1) = spec_read_step::<E>(s0, BusReply::Received(first));
    let (a2, t2) = spec_read_step::<E>(read_continue(t1), BusReply::Received(second));
    assert(a0 + a1 + a2 =~= read_trace(addr));
}

/// Failure propagation law (read): a transport failure at either phase
/// ends the read at once — the transaction is still closed, chip-select
/// de-asserted and the hold time honored — and the error is the only
/// output.
pub proof fn lemma_read_failure<E>(s: ReadSession, e: E)
    ensures
        spec_read_step::<E>(s, BusReply::Failed(e)).0 == deselect_trace(),
        spec_read_step::<E>(s, BusReply::Failed(e)).1 == ReadStep::<E>::Done(Err(e)),
{
}

/// Which response a running read-modify-write is waiting for.
#[derive(Clone, Copy, Debug, PartialEq, Eq, Structural)]
pub enum WritePhase {
    /// The embedded two-phase read of the register's current value is
    /// running.
    Reading(ReadPhase),
    /// The read finished; the caller must apply its update to the value
    /// and hand the encoded result to `resume`.
    AwaitUpdate,
    /// The write frame is out; the chip echoes the written value.
    AwaitEcho,
}

/// State of one read-modify-write. The register is read first (two
/// transactions), the caller updates only the fields it means to change,
/// and the encoded result — untouched fields and reserved bits preserved —
/// is written back in a third transaction.
#[derive(Clone, Copy, Debug, PartialEq, Eq, Structural)]
pub struct WriteSession {
    /// The target register's 4-bit bus address.
    pub addr: u8,
    pub phase: WritePhase,
}

/// What a write session does after a reply: wait for the next response,
/// ask the caller for the updated payload, or finish with the chip's echo
/// of the written word or the transport error.
#[derive(Debug, PartialEq, Eq)]
pub enum WriteStep<E> {
    Continue(WriteSession),
    /// Carries the raw current value of the register.
    NeedUpdate(WriteSession, u16),
    Done(Result<u16, E>),
}

/// The session state hidden in a `Continue` or `NeedUpdate`; meaningless
/// for `Done`.
pub open spec fn write_continue<E>(t: WriteStep<E>) -> WriteSession {
    match t {
        WriteStep::Continue(s) => s,
        WriteStep::NeedUpdate(s, _) => s,
        WriteStep::Done(_) => vstd::pervasive::arbitrary(),
    }
}

/// The first actions of a read-modify-write and the session's initial
/// state: it opens with the embedded read.
pub open spec fn spec_write_begin(addr: u8) -> (Seq<Action>, WriteSession) {
    (
        select_trace(spec_read_frame(addr)),
        WriteSession { addr, phase: WritePhase::Reading(ReadPhase::AwaitDiscard) },
    )
}

/// The exact transition of a write session on one bus reply. A transport
/// failure on any of the three transactions ends the session at once —
/// the transaction is still closed, chip-select de-asserted and the hold
/// time honored — and the error is surfaced verbatim as the only output.
pub open spec fn spec_write_step<E>(s: WriteSession, reply: BusReply<E>) -> (Seq<Action>, WriteStep<
    E,
>) {
    match s.phase {
        WritePhase::Reading(rp) => {
            let (acts, inner) = spec_read_step::<E>(
                ReadSession { addr: s.addr, phase: rp },
                reply,
            );
            match inner {
                ReadStep::Continue(r2) => (
                    acts,
                    WriteStep::Continue(
                        WriteSession { addr: s.addr, phase: WritePhase::Reading(r2.phase) },
                    ),
                ),
                ReadStep::Done(res) => match res {
                    Ok(v) => (
                        acts,
                        WriteStep::NeedUpdate(
                            WriteSession { addr: s.addr, phase: WritePhase::AwaitUpdate },
                            v,
                        ),
                    ),
                    Err(e) => (acts, WriteStep::Done(Err(e))),
                },
            }
        },
        WritePhase::AwaitUpdate => (Seq::<Action>::empty(), WriteStep::Continue(s)),
        WritePhase::AwaitEcho => match reply {
            BusReply::Failed(e) => (deselect_trace(), WriteStep::Done(Err(e))),
            BusReply::Received(v) => (deselect_trace(), WriteStep::Done(Ok(v))),
        },
    }
}

/// The actions that write the updated payload back: one write transaction
/// carrying the encoded register value.
pub open spec fn spec_write_resume(s: WriteSession, updated: u16) -> (Seq<Action>, WriteSession) {
    (
        select_trace(spec_write_frame(s.addr, updated)),
        WriteSession { addr: s.addr, phase: WritePhase::AwaitEcho },
    )
}

impl WriteSession {
    /// The address fits the frame's 4 address bits.
    pub open spec fn wf(self) -> bool {
        self.addr <= 0xF
    }

    /// Starts a read-modify-write of the register at `addr`.
    pub fn begin(addr: u8) -> (r: (Vec<Action>, WriteSession))
        requires
            addr <= 0xF,
        ensures
            r.0@ == spec_write_begin(addr).0,
            r.1 == spec_write_begin(addr).1,
            r.1.wf(),
    {
        let mut acts: Vec<Action> = Vec::new();
        let frame: u16 = frame_for_read(addr);
        push_select(&mut acts, frame);
        proof {
            assert(acts@ =~= spec_write_begin(addr).0);
        }
        (acts, WriteSession { addr, phase: WritePhase::Reading(ReadPhase::AwaitDiscard) })
    }

    /// Feeds the session the reply to its pending transfer. It must have a
    /// transfer pending, that is, not be waiting for the caller's update.
    pub fn step<E>(self, reply: BusReply<E>) -> (r: (Vec<Action>, WriteStep<E>))
        requires
            self.wf(),
            !(self.phase is AwaitUpdate),
        ensures
            r.0@ == spec_write_step::<E>(self, reply).0,
            r.1 == spec_write_step::<E>(self, reply).1,
            (r.1 matches WriteStep::Continue(s2) ==> s2.wf() && !(s2.phase is AwaitUpdate)),
            (r.1 matches WriteStep::NeedUpdate(s2, v) ==> s2.wf() && s2.phase is AwaitUpdate),
    {
        match self.phase {
            WritePhase::Reading(rp) => {
                let inner_session = ReadSession { addr: self.addr, phase: rp };
                let (acts, inner) = inner_session.step::<E>(reply);
                match inner {
                    ReadStep::Continue(r2) => (
                        acts,
                        WriteStep::Continue(
                            WriteSession { addr: self.addr, phase: WritePhase::Reading(r2.phase) },
                        ),
                    ),
                    ReadStep::Done(res) => match res {
                        Ok(v) => (
                            acts,
                            WriteStep::NeedUpdate(
                                WriteSession { addr: self.addr, phase: WritePhase::AwaitUpdate },
                                v,
                            ),
                        ),
                        Err(e) => (acts, WriteStep::Done(Err(e))),
                    },
                }
            },
            WritePhase::AwaitUpdate => (Vec::new(), WriteStep::Continue(self)),
            WritePhase::AwaitEcho => match reply {
                BusReply::Failed(e) => {
                    let mut acts: Vec<Action> = Vec::new();
                    push_deselect(&mut acts);
                    (acts, WriteStep::Done(Err(e)))
                },
                BusReply::Received(v) => {
                    let mut acts: Vec<Action> = Vec::new();
                    push_deselect(&mut acts);
                    (acts, WriteStep::Done(Ok(v)))
                },
            },
        }
    }

    /// Supplies the encoded updated register value after `NeedUpdate`:
    /// returns the actions that send the write frame, and the session
    /// awaiting the chip's echo.
    pub fn resume(self, updated: u16) -> (r: (Vec<Action>, WriteSession))
        requires
            self.wf(),
            self.phase is AwaitUpdate,
        ensures
            r.0@ == spec_write_resume(self, updated).0,
            r.1 == spec_write_resume(self, updated).1,
            r.1.wf(),
            !(r.1.phase is AwaitUpdate),
    {
        let mut acts: Vec<Action> = Vec::new();
        let frame: u16 = frame_for_write(self.addr, updated);
        push_select(&mut acts, frame);
        proof {
            assert(acts@ =~= spec_write_resume(self, updated).0);
        }
        (acts, WriteSession { addr: self.addr, phase: WritePhase::AwaitEcho })
    }
}

/// The full action trace of a read-modify-write that got three
/// responses and wrote back `updated`.
pub open spec fn write_trace(addr: u8, updated: u16) -> Seq<Action> {
    read_trace(addr) + select_trace(spec_write_frame(addr, updated)) + deselect_trace()
}

/// Read-modify-write law: whatever responses the transport returns, a
/// write that completes reads the register twice, hands the caller the
/// second response (never the first), writes back exactly the caller's
/// encoded update, and returns the chip's echo of it.
pub proof fn lemma_write_round<E>(addr: u8, first: u16, current: u16, updated: u16, echo: u16)
    requires
        addr <= 0xF,
    ensures
        ({
            let (a0, s0) = spec_write_begin(addr);
            let (a1, t1) = spec_write_step::<E>(s0, BusReply::Received(first));
            let (a2, t2) = spec_write_step::<E>(write_continue(t1), BusReply::Received(current));
            let (a3, s3) = spec_write_resume(write_continue(t2), updated);
            let (a4, t4) = spec_write_step::<E>(s3, BusReply::Received(echo));
            (t1 is Continue) && t2 == WriteStep::<E>::NeedUpdate(
                WriteSession { addr, phase: WritePhase::AwaitUpdate },
                current,
            ) && t4 == WriteStep::<E>::Done(Ok(echo)) && a0 + a1 + a2 + a3 + a4 == write_trace(
                addr,
                updated,
            )
        }),
{
    let (a0, s0) = spec_write_begin(addr);
    let (a1, t1) = spec_write_step::<E>(s0, BusReply::Received(first));
    let (a2, t2) = spec_write_step::<E>(write_continue(t1), BusReply::Received(current));
    let (a3, s3) = spec_write_resume(write_continue(t2), updated);
    let (a4, t4) = spec_write_step::<E>(s3, BusReply::Received(echo));
    assert(a0 + a1 + a2 + a3 + a4 =~= write_trace(addr, updated));
}

/// Failure propagation law (write): a transport failure on any of the
/// three transactions ends the read-modify-write at once — the
/// transaction is still closed, chip-select de-asserted and the hold
/// time honored — and the error is the only output.
pub proof fn lemma_write_failure<E>(s: WriteSession, e: E)
    requires
        !(s.phase is AwaitUpdate),
    ensures
        spec_write_step::<E>(s, BusReply::Failed(e)).0 == deselect_trace(),
        spec_write_step::<E>(s, BusReply::Failed(e)).1 == WriteStep::<E>::Done(Err(e)),
{
}

/// The fixed power-on configuration of control register 1: lowest gate
/// current step, gate reset off, six-input PWM, current-limit protection,
/// highest over-current threshold step. Every other bit of `r` is kept.
pub open spec fn spec_control1_defaults(r: ControlRegister1) -> ControlRegister1 {
    ControlRegister1 {
        gate_current: 0,
        gate_reset: Flag::Disable,
        pwm_mode: PwmMode::Six,
        ocp_mode: 0,
        oc_adj_set: 15,
        ..r
    }
}

/// Applies the power-on defaults to a decoded control register 1.
pub fn control1_defaults(r: ControlRegister1) -> (r2: ControlRegister1)
    ensures
        r2 == spec_control1_defaults(r),
        r2.wf(),
{
    r.gate_current(0).gate_reset(Flag::Disable).pwm_mode(PwmMode::Six).ocp_mode(0).oc_adj_set(15)
}

/// The fixed power-on configuration of control register 2: report both
/// over-temperature and over-current, highest shunt gain step, calibration
/// off on both channels, cycle-by-cycle over-current off-time. Every other
/// bit of `r` is kept.
pub open spec fn spec_control2_defaults(r: ControlRegister2) -> ControlRegister2 {
    ControlRegister2 {
        octw_mode: 0,
        shunt_gain: 3,
        dc_cal_ch1: Flag::Disable,
        dc_cal_ch2: Flag::Disable,
        oc_toff: Flag::Disable,
        ..r
    }
}

/// Applies the power-on defaults to a decoded control register 2.
pub fn control2_defaults(r: ControlRegister2) -> (r2: ControlRegister2)
    ensures
        r2 == spec_control2_defaults(r),
        r2.wf(),
{
    r.octw_mode(0).shunt_gain(3).dc_cal_ch1(Flag::Disable).dc_cal_ch2(Flag::Disable).oc_toff(
        Flag::Disable,
    )
}

/// The payload the initialization writes to control register 1, given the
/// raw word its preceding read returned: the decoded fields with the
/// defaults applied, reserved bits preserved.
pub open spec fn spec_init_control1_payload(raw: u16) -> u16 {
    spec_control1_defaults(ControlRegister1::spec_parse(raw)).spec_data()
}

/// The payload the initialization writes to control register 2, given the
/// raw word its preceding read returned.
pub open spec fn spec_init_control2_payload(raw: u16) -> u16 {
    spec_control2_defaults(ControlRegister2::spec_parse(raw)).spec_data()
}

/// Which configuration write the initialization is in.
#[derive(Clone, Copy, Debug, PartialEq, Eq, Structural)]
pub enum InitPhase {
    /// Writing the power-on defaults into control register 1.
    Control1(WritePhase),
    /// Writing the power-on defaults into control register 2.
    Control2(WritePhase),
}

/// State of the fixed power-on initialization: chip-enable reset pulse,
/// select settle, the two configuration writes, and a final settle delay —
/// in that order, with no branching. The first transport failure abandons
/// the sequence.
#[derive(Clone, Copy, Debug, PartialEq, Eq, Structural)]
pub struct InitSession {
    pub phase: InitPhase,
}

/// What the initialization does after a reply: wait for the next
/// response, or finish configured or with the transport error.
#[derive(Debug, PartialEq, Eq)]
pub enum InitStep<E> {
    Continue(InitSession),
    Done(Result<(), E>),
}

/// The session state hidden in a `Continue`; meaningless for `Done`.
pub open spec fn init_continue<E>(t: InitStep<E>) -> InitSession {
    match t {
        InitStep::Continue(s) => s,
        InitStep::Done(_) => vstd::pervasive::arbitrary(),
    }
}

/// The chip-enable reset pulse: high, low, high, each level held for
/// the pulse delay; it power-cycles the output drivers.
pub open spec fn pulse_trace() -> Seq<Action> {
    seq![
        Action::EnGateHigh,
        Action::Wait(PULSE_DELAY),
        Action::EnGateLow,
        Action::Wait(PULSE_DELAY),
        Action::EnGateHigh,
        Action::Wait(PULSE_DELAY),
    ]
}

/// The bus-idle settle before the first transaction: chip-select low,
/// held for the long settle delay.
pub open spec fn settle_trace() -> Seq<Action> {
    seq![Action::NscsLow, Action::Wait(SETTLE_DELAY)]
}

/// The first actions of the initialization and the session's initial
/// state: the reset pulse, the settle, and the opening transaction of the
/// control register 1 configuration.
pub open spec fn spec_init_begin() -> (Seq<Action>, InitSession) {
    (
        pulse_trace() + settle_trace() + select_trace(
            spec_read_frame(ControlRegister1::spec_addr()),
        ),
        InitSession { phase: InitPhase::Control1(WritePhase::Reading(ReadPhase::AwaitDiscard)) },
    )
}

/// The exact transition of the initialization on one bus reply. The
/// embedded writes read each control register first and write back its
/// decoded value with the power-on defaults applied, so reserved bits are
/// preserved. A transport failure anywhere abandons the sequence — the
/// failed transaction is still closed with chip-select de-asserted — and
/// is surfaced verbatim.
pub open spec fn spec_init_step<E>(s: InitSession, reply: BusReply<E>) -> (Seq<Action>, InitStep<
    E,
>) {
    match s.phase {
        InitPhase::Control1(wp) => {
            let ws = WriteSession { addr: ControlRegister1::spec_addr(), phase: wp };
            let (acts, inner) = spec_write_step::<E>(ws, reply);
            match inner {
                WriteStep::Continue(w2) => (
                    acts,
                    InitStep::Continue(InitSession { phase: InitPhase::Control1(w2.phase) }),
                ),
                WriteStep::NeedUpdate(w2, raw) => {
                    let (acts2, w3) = spec_write_resume(w2, spec_init_control1_payload(raw));
                    (
                        acts + acts2,
                        InitStep::Continue(InitSession { phase: InitPhase::Control1(w3.phase) }),
                    )
                },
                WriteStep::Done(res) => match res {
                    Ok(_) => (
                        acts + select_trace(spec_read_frame(ControlRegister2::spec_addr())),
                        InitStep::Continue(
                            InitSession {
                                phase: InitPhase::Control2(
                                    WritePhase::Reading(ReadPhase::AwaitDiscard),
                                ),
                            },
                        ),
                    ),
                    Err(e) => (acts, InitStep::Done(Err(e))),
                },
            }
        },
        InitPhase::Control2(wp) => {
            let ws = WriteSession { addr: ControlRegister2::spec_addr(), phase: wp };
            let (acts, inner) = spec_write_step::<E>(ws, reply);
            match inner {
                WriteStep::Continue(w2) => (
                    acts,
                    InitStep::Continue(InitSession { phase: InitPhase::Control2(w2.phase) }),
                ),
                WriteStep::NeedUpdate(w2, raw) => {
                    let (acts2, w3) = spec_write_resume(w2, spec_init_control2_payload(raw));
                    (
                        acts + acts2,
                        InitStep::Continue(InitSession { phase: InitPhase::Control2(w3.phase) }),
                    )
                },
                WriteStep::Done(res) => match res {
                    Ok(_) => (acts + seq![Action::Wait(CONFIG_DELAY)], InitStep::Done(Ok(()))),
                    Err(e) => (acts, InitStep::Done(Err(e))),
                },
            }
        },
    }
}

impl InitSession {
    /// The embedded write session always has a transfer pending: the
    /// initialization supplies its fixed updates itself, so it is never
    /// left waiting for a caller's update.
    pub open spec fn wf(self) -> bool {
        match self.phase {
            InitPhase::Control1(wp) => !(wp is AwaitUpdate),
            InitPhase::Control2(wp) => !(wp is AwaitUpdate),
        }
    }

    /// Starts the power-on initialization: returns the reset pulse, the
    /// select settle and the opening of the first configuration write.
    pub fn begin() -> (r: (Vec<Action>, InitSession))
        ensures
            r.0@ == spec_init_begin().0,
            r.1 == spec_init_begin().1,
            r.1.wf(),
    {
        let mut acts: Vec<Action> = Vec::new();
        acts.push(Action::EnGateHigh);
        acts.push(Action::Wait(PULSE_DELAY));
        acts.push(Action::EnGateLow);
        acts.push(Action::Wait(PULSE_DELAY));
        acts.push(Action::EnGateHigh);
        acts.push(Action::Wait(PULSE_DELAY));
        acts.push(Action::NscsLow);
        acts.push(Action::Wait(SETTLE_DELAY));
        let frame: u16 = frame_for_read(ControlRegister1::addr());
        push_select(&mut acts, frame);
        proof {
            assert(acts@ =~= spec_init_begin().0);
        }
        (acts, InitSession { phase: InitPhase::Control1(WritePhase::Reading(ReadPhase::AwaitDiscard)) })
    }

    /// Feeds the initialization the reply to its pending transfer.
    pub fn step<E>(self, reply: BusReply<E>) -> (r: (Vec<Action>, InitStep<E>))
        requires
            self.wf(),
        ensures
            r.0@ == spec_init_step::<E>(self, reply).0,
            r.1 == spec_init_step::<E>(self, reply).1,
            (r.1 matches InitStep::Continue(s2) ==> s2.wf()),
    {
        match self.phase {
            InitPhase::Control1(wp) => {
                let ws = WriteSession { addr: ControlRegister1::addr(), phase: wp };
                let (mut acts, inner) = ws.step::<E>(reply);
                match inner {
                    WriteStep::Continue(w2) => (
                        acts,
                        InitStep::Continue(InitSession { phase: InitPhase::Control1(w2.phase) }),
                    ),
                    WriteStep::NeedUpdate(w2, raw) => {
                        let current = ControlRegister1::parse(raw);
                        let updated = control1_defaults(current);
                        let (mut acts2, w3) = w2.resume(updated.data());
                        acts.append(&mut acts2);
                        (
                            acts,
                            InitStep::Continue(
                                InitSession { phase: InitPhase::Control1(w3.phase) },
                            ),
                        )
                    },
                    WriteStep::Done(res) => match res {
                        Ok(_) => {
                            let frame: u16 = frame_for_read(ControlRegister2::addr());
                            push_select(&mut acts, frame);
                            (
                                acts,
                                InitStep::Continue(
                                    InitSession {
                                        phase: InitPhase::Control2(
                                            WritePhase::Reading(ReadPhase::AwaitDiscard),
                                        ),
                                    },
                                ),
                            )
                        },
                        Err(e) => (acts, InitStep::Done(Err(e))),
                    },
                }
            },
            InitPhase::Control2(wp) => {
                let ws = WriteSession { addr: ControlRegister2::addr(), phase: wp };
                let (mut acts, inner) = ws.step::<E>(reply);
                match inner {
                    WriteStep::Continue(w2) => (
                        acts,
                        InitStep::Continue(InitSession { phase: InitPhase::Control2(w2.phase) }),
                    ),
                    WriteStep::NeedUpdate(w2, raw) => {
                        let current = ControlRegister2::parse(raw);
                        let updated = control2_defaults(current);
                        let (mut acts2, w3) = w2.resume(updated.data());
                        acts.append(&mut acts2);
                        (
                            acts,
                            InitStep::Continue(
                                InitSession { phase: InitPhase::Control2(w3.phase) },
                            ),
                        )
                    },
                    WriteStep::Done(res) => match res {
                        Ok(_) => {
                            acts.push(Action::Wait(CONFIG_DELAY));
                            proof {
                                assert(acts@ =~= spec_init_step::<E>(self, reply).0);
                            }
                            (acts, InitStep::Done(Ok(())))
                        },
                        Err(e) => (acts, InitStep::Done(Err(e))),
                    },
                }
            },
        }
    }
}

/// The full action trace of an initialization whose six transactions all
/// got a response, given the raw words the two control register reads
/// returned (they decide the reserved bits written back).
pub open spec fn spec_init_trace(cr1_read: u16, cr2_read: u16) -> Seq<Action> {
    pulse_trace() + settle_trace() + select_trace(spec_read_frame(ControlRegister1::spec_addr()))
        + deselect_trace() + select_trace(spec_read_frame(ControlRegister1::spec_addr()))
        + deselect_trace() + select_trace(
        spec_write_frame(ControlRegister1::spec_addr(), spec_init_control1_payload(cr1_read)),
    ) + deselect_trace() + select_trace(spec_read_frame(ControlRegister2::spec_addr()))
        + deselect_trace() + select_trace(spec_read_frame(ControlRegister2::spec_addr()))
        + deselect_trace() + select_trace(
        spec_write_frame(ControlRegister2::spec_addr(), spec_init_control2_payload(cr2_read)),
    ) + deselect_trace() + seq![Action::Wait(CONFIG_DELAY)]
}

/// Initialization sequence law: whatever six responses the transport
/// returns, the initialization performs exactly the reset pulse, the
/// select settle, the two-phase read and defaults write of control
/// register 1, the same for control register 2, and the final settle —
/// in that order, and ends configured.
pub proof fn lemma_init_sequence<E>(r1: u16, r2: u16, r3: u16, r4: u16, r5: u16, r6: u16)
    ensures
        ({
            let (a0, s0) = spec_init_begin();
            let (a1, t1) = spec_init_step::<E>(s0, BusReply::Received(r1));
            let (a2, t2) = spec_init_step::<E>(init_continue(t1), BusReply::Received(r2));
            let (a3, t3) = spec_init_step::<E>(init_continue(t2), BusReply::Received(r3));
            let (a4, t4) = spec_init_step::<E>(init_continue(t3), BusReply::Received(r4));
            let (a5, t5) = spec_init_step::<E>(init_continue(t4), BusReply::Received(r5));
            let (a6, t6) = spec_init_step::<E>(init_continue(t5), BusReply::Received(r6));
            (t1 is Continue) && (t2 is Continue) && (t3 is Continue) && (t4 is Continue) && (
            t5 is Continue) && t6 == InitStep::<E>::Done(Ok(())) && a0 + a1 + a2 + a3 + a4 + a5
                + a6 == spec_init_trace(r2, r5)
        }),
{
    let (a0, s0) = spec_init_begin();
    let (a1, t1) = spec_init_step::<E>(s0, BusReply::Received(r1));
    let (a2, t2) = spec_init_step::<E>(init_continue(t1), BusReply::Received(r2));
    let (a3, t3) = spec_init_step::<E>(init_continue(t2), BusReply::Received(r3));
    let (a4, t4) = spec_init_step::<E>(init_continue(t3), BusReply::Received(r4));
    let (a5, t5) = spec_init_step::<E>(init_continue(t4), BusReply::Received(r5));
    let (a6, t6) = spec_init_step::<E>(init_continue(t5), BusReply::Received(r6));
    assert(a0 + a1 + a2 + a3 + a4 + a5 + a6 =~= spec_init_trace(r2, r5));
}

/// The configuration written to control register 1 during initialization
/// decodes to exactly the power-on default field values, whatever raw
/// word the preceding read returned.
pub proof fn lemma_init_control1_payload_decodes_to_defaults(raw: u16)
    ensures
        ({
            let cfg = ControlRegister1::spec_parse(spec_init_control1_payload(raw));
            cfg.gate_current == 0 && cfg.gate_reset == Flag::Disable && cfg.pwm_mode
                == PwmMode::Six && cfg.ocp_mode == 0 && cfg.oc_adj_set == 15
        }),
{
    ControlRegister1::lemma_decode_of_encode(
        spec_control1_defaults(ControlRegister1::spec_parse(raw)),
    );
}

/// The configuration written to control register 2 during initialization
/// decodes to exactly the power-on default field values, whatever raw
/// word the preceding read returned.
pub proof fn lemma_init_control2_payload_decodes_to_defaults(raw: u16)
    ensures
        ({
            let cfg = ControlRegister2::spec_parse(spec_init_control2_payload(raw));
            cfg.octw_mode == 0 && cfg.shunt_gain == 3 && cfg.dc_cal_ch1 == Flag::Disable
                && cfg.dc_cal_ch2 == Flag::Disable && cfg.oc_toff == Flag::Disable
        }),
{
    ControlRegister2::lemma_decode_of_encode(
        spec_control2_defaults(ControlRegister2::spec_parse(raw)),
    );
}

/// Failure propagation law (initialization): a transport failure on any
/// of the six transactions abandons the sequence at once — the failed
/// transaction is still closed, chip-select de-asserted and the hold
/// time honored — and the error is the only output.
pub proof fn lemma_init_failure<E>(s: InitSession, e: E)
    requires
        s.wf(),
    ensures
        spec_init_step::<E>(s, BusReply::Failed(e)).0 == deselect_trace(),
        spec_init_step::<E>(s, BusReply::Failed(e)).1 == InitStep::<E>::Done(Err(e)),
{
}

} // verus!

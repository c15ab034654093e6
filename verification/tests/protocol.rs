use drv8301::command::{frame_for_read, frame_for_write};
use drv8301::driver::{
    Action, BusReply, InitSession, InitStep, ReadSession, ReadStep, WriteSession, WriteStep,
    CONFIG_DELAY, HOLD_DELAY, PULSE_DELAY, SETTLE_DELAY, SETUP_DELAY,
};
use drv8301::register::{ControlRegister1, ControlRegister2, Flag, PwmMode, Register};

#[test]
fn two_phase_read_returns_second_response() {
    // A simulated transport returns A on the first exchange and B on the
    // second: the read must return B, never A.
    let a: u16 = 0x0AAA;
    let b: u16 = 0x0BBB;
    let (acts0, s0) = ReadSession::begin(0x2);
    assert_eq!(
        acts0,
        vec![Action::NscsLow, Action::Wait(SETUP_DELAY), Action::Transfer(frame_for_read(0x2))]
    );
    let (acts1, t1) = s0.step::<u8>(BusReply::Received(a));
    assert_eq!(
        acts1,
        vec![
            Action::NscsHigh,
            Action::Wait(HOLD_DELAY),
            Action::NscsLow,
            Action::Wait(SETUP_DELAY),
            Action::Transfer(frame_for_read(0x2)),
        ]
    );
    let s1 = match t1 {
        ReadStep::Continue(s) => s,
        other => panic!("read ended early: {:?}", other),
    };
    let (acts2, t2) = s1.step::<u8>(BusReply::Received(b));
    assert_eq!(acts2, vec![Action::NscsHigh, Action::Wait(HOLD_DELAY)]);
    assert_eq!(t2, ReadStep::Done(Ok(b)));
}

#[test]
fn read_failure_is_only_output() {
    // Failure on the first exchange.
    let (_, s0) = ReadSession::begin(0x0);
    let (acts, t) = s0.step::<u8>(BusReply::Failed(7));
    // The failed transaction is still closed: de-assert, then hold time.
    assert_eq!(acts, vec![Action::NscsHigh, Action::Wait(HOLD_DELAY)]);
    assert_eq!(t, ReadStep::Done(Err(7)));
    // Failure on the second exchange.
    let (_, s0) = ReadSession::begin(0x0);
    let (_, t1) = s0.step::<u8>(BusReply::Received(0x0001));
    let s1 = match t1 {
        ReadStep::Continue(s) => s,
        other => panic!("read ended early: {:?}", other),
    };
    let (acts2, t2) = s1.step::<u8>(BusReply::Failed(9));
    assert_eq!(acts2, vec![Action::NscsHigh, Action::Wait(HOLD_DELAY)]);
    assert_eq!(t2, ReadStep::Done(Err(9)));
}

#[test]
fn write_reads_updates_and_writes_back() {
    let (acts0, s0) = WriteSession::begin(0x2);
    assert_eq!(
        acts0,
        vec![Action::NscsLow, Action::Wait(SETUP_DELAY), Action::Transfer(frame_for_read(0x2))]
    );
    let (_, t1) = s0.step::<u8>(BusReply::Received(0xFFFF));
    let s1 = match t1 {
        WriteStep::Continue(s) => s,
        other => panic!("write ended early: {:?}", other),
    };
    // The second response carries the register's current value.
    let (_, t2) = s1.step::<u8>(BusReply::Received(0x2AD5));
    let (s2, raw) = match t2 {
        WriteStep::NeedUpdate(s, v) => (s, v),
        other => panic!("expected the update request: {:?}", other),
    };
    assert_eq!(raw, 0x2AD5);
    // Change only gate_current; all other bits ride along.
    let updated = ControlRegister1::parse(raw).gate_current(2);
    assert_eq!(updated.data(), 0x2AD6);
    let (acts3, s3) = s2.resume(updated.data());
    assert_eq!(
        acts3,
        vec![
            Action::NscsLow,
            Action::Wait(SETUP_DELAY),
            Action::Transfer(frame_for_write(0x2, 0x2AD6)),
        ]
    );
    // The chip echoes the written value.
    let (acts4, t4) = s3.step::<u8>(BusReply::Received(0x02D6));
    assert_eq!(acts4, vec![Action::NscsHigh, Action::Wait(HOLD_DELAY)]);
    assert_eq!(t4, WriteStep::Done(Ok(0x02D6)));
}

#[test]
fn write_failure_is_only_output() {
    // Failure on the write-back exchange, after the read succeeded.
    let (_, s0) = WriteSession::begin(0x3);
    let (_, t1) = s0.step::<u8>(BusReply::Received(0));
    let s1 = match t1 {
        WriteStep::Continue(s) => s,
        other => panic!("write ended early: {:?}", other),
    };
    let (_, t2) = s1.step::<u8>(BusReply::Received(0));
    let s2 = match t2 {
        WriteStep::NeedUpdate(s, _) => s,
        other => panic!("expected the update request: {:?}", other),
    };
    let (_, s3) = s2.resume(0x0055);
    let (acts, t) = s3.step::<u8>(BusReply::Failed(3));
    assert_eq!(acts, vec![Action::NscsHigh, Action::Wait(HOLD_DELAY)]);
    assert_eq!(t, WriteStep::Done(Err(3)));
}

fn run_init(responses: [BusReply<u8>; 6]) -> (Vec<Action>, Option<Result<(), u8>>) {
    let (acts, s) = InitSession::begin();
    let mut recorded: Vec<Action> = acts;
    let mut session = s;
    let mut outcome: Option<Result<(), u8>> = None;
    for reply in responses {
        let (acts, t) = session.step::<u8>(reply);
        recorded.extend(acts);
        match t {
            InitStep::Continue(s2) => session = s2,
            InitStep::Done(res) => {
                outcome = Some(res);
                break;
            },
        }
    }
    (recorded, outcome)
}

#[test]
fn init_sequence_order() {
    let (recorded, outcome) = run_init([
        BusReply::Received(0),
        BusReply::Received(0),
        BusReply::Received(0),
        BusReply::Received(0),
        BusReply::Received(0),
        BusReply::Received(0),
    ]);
    assert_eq!(outcome, Some(Ok(())));
    // With all-zero reads, the configuration writes carry exactly the
    // power-on defaults: ControlRegister1 {gate_current=0,
    // gate_reset=Disable, pwm_mode=Six, ocp_mode=0, oc_adj_set=15} and
    // ControlRegister2 {octw_mode=0, shunt_gain=3, dc_cal_ch1=Disable,
    // dc_cal_ch2=Disable, oc_toff=Disable}.
    let cfg1 = ControlRegister1::parse(0x03C0);
    assert_eq!(cfg1.gate_current, 0);
    assert_eq!(cfg1.gate_reset, Flag::Disable);
    assert_eq!(cfg1.pwm_mode, PwmMode::Six);
    assert_eq!(cfg1.ocp_mode, 0);
    assert_eq!(cfg1.oc_adj_set, 15);
    let cfg2 = ControlRegister2::parse(0x000C);
    assert_eq!(cfg2.octw_mode, 0);
    assert_eq!(cfg2.shunt_gain, 3);
    assert_eq!(cfg2.dc_cal_ch1, Flag::Disable);
    assert_eq!(cfg2.dc_cal_ch2, Flag::Disable);
    assert_eq!(cfg2.oc_toff, Flag::Disable);
    let read1 = frame_for_read(ControlRegister1::addr());
    let write1 = frame_for_write(ControlRegister1::addr(), 0x03C0);
    let read2 = frame_for_read(ControlRegister2::addr());
    let write2 = frame_for_write(ControlRegister2::addr(), 0x000C);
    let expected = vec![
        // Chip-enable reset pulse: high, low, high.
        Action::EnGateHigh,
        Action::Wait(PULSE_DELAY),
        Action::EnGateLow,
        Action::Wait(PULSE_DELAY),
        Action::EnGateHigh,
        Action::Wait(PULSE_DELAY),
        // Select settle.
        Action::NscsLow,
        Action::Wait(SETTLE_DELAY),
        // ControlRegister1: two-phase read, then the defaults write.
        Action::NscsLow,
        Action::Wait(SETUP_DELAY),
        Action::Transfer(read1),
        Action::NscsHigh,
        Action::Wait(HOLD_DELAY),
        Action::NscsLow,
        Action::Wait(SETUP_DELAY),
        Action::Transfer(read1),
        Action::NscsHigh,
        Action::Wait(HOLD_DELAY),
        Action::NscsLow,
        Action::Wait(SETUP_DELAY),
        Action::Transfer(write1),
        Action::NscsHigh,
        Action::Wait(HOLD_DELAY),
        // ControlRegister2: two-phase read, then the defaults write.
        Action::NscsLow,
        Action::Wait(SETUP_DELAY),
        Action::Transfer(read2),
        Action::NscsHigh,
        Action::Wait(HOLD_DELAY),
        Action::NscsLow,
        Action::Wait(SETUP_DELAY),
        Action::Transfer(read2),
        Action::NscsHigh,
        Action::Wait(HOLD_DELAY),
        Action::NscsLow,
        Action::Wait(SETUP_DELAY),
        Action::Transfer(write2),
        Action::NscsHigh,
        Action::Wait(HOLD_DELAY),
        // Final settle.
        Action::Wait(CONFIG_DELAY),
    ];
    assert_eq!(recorded, expected);
}

#[test]
fn init_preserves_reserved_bits_of_read_value() {
    // The read of ControlRegister2 reports reserved bits 7-9 set; the
    // defaults write must carry them back unchanged.
    let (recorded, outcome) = run_init([
        BusReply::Received(0),
        BusReply::Received(0),
        BusReply::Received(0),
        BusReply::Received(0),
        BusReply::Received(0x0380),
        BusReply::Received(0),
    ]);
    assert_eq!(outcome, Some(Ok(())));
    let write2 = Action::Transfer(frame_for_write(0x3, 0x038C));
    assert!(recorded.contains(&write2));
}

#[test]
fn init_failure_is_only_output() {
    // Failure on the very first exchange.
    let (_, s) = InitSession::begin();
    let (acts, t) = s.step::<u8>(BusReply::Failed(1));
    assert_eq!(acts, vec![Action::NscsHigh, Action::Wait(HOLD_DELAY)]);
    assert_eq!(t, InitStep::Done(Err(1)));
    // Failure in the middle of the second configuration write.
    let (recorded_ok, _) = run_init([
        BusReply::Received(0),
        BusReply::Received(0),
        BusReply::Received(0),
        BusReply::Received(0),
        BusReply::Received(0),
        BusReply::Received(0),
    ]);
    let (recorded, outcome) = run_init([
        BusReply::Received(0),
        BusReply::Received(0),
        BusReply::Received(0),
        BusReply::Received(0),
        BusReply::Failed(5),
        BusReply::Received(0),
    ]);
    assert_eq!(outcome, Some(Err(5)));
    // The abandoned run emitted strictly fewer actions than a full one.
    assert!(recorded.len() < recorded_ok.len());
}

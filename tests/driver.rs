use std::cell::RefCell;
use std::rc::Rc;

use dw1000::configs::{
    AutoAck, BitRate, PreambleLength, PulseRepetitionFrequency, RxConfig, SfdSequence, TxConfig,
    TxContinuation, UwbChannel,
};
use dw1000::device::{Ready, DW1000};
use dw1000::error::{Error, PollError};
use dw1000::frame::MacAddress;
use dw1000::ready::{IrqPolarity, SendTime, SyncBehaviour};
use dw1000::registers::{Field, FieldValue, Register, Registers};
use dw1000::time::Instant;

/// One register operation as the simulated chip saw it.
#[derive(Debug, Clone, PartialEq)]
enum Op {
    Write(Register, Vec<FieldValue>),
    Modify(Register, Vec<FieldValue>),
    Read(Register),
    Bytes(Register, Vec<u8>),
    Delay(u32),
}

/// A simulated chip: field values per register, and a log of operations.
#[derive(Default)]
struct Chip {
    fields: Vec<(Register, Field, u64)>,
    log: Vec<Op>,
    fail_at: Option<usize>,
}

impl Chip {
    fn get(&self, reg: Register, field: Field) -> u64 {
        self.fields
            .iter()
            .find(|(r, f, _)| *r == reg && *f == field)
            .map(|(_, _, v)| *v)
            .unwrap_or(0)
    }

    fn set(&mut self, reg: Register, field: Field, value: u64) {
        self.fields.retain(|(r, f, _)| !(*r == reg && *f == field));
        self.fields.push((reg, field, value));
    }

    fn apply(&mut self, reg: Register, fields: &[FieldValue]) {
        for fv in fields {
            match (reg, fv.field) {
                // Status flags are cleared by writing 1.
                (Register::SysStatus, f) => {
                    if fv.value == 1 {
                        self.set(reg, f, 0)
                    }
                }
                // The event counter commands clear themselves at once.
                (Register::EvcCtrl, _) => {}
                (r, f) => self.set(r, f, fv.value),
            }
        }
    }

    fn record(&mut self, op: Op) -> Result<(), Fault> {
        self.log.push(op);
        if self.fail_at == Some(self.log.len() - 1) {
            Err(Fault)
        } else {
            Ok(())
        }
    }

    fn count(&self, op: &Op) -> usize {
        self.log.iter().filter(|o| *o == op).count()
    }
}

#[derive(Debug, PartialEq)]
struct Fault;

#[derive(Clone)]
struct Bus(Rc<RefCell<Chip>>);

impl Registers for Bus {
    type Error = Fault;

    fn write(&mut self, reg: Register, fields: &[FieldValue]) -> Result<(), Fault> {
        let mut chip = self.0.borrow_mut();
        chip.record(Op::Write(reg, fields.to_vec()))?;
        if reg != Register::SysStatus && reg != Register::EvcCtrl {
            chip.fields.retain(|(r, _, _)| *r != reg);
        }
        chip.apply(reg, fields);
        Ok(())
    }

    fn modify(&mut self, reg: Register, fields: &[FieldValue]) -> Result<(), Fault> {
        let mut chip = self.0.borrow_mut();
        chip.record(Op::Modify(reg, fields.to_vec()))?;
        chip.apply(reg, fields);
        Ok(())
    }

    fn read(&mut self, reg: Register) -> Result<Vec<FieldValue>, Fault> {
        let mut chip = self.0.borrow_mut();
        chip.record(Op::Read(reg))?;
        Ok(chip
            .fields
            .iter()
            .filter(|(r, _, _)| *r == reg)
            .map(|(_, f, v)| FieldValue { field: *f, value: *v })
            .collect())
    }

    fn write_bytes(&mut self, reg: Register, data: &[u8]) -> Result<(), Fault> {
        self.0.borrow_mut().record(Op::Bytes(reg, data.to_vec()))
    }

    fn delay_ms(&mut self, ms: u32) {
        self.0.borrow_mut().log.push(Op::Delay(ms));
    }
}

fn fv(field: Field, value: u64) -> FieldValue {
    FieldValue { field, value }
}

fn tx_config(continuation: TxContinuation) -> TxConfig {
    TxConfig {
        bitrate: BitRate::Kbps6800,
        ranging_enable: true,
        pulse_repetition_frequency: PulseRepetitionFrequency::Mhz16,
        preamble_length: PreambleLength::Symbols64,
        channel: UwbChannel::Channel5,
        sfd_sequence: SfdSequence::Decawave,
        append_crc: true,
        continuation,
    }
}

fn rx_config(frame_filtering: bool) -> RxConfig {
    RxConfig {
        bitrate: BitRate::Kbps6800,
        frame_filtering,
        pulse_repetition_frequency: PulseRepetitionFrequency::Mhz16,
        expected_preamble_length: PreambleLength::Symbols64,
        channel: UwbChannel::Channel5,
        sfd_sequence: SfdSequence::Decawave,
        auto_ack: AutoAck::Disabled,
    }
}

fn ready_device() -> (Rc<RefCell<Chip>>, DW1000<Bus, Ready>) {
    let chip = Rc::new(RefCell::new(Chip::default()));
    let dev = match DW1000::new(Bus(chip.clone())).init() {
        Ok(d) => d,
        Err(e) => panic!("init failed: {:?}", e),
    };
    (chip, dev)
}

fn clear_flags_op() -> Op {
    Op::Write(
        Register::SysStatus,
        vec![
            fv(Field::Txfrb, 1),
            fv(Field::Txprs, 1),
            fv(Field::Txphs, 1),
            fv(Field::Txfrs, 1),
        ],
    )
}

#[test]
fn init_writes_tuning_values_and_loads_lde() {
    let chip = Rc::new(RefCell::new(Chip::default()));
    let dev = DW1000::new(Bus(chip.clone()));
    assert_eq!(dev.seq(), 0);
    assert!(dev.init().is_ok());
    let c = chip.borrow();
    assert_eq!(c.log[0], Op::Write(Register::AgcTune1, vec![fv(Field::Value, 0x8870)]));
    assert_eq!(c.get(Register::FsPlltune, Field::Value), 0xBE);
    // No calibration in the OTP memory: LDOTUNE stays untouched.
    assert!(!c.log.iter().any(|o| matches!(o, Op::Write(Register::Ldotune, _))));
    assert_eq!(c.count(&Op::Delay(5)), 1);
    let delay_at = c.log.iter().position(|o| *o == Op::Delay(5)).unwrap();
    assert_eq!(c.log[delay_at - 1], Op::Write(Register::OtpCtrl, vec![fv(Field::Ldeload, 1)]));
}

#[test]
fn init_writes_ldotune_from_calibration() {
    let chip = Rc::new(RefCell::new(Chip::default()));
    chip.borrow_mut().set(Register::OtpRdat, Field::Value, 0x1234);
    assert!(DW1000::new(Bus(chip.clone())).init().is_ok());
    let c = chip.borrow();
    assert_eq!(c.get(Register::Ldotune, Field::Value), 0x1234 | (0x1234u64 << 32));
}

#[test]
fn init_reports_transport_failure() {
    let chip = Rc::new(RefCell::new(Chip::default()));
    chip.borrow_mut().fail_at = Some(3);
    let r = DW1000::new(Bus(chip.clone())).init();
    assert!(matches!(r, Err(Error::Spi(Fault))));
}

#[test]
fn send_raw_wait_finish_round_trip() {
    let (chip, dev) = ready_device();
    let seq_before = dev.seq();
    let mut sending = match dev.send_raw(&[1, 2, 3], SendTime::Now, tx_config(TxContinuation::Ready))
    {
        Ok(d) => d,
        Err(e) => panic!("send failed: {:?}", e),
    };
    {
        let c = chip.borrow();
        assert_eq!(c.get(Register::TxFctrl, Field::Tflen), 5);
        assert_eq!(c.get(Register::SysCtrl, Field::Txstrt), 1);
        assert_eq!(c.get(Register::SysCtrl, Field::Wait4resp), 0);
        assert!(c.log.contains(&Op::Bytes(Register::TxBuffer, vec![1, 2, 3])));
    }
    assert!(matches!(sending.wait_transmit(), Err(PollError::WouldBlock)));
    assert!(matches!(sending.wait_transmit(), Err(PollError::WouldBlock)));
    {
        let mut c = chip.borrow_mut();
        c.set(Register::SysStatus, Field::Txfrs, 1);
        c.set(Register::TxTime, Field::TxStamp, 0xAB_CDEF_0123);
    }
    let t = match sending.wait_transmit() {
        Ok(t) => t,
        Err(e) => panic!("wait failed: {:?}", e),
    };
    assert_eq!(t.value(), 0xAB_CDEF_0123);
    assert!(sending.state().finished);
    // The flags were cleared: no second success without a new send.
    assert!(matches!(sending.wait_transmit(), Err(PollError::WouldBlock)));
    let ready = match sending.finish_sending() {
        Ok(d) => d,
        Err((_, e)) => panic!("finish failed: {:?}", e),
    };
    assert_eq!(chip.borrow().count(&clear_flags_op()), 1);
    assert_eq!(ready.seq(), seq_before.wrapping_add(1));
}

#[test]
fn send_end_to_end_advances_sequence() {
    let (chip, mut dev) = ready_device();
    for _ in 0..3 {
        let before = dev.seq();
        let mut sending = match dev.send(&[9], None, SendTime::Now, tx_config(TxContinuation::Ready))
        {
            Ok(d) => d,
            Err(e) => panic!("send failed: {:?}", e),
        };
        assert_eq!(sending.seq(), before.wrapping_add(1));
        chip.borrow_mut().set(Register::SysStatus, Field::Txfrs, 1);
        assert!(sending.wait_transmit().is_ok());
        dev = match sending.finish_sending() {
            Ok(d) => d,
            Err((_, e)) => panic!("finish failed: {:?}", e),
        };
    }
    assert_eq!(dev.seq(), 3);
}

#[test]
fn next_seq_wraps_around() {
    let (_chip, mut dev) = ready_device();
    for i in 0..256u32 {
        assert_eq!(dev.next_seq() as u32, i);
    }
    assert_eq!(dev.next_seq(), 0);
    assert_eq!(dev.seq(), 1);
}

#[test]
fn send_encodes_data_frame_with_sequence_number() {
    let (chip, mut dev) = ready_device();
    dev.set_address(0x1234, 0x5678).ok().unwrap();
    for _ in 0..7 {
        dev.next_seq();
    }
    let dest = Some(MacAddress::Short { pan_id: 0x1234, addr: 0x0042 });
    let payload = [0xAA, 0xBB];
    assert!(dev.send(&payload, dest, SendTime::Now, tx_config(TxContinuation::Ready)).is_ok());
    let c = chip.borrow();
    let bytes = c
        .log
        .iter()
        .find_map(|o| match o {
            Op::Bytes(Register::TxBuffer, b) => Some(b.clone()),
            _ => None,
        })
        .unwrap();
    assert_ne!(bytes, payload.to_vec());
    assert_eq!(bytes.len(), 3 + 4 + 4 + 2);
    assert_eq!(bytes[2], 7);
    assert_eq!(&bytes[3..5], &[0x34, 0x12]);
    assert_eq!(&bytes[5..7], &[0x42, 0x00]);
    assert_eq!(&bytes[9..11], &[0x78, 0x56]);
    assert_eq!(&bytes[11..], &payload);
    assert_eq!(c.get(Register::TxFctrl, Field::Tflen), bytes.len() as u64 + 2);
}

#[test]
fn send_rejects_too_long_frame() {
    let (_chip, dev) = ready_device();
    let payload = [0u8; 200];
    let r = dev.send(&payload, None, SendTime::Now, tx_config(TxContinuation::Ready));
    assert!(matches!(r, Err(Error::Frame)));
}

#[test]
fn delayed_send_programs_delay_register() {
    let (chip, dev) = ready_device();
    let at = Instant::new(0x10_0000_0000).unwrap();
    assert!(dev.send_raw(&[1], SendTime::Delayed(at), tx_config(TxContinuation::Ready)).is_ok());
    let c = chip.borrow();
    assert_eq!(c.get(Register::DxTime, Field::Value), 0x10_0000_0000);
    assert_eq!(c.get(Register::SysCtrl, Field::Txdlys), 1);
}

#[test]
fn on_sync_send_waits_for_pin() {
    let (chip, dev) = ready_device();
    assert!(dev.send_raw(&[1], SendTime::OnSync, tx_config(TxContinuation::Ready)).is_ok());
    let c = chip.borrow();
    assert_eq!(c.get(Register::EcCtrl, Field::Ostsm), 1);
    assert_eq!(c.get(Register::EcCtrl, Field::Wait), 33);
    assert_eq!(c.get(Register::SysCtrl, Field::Txstrt), 0);
}

#[test]
fn wait_transmit_reports_late_delayed_send() {
    let (chip, dev) = ready_device();
    let mut sending = dev.send_raw(&[1], SendTime::Now, tx_config(TxContinuation::Ready)).ok().unwrap();
    chip.borrow_mut().set(Register::EvcHpw, Field::Value, 1);
    assert!(matches!(sending.wait_transmit(), Err(PollError::Other(Error::DelayedSendTooLate))));
    chip.borrow_mut().set(Register::EvcHpw, Field::Value, 0);
    chip.borrow_mut().set(Register::EvcTpw, Field::Value, 2);
    assert!(matches!(
        sending.wait_transmit(),
        Err(PollError::Other(Error::DelayedSendPowerUpWarning))
    ));
    assert!(!sending.state().finished);
}

#[test]
fn finish_sending_with_rx_continuation_is_refused() {
    let (chip, dev) = ready_device();
    let cont = TxContinuation::Rx { frame_filtering: false, auto_ack: AutoAck::Disabled };
    let sending = dev.send_raw(&[1], SendTime::Now, tx_config(cont)).ok().unwrap();
    let ops_before = chip.borrow().log.len();
    match sending.finish_sending() {
        Err((d, Error::WrongTxContinuation)) => {
            assert_eq!(d.state().continuation, cont);
            assert!(!d.state().finished);
        }
        _ => panic!("expected WrongTxContinuation"),
    }
    assert_eq!(chip.borrow().log.len(), ops_before);
}

#[test]
fn continue_receiving_needs_finished_send() {
    let (chip, dev) = ready_device();
    let cont = TxContinuation::Rx { frame_filtering: true, auto_ack: AutoAck::Disabled };
    let mut sending = dev.send_raw(&[1], SendTime::Now, tx_config(cont)).ok().unwrap();
    assert_eq!(chip.borrow().get(Register::SysCtrl, Field::Wait4resp), 1);
    let ops_before = chip.borrow().log.len();
    sending = match sending.continue_receiving() {
        Err((d, Error::TxNotFinishedyet)) => d,
        _ => panic!("expected TxNotFinishedyet"),
    };
    assert_eq!(chip.borrow().log.len(), ops_before);
    sending = match sending.continue_receiving_double_buffered() {
        Err((d, Error::WrongTxContinuation)) => d,
        _ => panic!("expected WrongTxContinuation"),
    };
    chip.borrow_mut().set(Register::SysStatus, Field::Txfrs, 1);
    assert!(sending.wait_transmit().is_ok());
    let rx = match sending.continue_receiving() {
        Ok(d) => d,
        Err((_, e)) => panic!("continue failed: {:?}", e),
    };
    assert!(!rx.state().finished);
    assert!(rx.state().config.frame_filtering);
    assert_eq!(rx.state().config.channel, UwbChannel::Channel5);
}

#[test]
fn continue_receiving_double_buffered_after_send() {
    let (chip, dev) = ready_device();
    let cont = TxContinuation::RxDoubleBuffered {
        frame_filtering: false,
        auto_ack: AutoAck::Enabled { turnaround_time: 4 },
    };
    let mut sending = dev.send_raw(&[1], SendTime::Now, tx_config(cont)).ok().unwrap();
    assert_eq!(chip.borrow().get(Register::AckRespT, Field::AckTim), 4);
    chip.borrow_mut().set(Register::SysStatus, Field::Txfrs, 1);
    chip.borrow_mut().set(Register::SysStatus, Field::Hsrbp, 1);
    assert!(sending.wait_transmit().is_ok());
    let rx = match sending.continue_receiving_double_buffered() {
        Ok(d) => d,
        Err((_, e)) => panic!("continue failed: {:?}", e),
    };
    assert_eq!(rx.state().config.auto_ack, AutoAck::Enabled { turnaround_time: 4 });
    assert_eq!(chip.borrow().get(Register::SysCtrl, Field::Hrbpt), 1);
}

#[test]
fn abort_sending_idles_unfinished_send() {
    let (chip, dev) = ready_device();
    let cont = TxContinuation::Rx { frame_filtering: false, auto_ack: AutoAck::Disabled };
    let sending = dev.send_raw(&[1], SendTime::Now, tx_config(cont)).ok().unwrap();
    let before = chip.borrow().log.len();
    assert!(sending.abort_sending().is_ok());
    let c = chip.borrow();
    assert_eq!(
        c.log[before..].to_vec(),
        vec![
            Op::Modify(Register::SysCtrl, vec![fv(Field::Trxoff, 1)]),
            clear_flags_op(),
            Op::Modify(Register::EcCtrl, vec![fv(Field::Ostsm, 0)]),
        ]
    );
}

#[test]
fn receive_sets_single_buffer_bits() {
    let (chip, dev) = ready_device();
    let rx = match dev.receive(rx_config(false)) {
        Ok(d) => d,
        Err(e) => panic!("receive failed: {:?}", e),
    };
    assert!(!rx.state().finished);
    chip.borrow_mut().set(Register::SysStatus, Field::Mrxdfr, 1);
    let c = chip.borrow();
    assert_eq!(c.get(Register::SysCfg, Field::DisDrxb), 1);
    assert_eq!(c.get(Register::SysCfg, Field::Rxautr), 0);
    assert_eq!(c.get(Register::SysCfg, Field::Ffen), 0);
    assert_eq!(c.get(Register::SysCtrl, Field::Rxenab), 1);
    assert_eq!(c.get(Register::DrxTune1b, Field::Value), 0x0010);
    assert_eq!(c.get(Register::DrxTune4h, Field::Value), 0x0010);
}

#[test]
fn receive_double_buffered_sets_auto_reenable_bits() {
    let (chip, dev) = ready_device();
    assert!(dev.receive_auto_double_buffered(rx_config(false)).is_ok());
    let c = chip.borrow();
    assert_eq!(c.get(Register::SysCfg, Field::DisDrxb), 0);
    assert_eq!(c.get(Register::SysCfg, Field::Rxautr), 1);
}

#[test]
fn receive_double_buffered_refuses_frame_filtering() {
    let (chip, dev) = ready_device();
    let before = chip.borrow().log.len();
    let r = dev.receive_auto_double_buffered(rx_config(true));
    assert!(matches!(r, Err(Error::RxConfigFrameFilteringUnsupported)));
    assert_eq!(chip.borrow().log.len(), before);
}

#[test]
fn invalid_configuration_writes_nothing() {
    let (chip, dev) = ready_device();
    let before = chip.borrow().log.len();
    let mut config = rx_config(false);
    config.expected_preamble_length = PreambleLength::Symbols4096;
    assert!(matches!(dev.receive(config), Err(Error::InvalidConfiguration)));
    assert_eq!(chip.borrow().log.len(), before);

    let (chip, dev) = ready_device();
    let before = chip.borrow().log.len();
    let mut tx = tx_config(TxContinuation::Rx { frame_filtering: false, auto_ack: AutoAck::Disabled });
    tx.bitrate = BitRate::Kbps110;
    assert!(matches!(dev.send_raw(&[1], SendTime::Now, tx), Err(Error::InvalidConfiguration)));
    assert_eq!(chip.borrow().log.len(), before);
}

#[test]
fn enter_sleep_keeps_antenna_delay() {
    let (chip, mut dev) = ready_device();
    dev.set_antenna_delay(0x1111, 0x4050).ok().unwrap();
    let sleeping = match dev.enter_sleep(true, Some(10)) {
        Ok(d) => d,
        Err(e) => panic!("sleep failed: {:?}", e),
    };
    assert_eq!(sleeping.state().tx_antenna_delay, 0x4050);
    let c = chip.borrow();
    assert_eq!(c.get(Register::AonWcfg, Field::OnwLldo), 0);
    assert_eq!(c.get(Register::AonCfg0, Field::SleepTim), 10);
    assert_eq!(c.get(Register::AonCfg0, Field::WakeCnt), 1);
    assert_eq!(c.get(Register::SysMask, Field::Mslp2init), 1);
    assert_eq!(c.log.last(), Some(&Op::Write(Register::AonCtrl, vec![fv(Field::Save, 1)])));
}

#[test]
fn enter_sleep_keeps_regulator_tuning_when_calibrated() {
    let (chip, dev) = ready_device();
    chip.borrow_mut().set(Register::OtpRdat, Field::Value, 7);
    assert!(dev.enter_sleep(false, None).is_ok());
    let c = chip.borrow();
    assert_eq!(c.get(Register::AonWcfg, Field::OnwLldo), 1);
    assert_eq!(c.get(Register::AonCfg0, Field::WakeCnt), 0);
}

#[test]
fn setters_write_their_registers() {
    let (chip, mut dev) = ready_device();
    dev.set_sync_behaviour(SyncBehaviour::ExternalSync).ok().unwrap();
    dev.set_irq_polarity(IrqPolarity::ActiveLow).ok().unwrap();
    dev.enable_tx_interrupts().ok().unwrap();
    dev.enable_rx_interrupts().ok().unwrap();
    dev.configure_leds(true, false, false, true, 3).ok().unwrap();
    let c = chip.borrow();
    assert_eq!(c.get(Register::EcCtrl, Field::Osrsm), 1);
    assert_eq!(c.get(Register::PmscCtrl1, Field::Pllsyn), 1);
    assert_eq!(c.get(Register::SysCfg, Field::HirqPol), 0);
    assert_eq!(c.get(Register::SysMask, Field::Mtxfrs), 1);
    assert_eq!(c.get(Register::SysMask, Field::Maffrej), 1);
    assert_eq!(c.get(Register::PmscLedc, Field::BlinkTim), 3);
    assert_eq!(c.get(Register::GpioMode, Field::Msgp3), 1);
    assert_eq!(c.get(Register::GpioMode, Field::Msgp1), 0);
    drop(c);
    dev.disable_interrupts().ok().unwrap();
    assert_eq!(chip.borrow().get(Register::SysMask, Field::Mtxfrs), 0);
}

#[test]
fn transport_failure_hands_device_back() {
    let (chip, dev) = ready_device();
    let sending = dev.send_raw(&[1], SendTime::Now, tx_config(TxContinuation::Ready)).ok().unwrap();
    let next = chip.borrow().log.len();
    chip.borrow_mut().fail_at = Some(next);
    match sending.abort_sending() {
        Err((d, Error::Spi(Fault))) => assert!(!d.state().finished),
        _ => panic!("expected a transport error"),
    }
}

#[test]
fn failed_write_stops_the_setter() {
    let (chip, mut dev) = ready_device();
    let next = chip.borrow().log.len();
    chip.borrow_mut().fail_at = Some(next);
    assert!(matches!(dev.set_antenna_delay(1, 2), Err(Error::Spi(Fault))));
    let c = chip.borrow();
    assert_eq!(c.log.len(), next + 1);
    assert_eq!(c.get(Register::TxAntd, Field::Value), 0);
}

#[test]
fn prepare_send_clears_and_enables_counters() {
    let (chip, mut dev) = ready_device();
    let before = chip.borrow().log.len();
    assert!(dev.prepare_send(tx_config(TxContinuation::Ready)).is_ok());
    let c = chip.borrow();
    assert_eq!(
        c.log[before..].to_vec(),
        vec![
            Op::Write(Register::EvcCtrl, vec![fv(Field::EvcClr, 1)]),
            Op::Read(Register::EvcCtrl),
            Op::Write(Register::EvcCtrl, vec![fv(Field::EvcEn, 1)]),
            Op::Read(Register::EvcCtrl),
            Op::Modify(Register::SysCtrl, vec![fv(Field::Trxoff, 1)]),
        ]
    );
}

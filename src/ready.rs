use crate::configs::{
    rx_config_of, AutoAck, BitRate, PulseRepetitionFrequency, RxConfig, SfdSequence, TxConfig,
    TxContinuation, UwbChannel,
};
use crate::device::{
    stopped_within, Sending, Sleeping, bit, bit_of, idle_op, otp_read_ops, AutoDoubleBufferReceiving, BufferMode, DW1000, Ready,
    SingleBufferReceiving,
};
use crate::error::Error;
use crate::frame::{data_frame_bytes, encode_data_frame, MacAddress};
use crate::uninitialized::otp_word;
use crate::registers::{field_in, field_of, fv, fval, Field, FieldValue, RegOp, Register, Registers};
use vstd::prelude::*;

verus! {

/// The behaviour of the sync pin
#[derive(Clone, Copy, Debug, PartialEq, Eq, Structural)]
pub enum SyncBehaviour {
    /// The sync pin does nothing
    Disabled,
    /// The radio time resets to 0 when the sync pin is high and the clock
    /// gives a rising edge
    TimeBaseReset,
    /// When receiving, the time since the last sync is given back instead of
    /// the internal timestamp.
    ExternalSync,
    /// As `ExternalSync`, and the internal timebase is reset to 0 as well.
    ExternalSyncWithReset,
}

/// The time at which the transmission will start
#[derive(Clone, Copy, Debug, PartialEq, Eq, Structural)]
pub enum SendTime {
    /// As fast as possible
    Now,
    /// At the given instant
    Delayed(crate::time::Instant),
    /// When the sync pin is engaged (only in `ExternalSync` mode)
    OnSync,
}

/// The polarity of the irq signal
#[derive(Clone, Copy, Debug, PartialEq, Eq, Structural)]
pub enum IrqPolarity {
    /// The signal is high while the interrupt is active
    ActiveHigh,
    /// The signal is low while the interrupt is active
    ActiveLow,
}

impl IrqPolarity {
    pub open spec fn spec_code(self) -> u64 {
        match self {
            IrqPolarity::ActiveHigh => 1,
            IrqPolarity::ActiveLow => 0,
        }
    }

    /// The value of the polarity bit.
    #[verifier::when_used_as_spec(spec_code)]
    pub fn code(self) -> (r: u64)
        ensures
            r == self.spec_code(),
    {
        match self {
            IrqPolarity::ActiveHigh => 1,
            IrqPolarity::ActiveLow => 0,
        }
    }
}

/// The channel, SFD and preamble code fields, alike for sending and receiving.
pub open spec fn chan_ctrl_fields(
    channel: UwbChannel,
    prf: PulseRepetitionFrequency,
    sfd: SfdSequence,
) -> Seq<FieldValue> {
    let n = channel.spec_number();
    let code = channel.spec_preamble_code(prf);
    let vendor = bit(sfd == SfdSequence::Decawave || sfd == SfdSequence::DecawaveAlt);
    let own = bit(sfd == SfdSequence::User || sfd == SfdSequence::DecawaveAlt);
    [
        fv(Field::TxChan, n),
        fv(Field::RxChan, n),
        fv(Field::Dwsfd, vendor),
        fv(Field::Rxprf, prf.spec_code()),
        fv(Field::Tnssfd, own),
        fv(Field::Rnssfd, own),
        fv(Field::TxPcode, code),
        fv(Field::RxPcode, code),
    ]@
}

/// The SFD length write, for the two vendor sequences; the others fix
/// their own length.
pub open spec fn sfd_length_ops(sfd: SfdSequence) -> Seq<RegOp> {
    match sfd {
        SfdSequence::Decawave => seq![RegOp::Write(Register::SfdLength, [fv(Field::Value, 8)]@)],
        SfdSequence::DecawaveAlt => seq![
            RegOp::Write(Register::SfdLength, [fv(Field::Value, 16)]@),
        ],
        _ => Seq::empty(),
    }
}

/// Whether the chip has tuning values for the receiver settings.
pub open spec fn rx_config_valid(config: RxConfig) -> bool {
    config.expected_preamble_length.spec_drx_tune1b(config.bitrate) is Some
}

/// The frame filtering settings (beacon, data, acknowledgement and command
/// frames pass the filter), the buffering and re-enable bits, and the
/// 110 kbps receive mode.
pub open spec fn sys_cfg_fields(config: RxConfig, mode: BufferMode) -> Seq<FieldValue> {
    [
        fv(Field::Ffen, bit(config.frame_filtering)),
        fv(Field::Ffab, 1),
        fv(Field::Ffad, 1),
        fv(Field::Ffaa, 1),
        fv(Field::Ffam, 1),
        fv(Field::DisDrxb, bit(!mode.spec_double_buffered())),
        fv(Field::Rxautr, bit(mode.spec_auto_rx_reenable())),
        fv(Field::Rxm110k, bit(config.bitrate == BitRate::Kbps110)),
    ]@
}

/// The buffering bits that receiving sets: a single buffer without
/// re-enable (`DIS_DRXB` set, `RXAUTR` clear), or both buffers with
/// automatic re-enable (`DIS_DRXB` clear, `RXAUTR` set). With filtering off
/// the filter is disabled; the four frame kinds pass it in any case.
pub proof fn lemma_buffering_bits(config: RxConfig, mode: BufferMode)
    ensures
        field_in(sys_cfg_fields(config, mode), Field::Ffen) == bit(config.frame_filtering),
        field_in(sys_cfg_fields(config, mode), Field::Ffab) == 1,
        field_in(sys_cfg_fields(config, mode), Field::Ffad) == 1,
        field_in(sys_cfg_fields(config, mode), Field::Ffaa) == 1,
        field_in(sys_cfg_fields(config, mode), Field::Ffam) == 1,
        field_in(sys_cfg_fields(config, BufferMode::Single), Field::DisDrxb) == 1,
        field_in(sys_cfg_fields(config, BufferMode::Single), Field::Rxautr) == 0,
        field_in(sys_cfg_fields(config, BufferMode::AutoDouble), Field::DisDrxb) == 0,
        field_in(sys_cfg_fields(config, BufferMode::AutoDouble), Field::Rxautr) == 1,
{
    reveal_with_fuel(field_in, 8);
}

/// The receiver reset and the frame filtering and buffering settings.
pub open spec fn rx_mode_ops(config: RxConfig, mode: BufferMode) -> Seq<RegOp> {
    seq![
        RegOp::Modify(Register::PmscCtrl0, [fv(Field::Softreset, 0b1110)]@),
        RegOp::Modify(Register::PmscCtrl0, [fv(Field::Softreset, 0b1111)]@),
        idle_op(),
        RegOp::Modify(Register::SysCfg, sys_cfg_fields(config, mode)),
        RegOp::Modify(Register::EcCtrl, [fv(Field::Pllldt, 1)]@),
        RegOp::Write(Register::SysStatus, [fv(Field::Cplock, 1), fv(Field::ClkpllLl, 1)]@),
        RegOp::Modify(
            Register::ChanCtrl,
            chan_ctrl_fields(config.channel, config.pulse_repetition_frequency, config.sfd_sequence),
        ),
    ]
}

/// The receiver tuning writes.
pub open spec fn rx_tuning_ops(config: RxConfig) -> Seq<RegOp> {
    let prf = config.pulse_repetition_frequency;
    let pl = config.expected_preamble_length;
    seq![
        RegOp::Write(
            Register::DrxTune0b,
            [fv(Field::Value, config.bitrate.spec_drx_tune0b(config.sfd_sequence) as u64)]@,
        ),
        RegOp::Write(Register::DrxTune1a, [fv(Field::Value, prf.spec_drx_tune1a() as u64)]@),
        RegOp::Write(
            Register::DrxTune1b,
            [fv(Field::Value, pl.spec_drx_tune1b(config.bitrate)->Some_0 as u64)]@,
        ),
        RegOp::Write(
            Register::DrxTune2,
            [fv(Field::Value, prf.spec_drx_tune2(pl.spec_pac_size()) as u64)]@,
        ),
        RegOp::Write(Register::DrxTune4h, [fv(Field::Value, pl.spec_drx_tune4h() as u64)]@),
        RegOp::Write(
            Register::RfRxctrlh,
            [fv(Field::Value, config.channel.spec_rf_rxctrlh() as u64)]@,
        ),
        RegOp::Write(Register::FsPllcfg, [fv(Field::Value, config.channel.spec_fs_pllcfg() as u64)]@),
        RegOp::Write(
            Register::FsPlltune,
            [fv(Field::Value, config.channel.spec_fs_plltune() as u64)]@,
        ),
        RegOp::Write(Register::LdeCfg2, [fv(Field::Value, prf.spec_lde_cfg2() as u64)]@),
        RegOp::Write(
            Register::LdeRepc,
            [fv(Field::Value, config.channel.spec_lde_repc(prf, config.bitrate) as u64)]@,
        ),
    ]
}

/// The receive buffer pointer check (`status` is what the status read gave)
/// and the automatic acknowledgement setup.
pub open spec fn rx_finish_ops(config: RxConfig, status: Seq<FieldValue>) -> Seq<RegOp> {
    seq![RegOp::Read(Register::SysStatus, status)] + (if field_in(status, Field::Hsrbp)
        != field_in(status, Field::Icrbp) {
        seq![RegOp::Modify(Register::SysCtrl, [fv(Field::Hrbpt, 1)]@)]
    } else {
        Seq::empty()
    }) + match config.auto_ack {
        AutoAck::Enabled { turnaround_time } => seq![
            RegOp::Modify(Register::SysCfg, [fv(Field::Autoack, 1)]@),
            RegOp::Modify(Register::AckRespT, [fv(Field::AckTim, turnaround_time as u64)]@),
            RegOp::Modify(Register::SysCtrl, [fv(Field::Txstrt, 1), fv(Field::Trxoff, 1)]@),
        ],
        AutoAck::Disabled => Seq::empty(),
    }
}

/// The whole receiver configuration.
pub open spec fn rx_config_ops(config: RxConfig, mode: BufferMode, status: Seq<FieldValue>) -> Seq<
    RegOp,
> {
    rx_mode_ops(config, mode) + sfd_length_ops(config.sfd_sequence) + rx_tuning_ops(config)
        + rx_finish_ops(config, status)
}

/// Enabling the receiver.
pub open spec fn start_rx_op() -> RegOp {
    RegOp::Modify(Register::SysCtrl, [fv(Field::Rxenab, 1)]@)
}

/// The longest frame body that fits a standard frame with its two-byte
/// checksum.
pub const MAX_FRAME_DATA: usize = 125;

/// The bound on the reads of a handshake with the event counters.
pub const MAX_POLLS: u32 = 100000;

/// Reads of the event counter control register that returned `reads`.
pub open spec fn poll_ops(reads: Seq<Seq<FieldValue>>) -> Seq<RegOp> {
    Seq::new(reads.len(), |i: int| RegOp::Read(Register::EvcCtrl, reads[i]))
}

/// Each read but the last saw the bit `f` set; the last saw it cleared.
pub open spec fn polled_until_clear(reads: Seq<Seq<FieldValue>>, f: Field) -> bool {
    &&& reads.len() >= 1
    &&& field_in(reads.last(), f) != 1
    &&& forall|i: int| 0 <= i < reads.len() - 1 ==> field_in(#[trigger] reads[i], f) == 1
}

/// `MAX_POLLS` reads that each saw the bit `f` still set.
pub open spec fn polls_ran_out(reads: Seq<Seq<FieldValue>>, f: Field) -> bool {
    &&& reads.len() == MAX_POLLS
    &&& forall|i: int| 0 <= i < reads.len() ==> field_in(#[trigger] reads[i], f) == 1
}

/// The log of a send preparation whose event counter handshake ran out of
/// polls: while clearing the counters, or while enabling them.
pub open spec fn prep_timed_out(prep: Seq<RegOp>) -> bool {
    let clear = RegOp::Write(Register::EvcCtrl, [fv(Field::EvcClr, 1)]@);
    let enable = RegOp::Write(Register::EvcCtrl, [fv(Field::EvcEn, 1)]@);
    ||| exists|c: Seq<Seq<FieldValue>>|
        polls_ran_out(c, Field::EvcClr) && prep == seq![clear] + #[trigger] poll_ops(c)
    ||| exists|c: Seq<Seq<FieldValue>>, e: Seq<Seq<FieldValue>>|
        {
            &&& polled_until_clear(c, Field::EvcClr)
            &&& polls_ran_out(e, Field::EvcEn)
            &&& prep == seq![clear] + #[trigger] poll_ops(c) + seq![enable] + #[trigger] poll_ops(e)
        }
}

/// The preparation for a send that returns to ready: clear and re-enable
/// the event counters, waiting for the chip to confirm each, then force the
/// chip idle, as it sometimes sticks in receive mode.
pub open spec fn ready_prep_ops(clear_reads: Seq<Seq<FieldValue>>, enable_reads: Seq<Seq<FieldValue>>) -> Seq<RegOp> {
    seq![RegOp::Write(Register::EvcCtrl, [fv(Field::EvcClr, 1)]@)] + poll_ops(clear_reads) + seq![
        RegOp::Write(Register::EvcCtrl, [fv(Field::EvcEn, 1)]@),
    ] + poll_ops(enable_reads) + seq![idle_op()]
}

/// Whether `prep` is the preparation that a send with `config` makes: the
/// event counter handshake, or the configuration of the receiver that
/// follows the send.
pub open spec fn tx_prep(prep: Seq<RegOp>, config: TxConfig) -> bool {
    match config.continuation {
        TxContinuation::Ready => exists|c: Seq<Seq<FieldValue>>, e: Seq<Seq<FieldValue>>|
            {
                &&& polled_until_clear(c, Field::EvcClr)
                &&& polled_until_clear(e, Field::EvcEn)
                &&& prep == #[trigger] ready_prep_ops(c, e)
            },
        TxContinuation::Rx { frame_filtering, auto_ack } => exists|status: Seq<FieldValue>|
            prep == #[trigger] rx_config_ops(
                rx_config_of(config, frame_filtering, auto_ack),
                BufferMode::Single,
                status,
            ),
        TxContinuation::RxDoubleBuffered { frame_filtering, auto_ack } => exists|
            status: Seq<FieldValue>,
        |
            prep == #[trigger] rx_config_ops(
                rx_config_of(config, frame_filtering, auto_ack),
                BufferMode::AutoDouble,
                status,
            ),
    }
}

/// Whether the chip has tuning values for the settings of a send and of the
/// receiving that follows it.
pub open spec fn tx_config_valid(config: TxConfig) -> bool {
    match config.continuation {
        TxContinuation::Ready => true,
        _ => config.preamble_length.spec_drx_tune1b(config.bitrate) is Some,
    }
}

/// Programming the start time: the delay register or the sync wait.
pub open spec fn send_time_ops(send_time: SendTime) -> Seq<RegOp> {
    match send_time {
        SendTime::Delayed(t) => seq![RegOp::Write(Register::DxTime, [fv(Field::Value, t.spec_value())]@)],
        SendTime::OnSync => seq![RegOp::Modify(Register::EcCtrl, [fv(Field::Wait, 33), fv(Field::Ostsm, 1)]@)],
        SendTime::Now => Seq::empty(),
    }
}

/// The frame control fields: length with checksum, bitrate, ranging bit,
/// frequency and preamble length.
pub open spec fn tx_fctrl_fields(config: TxConfig, len: nat) -> Seq<FieldValue> {
    [
        fv(Field::Tflen, (len + 2) as u64),
        fv(Field::Tfle, 0),
        fv(Field::Txboffs, 0),
        fv(Field::Txbr, config.bitrate.spec_code()),
        fv(Field::Tr, bit(config.ranging_enable)),
        fv(Field::Txprf, config.pulse_repetition_frequency.spec_code()),
        fv(Field::Txpsr, config.preamble_length.spec_txpsr()),
        fv(Field::Pe, config.preamble_length.spec_pe()),
    ]@
}

/// The transmit control fields: checksum suppression and, unless the send
/// waits for the sync pin, the start with its delay and response flags.
pub open spec fn tx_start_fields(config: TxConfig, send_time: SendTime) -> Seq<FieldValue> {
    let no_crc = bit(!config.append_crc);
    let respond = bit(!(config.continuation is Ready));
    match send_time {
        SendTime::OnSync => [fv(Field::Sfcst, no_crc)]@,
        SendTime::Delayed(_) => [
            fv(Field::Sfcst, no_crc),
            fv(Field::Txdlys, 1),
            fv(Field::Txstrt, 1),
            fv(Field::Wait4resp, respond),
        ]@,
        SendTime::Now => [fv(Field::Sfcst, no_crc), fv(Field::Txstrt, 1), fv(Field::Wait4resp, respond)]@,
    }
}

/// The frame and its settings.
pub open spec fn tx_frame_ops(config: TxConfig, data: Seq<u8>) -> Seq<RegOp> {
    seq![
        RegOp::WriteBytes(Register::TxBuffer, data),
        RegOp::Modify(Register::TxFctrl, tx_fctrl_fields(config, data.len())),
        RegOp::Modify(
            Register::ChanCtrl,
            chan_ctrl_fields(config.channel, config.pulse_repetition_frequency, config.sfd_sequence),
        ),
    ] + sfd_length_ops(config.sfd_sequence)
}

/// The channel and leading edge detection tuning, and the start.
pub open spec fn tx_tuning_ops(config: TxConfig, send_time: SendTime) -> Seq<RegOp> {
    let prf = config.pulse_repetition_frequency;
    seq![
        RegOp::Write(Register::RfTxctrl, [fv(Field::Value, config.channel.spec_rf_txctrl() as u64)]@),
        RegOp::Write(Register::TcPgdelay, [fv(Field::Value, config.channel.spec_tc_pgdelay() as u64)]@),
        RegOp::Write(Register::FsPllcfg, [fv(Field::Value, config.channel.spec_fs_pllcfg() as u64)]@),
        RegOp::Write(Register::FsPlltune, [fv(Field::Value, config.channel.spec_fs_plltune() as u64)]@),
        RegOp::Modify(Register::LdeCfg2, [fv(Field::Value, prf.spec_lde_cfg2() as u64)]@),
        RegOp::Write(
            Register::LdeRepc,
            [fv(Field::Value, config.channel.spec_lde_repc(prf, config.bitrate) as u64)]@,
        ),
        RegOp::Modify(Register::AckRespT, [fv(Field::W4rTim, 0)]@),
        RegOp::Modify(Register::SysCtrl, tx_start_fields(config, send_time)),
    ]
}

/// Everything a send writes after its preparation.
pub open spec fn tx_ops(config: TxConfig, send_time: SendTime, data: Seq<u8>) -> Seq<RegOp> {
    send_time_ops(send_time) + tx_frame_ops(config, data) + tx_tuning_ops(config, send_time)
}

/// Setting up the sleep counter: force the 19.2 MHz clock, disable the
/// counter, set it, enable it, upload the always-on configuration, and go
/// back to automatic clock selection.
pub open spec fn sleep_timer_ops(duration: u16) -> Seq<RegOp> {
    seq![
        RegOp::Modify(Register::PmscCtrl0, [fv(Field::Sysclks, 0b01)]@),
        RegOp::Write(Register::AonCfg1, [fv(Field::SleepCen, 0), fv(Field::Smxx, 0), fv(Field::LposcCal, 0)]@),
        RegOp::Write(Register::AonCfg0, [fv(Field::SleepTim, duration as u64)]@),
        RegOp::Write(Register::AonCfg1, [fv(Field::SleepCen, 1), fv(Field::LposcCal, 1)]@),
        RegOp::Write(Register::AonCtrl, [fv(Field::UplCfg, 1)]@),
        RegOp::Write(Register::AonCtrl, [fv(Field::UplCfg, 0)]@),
        RegOp::Modify(Register::PmscCtrl0, [fv(Field::Sysclks, 0b00)]@),
    ]
}

/// Entering sleep: the sleep counter where a duration is given; the read of
/// the antenna delay (`antd` is what it gave); the wake-up interrupt; the
/// read of the regulator calibration (`otp`); what the chip keeps across
/// sleep; the wake-up sources; and the upload and save that start the sleep.
pub open spec fn sleep_ops(
    irq_on_wakeup: bool,
    sleep_duration: Option<u16>,
    antd: Seq<FieldValue>,
    otp: Seq<FieldValue>,
) -> Seq<RegOp> {
    (match sleep_duration {
        Some(d) => sleep_timer_ops(d),
        None => Seq::empty(),
    }) + seq![RegOp::Read(Register::TxAntd, antd)] + (if irq_on_wakeup {
        seq![RegOp::Modify(Register::SysMask, [fv(Field::Mslp2init, 1), fv(Field::Mcplock, 1)]@)]
    } else {
        Seq::empty()
    }) + otp_read_ops(4, otp) + seq![
        RegOp::Modify(
            Register::AonWcfg,
            [
                fv(Field::OnwLdc, 1),
                fv(Field::OnwLlde, 1),
                fv(Field::OnwLldo, bit(otp_word(otp) != 0)),
                fv(Field::OnwL64p, 1),
            ]@,
        ),
        RegOp::Modify(
            Register::AonCfg0,
            [fv(Field::WakeSpi, 1), fv(Field::WakeCnt, bit(sleep_duration is Some)), fv(Field::SleepEn, 1)]@,
        ),
        RegOp::Write(Register::AonCtrl, Seq::empty()),
        RegOp::Write(Register::AonCtrl, [fv(Field::Save, 1)]@),
    ]
}

/// A 16-bit register value as read.
pub open spec fn word16(v: Seq<FieldValue>) -> u16 {
    (field_in(v, Field::Value) % 65536) as u16
}

/// Setting the receive and transmit antenna delays.
pub open spec fn antenna_delay_ops(rx_delay: u16, tx_delay: u16) -> Seq<RegOp> {
    seq![
        RegOp::Write(Register::LdeRxantd, [fv(Field::Value, rx_delay as u64)]@),
        RegOp::Write(Register::TxAntd, [fv(Field::Value, tx_delay as u64)]@),
    ]
}

/// The sync pin settings.
pub open spec fn sync_ops(behaviour: SyncBehaviour) -> Seq<RegOp> {
    let pll_on = RegOp::Modify(Register::PmscCtrl1, [fv(Field::Pllsyn, 1)]@);
    match behaviour {
        SyncBehaviour::Disabled => seq![
            RegOp::Modify(Register::EcCtrl, [fv(Field::Osrsm, 0), fv(Field::Ostrm, 0)]@),
            RegOp::Modify(Register::PmscCtrl1, [fv(Field::Pllsyn, 0)]@),
        ],
        SyncBehaviour::TimeBaseReset => seq![
            pll_on,
            RegOp::Modify(
                Register::EcCtrl,
                [fv(Field::Pllldt, 1), fv(Field::Osrsm, 0), fv(Field::Ostrm, 1), fv(Field::Wait, 33)]@,
            ),
        ],
        SyncBehaviour::ExternalSync => seq![
            pll_on,
            RegOp::Modify(
                Register::EcCtrl,
                [fv(Field::Pllldt, 1), fv(Field::Osrsm, 1), fv(Field::Ostrm, 0), fv(Field::Wait, 33)]@,
            ),
        ],
        SyncBehaviour::ExternalSyncWithReset => seq![
            pll_on,
            RegOp::Modify(
                Register::EcCtrl,
                [fv(Field::Pllldt, 1), fv(Field::Osrsm, 1), fv(Field::Ostrm, 1), fv(Field::Wait, 33)]@,
            ),
        ],
    }
}

/// The receive events that `enable_rx_interrupts` unmasks.
pub open spec fn rx_interrupt_fields() -> Seq<FieldValue> {
    [
        fv(Field::Mrxdfr, 1),
        fv(Field::Mrxfce, 1),
        fv(Field::Mrxphe, 1),
        fv(Field::Mrxrfsl, 1),
        fv(Field::Mrxrfto, 1),
        fv(Field::Mrxovrr, 1),
        fv(Field::Mrxpto, 1),
        fv(Field::Mrxsfdto, 1),
        fv(Field::Maffrej, 1),
    ]@
}

/// The LED settings: the blink clocks run where any LED is on.
pub open spec fn led_ops(rx_ok: bool, sfd: bool, rx: bool, tx: bool, blink_time: u8) -> Seq<RegOp> {
    let any = bit(rx_ok || sfd || rx || tx);
    seq![
        RegOp::Modify(Register::PmscCtrl0, [fv(Field::Gpdce, any), fv(Field::Khzclken, any)]@),
        RegOp::Modify(Register::PmscLedc, [fv(Field::Blnken, any), fv(Field::BlinkTim, blink_time as u64)]@),
        RegOp::Modify(
            Register::GpioMode,
            [fv(Field::Msgp0, bit(rx_ok)), fv(Field::Msgp1, bit(sfd)), fv(Field::Msgp2, bit(rx)), fv(Field::Msgp3, bit(tx))]@,
        ),
    ]
}

/// The radio's own short address, from a read of the address register.
pub open spec fn address_of(v: Seq<FieldValue>) -> MacAddress {
    MacAddress::Short {
        pan_id: (field_in(v, Field::PanId) % 65536) as u16,
        addr: (field_in(v, Field::ShortAddr) % 65536) as u16,
    }
}

impl<R: Registers> DW1000<R, Ready> {
    /// Sets the receive and transmit antenna delays.
    pub fn set_antenna_delay(&mut self, rx_delay: u16, tx_delay: u16) -> (r: Result<
        (),
        Error<R::Error>,
    >)
        ensures
            r is Ok ==> final(self).ops() == old(self).ops() + antenna_delay_ops(rx_delay, tx_delay),
            r is Err ==> stopped_within(
                old(self).ops(),
                final(self).ops(),
                antenna_delay_ops(rx_delay, tx_delay),
            ),
            final(self).spec_seq() == old(self).spec_seq(),
            r matches Err(e) ==> e is Spi,
    {
        let ghost start = self.ops();
        let ghost planned = antenna_delay_ops(rx_delay, tx_delay);
        if let Err(e) = self.write_reg(Register::LdeRxantd, &[fval(Field::Value, rx_delay as u64)]) {
            assert(self.ops() =~= start + planned.take(1));
            return Err(e);
        }
        if let Err(e) = self.write_reg(Register::TxAntd, &[fval(Field::Value, tx_delay as u64)]) {
            assert(self.ops() =~= start + planned.take(2));
            return Err(e);
        }
        assert(self.ops() =~= start + planned);
        Ok(())
    }

    /// Sets the network id and short address used for sending and receiving.
    pub fn set_address(&mut self, pan_id: u16, addr: u16) -> (r: Result<(), Error<R::Error>>)
        ensures
            final(self).ops() == old(self).ops().push(
                RegOp::Write(
                    Register::Panadr,
                    [fv(Field::PanId, pan_id as u64), fv(Field::ShortAddr, addr as u64)]@,
                ),
            ),
            final(self).spec_seq() == old(self).spec_seq(),
            r matches Err(e) ==> e is Spi,
    {
        self.write_reg(
            Register::Panadr,
            &[fval(Field::PanId, pan_id as u64), fval(Field::ShortAddr, addr as u64)],
        )
    }

    /// Sets up the sync pin. After `init` it does nothing.
    pub fn set_sync_behaviour(&mut self, behaviour: SyncBehaviour) -> (r: Result<
        (),
        Error<R::Error>,
    >)
        ensures
            r is Ok ==> final(self).ops() == old(self).ops() + sync_ops(behaviour),
            r is Err ==> stopped_within(old(self).ops(), final(self).ops(), sync_ops(behaviour)),
            final(self).spec_seq() == old(self).spec_seq(),
            r matches Err(e) ==> e is Spi,
    {
        let ghost start = self.ops();
        let first = match behaviour {
            SyncBehaviour::Disabled => self.modify_reg(
                Register::EcCtrl,
                &[fval(Field::Osrsm, 0), fval(Field::Ostrm, 0)],
            ),
            _ => self.modify_reg(Register::PmscCtrl1, &[fval(Field::Pllsyn, 1)]),
        };
        if let Err(e) = first {
            assert(self.ops() =~= start + sync_ops(behaviour).take(1));
            return Err(e);
        }
        let second = match behaviour {
            // The receive PLL is not needed any more.
            SyncBehaviour::Disabled => self.modify_reg(Register::PmscCtrl1, &[fval(Field::Pllsyn, 0)]),
            SyncBehaviour::TimeBaseReset => self.modify_reg(
                Register::EcCtrl,
                &[fval(Field::Pllldt, 1), fval(Field::Osrsm, 0), fval(Field::Ostrm, 1), fval(Field::Wait, 33)],
            ),
            SyncBehaviour::ExternalSync => self.modify_reg(
                Register::EcCtrl,
                &[fval(Field::Pllldt, 1), fval(Field::Osrsm, 1), fval(Field::Ostrm, 0), fval(Field::Wait, 33)],
            ),
            SyncBehaviour::ExternalSyncWithReset => self.modify_reg(
                Register::EcCtrl,
                &[fval(Field::Pllldt, 1), fval(Field::Osrsm, 1), fval(Field::Ostrm, 1), fval(Field::Wait, 33)],
            ),
        };
        if let Err(e) = second {
            assert(self.ops() =~= start + sync_ops(behaviour).take(2));
            return Err(e);
        }
        assert(self.ops() =~= start + sync_ops(behaviour));
        Ok(())
    }

    /// Sets the polarity of the interrupt pin. The default, active high, is
    /// also the one that saves power.
    pub fn set_irq_polarity(&mut self, polarity: IrqPolarity) -> (r: Result<(), Error<R::Error>>)
        ensures
            final(self).ops() == old(self).ops().push(
                RegOp::Modify(Register::SysCfg, [fv(Field::HirqPol, polarity.spec_code())]@),
            ),
            final(self).spec_seq() == old(self).spec_seq(),
            r matches Err(e) ==> e is Spi,
    {
        self.modify_reg(Register::SysCfg, &[fval(Field::HirqPol, polarity.code())])
    }

    /// The sequence number for the next frame; the counter moves on by one,
    /// from 255 back to 0.
    pub fn next_seq(&mut self) -> (r: u8)
        ensures
            r == old(self).spec_seq(),
            final(self).spec_seq() == (old(self).spec_seq() + 1) % 256,
            final(self).ops() == old(self).ops(),
            final(self).bus() == old(self).bus(),
    {
        let seq = self.seq;
        self.seq = if seq == 255 {
            0
        } else {
            seq + 1
        };
        seq
    }

    /// Unmasks the transmit interrupt for the event that `wait_transmit`
    /// checks.
    pub fn enable_tx_interrupts(&mut self) -> (r: Result<(), Error<R::Error>>)
        ensures
            final(self).ops() == old(self).ops().push(
                RegOp::Modify(Register::SysMask, [fv(Field::Mtxfrs, 1)]@),
            ),
            final(self).spec_seq() == old(self).spec_seq(),
            r matches Err(e) ==> e is Spi,
    {
        self.modify_reg(Register::SysMask, &[fval(Field::Mtxfrs, 1)])
    }

    /// Unmasks the receive interrupts: frame ready and each receive error.
    pub fn enable_rx_interrupts(&mut self) -> (r: Result<(), Error<R::Error>>)
        ensures
            final(self).ops() == old(self).ops().push(
                RegOp::Modify(Register::SysMask, rx_interrupt_fields()),
            ),
            final(self).spec_seq() == old(self).spec_seq(),
            r matches Err(e) ==> e is Spi,
    {
        self.modify_reg(
            Register::SysMask,
            &[
                fval(Field::Mrxdfr, 1),
                fval(Field::Mrxfce, 1),
                fval(Field::Mrxphe, 1),
                fval(Field::Mrxrfsl, 1),
                fval(Field::Mrxrfto, 1),
                fval(Field::Mrxovrr, 1),
                fval(Field::Mrxpto, 1),
                fval(Field::Mrxsfdto, 1),
                fval(Field::Maffrej, 1),
            ],
        )
    }

    /// Masks all interrupts.
    pub fn disable_interrupts(&mut self) -> (r: Result<(), Error<R::Error>>)
        ensures
            final(self).ops() == old(self).ops().push(RegOp::Write(Register::SysMask, Seq::empty())),
            final(self).spec_seq() == old(self).spec_seq(),
            r matches Err(e) ==> e is Spi,
    {
        let none: [FieldValue; 0] = [];
        assert(none@ =~= Seq::<FieldValue>::empty());
        self.write_reg(Register::SysMask, &none)
    }

    /// Turns GPIO0 to GPIO3 into LED outputs for receive-ok, SFD, receive
    /// and transmit, as the flags say, blinking for `blink_time` units of
    /// 14 ms.
    pub fn configure_leds(
        &mut self,
        enable_rx_ok: bool,
        enable_sfd: bool,
        enable_rx: bool,
        enable_tx: bool,
        blink_time: u8,
    ) -> (r: Result<(), Error<R::Error>>)
        ensures
            r is Ok ==> final(self).ops() == old(self).ops() + led_ops(
                enable_rx_ok,
                enable_sfd,
                enable_rx,
                enable_tx,
                blink_time,
            ),
            r is Err ==> stopped_within(
                old(self).ops(),
                final(self).ops(),
                led_ops(enable_rx_ok, enable_sfd, enable_rx, enable_tx, blink_time),
            ),
            final(self).spec_seq() == old(self).spec_seq(),
            r matches Err(e) ==> e is Spi,
    {
        let ghost start = self.ops();
        let ghost planned = led_ops(enable_rx_ok, enable_sfd, enable_rx, enable_tx, blink_time);
        let any = bit_of(enable_rx_ok || enable_sfd || enable_rx || enable_tx);
        // The debounce clock drives the blinking.
        if let Err(e) = self.modify_reg(
            Register::PmscCtrl0,
            &[fval(Field::Gpdce, any), fval(Field::Khzclken, any)],
        ) {
            assert(self.ops() =~= start + planned.take(1));
            return Err(e);
        }
        if let Err(e) = self.modify_reg(
            Register::PmscLedc,
            &[fval(Field::Blnken, any), fval(Field::BlinkTim, blink_time as u64)],
        ) {
            assert(self.ops() =~= start + planned.take(2));
            return Err(e);
        }
        if let Err(e) = self.modify_reg(
            Register::GpioMode,
            &[
                fval(Field::Msgp0, bit_of(enable_rx_ok)),
                fval(Field::Msgp1, bit_of(enable_sfd)),
                fval(Field::Msgp2, bit_of(enable_rx)),
                fval(Field::Msgp3, bit_of(enable_tx)),
            ],
        ) {
            assert(self.ops() =~= start + planned.take(3));
            return Err(e);
        }
        assert(self.ops() =~= start + planned);
        Ok(())
    }

    /// Sets up the sleep counter to wake the radio after `duration` ticks.
    fn set_sleep_timer(&mut self, duration: u16) -> (r: Result<(), Error<R::Error>>)
        ensures
            r is Ok ==> final(self).ops() == old(self).ops() + sleep_timer_ops(duration),
            final(self).spec_seq() == old(self).spec_seq(),
            r matches Err(e) ==> e is Spi,
    {
        let ghost start = self.ops();
        self.modify_reg(Register::PmscCtrl0, &[fval(Field::Sysclks, 0b01)])?;
        // The counter may only be written while it is disabled.
        self.write_reg(
            Register::AonCfg1,
            &[fval(Field::SleepCen, 0), fval(Field::Smxx, 0), fval(Field::LposcCal, 0)],
        )?;
        self.write_reg(Register::AonCfg0, &[fval(Field::SleepTim, duration as u64)])?;
        self.write_reg(Register::AonCfg1, &[fval(Field::SleepCen, 1), fval(Field::LposcCal, 1)])?;
        self.write_reg(Register::AonCtrl, &[fval(Field::UplCfg, 1)])?;
        self.write_reg(Register::AonCtrl, &[fval(Field::UplCfg, 0)])?;
        self.modify_reg(Register::PmscCtrl0, &[fval(Field::Sysclks, 0b00)])?;
        assert(self.ops() =~= start + sleep_timer_ops(duration));
        Ok(())
    }

    /// Puts the radio to sleep. With `irq_on_wakeup` the IRQ pin is asserted
    /// when the radio wakes up. Without a `sleep_duration` the radio sleeps
    /// until woken from outside; with one, it wakes after that many ticks of
    /// about 431 ms. The transmit antenna delay, which the chip forgets, is
    /// kept in the sleeping mode.
    pub fn enter_sleep(self, irq_on_wakeup: bool, sleep_duration: Option<u16>) -> (r: Result<
        DW1000<R, Sleeping>,
        Error<R::Error>,
    >)
        ensures
            r matches Ok(d) ==> {
                &&& d.spec_seq() == self.spec_seq()
                &&& exists|antd: Seq<FieldValue>, otp: Seq<FieldValue>|
                    {
                        &&& d.ops() == self.ops() + sleep_ops(
                            irq_on_wakeup,
                            sleep_duration,
                            antd,
                            otp,
                        )
                        &&& d.mode() == (Sleeping { tx_antenna_delay: word16(antd) })
                    }
            },
            r matches Err(e) ==> e is Spi,
    {
        let mut dev = self;
        let ghost start = dev.ops();
        match sleep_duration {
            Some(d) => {
                dev.set_sleep_timer(d)?;
            },
            None => {},
        }
        let antd = dev.read_reg(Register::TxAntd)?;
        let tx_antenna_delay = (field_of(&antd, Field::Value) % 65536) as u16;
        if irq_on_wakeup {
            dev.modify_reg(Register::SysMask, &[fval(Field::Mslp2init, 1), fval(Field::Mcplock, 1)])?;
        }
        // Whether the regulator is calibrated decides whether its tuning is
        // kept across sleep.
        let otp = dev.read_otp(4)?;
        let calibrated = (field_of(&otp, Field::Value) & 0xffff_ffff) != 0;
        dev.modify_reg(
            Register::AonWcfg,
            &[
                fval(Field::OnwLdc, 1),
                fval(Field::OnwLlde, 1),
                fval(Field::OnwLldo, bit_of(calibrated)),
                fval(Field::OnwL64p, 1),
            ],
        )?;
        dev.modify_reg(
            Register::AonCfg0,
            &[
                fval(Field::WakeSpi, 1),
                fval(Field::WakeCnt, bit_of(sleep_duration.is_some())),
                fval(Field::SleepEn, 1),
            ],
        )?;
        let none: [FieldValue; 0] = [];
        assert(none@ =~= Seq::<FieldValue>::empty());
        // Upload the always-on configuration, then save it: this starts
        // the sleep.
        dev.write_reg(Register::AonCtrl, &none)?;
        dev.write_reg(Register::AonCtrl, &[fval(Field::Save, 1)])?;
        assert(dev.ops() =~= start + sleep_ops(irq_on_wakeup, sleep_duration, antd@, otp@));
        Ok(DW1000 { ll: dev.ll, seq: dev.seq, state: Sleeping { tx_antenna_delay }, log: dev.log })
    }

    /// Writes the SFD length for the vendor sequences.
    fn write_sfd_length(&mut self, sfd: SfdSequence) -> (r: Result<(), Error<R::Error>>)
        ensures
            r is Ok ==> final(self).ops() == old(self).ops() + sfd_length_ops(sfd),
            final(self).spec_seq() == old(self).spec_seq(),
            r matches Err(e) ==> e is Spi,
    {
        let ghost start = self.ops();
        match sfd {
            SfdSequence::Decawave => {
                self.write_reg(Register::SfdLength, &[fval(Field::Value, 8)])?;
            },
            SfdSequence::DecawaveAlt => {
                self.write_reg(Register::SfdLength, &[fval(Field::Value, 16)])?;
            },
            _ => {},
        }
        assert(self.ops() =~= start + sfd_length_ops(sfd));
        Ok(())
    }

    /// Writes the channel, SFD and preamble code fields.
    fn write_chan_ctrl(
        &mut self,
        channel: UwbChannel,
        prf: PulseRepetitionFrequency,
        sfd: SfdSequence,
    ) -> (r: Result<(), Error<R::Error>>)
        ensures
            final(self).ops() == old(self).ops().push(
                RegOp::Modify(Register::ChanCtrl, chan_ctrl_fields(channel, prf, sfd)),
            ),
            final(self).spec_seq() == old(self).spec_seq(),
            r matches Err(e) ==> e is Spi,
    {
        let n = channel.number();
        let code = channel.preamble_code(prf);
        let vendor = bit_of(sfd == SfdSequence::Decawave || sfd == SfdSequence::DecawaveAlt);
        let own = bit_of(sfd == SfdSequence::User || sfd == SfdSequence::DecawaveAlt);
        self.modify_reg(
            Register::ChanCtrl,
            &[
                fval(Field::TxChan, n),
                fval(Field::RxChan, n),
                fval(Field::Dwsfd, vendor),
                fval(Field::Rxprf, prf.code()),
                fval(Field::Tnssfd, own),
                fval(Field::Rnssfd, own),
                fval(Field::TxPcode, code),
                fval(Field::RxPcode, code),
            ],
        )
    }

    /// Resets the receiver, sets filtering and buffering, the PLL lock
    /// detection and the channel fields.
    fn rx_mode_setup(&mut self, config: RxConfig, mode: BufferMode) -> (r: Result<
        (),
        Error<R::Error>,
    >)
        ensures
            r is Ok ==> final(self).ops() == old(self).ops() + rx_mode_ops(config, mode),
            final(self).spec_seq() == old(self).spec_seq(),
            r matches Err(e) ==> e is Spi,
    {
        let ghost start = self.ops();
        // The receiver can get stuck after one good frame: reset it each time.
        self.modify_reg(Register::PmscCtrl0, &[fval(Field::Softreset, 0b1110)])?;
        self.modify_reg(Register::PmscCtrl0, &[fval(Field::Softreset, 0b1111)])?;
        self.force_idle()?;
        self.modify_reg(
            Register::SysCfg,
            &[
                fval(Field::Ffen, bit_of(config.frame_filtering)),
                fval(Field::Ffab, 1),
                fval(Field::Ffad, 1),
                fval(Field::Ffaa, 1),
                fval(Field::Ffam, 1),
                fval(Field::DisDrxb, bit_of(!mode.double_buffered())),
                fval(Field::Rxautr, bit_of(mode.auto_rx_reenable())),
                fval(Field::Rxm110k, bit_of(config.bitrate == BitRate::Kbps110)),
            ],
        )?;
        // The PLL lock bits are only reliable with PLLLDT set; clear what
        // they held before.
        self.modify_reg(Register::EcCtrl, &[fval(Field::Pllldt, 1)])?;
        self.write_reg(Register::SysStatus, &[fval(Field::Cplock, 1), fval(Field::ClkpllLl, 1)])?;
        self.write_chan_ctrl(config.channel, config.pulse_repetition_frequency, config.sfd_sequence)?;
        assert(self.ops() =~= start + rx_mode_ops(config, mode));
        Ok(())
    }

    /// Writes the receiver tuning values.
    fn rx_tuning(&mut self, config: RxConfig) -> (r: Result<(), Error<R::Error>>)
        requires
            rx_config_valid(config),
        ensures
            r is Ok ==> final(self).ops() == old(self).ops() + rx_tuning_ops(config),
            final(self).spec_seq() == old(self).spec_seq(),
            r matches Err(e) ==> e is Spi,
    {
        let ghost start = self.ops();
        let prf = config.pulse_repetition_frequency;
        let pl = config.expected_preamble_length;
        let tune1b = match pl.drx_tune1b(config.bitrate) {
            Some(v) => v,
            None => 0,
        };
        self.write_reg(
            Register::DrxTune0b,
            &[fval(Field::Value, config.bitrate.drx_tune0b(config.sfd_sequence) as u64)],
        )?;
        self.write_reg(Register::DrxTune1a, &[fval(Field::Value, prf.drx_tune1a() as u64)])?;
        self.write_reg(Register::DrxTune1b, &[fval(Field::Value, tune1b as u64)])?;
        self.write_reg(
            Register::DrxTune2,
            &[fval(Field::Value, prf.drx_tune2(pl.pac_size()) as u64)],
        )?;
        self.write_reg(Register::DrxTune4h, &[fval(Field::Value, pl.drx_tune4h() as u64)])?;
        self.write_reg(
            Register::RfRxctrlh,
            &[fval(Field::Value, config.channel.rf_rxctrlh() as u64)],
        )?;
        self.write_reg(Register::FsPllcfg, &[fval(Field::Value, config.channel.fs_pllcfg() as u64)])?;
        self.write_reg(
            Register::FsPlltune,
            &[fval(Field::Value, config.channel.fs_plltune() as u64)],
        )?;
        self.write_reg(Register::LdeCfg2, &[fval(Field::Value, prf.lde_cfg2() as u64)])?;
        self.write_reg(
            Register::LdeRepc,
            &[fval(Field::Value, config.channel.lde_repc(prf, config.bitrate) as u64)],
        )?;
        assert(self.ops() =~= start + rx_tuning_ops(config));
        Ok(())
    }

    /// Brings the host side receive buffer pointer in line with the chip's,
    /// and sets up automatic acknowledgement.
    fn rx_finish(&mut self, config: RxConfig) -> (r: Result<(), Error<R::Error>>)
        ensures
            r is Ok ==> exists|status: Seq<FieldValue>|
                final(self).ops() == old(self).ops() + rx_finish_ops(config, status),
            final(self).spec_seq() == old(self).spec_seq(),
            r matches Err(e) ==> e is Spi,
    {
        let ghost start = self.ops();
        let status = self.read_reg(Register::SysStatus)?;
        if field_of(&status, Field::Hsrbp) != field_of(&status, Field::Icrbp) {
            self.modify_reg(Register::SysCtrl, &[fval(Field::Hrbpt, 1)])?;
        }
        match config.auto_ack {
            AutoAck::Enabled { turnaround_time } => {
                self.modify_reg(Register::SysCfg, &[fval(Field::Autoack, 1)])?;
                self.modify_reg(Register::AckRespT, &[fval(Field::AckTim, turnaround_time as u64)])?;
                // Reload the SFD sequence so that the acknowledgement setup
                // takes effect.
                self.modify_reg(Register::SysCtrl, &[fval(Field::Txstrt, 1), fval(Field::Trxoff, 1)])?;
            },
            AutoAck::Disabled => {},
        }
        assert(self.ops() =~= start + rx_finish_ops(config, status@));
        Ok(())
    }

    /// Resets the receiver and programs it for `config`, buffering as `mode`
    /// says. Settings that the chip has no tuning values for are refused
    /// before any register is written.
    pub(crate) fn config_receiving(&mut self, config: RxConfig, mode: BufferMode) -> (r: Result<
        (),
        Error<R::Error>,
    >)
        ensures
            r is Ok ==> exists|status: Seq<FieldValue>|
                final(self).ops() == old(self).ops() + rx_config_ops(config, mode, status),
            !rx_config_valid(config) ==> (r matches Err(Error::InvalidConfiguration)
                && final(self).ops() == old(self).ops()),
            final(self).spec_seq() == old(self).spec_seq(),
            r matches Err(e) ==> (e is InvalidConfiguration && !rx_config_valid(config)) || (
            e is Spi && rx_config_valid(config)),
    {
        if config.expected_preamble_length.drx_tune1b(config.bitrate).is_none() {
            return Err(Error::InvalidConfiguration);
        }
        let ghost start = self.ops();
        self.rx_mode_setup(config, mode)?;
        self.write_sfd_length(config.sfd_sequence)?;
        self.rx_tuning(config)?;
        let ghost c = self.ops();
        self.rx_finish(config)?;
        let ghost status = choose|status: Seq<FieldValue>|
            self.ops() == c + rx_finish_ops(config, status);
        assert(self.ops() =~= start + rx_config_ops(config, mode, status));
        Ok(())
    }

    /// Reads the event counter control register until the bit `f` is
    /// clear, at most `MAX_POLLS` times.
    fn poll_evc_ctrl(&mut self, f: Field) -> (r: Result<(), Error<R::Error>>)
        ensures
            r is Ok ==> exists|reads: Seq<Seq<FieldValue>>|
                polled_until_clear(reads, f) && final(self).ops() == old(self).ops() + poll_ops(
                    reads,
                ),
            r matches Err(Error::Timeout) ==> exists|reads: Seq<Seq<FieldValue>>|
                polls_ran_out(reads, f) && final(self).ops() == old(self).ops() + poll_ops(reads),
            final(self).spec_seq() == old(self).spec_seq(),
            r matches Err(e) ==> e is Spi || e is Timeout,
    {
        let ghost start = self.ops();
        let ghost seq0 = self.seq;
        let ghost mut reads: Seq<Seq<FieldValue>> = Seq::empty();
        let mut n: u32 = 0;
        assert(self.ops() =~= start + poll_ops(reads));
        loop
            invariant
                start == old(self).ops(),
                seq0 == old(self).seq,
                self.ops() == start + poll_ops(reads),
                reads.len() == n,
                n <= MAX_POLLS,
                self.seq == seq0,
                forall|i: int| 0 <= i < reads.len() ==> field_in(#[trigger] reads[i], f) == 1,
            decreases MAX_POLLS - n,
        {
            if n == MAX_POLLS {
                assert(polls_ran_out(reads, f));
                return Err(Error::Timeout);
            }
            let v = self.read_reg(Register::EvcCtrl)?;
            proof {
                reads = reads.push(v@);
            }
            assert(self.ops() =~= start + poll_ops(reads));
            n = n + 1;
            if field_of(&v, f) != 1 {
                assert(polled_until_clear(reads, f));
                return Ok(());
            }
        }
    }

    /// Prepares a send with `config`, as `send_raw` does first: for a send
    /// that returns to ready, clear and re-enable the event counters, waiting
    /// for the chip to confirm each (at most `MAX_POLLS` reads each), then
    /// force the chip idle; for one that continues into receiving, configure
    /// the receiver with the settings derived from `config`.
    pub fn prepare_send(&mut self, config: TxConfig) -> (r: Result<(), Error<R::Error>>)
        ensures
            r is Ok ==> exists|prep: Seq<RegOp>|
                tx_prep(prep, config) && final(self).ops() == old(self).ops() + prep,
            !tx_config_valid(config) ==> (r matches Err(Error::InvalidConfiguration)
                && final(self).ops() == old(self).ops()),
            final(self).spec_seq() == old(self).spec_seq(),
            r matches Err(e) ==> (e is InvalidConfiguration && !tx_config_valid(config)) || (
            tx_config_valid(config) && (e is Spi || e is Timeout)),
            r matches Err(Error::Timeout) ==> config.continuation == TxContinuation::Ready
                && exists|prep: Seq<RegOp>|
                prep_timed_out(prep) && final(self).ops() == old(self).ops() + prep,
    {
        let ghost start = self.ops();
        match config.continuation {
            TxContinuation::Ready => {
                self.write_reg(Register::EvcCtrl, &[fval(Field::EvcClr, 1)])?;
                let ghost a = self.ops();
                match self.poll_evc_ctrl(Field::EvcClr) {
                    Ok(()) => {},
                    Err(err) => {
                        proof {
                            if err is Timeout {
                                let c = choose|c: Seq<Seq<FieldValue>>|
                                    polls_ran_out(c, Field::EvcClr) && self.ops() == a + poll_ops(c);
                                let prep = seq![RegOp::Write(Register::EvcCtrl, [fv(Field::EvcClr, 1)]@)] + poll_ops(c);
                                assert(self.ops() =~= start + prep);
                                assert(prep_timed_out(prep));
                            }
                        }
                        return Err(err);
                    },
                }
                let ghost c = choose|c: Seq<Seq<FieldValue>>|
                    polled_until_clear(c, Field::EvcClr) && self.ops() == a + poll_ops(c);
                self.write_reg(Register::EvcCtrl, &[fval(Field::EvcEn, 1)])?;
                let ghost b = self.ops();
                match self.poll_evc_ctrl(Field::EvcEn) {
                    Ok(()) => {},
                    Err(err) => {
                        proof {
                            if err is Timeout {
                                let e = choose|e: Seq<Seq<FieldValue>>|
                                    polls_ran_out(e, Field::EvcEn) && self.ops() == b + poll_ops(e);
                                let prep = seq![RegOp::Write(Register::EvcCtrl, [fv(Field::EvcClr, 1)]@)]
                                    + poll_ops(c) + seq![RegOp::Write(Register::EvcCtrl, [fv(Field::EvcEn, 1)]@)]
                                    + poll_ops(e);
                                assert(self.ops() =~= start + prep);
                                assert(prep_timed_out(prep));
                            }
                        }
                        return Err(err);
                    },
                }
                let ghost e = choose|e: Seq<Seq<FieldValue>>|
                    polled_until_clear(e, Field::EvcEn) && self.ops() == b + poll_ops(e);
                // The chip sometimes sticks in receive mode, where starting
                // the transmitter does nothing: force it idle.
                self.force_idle()?;
                let ghost prep = ready_prep_ops(c, e);
                assert(self.ops() =~= start + prep);
                assert(tx_prep(prep, config));
            },
            TxContinuation::Rx { frame_filtering, auto_ack } => {
                let rx = RxConfig::from_tx_config(config, frame_filtering, auto_ack);
                self.config_receiving(rx, BufferMode::Single)?;
                let ghost st = choose|st: Seq<FieldValue>|
                    self.ops() == start + rx_config_ops(rx, BufferMode::Single, st);
                assert(tx_prep(rx_config_ops(rx, BufferMode::Single, st), config));
            },
            TxContinuation::RxDoubleBuffered { frame_filtering, auto_ack } => {
                let rx = RxConfig::from_tx_config(config, frame_filtering, auto_ack);
                self.config_receiving(rx, BufferMode::AutoDouble)?;
                let ghost st = choose|st: Seq<FieldValue>|
                    self.ops() == start + rx_config_ops(rx, BufferMode::AutoDouble, st);
                assert(tx_prep(rx_config_ops(rx, BufferMode::AutoDouble, st), config));
            },
        }
        Ok(())
    }

    /// Programs when the transmission starts.
    fn program_send_time(&mut self, send_time: SendTime) -> (r: Result<(), Error<R::Error>>)
        ensures
            r is Ok ==> final(self).ops() == old(self).ops() + send_time_ops(send_time),
            final(self).spec_seq() == old(self).spec_seq(),
            r matches Err(e) ==> e is Spi,
    {
        let ghost start = self.ops();
        match send_time {
            SendTime::Delayed(time) => {
                // With this register set, the chip delays the transmission.
                self.write_reg(Register::DxTime, &[fval(Field::Value, time.value())])?;
            },
            SendTime::OnSync => {
                self.modify_reg(Register::EcCtrl, &[fval(Field::Wait, 33), fval(Field::Ostsm, 1)])?;
            },
            SendTime::Now => {},
        }
        assert(self.ops() =~= start + send_time_ops(send_time));
        Ok(())
    }

    /// Writes the frame into the transmit buffer, with its length and the
    /// link settings.
    fn tx_frame(&mut self, config: TxConfig, data: &[u8]) -> (r: Result<(), Error<R::Error>>)
        requires
            data@.len() <= MAX_FRAME_DATA,
        ensures
            r is Ok ==> final(self).ops() == old(self).ops() + tx_frame_ops(config, data@),
            final(self).spec_seq() == old(self).spec_seq(),
            r matches Err(e) ==> e is Spi,
    {
        let ghost start = self.ops();
        self.write_bytes_reg(Register::TxBuffer, data)?;
        let len = data.len() as u64;
        self.modify_reg(
            Register::TxFctrl,
            &[
                fval(Field::Tflen, len + 2),
                fval(Field::Tfle, 0),
                fval(Field::Txboffs, 0),
                fval(Field::Txbr, config.bitrate.code()),
                fval(Field::Tr, bit_of(config.ranging_enable)),
                fval(Field::Txprf, config.pulse_repetition_frequency.code()),
                fval(Field::Txpsr, config.preamble_length.txpsr()),
                fval(Field::Pe, config.preamble_length.pe()),
            ],
        )?;
        self.write_chan_ctrl(config.channel, config.pulse_repetition_frequency, config.sfd_sequence)?;
        self.write_sfd_length(config.sfd_sequence)?;
        assert(self.ops() =~= start + tx_frame_ops(config, data@));
        Ok(())
    }

    /// Tunes the transmitter for the channel and starts the transmission.
    fn tx_tune_and_start(&mut self, config: TxConfig, send_time: SendTime) -> (r: Result<
        (),
        Error<R::Error>,
    >)
        ensures
            r is Ok ==> final(self).ops() == old(self).ops() + tx_tuning_ops(config, send_time),
            final(self).spec_seq() == old(self).spec_seq(),
            r matches Err(e) ==> e is Spi,
    {
        let ghost start = self.ops();
        let prf = config.pulse_repetition_frequency;
        let channel = config.channel;
        self.write_reg(Register::RfTxctrl, &[fval(Field::Value, channel.rf_txctrl() as u64)])?;
        self.write_reg(Register::TcPgdelay, &[fval(Field::Value, channel.tc_pgdelay() as u64)])?;
        self.write_reg(Register::FsPllcfg, &[fval(Field::Value, channel.fs_pllcfg() as u64)])?;
        self.write_reg(Register::FsPlltune, &[fval(Field::Value, channel.fs_plltune() as u64)])?;
        self.modify_reg(Register::LdeCfg2, &[fval(Field::Value, prf.lde_cfg2() as u64)])?;
        self.write_reg(
            Register::LdeRepc,
            &[fval(Field::Value, channel.lde_repc(prf, config.bitrate) as u64)],
        )?;
        self.modify_reg(Register::AckRespT, &[fval(Field::W4rTim, 0)])?;
        let no_crc = bit_of(!config.append_crc);
        let respond = bit_of(
            match config.continuation {
                TxContinuation::Ready => false,
                _ => true,
            },
        );
        match send_time {
            SendTime::OnSync => {
                self.modify_reg(Register::SysCtrl, &[fval(Field::Sfcst, no_crc)])?;
            },
            SendTime::Delayed(_) => {
                self.modify_reg(
                    Register::SysCtrl,
                    &[
                        fval(Field::Sfcst, no_crc),
                        fval(Field::Txdlys, 1),
                        fval(Field::Txstrt, 1),
                        fval(Field::Wait4resp, respond),
                    ],
                )?;
            },
            SendTime::Now => {
                self.modify_reg(
                    Register::SysCtrl,
                    &[fval(Field::Sfcst, no_crc), fval(Field::Txstrt, 1), fval(Field::Wait4resp, respond)],
                )?;
            },
        }
        assert(self.ops() =~= start + tx_tuning_ops(config, send_time));
        Ok(())
    }

    /// Sends `data` in an IEEE 802.15.4 data frame to `destination`, from
    /// the radio's own address, with the counter's sequence number; as for
    /// every frame sent, the counter moves on by one. Otherwise as `send_raw`. Fails with `Frame` exactly
    /// where the encoded frame is longer than a standard frame allows.
    pub fn send(
        self,
        data: &[u8],
        destination: Option<MacAddress>,
        send_time: SendTime,
        config: TxConfig,
    ) -> (r: Result<DW1000<R, Sending>, Error<R::Error>>)
        ensures
            !tx_config_valid(config) ==> r matches Err(Error::InvalidConfiguration),
            r matches Ok(d) ==> {
                &&& d.mode() == (Sending {
                    finished: false,
                    continuation: config.continuation,
                    config,
                })
                &&& d.spec_seq() == (self.spec_seq() + 1) % 256
                &&& exists|address: Seq<FieldValue>, prep: Seq<RegOp>|
                    {
                        &&& data_frame_bytes(self.spec_seq(), destination, address_of(address), data@).len()
                            <= MAX_FRAME_DATA
                        &&& tx_prep(prep, config)
                        &&& d.ops() == self.ops().push(RegOp::Read(Register::Panadr, address))
                            + prep + tx_ops(
                            config,
                            send_time,
                            data_frame_bytes(self.spec_seq(), destination, address_of(address), data@),
                        )
                    }
            },
            r matches Err(Error::Frame) ==> exists|address: Seq<FieldValue>|
                data_frame_bytes(self.spec_seq(), destination, address_of(address), data@).len()
                    > MAX_FRAME_DATA,
            r matches Err(Error::Timeout) ==> config.continuation == TxContinuation::Ready,
            r matches Err(e) ==> (e is InvalidConfiguration && !tx_config_valid(config)) || (
            tx_config_valid(config) && (e is Spi || e is Timeout || e is Frame)),
    {
        let valid = match config.continuation {
            TxContinuation::Ready => true,
            _ => config.preamble_length.drx_tune1b(config.bitrate).is_some(),
        };
        if !valid {
            return Err(Error::InvalidConfiguration);
        }
        let mut dev = self;
        let ghost start = dev.ops();
        let seq = dev.seq();
        let address = dev.read_reg(Register::Panadr)?;
        let source = MacAddress::Short {
            pan_id: (field_of(&address, Field::PanId) % 65536) as u16,
            addr: (field_of(&address, Field::ShortAddr) % 65536) as u16,
        };
        let mut frame: Vec<u8> = vec![0u8; MAX_FRAME_DATA];
        let len = match encode_data_frame(seq, destination, source, data, &mut frame) {
            Some(n) => n,
            None => {
                assert(source == address_of(address@));
                return Err(Error::Frame);
            },
        };
        frame.truncate(len);
        assert(frame@ =~= data_frame_bytes(seq, destination, address_of(address@), data@));
        let ghost mid = dev.ops();
        let r = dev.send_raw(frame.as_slice(), send_time, config);
        match r {
            Ok(d) => {
                let ghost prep = choose|prep: Seq<RegOp>|
                    tx_prep(prep, config) && d.ops() == mid + prep + tx_ops(
                        config,
                        send_time,
                        frame@,
                    );
                assert(d.ops() =~= start.push(RegOp::Read(Register::Panadr, address@)) + prep
                    + tx_ops(config, send_time, frame@));
                Ok(d)
            },
            Err(e) => Err(e),
        }
    }

    /// Sends the bytes `data` as a frame body; the chip appends the checksum
    /// if `config` asks for it. The sequence counter moves on by one. The transmission starts as `send_time` says.
    /// Where the send continues into receiving, the receiver is configured
    /// first, with settings derived from `config`. The settings are checked
    /// before any register is written.
    pub fn send_raw(self, data: &[u8], send_time: SendTime, config: TxConfig) -> (r: Result<
        DW1000<R, Sending>,
        Error<R::Error>,
    >)
        requires
            data@.len() <= MAX_FRAME_DATA,
        ensures
            !tx_config_valid(config) ==> r matches Err(Error::InvalidConfiguration),
            r matches Ok(d) ==> {
                &&& d.mode() == (Sending {
                    finished: false,
                    continuation: config.continuation,
                    config,
                })
                &&& d.spec_seq() == (self.spec_seq() + 1) % 256
                &&& exists|prep: Seq<RegOp>|
                    tx_prep(prep, config) && d.ops() == self.ops() + prep + tx_ops(
                        config,
                        send_time,
                        data@,
                    )
            },
            r matches Err(e) ==> (e is InvalidConfiguration && !tx_config_valid(config)) || ((
            e is Spi || e is Timeout) && tx_config_valid(config)),
            r matches Err(Error::Timeout) ==> config.continuation == TxContinuation::Ready,
    {
        let mut dev = self;
        let ghost start = dev.ops();
        dev.prepare_send(config)?;
        let ghost prep = choose|prep: Seq<RegOp>| tx_prep(prep, config) && dev.ops() == start + prep;
        dev.program_send_time(send_time)?;
        dev.tx_frame(config, data)?;
        dev.tx_tune_and_start(config, send_time)?;
        assert(dev.ops() =~= start + prep + tx_ops(config, send_time, data@));
        // One more frame is on its way.
        dev.next_seq();
        Ok(
            DW1000 {
                ll: dev.ll,
                seq: dev.seq,
                state: Sending { finished: false, continuation: config.continuation, config },
                log: dev.log,
            },
        )
    }

    /// Starts listening for a single frame with the settings `config`. The
    /// settings are checked before any register is written.
    pub fn receive(self, config: RxConfig) -> (r: Result<
        DW1000<R, SingleBufferReceiving>,
        Error<R::Error>,
    >)
        ensures
            !rx_config_valid(config) ==> r matches Err(Error::InvalidConfiguration),
            r matches Ok(d) ==> {
                &&& d.mode() == (SingleBufferReceiving { finished: false, config })
                &&& d.spec_seq() == self.spec_seq()
                &&& exists|status: Seq<FieldValue>|
                    d.ops() == self.ops() + rx_config_ops(config, BufferMode::Single, status).push(
                        start_rx_op(),
                    )
            },
            r matches Err(e) ==> (e is InvalidConfiguration && !rx_config_valid(config)) || (
            e is Spi && rx_config_valid(config)),
    {
        let mut dev = self;
        dev.config_receiving(config, BufferMode::Single)?;
        let mut rx = DW1000 {
            ll: dev.ll,
            seq: dev.seq,
            state: SingleBufferReceiving { finished: false, config },
            log: dev.log,
        };
        rx.modify_reg(Register::SysCtrl, &[fval(Field::Rxenab, 1)])?;
        Ok(rx)
    }

    /// Starts listening in double buffered mode: after each frame the radio
    /// switches buffers and listens on. Frame filtering is not supported in
    /// this mode. Where a frame comes in while both buffers are full, the
    /// buffers are corrupted; the radio is then handed back in the ready
    /// mode and the caller must start again.
    pub fn receive_auto_double_buffered(self, config: RxConfig) -> (r: Result<
        DW1000<R, AutoDoubleBufferReceiving>,
        Error<R::Error>,
    >)
        ensures
            config.frame_filtering ==> r matches Err(Error::RxConfigFrameFilteringUnsupported),
            !config.frame_filtering && !rx_config_valid(config) ==> r matches Err(
                Error::InvalidConfiguration,
            ),
            r matches Ok(d) ==> {
                &&& d.mode() == (AutoDoubleBufferReceiving { finished: false, config })
                &&& d.spec_seq() == self.spec_seq()
                &&& exists|status: Seq<FieldValue>|
                    d.ops() == self.ops() + rx_config_ops(
                        config,
                        BufferMode::AutoDouble,
                        status,
                    ).push(start_rx_op())
            },
            r matches Err(e) ==> (e is RxConfigFrameFilteringUnsupported && config.frame_filtering)
                || (e is InvalidConfiguration && !config.frame_filtering && !rx_config_valid(
                config,
            )) || (e is Spi && !config.frame_filtering && rx_config_valid(config)),
    {
        if config.frame_filtering {
            return Err(Error::RxConfigFrameFilteringUnsupported);
        }
        let mut dev = self;
        dev.config_receiving(config, BufferMode::AutoDouble)?;
        let mut rx = DW1000 {
            ll: dev.ll,
            seq: dev.seq,
            state: AutoDoubleBufferReceiving { finished: false, config },
            log: dev.log,
        };
        rx.modify_reg(Register::SysCtrl, &[fval(Field::Rxenab, 1)])?;
        Ok(rx)
    }
}

} // verus!

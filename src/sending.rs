use crate::configs::{rx_config_of, RxConfig, TxContinuation};
use crate::device::{
    stopped_within, clear_tx_flags_op, idle_op, sync_off_op, AutoDoubleBufferReceiving, DW1000, Ready, Sending,
    SingleBufferReceiving,
};
use crate::error::{Error, PollError};
use crate::registers::{field_in, field_of, fv, fval, Field, FieldValue, RegOp, Register, Registers};
use crate::time::{Instant, TIME_MAX};
use vstd::prelude::*;

verus! {

/// The reads of a poll for the end of a transmission: the half period
/// warning counter `hpw`, the power-up warning counter `tpw` and the
/// status `status`.
pub open spec fn wait_reads(
    hpw: Seq<FieldValue>,
    tpw: Seq<FieldValue>,
    status: Seq<FieldValue>,
) -> Seq<RegOp> {
    seq![
        RegOp::Read(Register::EvcHpw, hpw),
        RegOp::Read(Register::EvcTpw, tpw),
        RegOp::Read(Register::SysStatus, status),
    ]
}

/// A whole successful poll: the three reads, the clearing of the transmit
/// flags and the read of the transmit time (`time`).
pub open spec fn wait_ops(
    hpw: Seq<FieldValue>,
    tpw: Seq<FieldValue>,
    status: Seq<FieldValue>,
    time: Seq<FieldValue>,
) -> Seq<RegOp> {
    wait_reads(hpw, tpw, status) + seq![clear_tx_flags_op(), RegOp::Read(Register::TxTime, time)]
}

/// The transmit time stamp that a read of the transmit time register gave.
pub open spec fn tx_stamp(v: Seq<FieldValue>) -> u64 {
    field_in(v, Field::TxStamp) & TIME_MAX
}

/// A transmit time stamp in the chip's 40-bit range comes back from
/// `wait_transmit` exactly as the chip reported it.
pub proof fn lemma_tx_stamp_exact(time: Seq<FieldValue>)
    requires
        field_in(time, Field::TxStamp) <= TIME_MAX,
    ensures
        tx_stamp(time) == field_in(time, Field::TxStamp),
{
    let x = field_in(time, Field::TxStamp);
    assert(x <= 0xff_ffff_ffff ==> x & 0xff_ffff_ffff == x) by (bit_vector);
}

/// Leaving the sending mode: where the end of the transmission was not
/// observed, force the chip idle and clear the transmit flags; then turn off
/// the external transmit synchronization.
pub open spec fn abort_ops(finished: bool) -> Seq<RegOp> {
    (if finished {
        Seq::empty()
    } else {
        seq![idle_op(), clear_tx_flags_op()]
    }).push(sync_off_op())
}

/// Once the end of a send was observed, leaving the sending mode only turns
/// off the external transmit synchronization: the transmit flags are not
/// cleared a second time.
pub proof fn lemma_finish_after_observed_end()
    ensures
        abort_ops(true) == seq![sync_off_op()],
        !abort_ops(true).contains(clear_tx_flags_op()),
{
    assert(abort_ops(true) =~= seq![sync_off_op()]);
    assert(abort_ops(true)[0] != clear_tx_flags_op());
}

/// Switching to double buffered receiving after a send: align the host side
/// receive buffer pointer with the chip's (`status` is what the status read
/// gave), clear the transmit flags, turn off the sync wait.
pub open spec fn continue_double_ops(status: Seq<FieldValue>) -> Seq<RegOp> {
    seq![RegOp::Read(Register::SysStatus, status)] + (if field_in(status, Field::Hsrbp)
        != field_in(status, Field::Icrbp) {
        seq![RegOp::Modify(Register::SysCtrl, [fv(Field::Hrbpt, 1)]@)]
    } else {
        Seq::empty()
    }) + seq![clear_tx_flags_op(), sync_off_op()]
}

impl<R: Registers> DW1000<R, Sending> {
    /// Polls for the end of the transmission, without blocking. Fails where
    /// a delayed send went out too late or while the transmitter powered
    /// up; reports `WouldBlock` while the frame has not been sent. Once it
    /// has, clears the transmit flags, marks the send finished and returns
    /// the transmit time.
    pub fn wait_transmit(&mut self) -> (r: Result<Instant, PollError<Error<R::Error>>>)
        ensures
            final(self).spec_seq() == old(self).spec_seq(),
            final(self).mode().continuation == old(self).mode().continuation,
            final(self).mode().config == old(self).mode().config,
            r matches Ok(i) ==> {
                &&& final(self).mode().finished
                &&& exists|
                    hpw: Seq<FieldValue>,
                    tpw: Seq<FieldValue>,
                    status: Seq<FieldValue>,
                    time: Seq<FieldValue>,
                |
                    {
                        &&& field_in(hpw, Field::Value) == 0
                        &&& field_in(tpw, Field::Value) == 0
                        &&& field_in(status, Field::Txfrs) != 0
                        &&& final(self).ops() == old(self).ops() + wait_reads(
                            hpw,
                            tpw,
                            status,
                        ) + seq![clear_tx_flags_op(), RegOp::Read(Register::TxTime, time)]
                        &&& i.spec_value() == tx_stamp(time)
                    }
            },
            r matches Err(PollError::WouldBlock) ==> {
                &&& final(self).mode() == old(self).mode()
                &&& exists|hpw: Seq<FieldValue>, tpw: Seq<FieldValue>, status: Seq<FieldValue>|
                    {
                        &&& field_in(hpw, Field::Value) == 0
                        &&& field_in(tpw, Field::Value) == 0
                        &&& field_in(status, Field::Txfrs) == 0
                        &&& final(self).ops() == old(self).ops() + wait_reads(hpw, tpw, status)
                    }
            },
            r matches Err(PollError::Other(Error::DelayedSendTooLate)) ==> {
                &&& final(self).mode() == old(self).mode()
                &&& exists|hpw: Seq<FieldValue>|
                    {
                        &&& field_in(hpw, Field::Value) != 0
                        &&& final(self).ops() == old(self).ops().push(
                            RegOp::Read(Register::EvcHpw, hpw),
                        )
                    }
            },
            r matches Err(PollError::Other(Error::DelayedSendPowerUpWarning)) ==> {
                &&& final(self).mode() == old(self).mode()
                &&& exists|hpw: Seq<FieldValue>, tpw: Seq<FieldValue>|
                    {
                        &&& field_in(hpw, Field::Value) == 0
                        &&& field_in(tpw, Field::Value) != 0
                        &&& final(self).ops() == old(self).ops() + seq![
                            RegOp::Read(Register::EvcHpw, hpw),
                            RegOp::Read(Register::EvcTpw, tpw),
                        ]
                    }
            },
            r matches Err(PollError::Other(e)) ==> e is DelayedSendTooLate
                || e is DelayedSendPowerUpWarning || e is Spi,
            r matches Err(PollError::Other(Error::Spi(_))) ==> {
                &&& exists|
                    hpw: Seq<FieldValue>,
                    tpw: Seq<FieldValue>,
                    status: Seq<FieldValue>,
                    time: Seq<FieldValue>,
                | stopped_within(old(self).ops(), final(self).ops(), wait_ops(hpw, tpw, status, time))
                &&& final(self).mode() == old(self).mode() || final(self).ops().len()
                    == old(self).ops().len() + 5
            },
    {
        let ghost start = self.ops();
        // A nonzero half period warning count means a delayed send went out
        // too late.
        let hpw = match self.read_reg(Register::EvcHpw) {
            Ok(v) => v,
            Err(e) => {
                assert(self.ops() =~= start + wait_ops(Seq::<FieldValue>::empty(), Seq::<FieldValue>::empty(), Seq::<FieldValue>::empty(), Seq::<FieldValue>::empty()).take(1));
                assert(stopped_within(start, self.ops(), wait_ops(Seq::<FieldValue>::empty(), Seq::<FieldValue>::empty(), Seq::<FieldValue>::empty(), Seq::<FieldValue>::empty())));
                return Err(PollError::Other(e));
            },
        };
        if field_of(&hpw, Field::Value) != 0 {
            return Err(PollError::Other(Error::DelayedSendTooLate));
        }
        // A nonzero power-up warning count means the transmitter was still
        // powering up: the start of the preamble may be corrupted.
        let tpw = match self.read_reg(Register::EvcTpw) {
            Ok(v) => v,
            Err(e) => {
                assert(self.ops() =~= start + wait_ops(hpw@, Seq::<FieldValue>::empty(), Seq::<FieldValue>::empty(), Seq::<FieldValue>::empty()).take(2));
                assert(stopped_within(start, self.ops(), wait_ops(hpw@, Seq::<FieldValue>::empty(), Seq::<FieldValue>::empty(), Seq::<FieldValue>::empty())));
                return Err(PollError::Other(e));
            },
        };
        if field_of(&tpw, Field::Value) != 0 {
            assert(self.ops() =~= start + seq![
                RegOp::Read(Register::EvcHpw, hpw@),
                RegOp::Read(Register::EvcTpw, tpw@),
            ]);
            return Err(PollError::Other(Error::DelayedSendPowerUpWarning));
        }
        let status = match self.read_reg(Register::SysStatus) {
            Ok(v) => v,
            Err(e) => {
                assert(self.ops() =~= start + wait_ops(hpw@, tpw@, Seq::<FieldValue>::empty(), Seq::<FieldValue>::empty()).take(3));
                assert(stopped_within(start, self.ops(), wait_ops(hpw@, tpw@, Seq::<FieldValue>::empty(), Seq::<FieldValue>::empty())));
                return Err(PollError::Other(e));
            },
        };
        assert(self.ops() =~= start + wait_reads(hpw@, tpw@, status@));
        if field_of(&status, Field::Txfrs) == 0 {
            return Err(PollError::WouldBlock);
        }
        match self.reset_flags() {
            Ok(()) => {},
            Err(e) => {
                assert(self.ops() =~= start + wait_ops(hpw@, tpw@, status@, Seq::<FieldValue>::empty()).take(4));
                assert(stopped_within(start, self.ops(), wait_ops(hpw@, tpw@, status@, Seq::<FieldValue>::empty())));
                return Err(PollError::Other(e));
            },
        }
        self.state.finished = true;
        let time = match self.read_reg(Register::TxTime) {
            Ok(v) => v,
            Err(e) => {
                assert(self.ops() =~= start + wait_ops(hpw@, tpw@, status@, Seq::<FieldValue>::empty()).take(5));
                assert(stopped_within(start, self.ops(), wait_ops(hpw@, tpw@, status@, Seq::<FieldValue>::empty())));
                return Err(PollError::Other(e));
            },
        };
        assert(self.ops() =~= start + wait_reads(hpw@, tpw@, status@) + seq![
            clear_tx_flags_op(),
            RegOp::Read(Register::TxTime, time@),
        ]);
        // The chip's time stamps are 40 bits wide.
        let stamp = field_of(&time, Field::TxStamp);
        assert(stamp & 0xff_ffff_ffff <= 0xff_ffff_ffff) by (bit_vector);
        Ok(Instant::new_in_range(stamp & TIME_MAX))
    }

    /// Finishes sending and returns to the ready mode. Only for sends that
    /// continue into the ready mode: for any other the device comes back
    /// unchanged with `WrongTxContinuation`. A send that was not observed to
    /// finish is aborted.
    pub fn finish_sending(self) -> (r: Result<DW1000<R, Ready>, (Self, Error<R::Error>)>)
        ensures
            self.mode().continuation != TxContinuation::Ready ==> (r matches Err((d, e)) && d == self && e is WrongTxContinuation),
            r matches Ok(d) ==> {
                &&& self.mode().continuation == TxContinuation::Ready
                &&& d.spec_seq() == self.spec_seq()
                &&& d.ops() == self.ops() + abort_ops(self.mode().finished)
            },
            r matches Err((d, e)) ==> d.mode() == self.mode() && d.spec_seq() == self.spec_seq() && (
            e is WrongTxContinuation || e is Spi),
            r matches Err((_, e)) && e is WrongTxContinuation ==> self.mode().continuation
                != TxContinuation::Ready,
    {
        if self.state.continuation != TxContinuation::Ready {
            return Err((self, Error::WrongTxContinuation));
        }
        self.abort_sending()
    }

    /// Finishes sending and returns to the ready mode, whatever the send's
    /// continuation. A send that was not observed to finish is aborted.
    pub fn abort_sending(self) -> (r: Result<DW1000<R, Ready>, (Self, Error<R::Error>)>)
        ensures
            r matches Ok(d) ==> d.spec_seq() == self.spec_seq() && d.ops() == self.ops() + abort_ops(
                self.mode().finished,
            ),
            r matches Err((d, e)) ==> d.mode() == self.mode() && d.spec_seq() == self.spec_seq() && e is Spi,
            r matches Err((d, _)) ==> stopped_within(
                self.ops(),
                d.ops(),
                abort_ops(self.mode().finished),
            ),
    {
        let mut dev = self;
        let ghost start = dev.ops();
        let ghost planned = abort_ops(dev.state.finished);
        if !dev.state.finished {
            match dev.force_idle() {
                Ok(()) => {},
                Err(e) => {
                    assert(dev.ops() =~= start + planned.take(1));
                    return Err((dev, e));
                },
            }
            match dev.reset_flags() {
                Ok(()) => {},
                Err(e) => {
                    assert(dev.ops() =~= start + planned.take(2));
                    return Err((dev, e));
                },
            }
        }
        match dev.modify_reg(Register::EcCtrl, &[fval(Field::Ostsm, 0)]) {
            Ok(()) => {},
            Err(e) => {
                assert(dev.ops() =~= start + planned.take(planned.len() as int));
                return Err((dev, e));
            },
        }
        assert(dev.ops() =~= start + abort_ops(dev.state.finished));
        Ok(DW1000 { ll: dev.ll, seq: dev.seq, state: Ready, log: dev.log })
    }

    /// Continues into receiving a single frame, as the send's continuation
    /// asked, once the send was observed to finish (see `wait_transmit`).
    /// Otherwise the device comes back unchanged with `WrongTxContinuation`
    /// or `TxNotFinishedyet`.
    pub fn continue_receiving(self) -> (r: Result<
        DW1000<R, SingleBufferReceiving>,
        (Self, Error<R::Error>),
    >)
        ensures
            !(self.mode().continuation is Rx) ==> (r matches Err((d, e)) && d == self && e is WrongTxContinuation),
            self.mode().continuation is Rx && !self.mode().finished ==> (r matches Err((d, e)) && d == self && e is TxNotFinishedyet),
            r matches Ok(d) ==> {
                &&& self.mode().continuation is Rx
                &&& self.mode().finished
                &&& d.spec_seq() == self.spec_seq()
                &&& d.ops() == self.ops() + seq![clear_tx_flags_op(), sync_off_op()]
                &&& d.mode() == (SingleBufferReceiving {
                    finished: false,
                    config: rx_config_of(
                        self.mode().config,
                        self.mode().continuation->Rx_frame_filtering,
                        self.mode().continuation->Rx_auto_ack,
                    ),
                })
            },
            r matches Err((d, e)) ==> d.mode() == self.mode() && d.spec_seq() == self.spec_seq() && (
            e is WrongTxContinuation || e is TxNotFinishedyet || e is Spi),
            r matches Err((_, e)) && e is WrongTxContinuation ==> !(self.mode().continuation is Rx),
            r matches Err((_, e)) && e is TxNotFinishedyet ==> self.mode().continuation is Rx
                && !self.mode().finished,
            self.mode().continuation is Rx && self.mode().finished ==> (r is Ok || r matches Err(
                (_, Error::Spi(_)),
            )),
            r matches Err((d, e)) ==> (e is Spi ==> stopped_within(
                self.ops(),
                d.ops(),
                seq![clear_tx_flags_op(), sync_off_op()],
            )),
    {
        let (frame_filtering, auto_ack) = match self.state.continuation {
            TxContinuation::Rx { frame_filtering, auto_ack } => (frame_filtering, auto_ack),
            _ => return Err((self, Error::WrongTxContinuation)),
        };
        if !self.state.finished {
            return Err((self, Error::TxNotFinishedyet));
        }
        let mut dev = self;
        let ghost start = dev.ops();
        let ghost planned = seq![clear_tx_flags_op(), sync_off_op()];
        match dev.reset_flags() {
            Ok(()) => {},
            Err(e) => {
                assert(dev.ops() =~= start + planned.take(1));
                return Err((dev, e));
            },
        }
        match dev.modify_reg(Register::EcCtrl, &[fval(Field::Ostsm, 0)]) {
            Ok(()) => {},
            Err(e) => {
                assert(dev.ops() =~= start + planned.take(2));
                return Err((dev, e));
            },
        }
        assert(dev.ops() =~= start + planned);
        let config = RxConfig::from_tx_config(dev.state.config, frame_filtering, auto_ack);
        Ok(
            DW1000 {
                ll: dev.ll,
                seq: dev.seq,
                state: SingleBufferReceiving { finished: false, config },
                log: dev.log,
            },
        )
    }

    /// Continues into double buffered receiving, as the send's continuation
    /// asked, once the send was observed to finish (see `wait_transmit`).
    /// Otherwise the device comes back unchanged with `WrongTxContinuation`
    /// or `TxNotFinishedyet`.
    pub fn continue_receiving_double_buffered(self) -> (r: Result<
        DW1000<R, AutoDoubleBufferReceiving>,
        (Self, Error<R::Error>),
    >)
        ensures
            !(self.mode().continuation is RxDoubleBuffered) ==> (r matches Err((d, e)) && d == self && e is WrongTxContinuation),
            self.mode().continuation is RxDoubleBuffered && !self.mode().finished ==> (r matches Err((d, e)) && d == self && e is TxNotFinishedyet),
            r matches Ok(d) ==> {
                &&& self.mode().continuation is RxDoubleBuffered
                &&& self.mode().finished
                &&& d.spec_seq() == self.spec_seq()
                &&& exists|status: Seq<FieldValue>|
                    d.ops() == self.ops() + continue_double_ops(status)
                &&& d.mode() == (AutoDoubleBufferReceiving {
                    finished: false,
                    config: rx_config_of(
                        self.mode().config,
                        self.mode().continuation->RxDoubleBuffered_frame_filtering,
                        self.mode().continuation->RxDoubleBuffered_auto_ack,
                    ),
                })
            },
            r matches Err((d, e)) ==> d.mode() == self.mode() && d.spec_seq() == self.spec_seq() && (
            e is WrongTxContinuation || e is TxNotFinishedyet || e is Spi),
            r matches Err((_, e)) && e is WrongTxContinuation ==> !(self.mode().continuation is RxDoubleBuffered),
            r matches Err((_, e)) && e is TxNotFinishedyet ==> self.mode().continuation is RxDoubleBuffered
                && !self.mode().finished,
            self.mode().continuation is RxDoubleBuffered && self.mode().finished ==> (r is Ok
                || r matches Err((_, Error::Spi(_)))),
            r matches Err((d, e)) ==> (e is Spi ==> exists|status: Seq<FieldValue>|
                stopped_within(self.ops(), d.ops(), continue_double_ops(status))),
    {
        let (frame_filtering, auto_ack) = match self.state.continuation {
            TxContinuation::RxDoubleBuffered { frame_filtering, auto_ack } => (
                frame_filtering,
                auto_ack,
            ),
            _ => return Err((self, Error::WrongTxContinuation)),
        };
        if !self.state.finished {
            return Err((self, Error::TxNotFinishedyet));
        }
        let mut dev = self;
        let ghost start = dev.ops();
        let status = match dev.read_reg(Register::SysStatus) {
            Ok(v) => v,
            Err(e) => {
                assert(dev.ops() =~= start + continue_double_ops(Seq::empty()).take(1));
                assert(stopped_within(start, dev.ops(), continue_double_ops(Seq::empty())));
                return Err((dev, e));
            },
        };
        let ghost planned = continue_double_ops(status@);
        if field_of(&status, Field::Hsrbp) != field_of(&status, Field::Icrbp) {
            // The host and the chip point at different receive buffers:
            // switch the host's over.
            match dev.modify_reg(Register::SysCtrl, &[fval(Field::Hrbpt, 1)]) {
                Ok(()) => {},
                Err(e) => {
                    assert(dev.ops() =~= start + planned.take(2));
                    assert(stopped_within(start, dev.ops(), planned));
                    return Err((dev, e));
                },
            }
        }
        let ghost k = dev.ops().len() - start.len();
        match dev.reset_flags() {
            Ok(()) => {},
            Err(e) => {
                assert(dev.ops() =~= start + planned.take(k + 1));
                assert(stopped_within(start, dev.ops(), planned));
                return Err((dev, e));
            },
        }
        match dev.modify_reg(Register::EcCtrl, &[fval(Field::Ostsm, 0)]) {
            Ok(()) => {},
            Err(e) => {
                assert(dev.ops() =~= start + planned.take(k + 2));
                assert(stopped_within(start, dev.ops(), planned));
                return Err((dev, e));
            },
        }
        assert(dev.ops() =~= start + continue_double_ops(status@));
        let config = RxConfig::from_tx_config(dev.state.config, frame_filtering, auto_ack);
        Ok(
            DW1000 {
                ll: dev.ll,
                seq: dev.seq,
                state: AutoDoubleBufferReceiving { finished: false, config },
                log: dev.log,
            },
        )
    }
}

} // verus!

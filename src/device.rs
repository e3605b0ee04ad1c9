use crate::configs::{RxConfig, TxConfig, TxContinuation};
use crate::error::Error;
use crate::registers::{fv, Field, FieldValue, RegOp, Register, Registers};
use vstd::prelude::*;

verus! {

/// A handle on the radio. `R` is the register capability that it owns, `S`
/// the mode that the radio is in.
pub struct DW1000<R, S> {
    pub ll: R,
    pub seq: u8,
    pub state: S,
    pub log: Ghost<Seq<RegOp>>,
}

/// The radio has not been initialized yet.
#[derive(Clone, Copy, Debug, PartialEq, Eq, Structural)]
pub struct Uninitialized;

/// The radio is idle and can be configured, send, receive or sleep.
#[derive(Clone, Copy, Debug, PartialEq, Eq, Structural)]
pub struct Ready;

/// The radio is sending a frame.
#[derive(Clone, Copy, Debug, PartialEq, Eq, Structural)]
pub struct Sending {
    /// Whether the end of the transmission has been observed.
    pub finished: bool,
    /// What follows the transmission.
    pub continuation: TxContinuation,
    /// The settings of the transmission.
    pub config: TxConfig,
}

/// The radio listens for one frame.
#[derive(Clone, Copy, Debug, PartialEq, Eq, Structural)]
pub struct SingleBufferReceiving {
    /// Whether the end of the reception has been observed.
    pub finished: bool,
    /// The receiver's settings.
    pub config: RxConfig,
}

/// The radio listens in double buffered mode, re-enabling itself after each
/// frame.
#[derive(Clone, Copy, Debug, PartialEq, Eq, Structural)]
pub struct AutoDoubleBufferReceiving {
    /// Whether the end of the reception has been observed.
    pub finished: bool,
    /// The receiver's settings.
    pub config: RxConfig,
}

/// The radio sleeps.
#[derive(Clone, Copy, Debug, PartialEq, Eq, Structural)]
pub struct Sleeping {
    /// The transmit antenna delay before sleeping; the chip forgets it while
    /// it sleeps.
    pub tx_antenna_delay: u16,
}

/// How the receiver buffers frames.
#[derive(Clone, Copy, Debug, PartialEq, Eq, Structural)]
pub enum BufferMode {
    /// One buffer; the receiver stops after a frame.
    Single,
    /// Two buffers; the receiver re-enables itself after a frame.
    AutoDouble,
}

impl BufferMode {
    pub open spec fn spec_double_buffered(self) -> bool {
        self == BufferMode::AutoDouble
    }

    /// Whether both receive buffers are used.
    #[verifier::when_used_as_spec(spec_double_buffered)]
    pub fn double_buffered(self) -> (r: bool)
        ensures
            r == self.spec_double_buffered(),
    {
        match self {
            BufferMode::Single => false,
            BufferMode::AutoDouble => true,
        }
    }

    pub open spec fn spec_auto_rx_reenable(self) -> bool {
        self == BufferMode::AutoDouble
    }

    /// Whether the receiver re-enables itself after a frame.
    #[verifier::when_used_as_spec(spec_auto_rx_reenable)]
    pub fn auto_rx_reenable(self) -> (r: bool)
        ensures
            r == self.spec_auto_rx_reenable(),
    {
        match self {
            BufferMode::Single => false,
            BufferMode::AutoDouble => true,
        }
    }
}

/// A flag as a field value.
pub open spec fn bit(b: bool) -> u64 {
    if b {
        1
    } else {
        0
    }
}

/// A flag as a field value.
pub fn bit_of(b: bool) -> (r: u64)
    ensures
        r == bit(b),
{
    if b {
        1
    } else {
        0
    }
}

/// The values that a read operation returned.
pub open spec fn read_values(op: RegOp) -> Seq<FieldValue> {
    match op {
        RegOp::Read(_, v) => v,
        _ => Seq::empty(),
    }
}

/// `after` is `before` followed by the first `k` of the `planned`
/// operations, for some `k` from one on: the log that an operation leaves
/// when its `k`-th register access fails, as none is issued after it.
pub open spec fn stopped_within(before: Seq<RegOp>, after: Seq<RegOp>, planned: Seq<RegOp>) -> bool {
    exists|k: int| 1 <= k <= planned.len() && after == before + #[trigger] planned.take(k)
}

/// Forcing the transceiver off, into idle.
pub open spec fn idle_op() -> RegOp {
    RegOp::Modify(Register::SysCtrl, [fv(Field::Trxoff, 1)]@)
}

/// Clearing the four transmit status flags.
pub open spec fn clear_tx_flags_op() -> RegOp {
    RegOp::Write(
        Register::SysStatus,
        [
            fv(Field::Txfrb, 1),
            fv(Field::Txprs, 1),
            fv(Field::Txphs, 1),
            fv(Field::Txfrs, 1),
        ]@,
    )
}

/// Turning off the external transmit synchronization.
pub open spec fn sync_off_op() -> RegOp {
    RegOp::Modify(Register::EcCtrl, [fv(Field::Ostsm, 0)]@)
}

/// Reading a word of the one-time programmable memory at `addr`; `v` is
/// what the read returned.
pub open spec fn otp_read_ops(addr: u64, v: Seq<FieldValue>) -> Seq<RegOp> {
    seq![
        RegOp::Write(Register::OtpAddr, [fv(Field::Value, addr)]@),
        RegOp::Write(Register::OtpCtrl, [fv(Field::Otprden, 1), fv(Field::Otpread, 1)]@),
        RegOp::Read(Register::OtpRdat, v),
    ]
}

impl<R, S> DW1000<R, S> {
    /// The register operations issued through this handle, oldest first.
    pub open spec fn ops(&self) -> Seq<RegOp> {
        self.log@
    }

    /// The sequence number of the next frame.
    pub open spec fn spec_seq(&self) -> u8 {
        self.seq
    }

    /// The register capability.
    pub open spec fn bus(&self) -> R {
        self.ll
    }

    /// The mode payload.
    pub open spec fn mode(&self) -> S {
        self.state
    }

    /// The sequence number that the next frame will carry.
    #[verifier::when_used_as_spec(spec_seq)]
    pub fn seq(&self) -> (r: u8)
        ensures
            r == self.spec_seq(),
    {
        self.seq
    }

    /// The mode payload.
    pub fn state(&self) -> (r: &S)
        ensures
            *r == self.mode(),
    {
        &self.state
    }

    /// The register capability.
    pub fn ll(&self) -> (r: &R)
        ensures
            *r == self.bus(),
    {
        &self.ll
    }
}

impl<R: Registers, S> DW1000<R, S> {
    pub(crate) fn write_reg(&mut self, reg: Register, fields: &[FieldValue]) -> (r: Result<
        (),
        Error<R::Error>,
    >)
        ensures
            final(self).ops() == old(self).ops().push(RegOp::Write(reg, fields@)),
            final(self).spec_seq() == old(self).spec_seq(),
            final(self).mode() == old(self).mode(),
            r matches Err(e) ==> e is Spi,
    {
        let r = self.ll.write(reg, fields);
        self.log = Ghost(self.log@.push(RegOp::Write(reg, fields@)));
        match r {
            Ok(()) => Ok(()),
            Err(e) => Err(Error::Spi(e)),
        }
    }

    pub(crate) fn modify_reg(&mut self, reg: Register, fields: &[FieldValue]) -> (r: Result<
        (),
        Error<R::Error>,
    >)
        ensures
            final(self).ops() == old(self).ops().push(RegOp::Modify(reg, fields@)),
            final(self).spec_seq() == old(self).spec_seq(),
            final(self).mode() == old(self).mode(),
            r matches Err(e) ==> e is Spi,
    {
        let r = self.ll.modify(reg, fields);
        self.log = Ghost(self.log@.push(RegOp::Modify(reg, fields@)));
        match r {
            Ok(()) => Ok(()),
            Err(e) => Err(Error::Spi(e)),
        }
    }

    pub(crate) fn read_reg(&mut self, reg: Register) -> (r: Result<
        Vec<FieldValue>,
        Error<R::Error>,
    >)
        ensures
            r matches Ok(v) ==> final(self).ops() == old(self).ops().push(RegOp::Read(reg, v@)),
            r is Err ==> final(self).ops() == old(self).ops().push(
                RegOp::Read(reg, Seq::empty()),
            ),
            final(self).spec_seq() == old(self).spec_seq(),
            final(self).mode() == old(self).mode(),
            r matches Err(e) ==> e is Spi,
    {
        let r = self.ll.read(reg);
        match r {
            Ok(v) => {
                self.log = Ghost(self.log@.push(RegOp::Read(reg, v@)));
                Ok(v)
            },
            Err(e) => {
                self.log = Ghost(self.log@.push(RegOp::Read(reg, Seq::empty())));
                Err(Error::Spi(e))
            },
        }
    }

    pub(crate) fn write_bytes_reg(&mut self, reg: Register, data: &[u8]) -> (r: Result<
        (),
        Error<R::Error>,
    >)
        ensures
            final(self).ops() == old(self).ops().push(RegOp::WriteBytes(reg, data@)),
            final(self).spec_seq() == old(self).spec_seq(),
            final(self).mode() == old(self).mode(),
            r matches Err(e) ==> e is Spi,
    {
        let r = self.ll.write_bytes(reg, data);
        self.log = Ghost(self.log@.push(RegOp::WriteBytes(reg, data@)));
        match r {
            Ok(()) => Ok(()),
            Err(e) => Err(Error::Spi(e)),
        }
    }

    pub(crate) fn delay(&mut self, ms: u32)
        ensures
            final(self).ops() == old(self).ops().push(RegOp::Delay(ms)),
            final(self).spec_seq() == old(self).spec_seq(),
            final(self).mode() == old(self).mode(),
    {
        self.ll.delay_ms(ms);
        self.log = Ghost(self.log@.push(RegOp::Delay(ms)));
    }

    /// Turns the transceiver off, forcing the chip into idle.
    pub(crate) fn force_idle(&mut self) -> (r: Result<(), Error<R::Error>>)
        ensures
            final(self).ops() == old(self).ops().push(idle_op()),
            final(self).spec_seq() == old(self).spec_seq(),
            final(self).mode() == old(self).mode(),
            r matches Err(e) ==> e is Spi,
    {
        self.modify_reg(Register::SysCtrl, &[FieldValue { field: Field::Trxoff, value: 1 }])
    }

    /// Clears the transmit status flags.
    pub(crate) fn reset_flags(&mut self) -> (r: Result<(), Error<R::Error>>)
        ensures
            final(self).ops() == old(self).ops().push(clear_tx_flags_op()),
            final(self).spec_seq() == old(self).spec_seq(),
            final(self).mode() == old(self).mode(),
            r matches Err(e) ==> e is Spi,
    {
        self.write_reg(
            Register::SysStatus,
            &[
                FieldValue { field: Field::Txfrb, value: 1 },
                FieldValue { field: Field::Txprs, value: 1 },
                FieldValue { field: Field::Txphs, value: 1 },
                FieldValue { field: Field::Txfrs, value: 1 },
            ],
        )
    }

    /// Reads the word of the one-time programmable memory at `addr`; the
    /// word is the `Value` field of what comes back.
    pub(crate) fn read_otp(&mut self, addr: u64) -> (r: Result<Vec<FieldValue>, Error<R::Error>>)
        ensures
            r matches Ok(v) ==> final(self).ops() == old(self).ops() + otp_read_ops(addr, v@),
            final(self).spec_seq() == old(self).spec_seq(),
            final(self).mode() == old(self).mode(),
            r matches Err(e) ==> e is Spi,
    {
        let ghost start = self.ops();
        self.write_reg(Register::OtpAddr, &[FieldValue { field: Field::Value, value: addr }])?;
        self.write_reg(
            Register::OtpCtrl,
            &[
                FieldValue { field: Field::Otprden, value: 1 },
                FieldValue { field: Field::Otpread, value: 1 },
            ],
        )?;
        let v = self.read_reg(Register::OtpRdat)?;
        assert(self.ops() =~= start + otp_read_ops(addr, v@));
        Ok(v)
    }
}

} // verus!

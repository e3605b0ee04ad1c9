use crate::device::{otp_read_ops, DW1000, Ready, Uninitialized};
use crate::error::Error;
use crate::registers::{field_in, field_of, fv, fval, Field, FieldValue, RegOp, Register, Registers};
use vstd::prelude::*;

verus! {

/// The tuning values that the chip's defaults get wrong, written in the
/// order that the user manual gives.
pub open spec fn init_tuning_ops() -> Seq<RegOp> {
    seq![
        RegOp::Write(Register::AgcTune1, [fv(Field::Value, 0x8870)]@),
        RegOp::Write(Register::AgcTune2, [fv(Field::Value, 0x2502A907)]@),
        RegOp::Write(Register::DrxTune2, [fv(Field::Value, 0x311A002D)]@),
        RegOp::Modify(Register::LdeCfg1, [fv(Field::Ntm, 0xD)]@),
        RegOp::Write(Register::LdeCfg2, [fv(Field::Value, 0x1607)]@),
        RegOp::Write(Register::TxPower, [fv(Field::Value, 0x0E082848)]@),
        RegOp::Modify(Register::RfTxctrl, [fv(Field::Txmtune, 0b1111), fv(Field::Txmq, 0b111)]@),
        RegOp::Write(Register::TcPgdelay, [fv(Field::Value, 0xC0)]@),
        RegOp::Write(Register::FsPlltune, [fv(Field::Value, 0xBE)]@),
    ]
}

/// The 32-bit word that a read of the one-time programmable memory gave.
pub open spec fn otp_word(v: Seq<FieldValue>) -> u64 {
    field_in(v, Field::Value) & 0xffff_ffff
}

/// The 64-bit LDOTUNE value made of its two calibration words.
pub open spec fn ldotune_value(low: u64, high: u64) -> u64 {
    low | (high << 32u64)
}

/// Initialization: the tuning writes; the regulator calibration where the
/// chip holds one (`low` and `high` are its two words as read); then the
/// leading edge detection table load: set the clock bits (`ctrl_set`, the control
/// register as read), trigger the load, wait, clear the bits (`ctrl_clear`).
pub open spec fn init_ops(
    low: Seq<FieldValue>,
    high: Seq<FieldValue>,
    ctrl_set: Seq<FieldValue>,
    ctrl_clear: Seq<FieldValue>,
) -> Seq<RegOp> {
    init_tuning_ops() + otp_read_ops(4, low) + (if otp_word(low) != 0 {
        otp_read_ops(5, high) + seq![
            RegOp::Write(
                Register::Ldotune,
                [fv(Field::Value, ldotune_value(otp_word(low), otp_word(high)))]@,
            ),
        ]
    } else {
        Seq::empty()
    }) + seq![
        RegOp::Read(Register::PmscCtrl0, ctrl_set),
        RegOp::Write(Register::PmscCtrl0, [fv(Field::Value, field_in(ctrl_set, Field::Value) | 0x0301)]@),
        RegOp::Write(Register::OtpCtrl, [fv(Field::Ldeload, 1)]@),
        RegOp::Delay(5),
        RegOp::Read(Register::PmscCtrl0, ctrl_clear),
        RegOp::Write(
            Register::PmscCtrl0,
            [fv(Field::Value, field_in(ctrl_clear, Field::Value) & !0x0101u64)]@,
        ),
    ]
}

impl<R: Registers> DW1000<R, Uninitialized> {
    /// A handle on the radio behind the register capability `ll`.
    pub fn new(ll: R) -> (r: Self)
        ensures
            r.bus() == ll,
            r.spec_seq() == 0,
            r.ops() == Seq::<RegOp>::empty(),
    {
        DW1000 { ll, seq: 0, state: Uninitialized, log: Ghost(Seq::empty()) }
    }

    /// Initializes the radio: writes the tuning values that the chip's
    /// defaults get wrong, and loads the leading edge detection table. Any
    /// transport failure leaves the radio to be initialized afresh.
    pub fn init(self) -> (r: Result<DW1000<R, Ready>, Error<R::Error>>)
        ensures
            r matches Ok(d) ==> d.spec_seq() == self.spec_seq() && exists|
                low: Seq<FieldValue>,
                high: Seq<FieldValue>,
                ctrl_set: Seq<FieldValue>,
                ctrl_clear: Seq<FieldValue>,
            | d.ops() == self.ops() + init_ops(low, high, ctrl_set, ctrl_clear),
            r matches Err(e) ==> e is Spi,
    {
        let mut dev = self;
        let ghost start = dev.ops();
        dev.write_reg(Register::AgcTune1, &[fval(Field::Value, 0x8870)])?;
        dev.write_reg(Register::AgcTune2, &[fval(Field::Value, 0x2502A907)])?;
        dev.write_reg(Register::DrxTune2, &[fval(Field::Value, 0x311A002D)])?;
        dev.modify_reg(Register::LdeCfg1, &[fval(Field::Ntm, 0xD)])?;
        dev.write_reg(Register::LdeCfg2, &[fval(Field::Value, 0x1607)])?;
        dev.write_reg(Register::TxPower, &[fval(Field::Value, 0x0E082848)])?;
        dev.modify_reg(
            Register::RfTxctrl,
            &[fval(Field::Txmtune, 0b1111), fval(Field::Txmq, 0b111)],
        )?;
        dev.write_reg(Register::TcPgdelay, &[fval(Field::Value, 0xC0)])?;
        dev.write_reg(Register::FsPlltune, &[fval(Field::Value, 0xBE)])?;
        assert(dev.ops() =~= start + init_tuning_ops());

        let ghost before_otp = dev.ops();
        let low_read = dev.read_otp(4)?;
        let low = field_of(&low_read, Field::Value) & 0xffff_ffff;
        let ghost mut high_read: Seq<FieldValue> = Seq::empty();
        if low != 0 {
            let high_fields = dev.read_otp(5)?;
            let high = field_of(&high_fields, Field::Value) & 0xffff_ffff;
            proof {
                high_read = high_fields@;
            }
            dev.write_reg(Register::Ldotune, &[fval(Field::Value, low | (high << 32u64))])?;
        }
        let ghost after_otp = dev.ops();
        assert(after_otp =~= before_otp + otp_read_ops(4, low_read@) + (if otp_word(low_read@)
            != 0 {
            otp_read_ops(5, high_read) + seq![
                RegOp::Write(
                    Register::Ldotune,
                    [fv(Field::Value, ldotune_value(otp_word(low_read@), otp_word(high_read)))]@,
                ),
            ]
        } else {
            Seq::empty()
        }));

        let ctrl_set = dev.read_reg(Register::PmscCtrl0)?;
        let raw1 = field_of(&ctrl_set, Field::Value);
        dev.write_reg(Register::PmscCtrl0, &[fval(Field::Value, raw1 | 0x0301)])?;
        dev.write_reg(Register::OtpCtrl, &[fval(Field::Ldeload, 1)])?;
        dev.delay(5);
        let ctrl_clear = dev.read_reg(Register::PmscCtrl0)?;
        let raw2 = field_of(&ctrl_clear, Field::Value);
        dev.write_reg(Register::PmscCtrl0, &[fval(Field::Value, raw2 & !0x0101u64)])?;
        assert(dev.ops() =~= start + init_ops(low_read@, high_read, ctrl_set@, ctrl_clear@));

        Ok(DW1000 { ll: dev.ll, seq: dev.seq, state: Ready, log: dev.log })
    }
}

} // verus!

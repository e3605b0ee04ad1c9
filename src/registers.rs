use vstd::prelude::*;

verus! {

/// The chip registers that the driver reads or writes.
#[derive(Clone, Copy, Debug, PartialEq, Eq, Structural)]
pub enum Register {
    AckRespT,
    AgcTune1,
    AgcTune2,
    AonCfg0,
    AonCfg1,
    AonCtrl,
    AonWcfg,
    ChanCtrl,
    DrxTune0b,
    DrxTune1a,
    DrxTune1b,
    DrxTune2,
    DrxTune4h,
    DxTime,
    EcCtrl,
    EvcCtrl,
    EvcHpw,
    EvcTpw,
    FsPllcfg,
    FsPlltune,
    GpioMode,
    LdeCfg1,
    LdeCfg2,
    LdeRepc,
    LdeRxantd,
    Ldotune,
    OtpAddr,
    OtpCtrl,
    OtpRdat,
    Panadr,
    PmscCtrl0,
    PmscCtrl1,
    PmscLedc,
    RfRxctrlh,
    RfTxctrl,
    SfdLength,
    SysCfg,
    SysCtrl,
    SysMask,
    SysStatus,
    TcPgdelay,
    TxAntd,
    TxBuffer,
    TxFctrl,
    TxPower,
    TxTime,
}

/// The bit fields of those registers. A field's name is the one the chip's
/// user manual gives it within its register; `Value` is a register's whole
/// content where it has no finer layout.
#[derive(Clone, Copy, Debug, PartialEq, Eq, Structural)]
pub enum Field {
    Value,
    AckTim,
    Autoack,
    BlinkTim,
    Blnken,
    ClkpllLl,
    Cplock,
    DisDrxb,
    Dwsfd,
    EvcClr,
    EvcEn,
    Ffaa,
    Ffab,
    Ffad,
    Ffam,
    Ffen,
    Gpdce,
    HirqPol,
    Hrbpt,
    Hsrbp,
    Icrbp,
    Khzclken,
    Ldeload,
    LposcCal,
    Maffrej,
    Mcplock,
    Mrxdfr,
    Mrxfce,
    Mrxovrr,
    Mrxphe,
    Mrxpto,
    Mrxrfsl,
    Mrxrfto,
    Mrxsfdto,
    Mslp2init,
    Msgp0,
    Msgp1,
    Msgp2,
    Msgp3,
    Mtxfrs,
    Ntm,
    OnwL64p,
    OnwLdc,
    OnwLlde,
    OnwLldo,
    Osrsm,
    Ostrm,
    Ostsm,
    Otprden,
    Otpread,
    PanId,
    Pe,
    Pllldt,
    Pllsyn,
    Rnssfd,
    RxChan,
    RxPcode,
    Rxautr,
    Rxenab,
    Rxm110k,
    Rxprf,
    Save,
    Sfcst,
    ShortAddr,
    SleepCen,
    SleepEn,
    SleepTim,
    Smxx,
    Softreset,
    Sysclks,
    Tfle,
    Tflen,
    Tnssfd,
    Tr,
    Trxoff,
    TxChan,
    TxPcode,
    TxStamp,
    Txboffs,
    Txbr,
    Txdlys,
    Txfrb,
    Txfrs,
    Txphs,
    Txprf,
    Txprs,
    Txpsr,
    Txstrt,
    Txmq,
    Txmtune,
    UplCfg,
    Wait,
    Wait4resp,
    WakeCnt,
    WakeSpi,
    W4rTim,
}

/// One field of a register together with its value.
#[derive(Clone, Copy, Debug, PartialEq, Eq, Structural)]
pub struct FieldValue {
    pub field: Field,
    pub value: u64,
}

/// One operation that the driver issued through the register capability.
pub ghost enum RegOp {
    /// The register was written: the given fields hold the given values,
    /// every other field its reset value.
    Write(Register, Seq<FieldValue>),
    /// The register was read, changed in the given fields and written back.
    Modify(Register, Seq<FieldValue>),
    /// The register was read; these are the field values that came back.
    Read(Register, Seq<FieldValue>),
    /// The bytes were written into a data buffer register.
    WriteBytes(Register, Seq<u8>),
    /// The driver waited for the given number of milliseconds.
    Delay(u32),
}

/// The register capability: access to the chip's registers over its serial
/// transport. Each call is one transport round trip and may fail with the
/// transport's error. How registers and fields are laid out in bits is the
/// implementor's concern.
pub trait Registers {
    type Error;

    /// Writes `reg`: the listed fields get the listed values, all other
    /// fields their reset values.
    fn write(&mut self, reg: Register, fields: &[FieldValue]) -> Result<(), Self::Error>;

    /// Reads `reg`, sets the listed fields to the listed values and writes
    /// the result back.
    fn modify(&mut self, reg: Register, fields: &[FieldValue]) -> Result<(), Self::Error>;

    /// Reads `reg` and returns the values of its fields.
    fn read(&mut self, reg: Register) -> Result<Vec<FieldValue>, Self::Error>;

    /// Writes `data` into the data buffer register `reg`, from its start.
    fn write_bytes(&mut self, reg: Register, data: &[u8]) -> Result<(), Self::Error>;

    /// Waits for `ms` milliseconds.
    fn delay_ms(&mut self, ms: u32);
}

pub open spec fn fv(field: Field, value: u64) -> FieldValue {
    FieldValue { field, value }
}

/// `field` with `value`.
pub fn fval(field: Field, value: u64) -> (r: FieldValue)
    ensures
        r == fv(field, value),
{
    FieldValue { field, value }
}

/// The value of `f` among `fields`: the first entry for it, zero where none is.
pub open spec fn field_in(fields: Seq<FieldValue>, f: Field) -> u64
    decreases fields.len(),
{
    if fields.len() == 0 {
        0
    } else if fields[0].field == f {
        fields[0].value
    } else {
        field_in(fields.drop_first(), f)
    }
}

/// Looks up the value of `f` among the fields that a read returned.
pub fn field_of(fields: &Vec<FieldValue>, f: Field) -> (r: u64)
    ensures
        r == field_in(fields@, f),
{
    let mut i: usize = 0;
    assert(fields@.subrange(0, fields@.len() as int) =~= fields@);
    while i < fields.len()
        invariant
            i <= fields@.len(),
            field_in(fields@, f) == field_in(fields@.subrange(i as int, fields@.len() as int), f),
        decreases fields.len() - i,
    {
        let ghost rest = fields@.subrange(i as int, fields@.len() as int);
        assert(rest.drop_first() =~= fields@.subrange(i + 1, fields@.len() as int));
        if fields[i].field == f {
            return fields[i].value;
        }
        i = i + 1;
    }
    assert(fields@.subrange(i as int, fields@.len() as int) =~= Seq::<FieldValue>::empty());
    0
}

} // verus!

use vstd::prelude::*;

verus! {

/// The bitrate of the data part of a frame.
#[derive(Clone, Copy, Debug, PartialEq, Eq, Structural)]
pub enum BitRate {
    Kbps110,
    Kbps850,
    Kbps6800,
}

/// The pulse repetition frequency of the preamble.
#[derive(Clone, Copy, Debug, PartialEq, Eq, Structural)]
pub enum PulseRepetitionFrequency {
    Mhz16,
    Mhz64,
}

/// The number of preamble symbols sent before a frame.
#[derive(Clone, Copy, Debug, PartialEq, Eq, Structural)]
pub enum PreambleLength {
    Symbols64,
    Symbols128,
    Symbols256,
    Symbols512,
    Symbols1024,
    Symbols1536,
    Symbols2048,
    Symbols4096,
}

/// The preamble acquisition chunk size that suits a preamble length.
#[derive(Clone, Copy, Debug, PartialEq, Eq, Structural)]
pub enum PacSize {
    Pac8,
    Pac16,
    Pac32,
    Pac64,
}

/// The radio channel.
#[derive(Clone, Copy, Debug, PartialEq, Eq, Structural)]
pub enum UwbChannel {
    Channel1,
    Channel2,
    Channel3,
    Channel4,
    Channel5,
    Channel7,
}

/// The start-of-frame delimiter that marks where the frame begins.
#[derive(Clone, Copy, Debug, PartialEq, Eq, Structural)]
pub enum SfdSequence {
    /// The standard's own sequence.
    IEEE,
    /// The chip vendor's sequence, eight symbols long.
    Decawave,
    /// The chip vendor's alternative sequence, sixteen symbols long.
    DecawaveAlt,
    /// A sequence that the user programs.
    User,
}

/// Whether received frames are acknowledged automatically.
#[derive(Clone, Copy, Debug, PartialEq, Eq, Structural)]
pub enum AutoAck {
    Disabled,
    /// Acknowledge, `turnaround_time` symbols after the frame.
    Enabled { turnaround_time: u8 },
}

/// What the radio does once a frame is sent.
#[derive(Clone, Copy, Debug, PartialEq, Eq, Structural)]
pub enum TxContinuation {
    /// Go back to the ready state.
    Ready,
    /// Listen for one frame.
    Rx { frame_filtering: bool, auto_ack: AutoAck },
    /// Listen in double buffered mode with automatic re-enable.
    RxDoubleBuffered { frame_filtering: bool, auto_ack: AutoAck },
}

/// The settings of a transmission.
#[derive(Clone, Copy, Debug, PartialEq, Eq, Structural)]
pub struct TxConfig {
    pub bitrate: BitRate,
    pub ranging_enable: bool,
    pub pulse_repetition_frequency: PulseRepetitionFrequency,
    pub preamble_length: PreambleLength,
    pub channel: UwbChannel,
    pub sfd_sequence: SfdSequence,
    pub append_crc: bool,
    pub continuation: TxContinuation,
}

/// The settings of the receiver.
#[derive(Clone, Copy, Debug, PartialEq, Eq, Structural)]
pub struct RxConfig {
    pub bitrate: BitRate,
    pub frame_filtering: bool,
    pub pulse_repetition_frequency: PulseRepetitionFrequency,
    pub expected_preamble_length: PreambleLength,
    pub channel: UwbChannel,
    pub sfd_sequence: SfdSequence,
    pub auto_ack: AutoAck,
}

/// The receiver settings that match a transmission's settings.
pub open spec fn rx_config_of(config: TxConfig, frame_filtering: bool, auto_ack: AutoAck) -> RxConfig {
    RxConfig {
        bitrate: config.bitrate,
        frame_filtering,
        pulse_repetition_frequency: config.pulse_repetition_frequency,
        expected_preamble_length: config.preamble_length,
        channel: config.channel,
        sfd_sequence: config.sfd_sequence,
        auto_ack,
    }
}

impl RxConfig {
    /// The receiver settings that match a transmission: the link parameters
    /// come from `config`, only filtering and acknowledging are chosen here.
    pub fn from_tx_config(config: TxConfig, frame_filtering: bool, auto_ack: AutoAck) -> (r:
        RxConfig)
        ensures
            r.bitrate == config.bitrate,
            r.pulse_repetition_frequency == config.pulse_repetition_frequency,
            r.channel == config.channel,
            r.sfd_sequence == config.sfd_sequence,
            r.expected_preamble_length == config.preamble_length,
            r.frame_filtering == frame_filtering,
            r.auto_ack == auto_ack,
            r == rx_config_of(config, frame_filtering, auto_ack),
    {
        RxConfig {
            bitrate: config.bitrate,
            frame_filtering,
            pulse_repetition_frequency: config.pulse_repetition_frequency,
            expected_preamble_length: config.preamble_length,
            channel: config.channel,
            sfd_sequence: config.sfd_sequence,
            auto_ack,
        }
    }
}

impl BitRate {
    /// The code of the bitrate in the chip's registers.
    pub open spec fn spec_code(self) -> u64 {
        match self {
            BitRate::Kbps110 => 0,
            BitRate::Kbps850 => 1,
            BitRate::Kbps6800 => 2,
        }
    }

    #[verifier::when_used_as_spec(spec_code)]
    pub fn code(self) -> (r: u64)
        ensures
            r == self.spec_code(),
    {
        match self {
            BitRate::Kbps110 => 0,
            BitRate::Kbps850 => 1,
            BitRate::Kbps6800 => 2,
        }
    }

    pub open spec fn spec_drx_tune0b(self, sfd: SfdSequence) -> u16 {
        let standard = sfd == SfdSequence::IEEE;
        match self {
            BitRate::Kbps110 => if standard { 0x000A } else { 0x0016 },
            BitRate::Kbps850 => if standard { 0x0001 } else { 0x0006 },
            BitRate::Kbps6800 => if standard { 0x0001 } else { 0x0002 },
        }
    }

    /// The recommended DRX_TUNE0b value for this bitrate and SFD sequence.
    #[verifier::when_used_as_spec(spec_drx_tune0b)]
    pub fn drx_tune0b(self, sfd: SfdSequence) -> (r: u16)
        ensures
            r == self.spec_drx_tune0b(sfd),
    {
        let standard = sfd == SfdSequence::IEEE;
        match self {
            BitRate::Kbps110 => if standard { 0x000A } else { 0x0016 },
            BitRate::Kbps850 => if standard { 0x0001 } else { 0x0006 },
            BitRate::Kbps6800 => if standard { 0x0001 } else { 0x0002 },
        }
    }
}

impl PulseRepetitionFrequency {
    pub open spec fn spec_code(self) -> u64 {
        match self {
            PulseRepetitionFrequency::Mhz16 => 1,
            PulseRepetitionFrequency::Mhz64 => 2,
        }
    }

    /// The code of the frequency in the chip's registers.
    #[verifier::when_used_as_spec(spec_code)]
    pub fn code(self) -> (r: u64)
        ensures
            r == self.spec_code(),
    {
        match self {
            PulseRepetitionFrequency::Mhz16 => 1,
            PulseRepetitionFrequency::Mhz64 => 2,
        }
    }

    pub open spec fn spec_drx_tune1a(self) -> u16 {
        match self {
            PulseRepetitionFrequency::Mhz16 => 0x0087,
            PulseRepetitionFrequency::Mhz64 => 0x008D,
        }
    }

    /// The recommended DRX_TUNE1a value.
    #[verifier::when_used_as_spec(spec_drx_tune1a)]
    pub fn drx_tune1a(self) -> (r: u16)
        ensures
            r == self.spec_drx_tune1a(),
    {
        match self {
            PulseRepetitionFrequency::Mhz16 => 0x0087,
            PulseRepetitionFrequency::Mhz64 => 0x008D,
        }
    }

    pub open spec fn spec_drx_tune2(self, pac: PacSize) -> u32 {
        match (self, pac) {
            (PulseRepetitionFrequency::Mhz16, PacSize::Pac8) => 0x311A002D,
            (PulseRepetitionFrequency::Mhz64, PacSize::Pac8) => 0x313B006B,
            (PulseRepetitionFrequency::Mhz16, PacSize::Pac16) => 0x331A0052,
            (PulseRepetitionFrequency::Mhz64, PacSize::Pac16) => 0x333B00BE,
            (PulseRepetitionFrequency::Mhz16, PacSize::Pac32) => 0x351A009A,
            (PulseRepetitionFrequency::Mhz64, PacSize::Pac32) => 0x353B015E,
            (PulseRepetitionFrequency::Mhz16, PacSize::Pac64) => 0x371A011D,
            (PulseRepetitionFrequency::Mhz64, PacSize::Pac64) => 0x373B0296,
        }
    }

    /// The recommended DRX_TUNE2 value for this frequency and chunk size.
    #[verifier::when_used_as_spec(spec_drx_tune2)]
    pub fn drx_tune2(self, pac: PacSize) -> (r: u32)
        ensures
            r == self.spec_drx_tune2(pac),
    {
        match (self, pac) {
            (PulseRepetitionFrequency::Mhz16, PacSize::Pac8) => 0x311A002D,
            (PulseRepetitionFrequency::Mhz64, PacSize::Pac8) => 0x313B006B,
            (PulseRepetitionFrequency::Mhz16, PacSize::Pac16) => 0x331A0052,
            (PulseRepetitionFrequency::Mhz64, PacSize::Pac16) => 0x333B00BE,
            (PulseRepetitionFrequency::Mhz16, PacSize::Pac32) => 0x351A009A,
            (PulseRepetitionFrequency::Mhz64, PacSize::Pac32) => 0x353B015E,
            (PulseRepetitionFrequency::Mhz16, PacSize::Pac64) => 0x371A011D,
            (PulseRepetitionFrequency::Mhz64, PacSize::Pac64) => 0x373B0296,
        }
    }

    pub open spec fn spec_lde_cfg2(self) -> u16 {
        match self {
            PulseRepetitionFrequency::Mhz16 => 0x1607,
            PulseRepetitionFrequency::Mhz64 => 0x0607,
        }
    }

    /// The recommended LDE_CFG2 value.
    #[verifier::when_used_as_spec(spec_lde_cfg2)]
    pub fn lde_cfg2(self) -> (r: u16)
        ensures
            r == self.spec_lde_cfg2(),
    {
        match self {
            PulseRepetitionFrequency::Mhz16 => 0x1607,
            PulseRepetitionFrequency::Mhz64 => 0x0607,
        }
    }
}

impl PreambleLength {
    pub open spec fn spec_txpsr(self) -> u64 {
        match self {
            PreambleLength::Symbols64 | PreambleLength::Symbols128 | PreambleLength::Symbols256
            | PreambleLength::Symbols512 => 0b01,
            PreambleLength::Symbols1024 | PreambleLength::Symbols1536
            | PreambleLength::Symbols2048 => 0b10,
            PreambleLength::Symbols4096 => 0b11,
        }
    }

    /// The TXPSR field of the length's code.
    #[verifier::when_used_as_spec(spec_txpsr)]
    pub fn txpsr(self) -> (r: u64)
        ensures
            r == self.spec_txpsr(),
    {
        match self {
            PreambleLength::Symbols64 | PreambleLength::Symbols128 | PreambleLength::Symbols256
            | PreambleLength::Symbols512 => 0b01,
            PreambleLength::Symbols1024 | PreambleLength::Symbols1536
            | PreambleLength::Symbols2048 => 0b10,
            PreambleLength::Symbols4096 => 0b11,
        }
    }

    pub open spec fn spec_pe(self) -> u64 {
        match self {
            PreambleLength::Symbols64 | PreambleLength::Symbols1024 | PreambleLength::Symbols4096
                => 0b00,
            PreambleLength::Symbols128 | PreambleLength::Symbols1536 => 0b01,
            PreambleLength::Symbols256 | PreambleLength::Symbols2048 => 0b10,
            PreambleLength::Symbols512 => 0b11,
        }
    }

    /// The PE field of the length's code.
    #[verifier::when_used_as_spec(spec_pe)]
    pub fn pe(self) -> (r: u64)
        ensures
            r == self.spec_pe(),
    {
        match self {
            PreambleLength::Symbols64 | PreambleLength::Symbols1024 | PreambleLength::Symbols4096
                => 0b00,
            PreambleLength::Symbols128 | PreambleLength::Symbols1536 => 0b01,
            PreambleLength::Symbols256 | PreambleLength::Symbols2048 => 0b10,
            PreambleLength::Symbols512 => 0b11,
        }
    }

    pub open spec fn spec_pac_size(self) -> PacSize {
        match self {
            PreambleLength::Symbols64 | PreambleLength::Symbols128 => PacSize::Pac8,
            PreambleLength::Symbols256 | PreambleLength::Symbols512 => PacSize::Pac16,
            PreambleLength::Symbols1024 => PacSize::Pac32,
            _ => PacSize::Pac64,
        }
    }

    /// The recommended preamble acquisition chunk size.
    #[verifier::when_used_as_spec(spec_pac_size)]
    pub fn pac_size(self) -> (r: PacSize)
        ensures
            r == self.spec_pac_size(),
    {
        match self {
            PreambleLength::Symbols64 | PreambleLength::Symbols128 => PacSize::Pac8,
            PreambleLength::Symbols256 | PreambleLength::Symbols512 => PacSize::Pac16,
            PreambleLength::Symbols1024 => PacSize::Pac32,
            _ => PacSize::Pac64,
        }
    }

    /// The recommended DRX_TUNE1b value, where the length suits the bitrate.
    pub open spec fn spec_drx_tune1b(self, bitrate: BitRate) -> Option<u16> {
        match (self, bitrate) {
            (PreambleLength::Symbols64, BitRate::Kbps6800) => Some(0x0010),
            (PreambleLength::Symbols128, BitRate::Kbps850)
            | (PreambleLength::Symbols256, BitRate::Kbps850)
            | (PreambleLength::Symbols512, BitRate::Kbps850)
            | (PreambleLength::Symbols1024, BitRate::Kbps850)
            | (PreambleLength::Symbols128, BitRate::Kbps6800)
            | (PreambleLength::Symbols256, BitRate::Kbps6800)
            | (PreambleLength::Symbols512, BitRate::Kbps6800)
            | (PreambleLength::Symbols1024, BitRate::Kbps6800) => Some(0x0020),
            (PreambleLength::Symbols1536, BitRate::Kbps110)
            | (PreambleLength::Symbols2048, BitRate::Kbps110)
            | (PreambleLength::Symbols4096, BitRate::Kbps110) => Some(0x0064),
            _ => None,
        }
    }

    /// The recommended DRX_TUNE1b value; `None` where the length does not
    /// suit the bitrate.
    #[verifier::when_used_as_spec(spec_drx_tune1b)]
    pub fn drx_tune1b(self, bitrate: BitRate) -> (r: Option<u16>)
        ensures
            r == self.spec_drx_tune1b(bitrate),
    {
        match (self, bitrate) {
            (PreambleLength::Symbols64, BitRate::Kbps6800) => Some(0x0010),
            (PreambleLength::Symbols128, BitRate::Kbps850)
            | (PreambleLength::Symbols256, BitRate::Kbps850)
            | (PreambleLength::Symbols512, BitRate::Kbps850)
            | (PreambleLength::Symbols1024, BitRate::Kbps850)
            | (PreambleLength::Symbols128, BitRate::Kbps6800)
            | (PreambleLength::Symbols256, BitRate::Kbps6800)
            | (PreambleLength::Symbols512, BitRate::Kbps6800)
            | (PreambleLength::Symbols1024, BitRate::Kbps6800) => Some(0x0020),
            (PreambleLength::Symbols1536, BitRate::Kbps110)
            | (PreambleLength::Symbols2048, BitRate::Kbps110)
            | (PreambleLength::Symbols4096, BitRate::Kbps110) => Some(0x0064),
            _ => None,
        }
    }

    pub open spec fn spec_drx_tune4h(self) -> u16 {
        match self {
            PreambleLength::Symbols64 => 0x0010,
            _ => 0x0028,
        }
    }

    /// The recommended DRX_TUNE4H value.
    #[verifier::when_used_as_spec(spec_drx_tune4h)]
    pub fn drx_tune4h(self) -> (r: u16)
        ensures
            r == self.spec_drx_tune4h(),
    {
        match self {
            PreambleLength::Symbols64 => 0x0010,
            _ => 0x0028,
        }
    }
}

impl UwbChannel {
    pub open spec fn spec_number(self) -> u64 {
        match self {
            UwbChannel::Channel1 => 1,
            UwbChannel::Channel2 => 2,
            UwbChannel::Channel3 => 3,
            UwbChannel::Channel4 => 4,
            UwbChannel::Channel5 => 5,
            UwbChannel::Channel7 => 7,
        }
    }

    /// The channel's number.
    #[verifier::when_used_as_spec(spec_number)]
    pub fn number(self) -> (r: u64)
        ensures
            r == self.spec_number(),
    {
        match self {
            UwbChannel::Channel1 => 1,
            UwbChannel::Channel2 => 2,
            UwbChannel::Channel3 => 3,
            UwbChannel::Channel4 => 4,
            UwbChannel::Channel5 => 5,
            UwbChannel::Channel7 => 7,
        }
    }

    pub open spec fn spec_preamble_code(self, prf: PulseRepetitionFrequency) -> u64 {
        let fast = prf == PulseRepetitionFrequency::Mhz64;
        match self {
            UwbChannel::Channel1 => if fast { 9 } else { 1 },
            UwbChannel::Channel2 | UwbChannel::Channel5 => if fast { 10 } else { 3 },
            UwbChannel::Channel3 => if fast { 11 } else { 5 },
            UwbChannel::Channel4 | UwbChannel::Channel7 => if fast { 17 } else { 7 },
        }
    }

    /// The recommended preamble code for the channel and frequency.
    #[verifier::when_used_as_spec(spec_preamble_code)]
    pub fn preamble_code(self, prf: PulseRepetitionFrequency) -> (r: u64)
        ensures
            r == self.spec_preamble_code(prf),
    {
        let fast = prf == PulseRepetitionFrequency::Mhz64;
        match self {
            UwbChannel::Channel1 => if fast { 9 } else { 1 },
            UwbChannel::Channel2 | UwbChannel::Channel5 => if fast { 10 } else { 3 },
            UwbChannel::Channel3 => if fast { 11 } else { 5 },
            UwbChannel::Channel4 | UwbChannel::Channel7 => if fast { 17 } else { 7 },
        }
    }

    pub open spec fn spec_rf_txctrl(self) -> u32 {
        match self {
            UwbChannel::Channel1 => 0x00005C40,
            UwbChannel::Channel2 => 0x00045CA0,
            UwbChannel::Channel3 => 0x00086CC0,
            UwbChannel::Channel4 => 0x00045C80,
            UwbChannel::Channel5 => 0x001E3FE0,
            UwbChannel::Channel7 => 0x001E7DE0,
        }
    }

    /// The recommended RF_TXCTRL value.
    #[verifier::when_used_as_spec(spec_rf_txctrl)]
    pub fn rf_txctrl(self) -> (r: u32)
        ensures
            r == self.spec_rf_txctrl(),
    {
        match self {
            UwbChannel::Channel1 => 0x00005C40,
            UwbChannel::Channel2 => 0x00045CA0,
            UwbChannel::Channel3 => 0x00086CC0,
            UwbChannel::Channel4 => 0x00045C80,
            UwbChannel::Channel5 => 0x001E3FE0,
            UwbChannel::Channel7 => 0x001E7DE0,
        }
    }

    pub open spec fn spec_tc_pgdelay(self) -> u8 {
        match self {
            UwbChannel::Channel1 => 0xC9,
            UwbChannel::Channel2 => 0xC2,
            UwbChannel::Channel3 => 0xC5,
            UwbChannel::Channel4 => 0x95,
            UwbChannel::Channel5 => 0xC0,
            UwbChannel::Channel7 => 0x93,
        }
    }

    /// The recommended TC_PGDELAY value.
    #[verifier::when_used_as_spec(spec_tc_pgdelay)]
    pub fn tc_pgdelay(self) -> (r: u8)
        ensures
            r == self.spec_tc_pgdelay(),
    {
        match self {
            UwbChannel::Channel1 => 0xC9,
            UwbChannel::Channel2 => 0xC2,
            UwbChannel::Channel3 => 0xC5,
            UwbChannel::Channel4 => 0x95,
            UwbChannel::Channel5 => 0xC0,
            UwbChannel::Channel7 => 0x93,
        }
    }

    pub open spec fn spec_fs_pllcfg(self) -> u32 {
        match self {
            UwbChannel::Channel1 => 0x09000407,
            UwbChannel::Channel2 | UwbChannel::Channel4 => 0x08400508,
            UwbChannel::Channel3 => 0x08401009,
            UwbChannel::Channel5 | UwbChannel::Channel7 => 0x0800041D,
        }
    }

    /// The recommended FS_PLLCFG value.
    #[verifier::when_used_as_spec(spec_fs_pllcfg)]
    pub fn fs_pllcfg(self) -> (r: u32)
        ensures
            r == self.spec_fs_pllcfg(),
    {
        match self {
            UwbChannel::Channel1 => 0x09000407,
            UwbChannel::Channel2 | UwbChannel::Channel4 => 0x08400508,
            UwbChannel::Channel3 => 0x08401009,
            UwbChannel::Channel5 | UwbChannel::Channel7 => 0x0800041D,
        }
    }

    pub open spec fn spec_fs_plltune(self) -> u8 {
        match self {
            UwbChannel::Channel1 => 0x1E,
            UwbChannel::Channel2 | UwbChannel::Channel4 => 0x26,
            UwbChannel::Channel3 => 0x56,
            UwbChannel::Channel5 | UwbChannel::Channel7 => 0xBE,
        }
    }

    /// The recommended FS_PLLTUNE value.
    #[verifier::when_used_as_spec(spec_fs_plltune)]
    pub fn fs_plltune(self) -> (r: u8)
        ensures
            r == self.spec_fs_plltune(),
    {
        match self {
            UwbChannel::Channel1 => 0x1E,
            UwbChannel::Channel2 | UwbChannel::Channel4 => 0x26,
            UwbChannel::Channel3 => 0x56,
            UwbChannel::Channel5 | UwbChannel::Channel7 => 0xBE,
        }
    }

    pub open spec fn spec_rf_rxctrlh(self) -> u8 {
        match self {
            UwbChannel::Channel4 | UwbChannel::Channel7 => 0xBC,
            _ => 0xD8,
        }
    }

    /// The recommended RF_RXCTRLH value.
    #[verifier::when_used_as_spec(spec_rf_rxctrlh)]
    pub fn rf_rxctrlh(self) -> (r: u8)
        ensures
            r == self.spec_rf_rxctrlh(),
    {
        match self {
            UwbChannel::Channel4 | UwbChannel::Channel7 => 0xBC,
            _ => 0xD8,
        }
    }

    /// The LDE_REPC value for the preamble code that the channel and
    /// frequency use, divided by eight at 110 kbps.
    pub open spec fn spec_lde_repc(self, prf: PulseRepetitionFrequency, bitrate: BitRate) -> u16 {
        let base: u16 = match self.spec_preamble_code(prf) {
            1 => 0x5998,
            3 => 0x51EA,
            5 => 0x451E,
            7 => 0x8000,
            9 => 0x28F4,
            10 => 0x3332,
            11 => 0x3AE0,
            _ => 0x3332,
        };
        if bitrate == BitRate::Kbps110 {
            base / 8
        } else {
            base
        }
    }

    /// The recommended LDE_REPC value.
    #[verifier::when_used_as_spec(spec_lde_repc)]
    pub fn lde_repc(self, prf: PulseRepetitionFrequency, bitrate: BitRate) -> (r: u16)
        ensures
            r == self.spec_lde_repc(prf, bitrate),
    {
        let base: u16 = match self.preamble_code(prf) {
            1 => 0x5998,
            3 => 0x51EA,
            5 => 0x451E,
            7 => 0x8000,
            9 => 0x28F4,
            10 => 0x3332,
            11 => 0x3AE0,
            _ => 0x3332,
        };
        if bitrate == BitRate::Kbps110 {
            base / 8
        } else {
            base
        }
    }
}

} // verus!

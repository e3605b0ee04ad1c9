use dw1000::configs::{
    AutoAck, BitRate, PacSize, PreambleLength, PulseRepetitionFrequency, RxConfig, SfdSequence,
    TxConfig, TxContinuation, UwbChannel,
};
use dw1000::error::Error;
use dw1000::time::{Instant, TIME_MAX};

const CHANNELS: [UwbChannel; 6] = [
    UwbChannel::Channel1,
    UwbChannel::Channel2,
    UwbChannel::Channel3,
    UwbChannel::Channel4,
    UwbChannel::Channel5,
    UwbChannel::Channel7,
];
const BITRATES: [BitRate; 3] = [BitRate::Kbps110, BitRate::Kbps850, BitRate::Kbps6800];
const PRFS: [PulseRepetitionFrequency; 2] =
    [PulseRepetitionFrequency::Mhz16, PulseRepetitionFrequency::Mhz64];
const SFDS: [SfdSequence; 4] =
    [SfdSequence::IEEE, SfdSequence::Decawave, SfdSequence::DecawaveAlt, SfdSequence::User];

#[test]
fn from_tx_config_copies_link_parameters() {
    for channel in CHANNELS {
        for bitrate in BITRATES {
            for prf in PRFS {
                for sfd in SFDS {
                    let tx = TxConfig {
                        bitrate,
                        ranging_enable: false,
                        pulse_repetition_frequency: prf,
                        preamble_length: PreambleLength::Symbols1024,
                        channel,
                        sfd_sequence: sfd,
                        append_crc: false,
                        continuation: TxContinuation::Ready,
                    };
                    let ack = AutoAck::Enabled { turnaround_time: 9 };
                    let rx = RxConfig::from_tx_config(tx, true, ack);
                    assert_eq!(rx.channel, channel);
                    assert_eq!(rx.bitrate, bitrate);
                    assert_eq!(rx.pulse_repetition_frequency, prf);
                    assert_eq!(rx.sfd_sequence, sfd);
                    assert_eq!(rx.expected_preamble_length, PreambleLength::Symbols1024);
                    assert!(rx.frame_filtering);
                    assert_eq!(rx.auto_ack, ack);
                }
            }
        }
    }
}

#[test]
fn channel_tables() {
    assert_eq!(UwbChannel::Channel5.preamble_code(PulseRepetitionFrequency::Mhz16), 3);
    assert_eq!(UwbChannel::Channel1.preamble_code(PulseRepetitionFrequency::Mhz64), 9);
    assert_eq!(UwbChannel::Channel7.number(), 7);
    assert_eq!(UwbChannel::Channel5.rf_txctrl(), 0x001E3FE0);
    assert_eq!(UwbChannel::Channel2.tc_pgdelay(), 0xC2);
    assert_eq!(UwbChannel::Channel3.fs_pllcfg(), 0x08401009);
    assert_eq!(UwbChannel::Channel4.fs_plltune(), 0x26);
    assert_eq!(UwbChannel::Channel7.rf_rxctrlh(), 0xBC);
    assert_eq!(UwbChannel::Channel1.rf_rxctrlh(), 0xD8);
}

#[test]
fn lde_repc_is_divided_at_lowest_bitrate() {
    let ch = UwbChannel::Channel5;
    let prf = PulseRepetitionFrequency::Mhz16;
    assert_eq!(ch.lde_repc(prf, BitRate::Kbps6800), 0x51EA);
    assert_eq!(ch.lde_repc(prf, BitRate::Kbps110), 0x51EA / 8);
}

#[test]
fn receiver_tuning_tables() {
    assert_eq!(BitRate::Kbps110.drx_tune0b(SfdSequence::IEEE), 0x000A);
    assert_eq!(BitRate::Kbps110.drx_tune0b(SfdSequence::Decawave), 0x0016);
    assert_eq!(BitRate::Kbps6800.drx_tune0b(SfdSequence::User), 0x0002);
    assert_eq!(PulseRepetitionFrequency::Mhz64.drx_tune1a(), 0x008D);
    assert_eq!(PulseRepetitionFrequency::Mhz16.lde_cfg2(), 0x1607);
    assert_eq!(PulseRepetitionFrequency::Mhz64.drx_tune2(PacSize::Pac32), 0x353B015E);
    assert_eq!(PreambleLength::Symbols1024.pac_size(), PacSize::Pac32);
    assert_eq!(PreambleLength::Symbols4096.pac_size(), PacSize::Pac64);
    assert_eq!(PreambleLength::Symbols64.drx_tune4h(), 0x0010);
    assert_eq!(PreambleLength::Symbols512.drx_tune4h(), 0x0028);
}

#[test]
fn drx_tune1b_depends_on_length_and_bitrate() {
    assert_eq!(PreambleLength::Symbols64.drx_tune1b(BitRate::Kbps6800), Some(0x0010));
    assert_eq!(PreambleLength::Symbols256.drx_tune1b(BitRate::Kbps850), Some(0x0020));
    assert_eq!(PreambleLength::Symbols2048.drx_tune1b(BitRate::Kbps110), Some(0x0064));
    assert_eq!(PreambleLength::Symbols64.drx_tune1b(BitRate::Kbps110), None);
    assert_eq!(PreambleLength::Symbols4096.drx_tune1b(BitRate::Kbps6800), None);
}

#[test]
fn preamble_length_codes() {
    assert_eq!((PreambleLength::Symbols64.txpsr(), PreambleLength::Symbols64.pe()), (1, 0));
    assert_eq!((PreambleLength::Symbols512.txpsr(), PreambleLength::Symbols512.pe()), (1, 3));
    assert_eq!((PreambleLength::Symbols1536.txpsr(), PreambleLength::Symbols1536.pe()), (2, 1));
    assert_eq!((PreambleLength::Symbols4096.txpsr(), PreambleLength::Symbols4096.pe()), (3, 0));
    assert_eq!(BitRate::Kbps850.code(), 1);
    assert_eq!(PulseRepetitionFrequency::Mhz64.code(), 2);
}

#[test]
fn instant_range() {
    assert_eq!(Instant::new(TIME_MAX).map(|i| i.value()), Some(0xff_ffff_ffff));
    assert_eq!(Instant::new(0).map(|i| i.value()), Some(0));
    assert!(Instant::new(TIME_MAX + 1).is_none());
    assert_eq!(Instant::new_in_range(42).value(), 42);
}

#[test]
fn error_debug_text() {
    let e: Error<()> = Error::TxNotFinishedyet;
    assert_eq!(format!("{:?}", e), "TxNotFinishedyet");
    let e: Error<()> = Error::BufferTooSmall { required_len: 3 };
    assert_eq!(format!("{:?}", e), "BufferTooSmall { required_len: 3 }");
    let e: Error<u8> = Error::Spi(1);
    assert_eq!(format!("{:?}", e), "Spi(1)");
}

use vstd::prelude::*;

verus! {

/// An error that can occur when sending or receiving data. `E` is the error
/// type of the register transport.
#[derive(Debug)]
pub enum Error<E> {
    /// The register transport failed
    Spi(E),
    /// Receiver FCS error
    Fcs,
    /// PHY header error
    Phy,
    /// Buffer too small
    BufferTooSmall {
        /// How large a buffer would have been required
        required_len: usize,
    },
    /// Receiver Reed Solomon Frame Sync Loss
    ReedSolomon,
    /// Receiver Frame Wait Timeout
    FrameWaitTimeout,
    /// Receiver Overrun
    Overrun,
    /// Preamble Detection Timeout
    PreambleDetectionTimeout,
    /// Receiver SFD Timeout
    SfdTimeout,
    /// Frame was rejected by automatic frame filtering
    FrameFilteringRejection,
    /// Frame could not be encoded or decoded
    Frame,
    /// A delayed frame could not be sent in time. The frame was still sent,
    /// but a range measured with it is wrong.
    DelayedSendTooLate,
    /// The transmitter could not power up in time for a delayed send. The
    /// frame was still sent, but the start of its preamble was likely
    /// corrupted.
    DelayedSendPowerUpWarning,
    /// An error occured while serializing or deserializing data
    Ssmarshal,
    /// The configuration was not valid. Some combinations of settings are
    /// not allowed.
    InvalidConfiguration,
    /// The receive operation hasn't finished yet
    RxNotFinished,
    /// It was expected that the radio would have woken up, but it hasn't.
    StillAsleep,
    /// The RSSI was not calculable.
    BadRssiCalculation,
    /// Frame filtering is not supported in double buffered mode.
    RxConfigFrameFilteringUnsupported,
    /// The wrong continuation was called on the radio
    WrongTxContinuation,
    /// The transmission has not yet finished
    TxNotFinishedyet,
    /// The chip did not acknowledge a command within the polling limit
    Timeout,
}

/// The outcome of a poll that found the operation still going on, or failed.
#[derive(Debug)]
pub enum PollError<E> {
    /// The operation has not finished yet: poll again.
    WouldBlock,
    /// The operation failed.
    Other(E),
}

} // verus!

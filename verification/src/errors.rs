//! The error taxonomy of the protocol core: one variant per parse site of the
//! connection phase, the framing errors, and the clean-disconnect signal.

use vstd::prelude::*;

verus! {

/// Everything that can go wrong while framing, parsing or dispatching.
///
/// `Io` stands for a failure of the byte channel itself (the caller that owns
/// the channel maps its errors to this variant), and for a result-set segment
/// handed in after a terminal response. `ComQuit` is not a failure: it signals
/// a clean client disconnect.
#[derive(Clone, Copy, Debug, PartialEq, Eq, Structural)]
pub enum ProtoError {
    Io,
    ReadClientFlagError,
    ProtocolNotSupport,
    ReadMaxPacketSizeError,
    ReadCharsetError,
    ReadZeroError,
    ReadUserError,
    ReadAuthResponseError,
    ReadAuthResponseLengthError,
    ReadDatabaseError,
    ReadPluginError,
    InvalidPluginError,
    ReadProtocolVersionError,
    ReadServerVersionError,
    ReadConnectionIdError,
    ReadSaltError,
    ReadCapabilityFlagError,
    ReadStatusFlagError,
    ReadAuthPluginLenError,
    ParseComStatementError,
    ParseComSetOptionError,
    ReadNextPacketError,
    EmptyPacketError,
    MultiPacketNotSupport,
    InvalidSequence,
    ComQuit,
}

pub type ProtoResult<T> = Result<T, ProtoError>;

} // verus!

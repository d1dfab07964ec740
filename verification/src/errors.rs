//! Error kinds reported by parsers and by setters that guard
//! cross-field invariants.

use vstd::prelude::*;

verus! {

/// Every failure the codec can report. Parse failures never yield a
/// partial packet, and setters that fail leave their packet unchanged.
#[derive(Clone, Copy, Debug, PartialEq, Eq, Structural)]
pub enum VitaError {
    /// Fewer bytes were available than the packet declared.
    TruncatedPacket,
    /// The declared packet size disagrees with the parsed structure.
    InconsistentHeader,
    /// The packet-type code is not one the wire format defines.
    UnknownPacketType,
    /// A recognizable codepoint that this codec does not implement.
    UnsupportedFeature,
    /// The CAM word of an ACK packet does not select exactly one of
    /// validation, execution or query state.
    AmbiguousAckKind,
    /// A 32-bit identifier was offered while the 128-bit UUID form is set.
    TriedIdWhenUuidSet,
    /// A 128-bit UUID was offered while the 32-bit identifier form is set.
    TriedUuidWhenIdSet,
    /// Signal-data payload bytes are not a multiple of four.
    PayloadUneven32BitWords,
    /// A fixed-point conversion overflowed the field's range.
    FieldOutOfRange,
    /// The accessor is only valid on a control payload.
    ControlOnly,
    /// The accessor is only valid on a cancellation payload.
    CancellationOnly,
    /// The accessor is only valid on a validation-ACK payload.
    ValidationAckOnly,
    /// The accessor is only valid on an execution-ACK payload.
    ExecAckOnly,
    /// The accessor is only valid on a query-ACK payload.
    QueryAckOnly,
    /// A sub-parser failed at the given word offset.
    MalformedField(usize),
}

} // verus!

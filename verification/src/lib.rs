//! A bit-exact codec for ANSI/VITA-49.2 VRT radio transport packets.
//!
//! The crate models signal-data, context and command/acknowledgement
//! packets, their context-indicator-field (CIF) payloads, and the
//! control/acknowledgement mode word. Serialization is proved
//! byte-exact, parsing is proved faithful — a decoded packet
//! re-encodes to exactly the bytes it was read from — and two
//! well-formed packets with the same wire image are proved to agree
//! on every fixed-width part.

pub mod ack;
pub mod ack_fields;
pub mod bits;
pub mod cam;
pub mod cif;
pub mod cif_fields;
pub mod cif_payload;
pub mod class_id;
pub mod command;
pub mod composites;
pub mod context_fields;
pub mod determinism;
pub mod errors;
pub mod field_value;
pub mod header;
pub mod laws;
pub mod packet;
pub mod signal_data;

pub use ack::{Ack, AckLevel, AckResponse};
pub use cam::{ActionMode, ControlAckMode, IdFormat};
pub use cif::{Cif0, Cif1, Cif2, Cif3, Cif7};
pub use cif_payload::{Cancellation, CifPayload};
pub use class_id::ClassId;
pub use command::{Command, CommandPayload};
pub use composites::{ContextAssociationLists, EcefEphemeris, FormattedGps, GpsAscii, Spectrum};
pub use errors::VitaError;
pub use header::{Header, PacketType, Tsf, Tsi};
pub use packet::{Payload, Vrt};
pub use signal_data::SignalData;

//! The top-level VRT packet: header, optional prologue extensions,
//! payload variant and optional trailer, with whole-packet encoding
//! and parsing.

use vstd::prelude::*;

use crate::bits::{
    bytes_to_words, take_u64, take_word, u64_words, word_bytes, words_bytes, words_to_bytes,
    lemma_words_bytes_len,
};
use crate::cam::ControlAckMode;
use crate::cif_payload::{Cancellation, CifPayload};
use crate::class_id::ClassId;
use crate::command::{Command, CommandPayload};
use crate::errors::VitaError;
use crate::header::{Header, PacketType, Tsf, Tsi};
use crate::signal_data::SignalData;

verus! {

/// The leading big-endian word of a byte buffer.
pub open spec fn first_word(bytes: Seq<u8>) -> u32 {
    ((bytes[0] as u32) << 24) | ((bytes[1] as u32) << 16) | ((bytes[2] as u32) << 8) | (
    bytes[3] as u32)
}

/// The payload variant of a packet, selected by the packet type.
#[derive(Clone, Debug, PartialEq, Eq)]
pub enum Payload {
    /// Signal-data words.
    SignalData(SignalData),
    /// A context payload.
    Context(CifPayload),
    /// A command body.
    Command(Command),
}

impl Payload {
    /// The wire words of the chosen variant.
    pub open spec fn words(self) -> Seq<u32> {
        match self {
            Payload::SignalData(p) => p.words(),
            Payload::Context(p) => p.words(),
            Payload::Command(p) => p.words(),
        }
    }

    /// What serialization needs of the stored contents.
    pub open spec fn storage_ok(self) -> bool {
        match self {
            Payload::SignalData(_) => true,
            Payload::Context(p) => p.fields0.storage_ok() && p.fields1.storage_ok(),
            Payload::Command(p) => p.command_payload.storage_ok(),
        }
    }

    /// A reference to the signal-data payload, on data packets alone.
    pub fn signal_data(&self) -> (r: Result<&SignalData, VitaError>)
        ensures
            self is SignalData ==> (r matches Ok(p) && *p == self->SignalData_0),
            !(self is SignalData) ==> r == Err::<&SignalData, VitaError>(
                VitaError::UnsupportedFeature,
            ),
    {
        match self {
            Payload::SignalData(p) => Ok(p),
            _ => Err(VitaError::UnsupportedFeature),
        }
    }

    /// A mutable reference to the signal-data payload, on data
    /// packets alone.
    pub fn signal_data_mut(&mut self) -> (r: Result<&mut SignalData, VitaError>)
        ensures
            *old(self) is SignalData ==> (r matches Ok(p) && *p == old(self)->SignalData_0
                && *final(self) == Payload::SignalData(*final(p))),
            !(*old(self) is SignalData) ==> r == Err::<&mut SignalData, VitaError>(
                VitaError::UnsupportedFeature,
            ) && *final(self) == *old(self),
    {
        match self {
            Payload::SignalData(p) => Ok(p),
            _ => Err(VitaError::UnsupportedFeature),
        }
    }

    /// A reference to the context payload, on context packets alone.
    pub fn context(&self) -> (r: Result<&CifPayload, VitaError>)
        ensures
            self is Context ==> (r matches Ok(p) && *p == self->Context_0),
            !(self is Context) ==> r == Err::<&CifPayload, VitaError>(
                VitaError::UnsupportedFeature,
            ),
    {
        match self {
            Payload::Context(p) => Ok(p),
            _ => Err(VitaError::UnsupportedFeature),
        }
    }

    /// A mutable reference to the context payload, on context packets
    /// alone.
    pub fn context_mut(&mut self) -> (r: Result<&mut CifPayload, VitaError>)
        ensures
            *old(self) is Context ==> (r matches Ok(p) && *p == old(self)->Context_0
                && *final(self) == Payload::Context(*final(p))),
            !(*old(self) is Context) ==> r == Err::<&mut CifPayload, VitaError>(
                VitaError::UnsupportedFeature,
            ) && *final(self) == *old(self),
    {
        match self {
            Payload::Context(p) => Ok(p),
            _ => Err(VitaError::UnsupportedFeature),
        }
    }

    /// A reference to the command body, on command packets alone.
    pub fn command(&self) -> (r: Result<&Command, VitaError>)
        ensures
            self is Command ==> (r matches Ok(p) && *p == self->Command_0),
            !(self is Command) ==> r == Err::<&Command, VitaError>(VitaError::UnsupportedFeature),
    {
        match self {
            Payload::Command(p) => Ok(p),
            _ => Err(VitaError::UnsupportedFeature),
        }
    }

    /// A mutable reference to the command body, on command packets
    /// alone.
    pub fn command_mut(&mut self) -> (r: Result<&mut Command, VitaError>)
        ensures
            *old(self) is Command ==> (r matches Ok(p) && *p == old(self)->Command_0
                && *final(self) == Payload::Command(*final(p))),
            !(*old(self) is Command) ==> r == Err::<&mut Command, VitaError>(
                VitaError::UnsupportedFeature,
            ) && *final(self) == *old(self),
    {
        match self {
            Payload::Command(p) => Ok(p),
            _ => Err(VitaError::UnsupportedFeature),
        }
    }
}

/// One VRT packet.
#[derive(Clone, Debug, PartialEq, Eq)]
pub struct Vrt {
    /// The decoded header word.
    pub header: Header,
    /// The stream identifier, present exactly when the packet type
    /// implies one.
    pub stream_id: Option<u32>,
    /// The class identifier, present exactly when the header flags
    /// it.
    pub class_id: Option<ClassId>,
    /// The integer timestamp, present exactly when TSI is not
    /// omitted.
    pub integer_timestamp: Option<u32>,
    /// The fractional timestamp, present exactly when TSF is not
    /// omitted.
    pub fractional_timestamp: Option<u64>,
    /// The payload variant.
    pub payload: Payload,
    /// The trailer word, present exactly when a data packet flags it.
    pub trailer: Option<u32>,
}

impl Vrt {
    /// Presence of every optional part agrees with the header, the
    /// payload variant matches the packet type, and the payload is
    /// well-formed.
    pub open spec fn wf(self) -> bool {
        &&& self.header.wf()
        &&& self.stream_id is Some <==> self.header.has_stream_id()
        &&& self.class_id is Some <==> self.header.class_id_included
        &&& self.integer_timestamp is Some <==> self.header.tsi != Tsi::Omitted
        &&& self.fractional_timestamp is Some <==> self.header.tsf != Tsf::Omitted
        &&& self.trailer is Some <==> self.header.has_trailer()
        &&& match self.payload {
            Payload::SignalData(p) => (self.header.packet_type == PacketType::SignalData
                || self.header.packet_type == PacketType::SignalDataStreamId) && p.wf(),
            Payload::Context(p) => self.header.packet_type == PacketType::Context && p.wf(),
            Payload::Command(p) => self.header.packet_type == PacketType::Command && p.wf(
                self.header.indicator_26,
                self.header.indicator_24,
            ),
        }
    }

    /// The declared packet size matches the actual word count.
    pub open spec fn size_ok(self) -> bool {
        self.header.packet_size == self.words().len()
    }

    /// The wire words of the prologue extensions that follow the
    /// header word.
    pub open spec fn prologue_words(self) -> Seq<u32> {
        (match self.stream_id {
            Option::Some(s) => seq![s],
            Option::None => Seq::<u32>::empty(),
        }) + (match self.class_id {
            Option::Some(c) => c.words(),
            Option::None => Seq::<u32>::empty(),
        }) + (match self.integer_timestamp {
            Option::Some(t) => seq![t],
            Option::None => Seq::<u32>::empty(),
        }) + (match self.fractional_timestamp {
            Option::Some(t) => u64_words(t),
            Option::None => Seq::<u32>::empty(),
        })
    }

    /// The wire words of the whole packet.
    pub open spec fn words(self) -> Seq<u32> {
        seq![self.header.word()] + self.prologue_words() + self.payload.words() + (
        match self.trailer {
            Option::Some(t) => seq![t],
            Option::None => Seq::<u32>::empty(),
        })
    }

    /// The header.
    pub fn header(&self) -> (r: &Header)
        ensures
            r == self.header,
    {
        &self.header
    }

    /// The stream identifier, when one is present.
    pub fn stream_id(&self) -> (r: Option<u32>)
        ensures
            r == self.stream_id,
    {
        self.stream_id
    }

    /// The class identifier, when one is present.
    pub fn class_id(&self) -> (r: Option<ClassId>)
        ensures
            r == self.class_id,
    {
        self.class_id
    }

    /// The integer timestamp, when one is present.
    pub fn integer_timestamp(&self) -> (r: Option<u32>)
        ensures
            r == self.integer_timestamp,
    {
        self.integer_timestamp
    }

    /// The fractional timestamp, when one is present.
    pub fn fractional_timestamp(&self) -> (r: Option<u64>)
        ensures
            r == self.fractional_timestamp,
    {
        self.fractional_timestamp
    }

    /// The trailer word, when one is present.
    pub fn trailer(&self) -> (r: Option<u32>)
        ensures
            r == self.trailer,
    {
        self.trailer
    }

    /// A reference to the payload.
    pub fn payload(&self) -> (r: &Payload)
        ensures
            r == self.payload,
    {
        &self.payload
    }

    /// A mutable reference to the payload.
    pub fn payload_mut(&mut self) -> (r: &mut Payload)
        ensures
            *r == old(self).payload,
            *final(self) == (Vrt { payload: *final(r), ..*old(self) }),
    {
        &mut self.payload
    }

    /// A new signal-data packet without a stream identifier and with
    /// an empty payload.
    pub fn new_signal_data_packet() -> (r: Vrt)
        ensures
            r.wf(),
            r.size_ok(),
            r.header == (Header {
                packet_type: PacketType::SignalData,
                class_id_included: false,
                indicator_26: false,
                indicator_25: false,
                indicator_24: false,
                tsi: Tsi::Omitted,
                tsf: Tsf::Omitted,
                packet_count: 0,
                packet_size: 1,
            }),
            r.header.packet_type == PacketType::SignalData,
            r.stream_id is None,
            r.class_id is None,
            r.integer_timestamp is None,
            r.fractional_timestamp is None,
            r.trailer is None,
            (r.payload matches Payload::SignalData(s) && s.data@ == Seq::<u32>::empty()),
    {
        let r = Vrt {
            header: Header {
                packet_type: PacketType::SignalData,
                class_id_included: false,
                indicator_26: false,
                indicator_25: false,
                indicator_24: false,
                tsi: Tsi::Omitted,
                tsf: Tsf::Omitted,
                packet_count: 0,
                packet_size: 1,
            },
            stream_id: Option::None,
            class_id: Option::None,
            integer_timestamp: Option::None,
            fractional_timestamp: Option::None,
            payload: Payload::SignalData(SignalData::new()),
            trailer: Option::None,
        };
        proof {
            assert(r.words() =~= seq![r.header.word()]);
        }
        r
    }

    /// A new context packet with stream identifier zero and an empty
    /// CIF payload.
    pub fn new_context_packet() -> (r: Vrt)
        ensures
            r.wf(),
            r.size_ok(),
            r.header == (Header {
                packet_type: PacketType::Context,
                class_id_included: false,
                indicator_26: false,
                indicator_25: false,
                indicator_24: false,
                tsi: Tsi::Omitted,
                tsf: Tsf::Omitted,
                packet_count: 0,
                packet_size: 3,
            }),
            r.header.packet_type == PacketType::Context,
            r.stream_id == Some(0u32),
            r.class_id is None,
            r.integer_timestamp is None,
            r.fractional_timestamp is None,
            r.trailer is None,
            (r.payload matches Payload::Context(p) && p.is_empty() && p.wf() && p.words()
                == seq![0u32]),
    {
        let r = Vrt {
            header: Header {
                packet_type: PacketType::Context,
                class_id_included: false,
                indicator_26: false,
                indicator_25: false,
                indicator_24: false,
                tsi: Tsi::Omitted,
                tsf: Tsf::Omitted,
                packet_count: 0,
                packet_size: 3,
            },
            stream_id: Option::Some(0),
            class_id: Option::None,
            integer_timestamp: Option::None,
            fractional_timestamp: Option::None,
            payload: Payload::Context(CifPayload::new()),
            trailer: Option::None,
        };
        proof {
            assert(r.words() =~= seq![r.header.word(), 0u32, 0u32]);
        }
        r
    }

    /// The header of a new command packet.
    fn command_header(ack: bool, cancellation: bool, size: u16) -> (r: Header)
        ensures
            r == (Header {
                packet_type: PacketType::Command,
                class_id_included: false,
                indicator_26: ack,
                indicator_25: false,
                indicator_24: cancellation,
                tsi: Tsi::Omitted,
                tsf: Tsf::Omitted,
                packet_count: 0,
                packet_size: size,
            }),
    {
        Header {
            packet_type: PacketType::Command,
            class_id_included: false,
            indicator_26: ack,
            indicator_25: false,
            indicator_24: cancellation,
            tsi: Tsi::Omitted,
            tsf: Tsf::Omitted,
            packet_count: 0,
            packet_size: size,
        }
    }

    /// A new control packet with stream identifier zero, an all-clear
    /// CAM, message ID zero, no identifiers and an empty control
    /// payload.
    pub fn new_control_packet() -> (r: Vrt)
        ensures
            r.wf(),
            r.size_ok(),
            r.header == (Header {
                packet_type: PacketType::Command,
                class_id_included: false,
                indicator_26: false,
                indicator_25: false,
                indicator_24: false,
                tsi: Tsi::Omitted,
                tsf: Tsf::Omitted,
                packet_count: 0,
                packet_size: 5,
            }),
            r.header.packet_type == PacketType::Command,
            r.stream_id == Some(0u32),
            r.class_id is None,
            r.integer_timestamp is None,
            r.fractional_timestamp is None,
            r.trailer is None,
            (r.payload matches Payload::Command(c) && c.cam.0 == 0 && c.message_id == 0
                && c.controllee_id is None && c.controllee_uuid is None && c.controller_id is None
                && c.controller_uuid is None && (c.command_payload
                matches CommandPayload::Control(p) && p.is_empty())),
    {
        let header = Self::command_header(false, false, 5);
        let body = Command::new_control();
        let r = Vrt {
            header,
            stream_id: Option::Some(0),
            class_id: Option::None,
            integer_timestamp: Option::None,
            fractional_timestamp: Option::None,
            payload: Payload::Command(body),
            trailer: Option::None,
        };
        proof {
            assert(r.words() =~= seq![r.header.word(), 0u32, 0u32, 0u32, 0u32]);
        }
        r
    }

    /// A new cancellation packet with stream identifier zero, an
    /// all-clear CAM, message ID zero, no identifiers and an empty
    /// indicator cascade.
    pub fn new_cancellation_packet() -> (r: Vrt)
        ensures
            r.wf(),
            r.size_ok(),
            r.header == (Header {
                packet_type: PacketType::Command,
                class_id_included: false,
                indicator_26: false,
                indicator_25: false,
                indicator_24: true,
                tsi: Tsi::Omitted,
                tsf: Tsf::Omitted,
                packet_count: 0,
                packet_size: 5,
            }),
            r.header.packet_type == PacketType::Command,
            r.stream_id == Some(0u32),
            r.class_id is None,
            r.integer_timestamp is None,
            r.fractional_timestamp is None,
            r.trailer is None,
            (r.payload matches Payload::Command(c) && c.cam.0 == 0 && c.message_id == 0
                && c.controllee_id is None && c.controllee_uuid is None && c.controller_id is None
                && c.controller_uuid is None && c.command_payload == CommandPayload::Cancellation(
                Cancellation {
                    cif0: crate::cif::Cif0(0),
                    cif1: Option::None,
                    cif2: Option::None,
                    cif3: Option::None,
                    cif7: Option::None,
                },
            )),
    {
        let header = Self::command_header(false, true, 5);
        let body = Command::new_cancellation();
        let r = Vrt {
            header,
            stream_id: Option::Some(0),
            class_id: Option::None,
            integer_timestamp: Option::None,
            fractional_timestamp: Option::None,
            payload: Payload::Command(body),
            trailer: Option::None,
        };
        proof {
            assert(r.words() =~= seq![r.header.word(), 0u32, 0u32, 0u32, 0u32]);
        }
        r
    }

    /// A new acknowledgement packet whose CAM has exactly the given
    /// kind bit set, message ID zero, no identifiers, and an empty
    /// payload.
    fn new_ack_packet(kind_bit: u32, payload_is_validation: bool, payload_is_exec: bool) -> (r: Vrt)
        requires
            kind_bit == crate::cam::CAM_VALIDATION_BIT || kind_bit == crate::cam::CAM_EXECUTION_BIT
                || kind_bit == crate::cam::CAM_STATE_BIT,
            payload_is_validation <==> kind_bit == crate::cam::CAM_VALIDATION_BIT,
            payload_is_exec <==> kind_bit == crate::cam::CAM_EXECUTION_BIT,
        ensures
            r.wf(),
            r.size_ok(),
            r.header == (Header {
                packet_type: PacketType::Command,
                class_id_included: false,
                indicator_26: true,
                indicator_25: false,
                indicator_24: false,
                tsi: Tsi::Omitted,
                tsf: Tsf::Omitted,
                packet_count: 0,
                packet_size: if payload_is_validation || payload_is_exec {
                    4u16
                } else {
                    5u16
                },
            }),
            r.stream_id == Some(0u32),
            r.class_id is None,
            r.integer_timestamp is None,
            r.fractional_timestamp is None,
            r.trailer is None,
            (r.payload matches Payload::Command(c) && c.cam.0 == 1u32 << kind_bit && (forall|
                j: u32,
            | j < 32 ==> #[trigger] crate::bits::bit(c.cam.0, j) == (j == kind_bit))
                && c.message_id == 0 && c.controllee_id is None && c.controllee_uuid is None
                && c.controller_id is None && c.controller_uuid is None),
            payload_is_validation ==> (r.payload->Command_0.command_payload
                matches CommandPayload::ValidationAck(a) && a.is_empty()),
            payload_is_exec ==> (r.payload->Command_0.command_payload
                matches CommandPayload::ExecAck(a) && a.is_empty()),
            !payload_is_validation && !payload_is_exec ==> (r.payload->Command_0.command_payload
                matches CommandPayload::QueryAck(p) && p.is_empty()),
    {
        let header = Self::command_header(
            true,
            false,
            if payload_is_validation || payload_is_exec {
                4
            } else {
                5
            },
        );
        let body = if payload_is_validation {
            Command::new_validation_ack()
        } else if payload_is_exec {
            Command::new_exec_ack()
        } else {
            Command::new_query_ack()
        };
        let r = Vrt {
            header,
            stream_id: Option::Some(0),
            class_id: Option::None,
            integer_timestamp: Option::None,
            fractional_timestamp: Option::None,
            payload: Payload::Command(body),
            trailer: Option::None,
        };
        proof {
            if payload_is_validation || payload_is_exec {
                assert(r.words() =~= seq![r.header.word(), 0u32, body.cam.0, 0u32]);
            } else {
                assert(r.words() =~= seq![r.header.word(), 0u32, body.cam.0, 0u32, 0u32]);
            }
        }
        r
    }

    /// A new validation-acknowledgement packet: CAM selects the
    /// validation kind alone, message ID zero, no identifiers, and an
    /// empty acknowledgement payload with neither bank present.
    pub fn new_validation_ack_packet() -> (r: Vrt)
        ensures
            r.wf(),
            r.size_ok(),
            r.header == (Header {
                packet_type: PacketType::Command,
                class_id_included: false,
                indicator_26: true,
                indicator_25: false,
                indicator_24: false,
                tsi: Tsi::Omitted,
                tsf: Tsf::Omitted,
                packet_count: 0,
                packet_size: 4,
            }),
            r.header.indicator_26,
            r.stream_id == Some(0u32),
            r.class_id is None,
            r.integer_timestamp is None,
            r.fractional_timestamp is None,
            r.trailer is None,
            (r.payload matches Payload::Command(c) && c.cam.0 == 1u32
                << crate::cam::CAM_VALIDATION_BIT && (forall|j: u32|
                j < 32 ==> #[trigger] crate::bits::bit(c.cam.0, j) == (j
                    == crate::cam::CAM_VALIDATION_BIT)) && c.message_id == 0
                && c.controllee_id is None && c.controllee_uuid is None && c.controller_id is None
                && c.controller_uuid is None && (c.command_payload
                matches CommandPayload::ValidationAck(a) && a.is_empty())),
    {
        Self::new_ack_packet(crate::cam::CAM_VALIDATION_BIT, true, false)
    }

    /// A new execution-acknowledgement packet: CAM selects the
    /// execution kind alone, message ID zero, no identifiers, and an
    /// empty acknowledgement payload with neither bank present.
    pub fn new_exec_ack_packet() -> (r: Vrt)
        ensures
            r.wf(),
            r.size_ok(),
            r.header == (Header {
                packet_type: PacketType::Command,
                class_id_included: false,
                indicator_26: true,
                indicator_25: false,
                indicator_24: false,
                tsi: Tsi::Omitted,
                tsf: Tsf::Omitted,
                packet_count: 0,
                packet_size: 4,
            }),
            r.header.indicator_26,
            r.stream_id == Some(0u32),
            r.class_id is None,
            r.integer_timestamp is None,
            r.fractional_timestamp is None,
            r.trailer is None,
            (r.payload matches Payload::Command(c) && c.cam.0 == 1u32
                << crate::cam::CAM_EXECUTION_BIT && (forall|j: u32|
                j < 32 ==> #[trigger] crate::bits::bit(c.cam.0, j) == (j
                    == crate::cam::CAM_EXECUTION_BIT)) && c.message_id == 0
                && c.controllee_id is None && c.controllee_uuid is None && c.controller_id is None
                && c.controller_uuid is None && (c.command_payload
                matches CommandPayload::ExecAck(a) && a.is_empty())),
    {
        Self::new_ack_packet(crate::cam::CAM_EXECUTION_BIT, false, true)
    }

    /// A new query-acknowledgement packet: CAM selects the query kind
    /// alone, message ID zero, no identifiers, and an empty CIF
    /// payload.
    pub fn new_query_ack_packet() -> (r: Vrt)
        ensures
            r.wf(),
            r.size_ok(),
            r.header == (Header {
                packet_type: PacketType::Command,
                class_id_included: false,
                indicator_26: true,
                indicator_25: false,
                indicator_24: false,
                tsi: Tsi::Omitted,
                tsf: Tsf::Omitted,
                packet_count: 0,
                packet_size: 5,
            }),
            r.header.indicator_26,
            r.stream_id == Some(0u32),
            r.class_id is None,
            r.integer_timestamp is None,
            r.fractional_timestamp is None,
            r.trailer is None,
            (r.payload matches Payload::Command(c) && c.cam.0 == 1u32
                << crate::cam::CAM_STATE_BIT && (forall|j: u32|
                j < 32 ==> #[trigger] crate::bits::bit(c.cam.0, j) == (j
                    == crate::cam::CAM_STATE_BIT)) && c.message_id == 0 && c.controllee_id is None
                && c.controllee_uuid is None && c.controller_id is None
                && c.controller_uuid is None && (c.command_payload
                matches CommandPayload::QueryAck(p) && p.is_empty())),
    {
        Self::new_ack_packet(crate::cam::CAM_STATE_BIT, false, false)
    }

    /// Set or clear the stream identifier. On signal-data packets the
    /// packet type toggles between the with- and without-stream-ID
    /// forms; on packet types whose stream identifier is mandatory,
    /// clearing is ignored.
    pub fn set_stream_id(&mut self, stream_id: Option<u32>)
        ensures
            old(self).header.is_data() ==> final(self).header == (Header {
                packet_type: if stream_id is Some {
                    if old(self).header.packet_type == PacketType::ExtensionData || old(self).header.packet_type == PacketType::ExtensionDataStreamId {
                        PacketType::ExtensionDataStreamId
                    } else {
                        PacketType::SignalDataStreamId
                    }
                } else {
                    if old(self).header.packet_type == PacketType::ExtensionData || old(self).header.packet_type == PacketType::ExtensionDataStreamId {
                        PacketType::ExtensionData
                    } else {
                        PacketType::SignalData
                    }
                },
                ..old(self).header
            }) && final(self).stream_id == stream_id,
            !old(self).header.is_data() && stream_id is Some ==> *final(self) == (Vrt {
                stream_id,
                ..*old(self)
            }),
            !old(self).header.is_data() && stream_id is None ==> *final(self) == *old(self),
            old(self).wf() ==> final(self).wf(),
    {
        let data = matches!(
            self.header.packet_type,
            PacketType::SignalData | PacketType::SignalDataStreamId | PacketType::ExtensionData
                | PacketType::ExtensionDataStreamId
        );
        if data {
            let ext = matches!(
                self.header.packet_type,
                PacketType::ExtensionData | PacketType::ExtensionDataStreamId
            );
            self.header.packet_type = if stream_id.is_some() {
                if ext {
                    PacketType::ExtensionDataStreamId
                } else {
                    PacketType::SignalDataStreamId
                }
            } else {
                if ext {
                    PacketType::ExtensionData
                } else {
                    PacketType::SignalData
                }
            };
            self.stream_id = stream_id;
        } else if stream_id.is_some() {
            self.stream_id = stream_id;
        }
    }

    /// Set or clear the class identifier, toggling the header flag
    /// with the value.
    pub fn set_class_id(&mut self, class_id: Option<ClassId>)
        ensures
            final(self).class_id == class_id,
            final(self).header == (Header {
                class_id_included: class_id is Some,
                ..old(self).header
            }),
            final(self).stream_id == old(self).stream_id,
            final(self).integer_timestamp == old(self).integer_timestamp,
            final(self).fractional_timestamp == old(self).fractional_timestamp,
            final(self).payload == old(self).payload,
            final(self).trailer == old(self).trailer,
            old(self).wf() ==> final(self).wf(),
    {
        self.header.class_id_included = class_id.is_some();
        self.class_id = class_id;
    }

    /// Set or clear the integer timestamp together with its mode.
    /// Fails, leaving the packet unchanged, exactly when the value
    /// and the mode disagree about presence.
    pub fn set_integer_timestamp(&mut self, ts: Option<u32>, tsi: Tsi) -> (r: Result<
        (),
        VitaError,
    >)
        ensures
            (ts is Some <==> tsi == Tsi::Omitted) ==> r == Err::<(), VitaError>(
                VitaError::InconsistentHeader,
            ) && *final(self) == *old(self),
            !(ts is Some <==> tsi == Tsi::Omitted) ==> r == Ok::<(), VitaError>(()) && final(self).integer_timestamp == ts && final(self).header == (Header {
                tsi,
                ..old(self).header
            }) && final(self).stream_id == old(self).stream_id && final(self).class_id == old(self).class_id && final(self).fractional_timestamp == old(self).fractional_timestamp
                && final(self).payload == old(self).payload && final(self).trailer == old(self).trailer,
            r is Ok && old(self).wf() ==> final(self).wf(),
    {
        let modal = !matches!(tsi, Tsi::Omitted);
        if ts.is_some() != modal {
            return Err(VitaError::InconsistentHeader);
        }
        self.header.tsi = tsi;
        self.integer_timestamp = ts;
        Ok(())
    }

    /// Set or clear the fractional timestamp together with its mode.
    /// Fails, leaving the packet unchanged, exactly when the value
    /// and the mode disagree about presence.
    pub fn set_fractional_timestamp(&mut self, ts: Option<u64>, tsf: Tsf) -> (r: Result<
        (),
        VitaError,
    >)
        ensures
            (ts is Some <==> tsf == Tsf::Omitted) ==> r == Err::<(), VitaError>(
                VitaError::InconsistentHeader,
            ) && *final(self) == *old(self),
            !(ts is Some <==> tsf == Tsf::Omitted) ==> r == Ok::<(), VitaError>(()) && final(self).fractional_timestamp == ts && final(self).header == (Header {
                tsf,
                ..old(self).header
            }) && final(self).stream_id == old(self).stream_id && final(self).class_id == old(self).class_id && final(self).integer_timestamp == old(self).integer_timestamp && final(self).payload == old(self).payload && final(self).trailer == old(self).trailer,
            r is Ok && old(self).wf() ==> final(self).wf(),
    {
        let modal = !matches!(tsf, Tsf::Omitted);
        if ts.is_some() != modal {
            return Err(VitaError::InconsistentHeader);
        }
        self.header.tsf = tsf;
        self.fractional_timestamp = ts;
        Ok(())
    }

    /// Replace the signal-data payload bytes. Fails on packets that
    /// carry no signal data, and with `PayloadUneven32BitWords` when
    /// the byte count is not a multiple of four.
    pub fn set_signal_payload(&mut self, bytes: &[u8]) -> (r: Result<(), VitaError>)
        requires
            bytes@.len() <= 0xFFFB * 4,
        ensures
            !(old(self).payload is SignalData) ==> r == Err::<(), VitaError>(
                VitaError::UnsupportedFeature,
            ) && *final(self) == *old(self),
            old(self).payload is SignalData && bytes@.len() % 4 != 0 ==> r == Err::<(), VitaError>(
                VitaError::PayloadUneven32BitWords,
            ) && *final(self) == *old(self),
            old(self).payload is SignalData && bytes@.len() % 4 == 0 ==> r == Ok::<(), VitaError>(
                (),
            ) && (final(self).payload matches Payload::SignalData(s) && words_bytes(s.words())
                == bytes@) && final(self).header == old(self).header && final(self).stream_id
                == old(self).stream_id,
            r is Ok && old(self).wf() ==> final(self).wf(),
    {
        match &mut self.payload {
            Payload::SignalData(p) => {
                p.set_payload(bytes)?;
                Ok(())
            },
            _ => Err(VitaError::UnsupportedFeature),
        }
    }

    /// The signal-data payload as bytes. Fails on packets that carry
    /// no signal data.
    pub fn signal_payload(&self) -> (r: Result<Vec<u8>, VitaError>)
        ensures
            self.payload matches Payload::SignalData(s) ==> (r matches Ok(b) && b@ == words_bytes(
                s.words(),
            )),
            !(self.payload is SignalData) ==> r == Err::<Vec<u8>, VitaError>(
                VitaError::UnsupportedFeature,
            ),
    {
        match &self.payload {
            Payload::SignalData(p) => Ok(p.payload()),
            _ => Err(VitaError::UnsupportedFeature),
        }
    }

    /// Append the header word and the prologue extensions.
    #[verifier::rlimit(100)]
    #[verifier::spinoff_prover]
    fn encode_prologue(&self, out: &mut Vec<u32>)
        ensures
            final(out)@ == old(out)@ + (seq![self.header.word()] + self.prologue_words()),
    {
        out.push(self.header.encode());
        match &self.stream_id {
            Option::Some(s) => out.push(*s),
            Option::None => (),
        }
        match &self.class_id {
            Option::Some(c) => c.encode(out),
            Option::None => (),
        }
        match &self.integer_timestamp {
            Option::Some(t) => out.push(*t),
            Option::None => (),
        }
        match &self.fractional_timestamp {
            Option::Some(t) => crate::bits::push_u64(out, *t),
            Option::None => (),
        }
        assert(out@ =~= old(out)@ + (seq![self.header.word()] + self.prologue_words()));
    }

    /// Append the whole packet's wire words.
    pub fn encode_words(&self, out: &mut Vec<u32>)
        requires
            self.payload.storage_ok(),
        ensures
            final(out)@ == old(out)@ + self.words(),
    {
        self.encode_prologue(out);
        let ghost out_pro = out@;
        match &self.payload {
            Payload::SignalData(p) => p.encode(out),
            Payload::Context(p) => p.encode(out),
            Payload::Command(p) => p.encode(out),
        }
        let ghost out_pay = out@;
        match &self.trailer {
            Option::Some(t) => out.push(*t),
            Option::None => (),
        }
        proof {
            assert(out_pay == out_pro + self.payload.words());
            assert(out@ =~= out_pay + (match self.trailer {
                Option::Some(t) => seq![t],
                Option::None => Seq::<u32>::empty(),
            }));
            assert(out@ =~= old(out)@ + self.words());
        }
    }

    /// The packet as big-endian bytes. The result is always `Ok`; the
    /// `Result` mirrors the failures of transports wrapped around the
    /// codec.
    pub fn to_bytes(&self) -> (r: Result<Vec<u8>, VitaError>)
        requires
            self.payload.storage_ok(),
        ensures
            r matches Ok(b) && b@ == words_bytes(self.words()),
    {
        let mut w: Vec<u32> = Vec::new();
        self.encode_words(&mut w);
        Ok(words_to_bytes(&w))
    }

    /// Recompute the header's packet size from the current contents.
    pub fn update_packet_size(&mut self)
        requires
            old(self).payload.storage_ok(),
            old(self).words().len() <= 0xFFFF,
        ensures
            final(self).header == (Header {
                packet_size: final(self).words().len() as u16,
                ..old(self).header
            }),
            final(self).stream_id == old(self).stream_id,
            final(self).class_id == old(self).class_id,
            final(self).integer_timestamp == old(self).integer_timestamp,
            final(self).fractional_timestamp == old(self).fractional_timestamp,
            final(self).payload == old(self).payload,
            final(self).trailer == old(self).trailer,
            final(self).size_ok(),
            final(self).words().len() == old(self).words().len(),
            old(self).wf() ==> final(self).wf(),
    {
        let mut w: Vec<u32> = Vec::new();
        self.encode_words(&mut w);
        self.header.packet_size = w.len() as u16;
        proof {
            assert(final(self).words().len() == old(self).words().len());
        }
    }

    /// Parse one packet from a word buffer holding exactly the
    /// declared number of words, the decoded header word first.
    #[verifier::rlimit(100)]
    fn parse_words(w: &Vec<u32>, header: Header) -> (r: Result<Vrt, VitaError>)
        requires
            w@.len() == header.packet_size,
            1 <= w@.len() <= 0xFFFF,
            header.wf(),
            w@[0] == header.word(),
        ensures
            r matches Ok(p) ==> p.wf() && p.size_ok() && p.words() == w@,
            r != Err::<Vrt, VitaError>(VitaError::UnknownPacketType),
    {
        let end: usize = w.len();
        let mut pos: usize = 1;
        let stream_id = if header.stream_id_included() {
            Option::Some(take_word(w, &mut pos, end)?)
        } else {
            Option::None
        };
        let class_id = if header.class_id_included() {
            Option::Some(ClassId::parse(w, &mut pos, end)?)
        } else {
            Option::None
        };
        let integer_timestamp = if header.integer_timestamp_included() {
            Option::Some(take_word(w, &mut pos, end)?)
        } else {
            Option::None
        };
        let fractional_timestamp = if header.fractional_timestamp_included() {
            Option::Some(take_u64(w, &mut pos, end)?)
        } else {
            Option::None
        };
        let has_trailer = header.trailer_included();
        let payload_end: usize = if has_trailer {
            if end - pos < 1 {
                return Err(VitaError::InconsistentHeader);
            }
            end - 1
        } else {
            end
        };
        if pos > payload_end {
            return Err(VitaError::InconsistentHeader);
        }
        let payload_start: usize = pos;
        let ghost q_pro = pos;
        let payload = match header.packet_type() {
            PacketType::SignalData | PacketType::SignalDataStreamId => {
                let p = SignalData::parse(w, &mut pos, payload_end)?;
                Payload::SignalData(p)
            },
            PacketType::Context => {
                let p = match CifPayload::parse(w, &mut pos, payload_end) {
                    Result::Ok(p) => p,
                    Result::Err(_) => {
                        return Err(VitaError::MalformedField(payload_start));
                    },
                };
                if pos != payload_end {
                    return Err(VitaError::InconsistentHeader);
                }
                Payload::Context(p)
            },
            PacketType::Command => {
                let p = match Command::parse(w, &mut pos, payload_end, &header) {
                    Result::Ok(p) => p,
                    Result::Err(VitaError::AmbiguousAckKind) => {
                        return Err(VitaError::AmbiguousAckKind);
                    },
                    Result::Err(_) => {
                        return Err(VitaError::MalformedField(payload_start));
                    },
                };
                if pos != payload_end {
                    return Err(VitaError::InconsistentHeader);
                }
                Payload::Command(p)
            },
            _ => {
                return Err(VitaError::UnsupportedFeature);
            },
        };
        let trailer = if has_trailer {
            Option::Some(take_word(w, &mut pos, end)?)
        } else {
            Option::None
        };
        let r = Vrt {
            header,
            stream_id,
            class_id,
            integer_timestamp,
            fractional_timestamp,
            payload,
            trailer,
        };
        proof {
            assert(seq![r.header.word()] + r.prologue_words() =~= w@.subrange(0, q_pro as int));
            assert(r.words() =~= w@);
        }
        Ok(r)
    }

    /// Parse one packet from the front of a byte buffer. Bytes beyond
    /// the declared packet size are ignored. Fails with
    /// `TruncatedPacket` when fewer bytes are available than the
    /// header declares, `UnknownPacketType` on an undefined type
    /// code, `UnsupportedFeature` on extension packet types,
    /// `AmbiguousAckKind` on an acknowledgement whose CAM does not
    /// select exactly one kind, `InconsistentHeader` when the
    /// declared size disagrees with the parsed structure, and
    /// `MalformedField` with the payload's word offset when a
    /// sub-parser runs off the end of the declared payload.
    pub fn try_from(bytes: &[u8]) -> (r: Result<Vrt, VitaError>)
        ensures
            r matches Ok(p) ==> p.wf() && p.size_ok() && 4 * p.words().len() <= bytes@.len()
                && words_bytes(p.words()) == bytes@.subrange(0, 4 * p.words().len() as int),
            bytes@.len() < 4 ==> r == Err::<Vrt, VitaError>(VitaError::TruncatedPacket),
            r == Err::<Vrt, VitaError>(VitaError::UnknownPacketType) <==> (bytes@.len() >= 4
                && first_word(bytes@) >> 28 > 7),
    {
        if bytes.len() < 4 {
            return Err(VitaError::TruncatedPacket);
        }
        let w0: u32 = ((bytes[0] as u32) << 24) | ((bytes[1] as u32) << 16) | ((bytes[2] as u32)
            << 8) | (bytes[3] as u32);
        let header = Header::parse(w0)?;
        let nw: usize = header.packet_size() as usize;
        if nw == 0 {
            return Err(VitaError::InconsistentHeader);
        }
        if bytes.len() / 4 < nw {
            return Err(VitaError::TruncatedPacket);
        }
        let w = bytes_to_words(bytes, nw);
        proof {
            crate::bits::lemma_word_from_bytes(bytes[0], bytes[1], bytes[2], bytes[3]);
            assert(w@[0] == w0) by {
                assert(words_bytes(w@).subrange(0, 4) =~= word_bytes(w@[0]));
                assert(bytes@.subrange(0, 4 * nw as int).subrange(0, 4) =~= bytes@.subrange(0, 4));
                assert(word_bytes(w@[0]) =~= word_bytes(w0));
                crate::bits::lemma_word_bytes_injective(w@[0], w0);
            }
        }
        let p = Self::parse_words(&w, header)?;
        proof {
            lemma_words_bytes_len(p.words());
        }
        Ok(p)
    }
}

} // verus!

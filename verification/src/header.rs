//! The leading 32-bit header word: packet type, presence indicators,
//! timestamp modes, packet count and packet size.

use vstd::prelude::*;

use crate::errors::VitaError;

verus! {

/// The 4-bit packet-type code in the header's top nibble.
#[derive(Clone, Copy, Debug, PartialEq, Eq, Structural)]
pub enum PacketType {
    /// Signal data without a stream identifier.
    SignalData,
    /// Signal data with a stream identifier.
    SignalDataStreamId,
    /// Extension data without a stream identifier.
    ExtensionData,
    /// Extension data with a stream identifier.
    ExtensionDataStreamId,
    /// Context packet.
    Context,
    /// Extension context packet.
    ExtensionContext,
    /// Command packet.
    Command,
    /// Extension command packet.
    ExtensionCommand,
}

/// Integer-timestamp mode.
#[derive(Clone, Copy, Debug, PartialEq, Eq, Structural)]
pub enum Tsi {
    /// No integer timestamp word is present.
    Omitted,
    /// Seconds since the UTC epoch.
    Utc,
    /// Seconds of GPS time.
    Gps,
    /// An implementation-defined epoch.
    Other,
}

/// Fractional-timestamp mode.
#[derive(Clone, Copy, Debug, PartialEq, Eq, Structural)]
pub enum Tsf {
    /// No fractional timestamp words are present.
    Omitted,
    /// A running sample count.
    SampleCount,
    /// Real time in picoseconds.
    RealTimePs,
    /// A free-running counter.
    FreeRunningCount,
}

/// The wire code of each packet type.
pub open spec fn type_code(t: PacketType) -> u32 {
    match t {
        PacketType::SignalData => 0,
        PacketType::SignalDataStreamId => 1,
        PacketType::ExtensionData => 2,
        PacketType::ExtensionDataStreamId => 3,
        PacketType::Context => 4,
        PacketType::ExtensionContext => 5,
        PacketType::Command => 6,
        PacketType::ExtensionCommand => 7,
    }
}

/// The wire code of each integer-timestamp mode.
pub open spec fn tsi_code(t: Tsi) -> u32 {
    match t {
        Tsi::Omitted => 0,
        Tsi::Utc => 1,
        Tsi::Gps => 2,
        Tsi::Other => 3,
    }
}

/// The wire code of each fractional-timestamp mode.
pub open spec fn tsf_code(t: Tsf) -> u32 {
    match t {
        Tsf::Omitted => 0,
        Tsf::SampleCount => 1,
        Tsf::RealTimePs => 2,
        Tsf::FreeRunningCount => 3,
    }
}

/// One when the flag is set, zero otherwise.
pub open spec fn flag(b: bool) -> u32 {
    if b {
        1
    } else {
        0
    }
}

/// The decoded first word of every packet. The three low indicator
/// bits have a packet-type-specific reading: on signal-data packets
/// they flag a trailer, a non-49.0 payload and spectral data; on
/// command packets bit 26 flags an acknowledgement and bit 24 a
/// cancellation.
#[derive(Clone, Copy, Debug, PartialEq, Eq, Structural)]
pub struct Header {
    /// Packet type from the top nibble.
    pub packet_type: PacketType,
    /// Bit 27: a class-identifier pair of words follows the stream ID.
    pub class_id_included: bool,
    /// Bit 26 of the indicator nibble.
    pub indicator_26: bool,
    /// Bit 25 of the indicator nibble.
    pub indicator_25: bool,
    /// Bit 24 of the indicator nibble.
    pub indicator_24: bool,
    /// Integer-timestamp mode (bits 23-22).
    pub tsi: Tsi,
    /// Fractional-timestamp mode (bits 21-20).
    pub tsf: Tsf,
    /// Modulo-16 packet count (bits 19-16).
    pub packet_count: u8,
    /// Total packet length in 32-bit words (bits 15-0).
    pub packet_size: u16,
}

impl Header {
    /// The packet count must fit in its four bits.
    pub open spec fn wf(self) -> bool {
        self.packet_count < 16
    }

    /// The packed 32-bit header word.
    pub open spec fn word(self) -> u32 {
        (type_code(self.packet_type) << 28) | (flag(self.class_id_included) << 27) | (flag(
            self.indicator_26,
        ) << 26) | (flag(self.indicator_25) << 25) | (flag(self.indicator_24) << 24) | (tsi_code(
            self.tsi,
        ) << 22) | (tsf_code(self.tsf) << 20) | ((self.packet_count as u32) << 16) | (
        self.packet_size as u32)
    }

    /// True of the four signal/extension data packet types.
    pub open spec fn is_data(self) -> bool {
        matches!(
            self.packet_type,
            PacketType::SignalData | PacketType::SignalDataStreamId | PacketType::ExtensionData
                | PacketType::ExtensionDataStreamId
        )
    }

    /// True of the two command packet types.
    pub open spec fn is_command(self) -> bool {
        matches!(self.packet_type, PacketType::Command | PacketType::ExtensionCommand)
    }

    /// Whether a stream-identifier word follows the header. This is
    /// implied by the packet type alone.
    pub open spec fn has_stream_id(self) -> bool {
        !matches!(self.packet_type, PacketType::SignalData | PacketType::ExtensionData)
    }

    /// Whether a trailer word ends the packet: only data packets may
    /// carry one, flagged by indicator bit 26.
    pub open spec fn has_trailer(self) -> bool {
        self.is_data() && self.indicator_26
    }

    /// Words in the prologue: header, stream ID, class ID and both
    /// timestamps, but not the payload or trailer.
    pub open spec fn prologue_words(self) -> int {
        1 + (if self.has_stream_id() {
            1int
        } else {
            0
        }) + (if self.class_id_included {
            2int
        } else {
            0
        }) + (if self.tsi != Tsi::Omitted {
            1int
        } else {
            0
        }) + (if self.tsf != Tsf::Omitted {
            2int
        } else {
            0
        })
    }

    /// The packet type.
    pub fn packet_type(&self) -> (r: PacketType)
        ensures
            r == self.packet_type,
    {
        self.packet_type
    }

    /// The declared total packet length in 32-bit words.
    pub fn packet_size(&self) -> (r: u16)
        ensures
            r == self.packet_size,
    {
        self.packet_size
    }

    /// The modulo-16 packet count.
    pub fn packet_count(&self) -> (r: u8)
        ensures
            r == self.packet_count,
    {
        self.packet_count
    }

    /// The integer-timestamp mode.
    pub fn tsi(&self) -> (r: Tsi)
        ensures
            r == self.tsi,
    {
        self.tsi
    }

    /// The fractional-timestamp mode.
    pub fn tsf(&self) -> (r: Tsf)
        ensures
            r == self.tsf,
    {
        self.tsf
    }

    /// Whether a stream-identifier word follows the header.
    pub fn stream_id_included(&self) -> (r: bool)
        ensures
            r == self.has_stream_id(),
    {
        !matches!(self.packet_type, PacketType::SignalData | PacketType::ExtensionData)
    }

    /// Whether the two class-identifier words are present.
    pub fn class_id_included(&self) -> (r: bool)
        ensures
            r == self.class_id_included,
    {
        self.class_id_included
    }

    /// Whether an integer-timestamp word is present.
    pub fn integer_timestamp_included(&self) -> (r: bool)
        ensures
            r == (self.tsi != Tsi::Omitted),
    {
        !matches!(self.tsi, Tsi::Omitted)
    }

    /// Whether the two fractional-timestamp words are present.
    pub fn fractional_timestamp_included(&self) -> (r: bool)
        ensures
            r == (self.tsf != Tsf::Omitted),
    {
        !matches!(self.tsf, Tsf::Omitted)
    }

    /// Whether a trailer word ends the packet.
    pub fn trailer_included(&self) -> (r: bool)
        ensures
            r == self.has_trailer(),
    {
        let data = matches!(
            self.packet_type,
            PacketType::SignalData | PacketType::SignalDataStreamId | PacketType::ExtensionData
                | PacketType::ExtensionDataStreamId
        );
        data && self.indicator_26
    }

    /// Whether a command packet is an acknowledgement. On any other
    /// packet type the question is not meaningful and an error is
    /// returned.
    pub fn is_ack_packet(&self) -> (r: Result<bool, VitaError>)
        ensures
            self.is_command() ==> r == Ok::<bool, VitaError>(self.indicator_26),
            !self.is_command() ==> r == Err::<bool, VitaError>(VitaError::UnsupportedFeature),
    {
        if matches!(self.packet_type, PacketType::Command | PacketType::ExtensionCommand) {
            Ok(self.indicator_26)
        } else {
            Err(VitaError::UnsupportedFeature)
        }
    }

    /// Whether a command packet is a cancellation. On any other packet
    /// type the question is not meaningful and an error is returned.
    pub fn is_cancellation_packet(&self) -> (r: Result<bool, VitaError>)
        ensures
            self.is_command() ==> r == Ok::<bool, VitaError>(self.indicator_24),
            !self.is_command() ==> r == Err::<bool, VitaError>(VitaError::UnsupportedFeature),
    {
        if matches!(self.packet_type, PacketType::Command | PacketType::ExtensionCommand) {
            Ok(self.indicator_24)
        } else {
            Err(VitaError::UnsupportedFeature)
        }
    }

    /// Pack the header into its wire word.
    pub fn encode(&self) -> (r: u32)
        ensures
            r == self.word(),
    {
        let t: u32 = match self.packet_type {
            PacketType::SignalData => 0,
            PacketType::SignalDataStreamId => 1,
            PacketType::ExtensionData => 2,
            PacketType::ExtensionDataStreamId => 3,
            PacketType::Context => 4,
            PacketType::ExtensionContext => 5,
            PacketType::Command => 6,
            PacketType::ExtensionCommand => 7,
        };
        let c: u32 = if self.class_id_included {
            1
        } else {
            0
        };
        let i26: u32 = if self.indicator_26 {
            1
        } else {
            0
        };
        let i25: u32 = if self.indicator_25 {
            1
        } else {
            0
        };
        let i24: u32 = if self.indicator_24 {
            1
        } else {
            0
        };
        let si: u32 = match self.tsi {
            Tsi::Omitted => 0,
            Tsi::Utc => 1,
            Tsi::Gps => 2,
            Tsi::Other => 3,
        };
        let sf: u32 = match self.tsf {
            Tsf::Omitted => 0,
            Tsf::SampleCount => 1,
            Tsf::RealTimePs => 2,
            Tsf::FreeRunningCount => 3,
        };
        (t << 28) | (c << 27) | (i26 << 26) | (i25 << 25) | (i24 << 24) | (si << 22) | (sf << 20)
            | ((self.packet_count as u32) << 16) | (self.packet_size as u32)
    }

    /// Unpack a wire word. Fails with `UnknownPacketType` exactly when
    /// the top nibble is not a defined packet-type code.
    pub fn parse(w: u32) -> (r: Result<Header, VitaError>)
        ensures
            (w >> 28) <= 7 ==> r.is_ok(),
            (w >> 28) > 7 ==> r == Err::<Header, VitaError>(VitaError::UnknownPacketType),
            r.is_ok() ==> r.unwrap().wf() && r.unwrap().word() == w,
    {
        proof {
            assert((w >> 27) & 1 <= 1 && (w >> 26) & 1 <= 1 && (w >> 25) & 1 <= 1 && (w >> 24) & 1
                <= 1 && (w >> 22) & 3 <= 3 && (w >> 20) & 3 <= 3 && (w >> 16) & 0xF <= 15 && (w
                & 0xFFFF) <= 0xFFFF) by (bit_vector);
        }
        let nib: u32 = w >> 28;
        let packet_type = match nib {
            0u32 => PacketType::SignalData,
            1u32 => PacketType::SignalDataStreamId,
            2u32 => PacketType::ExtensionData,
            3u32 => PacketType::ExtensionDataStreamId,
            4u32 => PacketType::Context,
            5u32 => PacketType::ExtensionContext,
            6u32 => PacketType::Command,
            7u32 => PacketType::ExtensionCommand,
            _ => {
                return Err(VitaError::UnknownPacketType);
            },
        };
        let class_id_included = ((w >> 27) & 1) == 1;
        let indicator_26 = ((w >> 26) & 1) == 1;
        let indicator_25 = ((w >> 25) & 1) == 1;
        let indicator_24 = ((w >> 24) & 1) == 1;
        let sic: u32 = (w >> 22) & 3;
        let tsi = match sic {
            0u32 => Tsi::Omitted,
            1u32 => Tsi::Utc,
            2u32 => Tsi::Gps,
            _ => Tsi::Other,
        };
        let sfc: u32 = (w >> 20) & 3;
        let tsf = match sfc {
            0u32 => Tsf::Omitted,
            1u32 => Tsf::SampleCount,
            2u32 => Tsf::RealTimePs,
            _ => Tsf::FreeRunningCount,
        };
        let packet_count: u8 = ((w >> 16) & 0xF) as u8;
        let packet_size: u16 = (w & 0xFFFF) as u16;
        let h = Header {
            packet_type,
            class_id_included,
            indicator_26,
            indicator_25,
            indicator_24,
            tsi,
            tsf,
            packet_count,
            packet_size,
        };
        proof {
            lemma_header_repack(
                w,
                type_code(h.packet_type),
                flag(h.class_id_included),
                flag(h.indicator_26),
                flag(h.indicator_25),
                flag(h.indicator_24),
                tsi_code(h.tsi),
                tsf_code(h.tsf),
                h.packet_count as u32,
                h.packet_size as u32,
            );
        }
        Ok(h)
    }
}

/// Packing the ten extracted header fields reproduces the word they
/// were extracted from.
proof fn lemma_header_repack(
    w: u32,
    t: u32,
    c: u32,
    i26: u32,
    i25: u32,
    i24: u32,
    si: u32,
    sf: u32,
    cnt: u32,
    sz: u32,
)
    requires
        t == w >> 28,
        c == (w >> 27) & 1,
        i26 == (w >> 26) & 1,
        i25 == (w >> 25) & 1,
        i24 == (w >> 24) & 1,
        si == (w >> 22) & 3,
        sf == (w >> 20) & 3,
        cnt == (w >> 16) & 0xF,
        sz == w & 0xFFFF,
    ensures
        (t << 28) | (c << 27) | (i26 << 26) | (i25 << 25) | (i24 << 24) | (si << 22) | (sf << 20)
            | (cnt << 16) | sz == w,
        cnt < 16,
{
    assert((t << 28) | (c << 27) | (i26 << 26) | (i25 << 25) | (i24 << 24) | (si << 22) | (sf
        << 20) | (cnt << 16) | sz == w && cnt < 16) by (bit_vector)
        requires
            t == w >> 28,
            c == (w >> 27) & 1,
            i26 == (w >> 26) & 1,
            i25 == (w >> 25) & 1,
            i24 == (w >> 24) & 1,
            si == (w >> 22) & 3,
            sf == (w >> 20) & 3,
            cnt == (w >> 16) & 0xF,
            sz == w & 0xFFFF,
    ;
}

/// Two well-formed headers that pack to the same word are equal.
pub proof fn lemma_header_word_injective(a: Header, b: Header)
    requires
        a.wf(),
        b.wf(),
        a.word() == b.word(),
    ensures
        a == b,
{
    lemma_header_unpack(a);
    lemma_header_unpack(b);
    assert(type_code(a.packet_type) == type_code(b.packet_type));
    assert(a.packet_type == b.packet_type);
    assert(a.tsi == b.tsi);
    assert(a.tsf == b.tsf);
}

/// Every field can be read back out of the packed word.
proof fn lemma_header_unpack(h: Header)
    requires
        h.wf(),
    ensures
        h.word() >> 28 == type_code(h.packet_type),
        (h.word() >> 27) & 1 == flag(h.class_id_included),
        (h.word() >> 26) & 1 == flag(h.indicator_26),
        (h.word() >> 25) & 1 == flag(h.indicator_25),
        (h.word() >> 24) & 1 == flag(h.indicator_24),
        (h.word() >> 22) & 3 == tsi_code(h.tsi),
        (h.word() >> 20) & 3 == tsf_code(h.tsf),
        (h.word() >> 16) & 0xF == h.packet_count as u32,
        h.word() & 0xFFFF == h.packet_size as u32,
{
    let t = type_code(h.packet_type);
    let c = flag(h.class_id_included);
    let i26 = flag(h.indicator_26);
    let i25 = flag(h.indicator_25);
    let i24 = flag(h.indicator_24);
    let si = tsi_code(h.tsi);
    let sf = tsf_code(h.tsf);
    let cnt = h.packet_count as u32;
    let sz = h.packet_size as u32;
    let w = h.word();
    assert(w >> 28 == t && (w >> 27) & 1 == c && (w >> 26) & 1 == i26 && (w >> 25) & 1 == i25 && (w
        >> 24) & 1 == i24 && (w >> 22) & 3 == si && (w >> 20) & 3 == sf && (w >> 16) & 0xF == cnt
        && w & 0xFFFF == sz) by (bit_vector)
        requires
            w == (t << 28) | (c << 27) | (i26 << 26) | (i25 << 25) | (i24 << 24) | (si << 22) | (sf
                << 20) | (cnt << 16) | sz,
            t <= 7,
            c <= 1,
            i26 <= 1,
            i25 <= 1,
            i24 <= 1,
            si <= 3,
            sf <= 3,
            cnt <= 15,
            sz <= 0xFFFF,
    ;
}

} // verus!

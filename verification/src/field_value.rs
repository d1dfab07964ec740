//! A typed CIF data field value and its wire shape. The field table
//! of each indicator word assigns a kind to every data-bearing bit;
//! parsing and serialization are driven by that kind.

use vstd::prelude::*;

use crate::bits::{lemma_halves_pack, push_u64, take_u64, take_word, u64_words};
use crate::composites::{assoc_lists_declared_len, lemma_assoc_size_pack};
use crate::composites::{ContextAssociationLists, EcefEphemeris, FormattedGps, GpsAscii, Spectrum};
use crate::errors::VitaError;

verus! {

/// The wire shape of one CIF data field.
#[derive(Clone, Copy, Debug, PartialEq, Eq, Structural)]
pub enum FieldKind {
    /// One 32-bit word.
    KindSingle,
    /// Two words read as one 64-bit value.
    KindDouble,
    /// A formatted GPS/INS geolocation record.
    KindGps,
    /// An ECEF ephemeris record.
    KindEphemeris,
    /// A GPS ASCII record.
    KindAscii,
    /// Context association lists.
    KindAssociationLists,
    /// A spectrum descriptor.
    KindSpectrum,
}

/// One CIF data field value, stored exactly as it stands on the wire.
#[derive(Clone, Debug, PartialEq, Eq)]
pub enum FieldValue {
    /// A one-word scalar.
    Single(u32),
    /// A two-word scalar.
    Double(u64),
    /// A formatted GPS/INS geolocation record.
    Gps(FormattedGps),
    /// An ECEF ephemeris record.
    Ephemeris(EcefEphemeris),
    /// A GPS ASCII record.
    Ascii(GpsAscii),
    /// Context association lists.
    AssociationLists(ContextAssociationLists),
    /// A spectrum descriptor.
    Spectrum(Spectrum),
}

impl FieldValue {
    /// The kind a value belongs to.
    pub open spec fn kind(self) -> FieldKind {
        match self {
            FieldValue::Single(_) => FieldKind::KindSingle,
            FieldValue::Double(_) => FieldKind::KindDouble,
            FieldValue::Gps(_) => FieldKind::KindGps,
            FieldValue::Ephemeris(_) => FieldKind::KindEphemeris,
            FieldValue::Ascii(_) => FieldKind::KindAscii,
            FieldValue::AssociationLists(_) => FieldKind::KindAssociationLists,
            FieldValue::Spectrum(_) => FieldKind::KindSpectrum,
        }
    }

    /// Internal length bounds of the variable-length values.
    pub open spec fn wf(self) -> bool {
        match self {
            FieldValue::Ascii(a) => a.wf(),
            FieldValue::AssociationLists(c) => c.wf(),
            _ => true,
        }
    }

    /// The wire words of the value.
    pub open spec fn words(self) -> Seq<u32> {
        match self {
            FieldValue::Single(w) => seq![w],
            FieldValue::Double(x) => u64_words(x),
            FieldValue::Gps(g) => g.words(),
            FieldValue::Ephemeris(e) => e.words(),
            FieldValue::Ascii(a) => a.words(),
            FieldValue::AssociationLists(c) => c.words(),
            FieldValue::Spectrum(s) => s.words(),
        }
    }

    /// Append the value's wire words.
    pub fn encode(&self, out: &mut Vec<u32>)
        requires
            self.wf(),
        ensures
            final(out)@ == old(out)@ + self.words(),
    {
        match self {
            FieldValue::Single(w) => {
                out.push(*w);
                assert(out@ =~= old(out)@ + self.words());
            },
            FieldValue::Double(x) => push_u64(out, *x),
            FieldValue::Gps(g) => g.encode(out),
            FieldValue::Ephemeris(e) => e.encode(out),
            FieldValue::Ascii(a) => a.encode(out),
            FieldValue::AssociationLists(c) => c.encode(out),
            FieldValue::Spectrum(s) => s.encode(out),
        }
    }

    /// Whether one value of the given kind can be read at `start`:
    /// enough words remain, and for the self-delimiting kinds the
    /// declared counts are in range and fit before `end`.
    pub open spec fn parse_succeeds(
        w: Seq<u32>,
        start: int,
        end: int,
        kind: FieldKind,
    ) -> bool {
        match kind {
            FieldKind::KindSingle => start + 1 <= end,
            FieldKind::KindDouble => start + 2 <= end,
            FieldKind::KindGps => start + 11 <= end,
            FieldKind::KindEphemeris => start + 13 <= end,
            FieldKind::KindSpectrum => start + 13 <= end,
            FieldKind::KindAscii => start + 2 <= end && w[start + 1] <= 0xFFFD && start + 2
                + w[start + 1] <= end,
            FieldKind::KindAssociationLists => start + 2 <= end && start + 2
                + crate::composites::assoc_lists_declared_len(w[start], w[start + 1]) <= end,
        }
    }

    /// How many words a value of the given kind read at `start`
    /// occupies, as its leading words declare.
    pub open spec fn value_len(w: Seq<u32>, start: int, kind: FieldKind) -> int {
        match kind {
            FieldKind::KindSingle => 1,
            FieldKind::KindDouble => 2,
            FieldKind::KindGps => 11,
            FieldKind::KindEphemeris => 13,
            FieldKind::KindSpectrum => 13,
            FieldKind::KindAscii => 2 + w[start + 1],
            FieldKind::KindAssociationLists => 2 + assoc_lists_declared_len(
                w[start],
                w[start + 1],
            ),
        }
    }

    /// A well-formed value whose words stand at `start` within the
    /// stream satisfies the parser's success condition, and its word
    /// count matches what the leading words declare.
    pub proof fn lemma_encoded_value_parses(w: Seq<u32>, start: int, end: int, v: FieldValue)
        requires
            v.wf(),
            0 <= start,
            start + v.words().len() <= end,
            end <= w.len(),
            v.words() == w.subrange(start, start + v.words().len()),
        ensures
            Self::parse_succeeds(w, start, end, v.kind()),
            v.words().len() == Self::value_len(w, start, v.kind()),
    {
        match v {
            FieldValue::Ascii(a) => {
                assert(v.words().len() == 2 + a.data@.len());
                assert(v.words()[1] == w.subrange(start, start + v.words().len())[1]);
                assert(v.words()[1] == w[start + 1]);
                assert(w[start + 1] == a.data@.len() as u32);
            },
            FieldValue::AssociationLists(c) => {
                assert(v.words().len() == 2 + c.source_list@.len() + c.system_list@.len()
                    + c.vector_component_list@.len() + c.async_channel_list@.len()
                    + c.tag_words().len());
                assert(v.words()[0] == w.subrange(start, start + v.words().len())[0]);
                assert(v.words()[1] == w.subrange(start, start + v.words().len())[1]);
                assert(v.words()[0] == w[start]);
                assert(v.words()[1] == w[start + 1]);
                assert(w[start] == c.size_word_1());
                assert(w[start + 1] == c.size_word_2());
                lemma_halves_pack(c.source_list@.len() as u32, c.system_list@.len() as u32);
                lemma_assoc_size_pack(
                    c.vector_component_list@.len() as u32,
                    if c.async_tag_list is Some {
                        0x8000u32
                    } else {
                        0u32
                    },
                    c.async_channel_list@.len() as u32,
                );
            },
            _ => {},
        }
    }

    /// Read one value of the given kind from the word stream; it
    /// succeeds exactly when `parse_succeeds` holds at the current
    /// position.
    pub fn parse(w: &Vec<u32>, pos: &mut usize, end: usize, kind: FieldKind) -> (r: Result<
        FieldValue,
        VitaError,
    >)
        requires
            *old(pos) <= end,
            end <= w@.len(),
            end <= 0xFFFF,
        ensures
            r.is_ok() <==> Self::parse_succeeds(w@, *old(pos) as int, end as int, kind),
            r.is_ok() ==> *final(pos) == *old(pos) + Self::value_len(w@, *old(pos) as int, kind),
            r.is_ok() ==> *old(pos) <= *final(pos) <= end && r.unwrap().kind() == kind
                && r.unwrap().wf() && r.unwrap().words() == w@.subrange(
                *old(pos) as int,
                *final(pos) as int,
            ),
            r.is_err() ==> r == Err::<FieldValue, VitaError>(VitaError::TruncatedPacket),
    {
        match kind {
            FieldKind::KindSingle => {
                let v = take_word(w, pos, end)?;
                let r = FieldValue::Single(v);
                proof {
                    assert(r.words() =~= w@.subrange(*old(pos) as int, *final(pos) as int));
                }
                Ok(r)
            },
            FieldKind::KindDouble => {
                let v = take_u64(w, pos, end)?;
                Ok(FieldValue::Double(v))
            },
            FieldKind::KindGps => {
                let v = FormattedGps::parse(w, pos, end)?;
                Ok(FieldValue::Gps(v))
            },
            FieldKind::KindEphemeris => {
                let v = EcefEphemeris::parse(w, pos, end)?;
                Ok(FieldValue::Ephemeris(v))
            },
            FieldKind::KindAscii => {
                let v = GpsAscii::parse(w, pos, end)?;
                Ok(FieldValue::Ascii(v))
            },
            FieldKind::KindAssociationLists => {
                let v = ContextAssociationLists::parse(w, pos, end)?;
                Ok(FieldValue::AssociationLists(v))
            },
            FieldKind::KindSpectrum => {
                let v = Spectrum::parse(w, pos, end)?;
                Ok(FieldValue::Spectrum(v))
            },
        }
    }
}

} // verus!

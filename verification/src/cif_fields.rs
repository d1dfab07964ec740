//! The per-bit table of typed CIF data fields, and the container that
//! carries one optional value and one attribute vector per indicator
//! bit. Serialization visits bits from the highest to the lowest, the
//! canonical order of the wire format.

use vstd::prelude::*;

use crate::bits::{bit, get_bit32, lemma_bit_zero};
use crate::errors::VitaError;
use crate::field_value::{FieldKind, FieldValue};

verus! {

/// Which field table governs a CIF fields container.
#[derive(Clone, Copy, Debug, PartialEq, Eq, Structural)]
pub enum TableId {
    /// The CIF0 data-field table of a context or control payload.
    TableCif0,
    /// The CIF1 data-field table of a context or control payload.
    TableCif1,
    /// The CIF0-shaped response table of an acknowledgement bank.
    TableAck0,
    /// The CIF1-shaped response table of an acknowledgement bank.
    TableAck1,
}

/// The kind of the CIF0 data field declared by each indicator bit.
pub open spec fn cif0_kind(b: u32) -> Option<FieldKind> {
    if b == 30 {
        Option::Some(FieldKind::KindSingle)  // reference point ID
    } else if b == 29 {
        Option::Some(FieldKind::KindDouble)  // bandwidth
    } else if b == 28 {
        Option::Some(FieldKind::KindDouble)  // IF reference frequency
    } else if b == 27 {
        Option::Some(FieldKind::KindDouble)  // RF reference frequency
    } else if b == 26 {
        Option::Some(FieldKind::KindDouble)  // RF frequency offset
    } else if b == 25 {
        Option::Some(FieldKind::KindDouble)  // IF band offset
    } else if b == 24 {
        Option::Some(FieldKind::KindSingle)  // reference level
    } else if b == 23 {
        Option::Some(FieldKind::KindSingle)  // gain
    } else if b == 22 {
        Option::Some(FieldKind::KindSingle)  // over-range count
    } else if b == 21 {
        Option::Some(FieldKind::KindDouble)  // sample rate
    } else if b == 20 {
        Option::Some(FieldKind::KindDouble)  // timestamp adjustment
    } else if b == 19 {
        Option::Some(FieldKind::KindSingle)  // timestamp calibration
    } else if b == 18 {
        Option::Some(FieldKind::KindSingle)  // temperature
    } else if b == 17 {
        Option::Some(FieldKind::KindDouble)  // device identifier
    } else if b == 16 {
        Option::Some(FieldKind::KindSingle)  // state/event indicators
    } else if b == 15 {
        Option::Some(FieldKind::KindDouble)  // signal data format
    } else if b == 14 {
        Option::Some(FieldKind::KindGps)  // formatted GPS
    } else if b == 13 {
        Option::Some(FieldKind::KindGps)  // formatted INS
    } else if b == 12 {
        Option::Some(FieldKind::KindEphemeris)  // ECEF ephemeris
    } else if b == 11 {
        Option::Some(FieldKind::KindEphemeris)  // relative ephemeris
    } else if b == 10 {
        Option::Some(FieldKind::KindSingle)  // ephemeris reference ID
    } else if b == 9 {
        Option::Some(FieldKind::KindAscii)  // GPS ASCII
    } else if b == 8 {
        Option::Some(FieldKind::KindAssociationLists)  // association lists
    } else {
        Option::None
    }
}

/// The kind of the CIF1 data field declared by each indicator bit.
/// Only the spectrum descriptor is interpreted.
pub open spec fn cif1_kind(b: u32) -> Option<FieldKind> {
    if b == 8 {
        Option::Some(FieldKind::KindSpectrum)
    } else {
        Option::None
    }
}

/// The field kind a table assigns to an indicator bit. The
/// acknowledgement tables mirror the context tables with a one-word
/// response record per field.
pub open spec fn table_kind(t: TableId, b: u32) -> Option<FieldKind> {
    match t {
        TableId::TableCif0 => cif0_kind(b),
        TableId::TableCif1 => cif1_kind(b),
        TableId::TableAck0 => if cif0_kind(b) is Some {
            Option::Some(FieldKind::KindSingle)
        } else {
            Option::None
        },
        TableId::TableAck1 => if cif1_kind(b) is Some {
            Option::Some(FieldKind::KindSingle)
        } else {
            Option::None
        },
    }
}

/// Look the field kind up at run time.
pub fn kind_at(t: TableId, b: u32) -> (r: Option<FieldKind>)
    ensures
        r == table_kind(t, b),
{
    match t {
        TableId::TableCif0 => kind_at_cif0(b),
        TableId::TableCif1 => kind_at_cif1(b),
        TableId::TableAck0 => match kind_at_cif0(b) {
            Option::Some(_) => Option::Some(FieldKind::KindSingle),
            Option::None => Option::None,
        },
        TableId::TableAck1 => match kind_at_cif1(b) {
            Option::Some(_) => Option::Some(FieldKind::KindSingle),
            Option::None => Option::None,
        },
    }
}

/// Look the CIF0 field kind up at run time.
fn kind_at_cif0(b: u32) -> (r: Option<FieldKind>)
    ensures
        r == cif0_kind(b),
{
    if b == 30 {
        Option::Some(FieldKind::KindSingle)
    } else if b == 29 || b == 28 || b == 27 || b == 26 || b == 25 {
        Option::Some(FieldKind::KindDouble)
    } else if b == 24 || b == 23 || b == 22 {
        Option::Some(FieldKind::KindSingle)
    } else if b == 21 || b == 20 {
        Option::Some(FieldKind::KindDouble)
    } else if b == 19 || b == 18 {
        Option::Some(FieldKind::KindSingle)
    } else if b == 17 {
        Option::Some(FieldKind::KindDouble)
    } else if b == 16 {
        Option::Some(FieldKind::KindSingle)
    } else if b == 15 {
        Option::Some(FieldKind::KindDouble)
    } else if b == 14 || b == 13 {
        Option::Some(FieldKind::KindGps)
    } else if b == 12 || b == 11 {
        Option::Some(FieldKind::KindEphemeris)
    } else if b == 10 {
        Option::Some(FieldKind::KindSingle)
    } else if b == 9 {
        Option::Some(FieldKind::KindAscii)
    } else if b == 8 {
        Option::Some(FieldKind::KindAssociationLists)
    } else {
        Option::None
    }
}

/// Look the CIF1 field kind up at run time.
fn kind_at_cif1(b: u32) -> (r: Option<FieldKind>)
    ensures
        r == cif1_kind(b),
{
    if b == 8 {
        Option::Some(FieldKind::KindSpectrum)
    } else {
        Option::None
    }
}

/// The wire words of an optional field value.
pub open spec fn opt_words(v: Option<FieldValue>) -> Seq<u32> {
    match v {
        Option::Some(x) => x.words(),
        Option::None => Seq::empty(),
    }
}

/// The wire words of an attribute vector, in storage order.
pub open spec fn attrs_words(s: Seq<FieldValue>) -> Seq<u32>
    decreases s.len(),
{
    if s.len() == 0 {
        Seq::empty()
    } else {
        s[0].words() + attrs_words(s.drop_first())
    }
}

/// Appending one attribute appends its words.
pub proof fn lemma_attrs_words_snoc(s: Seq<FieldValue>, v: FieldValue)
    ensures
        attrs_words(s.push(v)) == attrs_words(s) + v.words(),
    decreases s.len(),
{
    if s.len() == 0 {
        assert(s.push(v).drop_first() =~= Seq::<FieldValue>::empty());
        assert(s.push(v)[0] == v);
        assert(attrs_words(Seq::<FieldValue>::empty()) == Seq::<u32>::empty());
        assert(attrs_words(s) == Seq::<u32>::empty());
        assert(attrs_words(s.push(v)) == v.words() + Seq::<u32>::empty());
        assert(attrs_words(s.push(v)) =~= attrs_words(s) + v.words());
    } else {
        assert(s.push(v).drop_first() =~= s.drop_first().push(v));
        lemma_attrs_words_snoc(s.drop_first(), v);
        assert(attrs_words(s.push(v)) =~= attrs_words(s) + v.words());
    }
}

/// One optional data field and its attribute vector per indicator
/// bit. Index `b` of either vector belongs to indicator bit `b`.
#[derive(Clone, Debug, PartialEq, Eq)]
pub struct CifFields {
    /// One optional stored value per indicator bit.
    pub values: Vec<Option<FieldValue>>,
    /// One attribute vector per indicator bit.
    pub attrs: Vec<Vec<FieldValue>>,
}

impl CifFields {
    /// Both vectors hold one slot per indicator bit.
    pub open spec fn len_ok(self) -> bool {
        self.values@.len() == 32 && self.attrs@.len() == 32
    }

    /// The stored value of an indicator bit.
    pub open spec fn value_at(self, b: u32) -> Option<FieldValue> {
        self.values@[b as int]
    }

    /// The stored attribute vector of an indicator bit.
    pub open spec fn attrs_at(self, b: u32) -> Seq<FieldValue> {
        self.attrs@[b as int]@
    }

    /// No value and no attribute is stored anywhere.
    pub open spec fn all_empty(self) -> bool {
        forall|b: u32| b < 32 ==> (#[trigger] self.value_at(b)) is None && self.attrs_at(b).len()
            == 0
    }

    /// What one slot must look like under indicator word `ind`, base
    /// values present iff `current`, and `extra` attributes per
    /// flagged field.
    pub open spec fn wf_entry(self, t: TableId, ind: u32, current: bool, extra: nat, b: u32) -> bool {
        match table_kind(t, b) {
            Option::Some(k) => {
                if bit(ind, b) {
                    &&& self.value_at(b) is Some <==> current
                    &&& match self.value_at(b) {
                        Option::Some(v) => v.kind() == k && v.wf(),
                        Option::None => true,
                    }
                    &&& self.attrs_at(b).len() == extra
                    &&& forall|j: int|
                        0 <= j < self.attrs_at(b).len() ==> (#[trigger] self.attrs_at(b)[j]).kind()
                            == k && self.attrs_at(b)[j].wf()
                } else {
                    self.value_at(b) is None && self.attrs_at(b).len() == 0
                }
            },
            Option::None => self.value_at(b) is None && self.attrs_at(b).len() == 0,
        }
    }

    /// The container agrees with its indicator word and CIF7 options.
    pub open spec fn wf(self, t: TableId, ind: u32, current: bool, extra: nat) -> bool {
        &&& self.len_ok()
        &&& forall|b: u32| b < 32 ==> #[trigger] self.wf_entry(t, ind, current, extra, b)
    }

    /// The wire words contributed by one indicator bit.
    pub open spec fn entry_words(self, t: TableId, ind: u32, b: u32) -> Seq<u32> {
        if table_kind(t, b) is Some && bit(ind, b) {
            opt_words(self.value_at(b)) + attrs_words(self.attrs_at(b))
        } else {
            Seq::empty()
        }
    }

    /// The wire words of bits `hi` down to `lo`, highest first.
    pub open spec fn words_seg(self, t: TableId, ind: u32, hi: int, lo: int) -> Seq<u32>
        decreases hi - lo + 1,
    {
        if hi < lo {
            Seq::empty()
        } else {
            self.entry_words(t, ind, hi as u32) + self.words_seg(t, ind, hi - 1, lo)
        }
    }

    /// The wire words of the whole container: every bit, highest
    /// first.
    pub open spec fn words(self, t: TableId, ind: u32) -> Seq<u32> {
        self.words_seg(t, ind, 31, 0)
    }

    /// A fresh container with nothing stored.
    pub fn new() -> (r: CifFields)
        ensures
            r.len_ok(),
            r.all_empty(),
    {
        let mut values: Vec<Option<FieldValue>> = Vec::new();
        let mut attrs: Vec<Vec<FieldValue>> = Vec::new();
        let mut i: usize = 0;
        while i < 32
            invariant
                i <= 32,
                values@.len() == i,
                attrs@.len() == i,
                forall|b: int| 0 <= b < i ==> values@[b] is None,
                forall|b: int| 0 <= b < i ==> (#[trigger] attrs@[b])@.len() == 0,
            decreases 32 - i,
        {
            values.push(Option::None);
            attrs.push(Vec::new());
            i = i + 1;
        }
        CifFields { values, attrs }
    }

    /// Read the stored value of an indicator bit.
    pub fn value(&self, b: u32) -> (r: &Option<FieldValue>)
        requires
            b < 32,
            self.len_ok(),
        ensures
            *r == self.value_at(b),
    {
        &self.values[b as usize]
    }

    /// Read the stored attribute vector of an indicator bit.
    pub fn attributes(&self, b: u32) -> (r: &Vec<FieldValue>)
        requires
            b < 32,
            self.len_ok(),
        ensures
            r@ == self.attrs_at(b),
    {
        &self.attrs[b as usize]
    }

    /// Replace the stored value of an indicator bit.
    pub fn set_value(&mut self, b: u32, v: Option<FieldValue>)
        requires
            b < 32,
            old(self).len_ok(),
        ensures
            final(self).len_ok(),
            final(self).value_at(b) == v,
            forall|c: u32| c < 32 && c != b ==> #[trigger] final(self).value_at(c) == old(
                self,
            ).value_at(c),
            forall|c: u32| c < 32 ==> #[trigger] final(self).attrs_at(c) == old(self).attrs_at(c),
    {
        self.values[b as usize] = v;
    }

    /// Replace the stored attribute vector of an indicator bit.
    pub fn set_attributes(&mut self, b: u32, v: Vec<FieldValue>)
        requires
            b < 32,
            old(self).len_ok(),
        ensures
            final(self).len_ok(),
            final(self).attrs_at(b) == v@,
            forall|c: u32| c < 32 && c != b ==> #[trigger] final(self).attrs_at(c) == old(
                self,
            ).attrs_at(c),
            forall|c: u32| c < 32 ==> #[trigger] final(self).value_at(c) == old(self).value_at(c),
    {
        self.attrs[b as usize] = v;
    }

    /// Every stored value and attribute respects its own bounds; this
    /// is all serialization needs.
    pub open spec fn storage_ok(self) -> bool {
        &&& self.len_ok()
        &&& forall|b: u32|
            b < 32 ==> match #[trigger] self.value_at(b) {
                Option::Some(v) => v.wf(),
                Option::None => true,
            }
        &&& forall|b: u32, j: int|
            b < 32 && 0 <= j < self.attrs_at(b).len() ==> (#[trigger] self.attrs_at(b)[j]).wf()
    }

    /// Peeling the lowest bit off a word segment.
    pub proof fn lemma_words_seg_peel(self, t: TableId, ind: u32, hi: int, lo: int)
        requires
            lo <= hi,
        ensures
            self.words_seg(t, ind, hi, lo) == self.words_seg(t, ind, hi, lo + 1)
                + self.entry_words(t, ind, lo as u32),
        decreases hi - lo,
    {
        if hi == lo {
            assert(self.words_seg(t, ind, hi - 1, lo) == Seq::<u32>::empty());
            assert(self.words_seg(t, ind, hi, lo + 1) == Seq::<u32>::empty());
            assert(self.words_seg(t, ind, hi, lo) == self.entry_words(t, ind, lo as u32)
                + self.words_seg(t, ind, hi - 1, lo));
            assert(self.words_seg(t, ind, hi, lo) =~= self.words_seg(t, ind, hi, lo + 1)
                + self.entry_words(t, ind, lo as u32));
        } else {
            self.lemma_words_seg_peel(t, ind, hi - 1, lo);
            assert(self.words_seg(t, ind, hi, lo + 1) == self.entry_words(t, ind, hi as u32)
                + self.words_seg(t, ind, hi - 1, lo + 1));
            assert(self.words_seg(t, ind, hi, lo) == self.entry_words(t, ind, hi as u32)
                + self.words_seg(t, ind, hi - 1, lo));
            assert(self.words_seg(t, ind, hi, lo) =~= self.words_seg(t, ind, hi, lo + 1)
                + self.entry_words(t, ind, lo as u32));
        }
    }

    /// Splitting a word segment at a middle bit.
    pub proof fn lemma_words_seg_concat(self, t: TableId, ind: u32, hi: int, mid: int, lo: int)
        requires
            lo <= mid,
            mid <= hi + 1,
        ensures
            self.words_seg(t, ind, hi, lo) == self.words_seg(t, ind, hi, mid) + self.words_seg(
                t,
                ind,
                mid - 1,
                lo,
            ),
        decreases hi - mid + 1,
    {
        if hi < mid {
            assert(self.words_seg(t, ind, hi, mid) == Seq::<u32>::empty());
            assert(self.words_seg(t, ind, hi, lo) =~= self.words_seg(t, ind, hi, mid)
                + self.words_seg(t, ind, mid - 1, lo));
        } else {
            self.lemma_words_seg_concat(t, ind, hi - 1, mid, lo);
            assert(self.words_seg(t, ind, hi, mid) == self.entry_words(t, ind, hi as u32)
                + self.words_seg(t, ind, hi - 1, mid));
            assert(self.words_seg(t, ind, hi, lo) == self.entry_words(t, ind, hi as u32)
                + self.words_seg(t, ind, hi - 1, lo));
            assert(self.words_seg(t, ind, hi, lo) =~= self.words_seg(t, ind, hi, mid)
                + self.words_seg(t, ind, mid - 1, lo));
        }
    }

    /// A well-formed container whose words stand at `start` within
    /// the stream, wholly before `end`.
    pub open spec fn encoded_fields_at(
        w: Seq<u32>,
        start: int,
        end: int,
        t: TableId,
        ind: u32,
        current: bool,
        extra: nat,
    ) -> bool {
        exists|f: CifFields|
            #[trigger] f.wf(t, ind, current, extra) && start + f.words(t, ind).len() <= end
                && f.words(t, ind) == w.subrange(start, start + f.words(t, ind).len())
    }

    /// A container with nothing stored has no wire words and is
    /// well-formed under an all-zero indicator word.
    pub proof fn lemma_empty(self, t: TableId, current: bool, extra: nat, hi: int, lo: int)
        requires
            self.len_ok(),
            self.all_empty(),
        ensures
            self.words_seg(t, 0u32, hi, lo) == Seq::<u32>::empty(),
            self.wf(t, 0u32, current, extra),
            self.storage_ok(),
        decreases hi - lo + 1,
    {
        assert forall|b: u32| b < 32 implies #[trigger] self.wf_entry(t, 0u32, current, extra, b) by {
            lemma_bit_zero(b);
        }
        assert forall|b: u32, j: int|
            b < 32 && 0 <= j < self.attrs_at(b).len() implies (#[trigger] self.attrs_at(
            b,
        )[j]).wf() by {
            assert(self.value_at(b) is None);
        }
        if hi >= lo {
            self.lemma_empty(t, current, extra, hi - 1, lo);
            if 0 <= hi < 32 {
                lemma_bit_zero(hi as u32);
            }
            assert(self.entry_words(t, 0u32, hi as u32) =~= Seq::<u32>::empty());
            assert(self.words_seg(t, 0u32, hi, lo) =~= Seq::<u32>::empty());
        }
    }

    /// Append the wire words of every flagged field, highest bit
    /// first.
    pub fn encode(&self, out: &mut Vec<u32>, t: TableId, ind: u32)
        requires
            self.storage_ok(),
        ensures
            final(out)@ == old(out)@ + self.words(t, ind),
    {
        let mut i: u32 = 0;
        while i < 32
            invariant
                i <= 32,
                self.storage_ok(),
                out@ == old(out)@ + self.words_seg(t, ind, 31, 32 - i),
            decreases 32 - i,
        {
            let b: u32 = 31 - i;
            let ghost out_before = out@;
            if kind_at(t, b).is_some() && get_bit32(ind, b) {
                match &self.values[b as usize] {
                    Option::Some(v) => v.encode(out),
                    Option::None => (),
                }
                let ghost out_mid = out@;
                assert(out_mid == out_before + opt_words(self.value_at(b)));
                let a = &self.attrs[b as usize];
                let mut j: usize = 0;
                while j < a.len()
                    invariant
                        j <= a@.len(),
                        a@ == self.attrs_at(b),
                        self.storage_ok(),
                        b < 32,
                        out@ == out_mid + attrs_words(a@.subrange(0, j as int)),
                    decreases a@.len() - j,
                {
                    a[j].encode(out);
                    j = j + 1;
                    proof {
                        assert(a@.subrange(0, j as int) =~= a@.subrange(0, j - 1).push(
                            a@[j - 1],
                        ));
                        lemma_attrs_words_snoc(a@.subrange(0, j - 1), a@[j - 1]);
                    }
                }
                proof {
                    assert(a@.subrange(0, a@.len() as int) =~= a@);
                    assert(out@ == out_before + self.entry_words(t, ind, b));
                }
            } else {
                proof {
                    assert(self.entry_words(t, ind, b) =~= Seq::<u32>::empty());
                }
            }
            i = i + 1;
            proof {
                self.lemma_words_seg_peel(t, ind, 31, b as int);
                assert(out@ =~= old(out)@ + self.words_seg(t, ind, 31, 32 - i));
            }
        }
    }

    /// Read every flagged field of the indicator word, highest bit
    /// first, with `extra` attribute entries per field and base values
    /// present only when `current` holds.
    #[verifier::rlimit(100)]
    #[verifier::spinoff_prover]
    pub fn parse(
        w: &Vec<u32>,
        pos: &mut usize,
        end: usize,
        t: TableId,
        ind: u32,
        current: bool,
        extra: usize,
    ) -> (r: Result<CifFields, VitaError>)
        requires
            *old(pos) <= end,
            end <= w@.len(),
            end <= 0xFFFF,
        ensures
            r.is_ok() ==> *old(pos) <= *final(pos) <= end && r.unwrap().wf(
                t,
                ind,
                current,
                extra as nat,
            ) && r.unwrap().words(t, ind) == w@.subrange(*old(pos) as int, *final(pos) as int),
            r.is_err() ==> r == Err::<CifFields, VitaError>(VitaError::TruncatedPacket),
            Self::encoded_fields_at(
                w@,
                *old(pos) as int,
                end as int,
                t,
                ind,
                current,
                extra as nat,
            ) ==> r.is_ok(),
    {
        let ghost has_w = Self::encoded_fields_at(
            w@,
            *old(pos) as int,
            end as int,
            t,
            ind,
            current,
            extra as nat,
        );
        let ghost fw = choose|g: CifFields|
            #[trigger] g.wf(t, ind, current, extra as nat) && *old(pos) + g.words(t, ind).len()
                <= end && g.words(t, ind) == w@.subrange(
                *old(pos) as int,
                *old(pos) + g.words(t, ind).len(),
            );
        let ghost total: int = fw.words(t, ind).len() as int;
        proof {
            if has_w {
                assert(fw.wf(t, ind, current, extra as nat) && *old(pos) + fw.words(
                    t,
                    ind,
                ).len() <= end && fw.words(t, ind) == w@.subrange(
                    *old(pos) as int,
                    *old(pos) + fw.words(t, ind).len(),
                ));
            }
        }
        let mut f = CifFields::new();
        let start: usize = *pos;
        let mut p: usize = start;
        let mut i: u32 = 0;
        while i < 32
            invariant
                i <= 32,
                start <= p <= end,
                end <= w@.len(),
                end <= 0xFFFF,
                f.len_ok(),
                forall|b: u32| 32 - i <= b < 32 ==> #[trigger] f.wf_entry(
                    t,
                    ind,
                    current,
                    extra as nat,
                    b,
                ),
                forall|b: u32| b < 32 - i ==> (#[trigger] f.value_at(b)) is None && f.attrs_at(
                    b,
                ).len() == 0,
                f.words_seg(t, ind, 31, 32 - i) == w@.subrange(start as int, p as int),
                start == *old(pos),
                has_w == Self::encoded_fields_at(
                    w@,
                    start as int,
                    end as int,
                    t,
                    ind,
                    current,
                    extra as nat,
                ),
                has_w ==> fw.wf(t, ind, current, extra as nat),
                has_w ==> total == fw.words(t, ind).len(),
                has_w ==> start + total <= end,
                has_w ==> fw.words(t, ind) == w@.subrange(start as int, start as int + total),
                has_w ==> p - start == fw.words_seg(t, ind, 31, 32 - i).len(),
                has_w ==> p as int <= start as int + total,
            decreases 32 - i,
        {
            let b: u32 = 31 - i;
            let ghost f_before = f;
            let ghost p_before = p;
            proof {
                if has_w {
                    fw.lemma_words_seg_concat(t, ind, 31, b as int + 1, 0);
                    crate::bits::lemma_drop_prefix(
                        fw.words_seg(t, ind, 31, b as int + 1),
                        fw.words_seg(t, ind, b as int, 0),
                        w@,
                        start as int,
                        start as int + total,
                    );
                    assert(fw.words_seg(t, ind, b as int, 0) == w@.subrange(
                        p as int,
                        start as int + total,
                    ));
                    assert(fw.words_seg(t, ind, b as int, 0) == fw.entry_words(t, ind, b)
                        + fw.words_seg(t, ind, b as int - 1, 0));
                    assert(fw.wf_entry(t, ind, current, extra as nat, b));
                }
            }
            match kind_at(t, b) {
                Option::Some(k) => {
                    if get_bit32(ind, b) {
                        proof {
                            if has_w {
                                assert(fw.entry_words(t, ind, b) == opt_words(fw.value_at(b))
                                    + attrs_words(fw.attrs_at(b)));
                                assert((opt_words(fw.value_at(b)) + attrs_words(fw.attrs_at(b)))
                                    + fw.words_seg(t, ind, b as int - 1, 0) =~= opt_words(
                                    fw.value_at(b),
                                ) + (attrs_words(fw.attrs_at(b)) + fw.words_seg(
                                    t,
                                    ind,
                                    b as int - 1,
                                    0,
                                )));
                                crate::bits::lemma_drop_prefix(
                                    opt_words(fw.value_at(b)),
                                    attrs_words(fw.attrs_at(b)) + fw.words_seg(
                                        t,
                                        ind,
                                        b as int - 1,
                                        0,
                                    ),
                                    w@,
                                    p as int,
                                    start as int + total,
                                );
                                if current {
                                    let v = fw.value_at(b)->0;
                                    assert(opt_words(fw.value_at(b)) == v.words());
                                    assert(v.words() == w@.subrange(
                                        p as int,
                                        p as int + v.words().len(),
                                    ));
                                    FieldValue::lemma_encoded_value_parses(
                                        w@,
                                        p as int,
                                        end as int,
                                        v,
                                    );
                                    assert(v.kind() == k);
                                    assert(FieldValue::parse_succeeds(
                                        w@,
                                        p as int,
                                        end as int,
                                        k,
                                    ));
                                }
                            }
                        }
                        if current {
                            let v = FieldValue::parse(w, &mut p, end, k)?;
                            f.set_value(b, Option::Some(v));
                        }
                        let ghost p_mid = p;
                        proof {
                            if has_w {
                                assert(attrs_words(fw.attrs_at(b)) + fw.words_seg(
                                    t,
                                    ind,
                                    b as int - 1,
                                    0,
                                ) == w@.subrange(p as int, start as int + total));
                                assert(fw.attrs_at(b).skip(0) =~= fw.attrs_at(b));
                            }
                        }
                        let mut avec: Vec<FieldValue> = Vec::new();
                        let mut j: usize = 0;
                        while j < extra
                            invariant
                                j <= extra,
                                p_mid <= p <= end,
                                end <= w@.len(),
                                end <= 0xFFFF,
                                b < 32,
                                table_kind(t, b) == Option::Some(k),
                                bit(ind, b),
                                avec@.len() == j,
                                forall|q: int| 0 <= q < j ==> (#[trigger] avec@[q]).kind() == k
                                    && avec@[q].wf(),
                                attrs_words(avec@) == w@.subrange(p_mid as int, p as int),
                                has_w ==> fw.wf(t, ind, current, extra as nat),
                                has_w ==> start + total <= end,
                                has_w ==> fw.attrs_at(b).len() == extra,
                                has_w ==> forall|q: int|
                                    0 <= q < extra ==> (#[trigger] fw.attrs_at(b)[q]).kind() == k
                                        && fw.attrs_at(b)[q].wf(),
                                has_w ==> attrs_words(fw.attrs_at(b).skip(j as int))
                                    + fw.words_seg(t, ind, b as int - 1, 0) == w@.subrange(
                                    p as int,
                                    start as int + total,
                                ),
                                has_w ==> p as int <= start as int + total,
                                start == *old(pos),
                                has_w == Self::encoded_fields_at(
                                    w@,
                                    start as int,
                                    end as int,
                                    t,
                                    ind,
                                    current,
                                    extra as nat,
                                ),
                            decreases extra - j,
                        {
                            proof {
                                if has_w {
                                    let tail = fw.attrs_at(b).skip(j as int);
                                    assert(tail.len() == extra - j);
                                    assert(tail[0] == fw.attrs_at(b)[j as int]);
                                    assert(tail.drop_first() =~= fw.attrs_at(b).skip(
                                        j as int + 1,
                                    ));
                                    assert(attrs_words(tail) == tail[0].words() + attrs_words(
                                        tail.drop_first(),
                                    ));
                                    assert((tail[0].words() + attrs_words(tail.drop_first()))
                                        + fw.words_seg(t, ind, b as int - 1, 0)
                                        =~= tail[0].words() + (attrs_words(tail.drop_first())
                                        + fw.words_seg(t, ind, b as int - 1, 0)));
                                    assert(tail[0].words() + (attrs_words(tail.drop_first())
                                        + fw.words_seg(t, ind, b as int - 1, 0)) == w@.subrange(
                                        p as int,
                                        start as int + total,
                                    ));
                                    crate::bits::lemma_drop_prefix(
                                        tail[0].words(),
                                        attrs_words(tail.drop_first()) + fw.words_seg(
                                            t,
                                            ind,
                                            b as int - 1,
                                            0,
                                        ),
                                        w@,
                                        p as int,
                                        start as int + total,
                                    );
                                    FieldValue::lemma_encoded_value_parses(
                                        w@,
                                        p as int,
                                        end as int,
                                        tail[0],
                                    );
                                    assert(tail[0].kind() == k);
                                    assert(FieldValue::parse_succeeds(
                                        w@,
                                        p as int,
                                        end as int,
                                        k,
                                    ));
                                }
                            }
                            let ghost avec_before = avec@;
                            let v = FieldValue::parse(w, &mut p, end, k)?;
                            avec.push(v);
                            j = j + 1;
                            proof {
                                lemma_attrs_words_snoc(avec_before, avec@[j - 1]);
                                assert(attrs_words(avec@) =~= w@.subrange(
                                    p_mid as int,
                                    p as int,
                                ));
                            }
                        }
                        f.set_attributes(b, avec);
                        proof {
                            assert(f.entry_words(t, ind, b) =~= w@.subrange(
                                p_before as int,
                                p as int,
                            ));
                            assert(f.wf_entry(t, ind, current, extra as nat, b));
                            if has_w {
                                assert(fw.attrs_at(b).skip(extra as int)
                                    =~= Seq::<FieldValue>::empty());
                                assert(attrs_words(Seq::<FieldValue>::empty())
                                    == Seq::<u32>::empty());
                                assert(Seq::<u32>::empty() + fw.words_seg(t, ind, b as int - 1, 0)
                                    =~= fw.words_seg(t, ind, b as int - 1, 0));
                                assert(fw.words_seg(t, ind, b as int - 1, 0) == w@.subrange(
                                    p as int,
                                    start as int + total,
                                ));
                            }
                        }
                    } else {
                        proof {
                            assert(f.wf_entry(t, ind, current, extra as nat, b));
                            if has_w {
                                assert(fw.entry_words(t, ind, b) == Seq::<u32>::empty());
                                assert(fw.words_seg(t, ind, b as int - 1, 0) =~= w@.subrange(
                                    p as int,
                                    start as int + total,
                                ));
                            }
                        }
                    }
                },
                Option::None => {
                    proof {
                        assert(f.wf_entry(t, ind, current, extra as nat, b));
                        if has_w {
                            assert(fw.entry_words(t, ind, b) == Seq::<u32>::empty());
                            assert(fw.words_seg(t, ind, b as int - 1, 0) =~= w@.subrange(
                                p as int,
                                start as int + total,
                            ));
                        }
                    }
                },
            }
            i = i + 1;
            proof {
                f.lemma_words_seg_peel(t, ind, 31, b as int);
                lemma_words_seg_frame(f_before, f, t, ind, 31, b as int + 1);
                assert forall|c: u32| 32 - i <= c < 32 implies #[trigger] f.wf_entry(
                    t,
                    ind,
                    current,
                    extra as nat,
                    c,
                ) by {
                    if c != b {
                        assert(f.value_at(c) == f_before.value_at(c));
                        assert(f.attrs_at(c) == f_before.attrs_at(c));
                        assert(f_before.wf_entry(t, ind, current, extra as nat, c));
                    }
                }
                assert(f.words_seg(t, ind, 31, 32 - i) =~= w@.subrange(start as int, p as int));
                if has_w {
                    fw.lemma_words_seg_peel(t, ind, 31, b as int);
                    assert(fw.words_seg(t, ind, b as int - 1, 0) == w@.subrange(
                        p as int,
                        start as int + total,
                    ));
                    fw.lemma_words_seg_concat(t, ind, 31, b as int, 0);
                    assert(total == fw.words_seg(t, ind, 31, b as int).len() + fw.words_seg(
                        t,
                        ind,
                        b as int - 1,
                        0,
                    ).len());
                    assert(p - start == fw.words_seg(t, ind, 31, 32 - i).len());
                }
            }
        }
        *pos = p;
        proof {
            assert(f.words_seg(t, ind, 31, 0) == w@.subrange(start as int, p as int));
        }
        Ok(f)
    }
}

/// Attribute vectors of equal count and kind whose words begin at the
/// same stream position occupy the same number of words.
proof fn lemma_attrs_len_det(
    w: Seq<u32>,
    q: int,
    endw: int,
    k: FieldKind,
    s1: Seq<FieldValue>,
    s2: Seq<FieldValue>,
)
    requires
        s1.len() == s2.len(),
        forall|j: int| 0 <= j < s1.len() ==> (#[trigger] s1[j]).kind() == k && s1[j].wf(),
        forall|j: int| 0 <= j < s2.len() ==> (#[trigger] s2[j]).kind() == k && s2[j].wf(),
        0 <= q,
        endw <= w.len(),
        q + attrs_words(s1).len() <= endw,
        q + attrs_words(s2).len() <= endw,
        attrs_words(s1) == w.subrange(q, q + attrs_words(s1).len()),
        attrs_words(s2) == w.subrange(q, q + attrs_words(s2).len()),
    ensures
        attrs_words(s1).len() == attrs_words(s2).len(),
    decreases s1.len(),
{
    if s1.len() > 0 {
        let h1 = s1[0];
        let h2 = s2[0];
        assert(attrs_words(s1) == h1.words() + attrs_words(s1.drop_first()));
        assert(attrs_words(s2) == h2.words() + attrs_words(s2.drop_first()));
        crate::bits::lemma_drop_prefix(
            h1.words(),
            attrs_words(s1.drop_first()),
            w,
            q,
            q + attrs_words(s1).len(),
        );
        crate::bits::lemma_drop_prefix(
            h2.words(),
            attrs_words(s2.drop_first()),
            w,
            q,
            q + attrs_words(s2).len(),
        );
        FieldValue::lemma_encoded_value_parses(w, q, endw, h1);
        FieldValue::lemma_encoded_value_parses(w, q, endw, h2);
        assert(h1.words().len() == h2.words().len());
        assert forall|j: int|
            0 <= j < s1.drop_first().len() implies (#[trigger] s1.drop_first()[j]).kind() == k
            && s1.drop_first()[j].wf() by {
            assert(s1.drop_first()[j] == s1[j + 1]);
        }
        assert forall|j: int|
            0 <= j < s2.drop_first().len() implies (#[trigger] s2.drop_first()[j]).kind() == k
            && s2.drop_first()[j].wf() by {
            assert(s2.drop_first()[j] == s2[j + 1]);
        }
        lemma_attrs_len_det(w, q + h1.words().len(), endw, k, s1.drop_first(), s2.drop_first());
    }
}

/// Two well-formed containers for the same table, indicator word and
/// attribute options whose words begin at the same stream position
/// occupy the same number of words (the format is self-delimiting).
#[verifier::rlimit(100)]
proof fn lemma_fields_len_det_seg(
    w: Seq<u32>,
    q: int,
    endw: int,
    t: TableId,
    ind: u32,
    current: bool,
    extra: nat,
    g1: CifFields,
    g2: CifFields,
    b: int,
)
    requires
        g1.wf(t, ind, current, extra),
        g2.wf(t, ind, current, extra),
        -1 <= b <= 31,
        0 <= q,
        endw <= w.len(),
        q + g1.words_seg(t, ind, b, 0).len() <= endw,
        q + g2.words_seg(t, ind, b, 0).len() <= endw,
        g1.words_seg(t, ind, b, 0) == w.subrange(q, q + g1.words_seg(t, ind, b, 0).len()),
        g2.words_seg(t, ind, b, 0) == w.subrange(q, q + g2.words_seg(t, ind, b, 0).len()),
    ensures
        g1.words_seg(t, ind, b, 0).len() == g2.words_seg(t, ind, b, 0).len(),
    decreases b + 1,
{
    if b >= 0 {
        let bu = b as u32;
        let l1 = g1.words_seg(t, ind, b, 0).len() as int;
        let l2 = g2.words_seg(t, ind, b, 0).len() as int;
        assert(g1.wf_entry(t, ind, current, extra, bu));
        assert(g2.wf_entry(t, ind, current, extra, bu));
        assert(g1.words_seg(t, ind, b, 0) == g1.entry_words(t, ind, bu) + g1.words_seg(
            t,
            ind,
            b - 1,
            0,
        ));
        assert(g2.words_seg(t, ind, b, 0) == g2.entry_words(t, ind, bu) + g2.words_seg(
            t,
            ind,
            b - 1,
            0,
        ));
        crate::bits::lemma_drop_prefix(
            g1.entry_words(t, ind, bu),
            g1.words_seg(t, ind, b - 1, 0),
            w,
            q,
            q + l1,
        );
        crate::bits::lemma_drop_prefix(
            g2.entry_words(t, ind, bu),
            g2.words_seg(t, ind, b - 1, 0),
            w,
            q,
            q + l2,
        );
        if table_kind(t, bu) is Some && bit(ind, bu) {
            let e1 = g1.entry_words(t, ind, bu);
            let e2 = g2.entry_words(t, ind, bu);
            assert(e1 == opt_words(g1.value_at(bu)) + attrs_words(g1.attrs_at(bu)));
            assert(e2 == opt_words(g2.value_at(bu)) + attrs_words(g2.attrs_at(bu)));
            crate::bits::lemma_drop_prefix(
                opt_words(g1.value_at(bu)),
                attrs_words(g1.attrs_at(bu)),
                w,
                q,
                q + e1.len(),
            );
            crate::bits::lemma_drop_prefix(
                opt_words(g2.value_at(bu)),
                attrs_words(g2.attrs_at(bu)),
                w,
                q,
                q + e2.len(),
            );
            if current {
                let v1 = g1.value_at(bu)->0;
                let v2 = g2.value_at(bu)->0;
                FieldValue::lemma_encoded_value_parses(w, q, endw, v1);
                FieldValue::lemma_encoded_value_parses(w, q, endw, v2);
                assert(v1.words().len() == v2.words().len());
            }
            let vl = opt_words(g1.value_at(bu)).len() as int;
            assert(opt_words(g2.value_at(bu)).len() == vl);
            let k = table_kind(t, bu)->0;
            lemma_attrs_len_det(w, q + vl, endw, k, g1.attrs_at(bu), g2.attrs_at(bu));
            assert(e1.len() == e2.len());
            lemma_fields_len_det_seg(
                w,
                q + e1.len(),
                endw,
                t,
                ind,
                current,
                extra,
                g1,
                g2,
                b - 1,
            );
        } else {
            assert(g1.entry_words(t, ind, bu) == Seq::<u32>::empty());
            assert(g2.entry_words(t, ind, bu) == Seq::<u32>::empty());
            lemma_fields_len_det_seg(w, q, endw, t, ind, current, extra, g1, g2, b - 1);
        }
    }
}

/// Two well-formed containers for the same table, indicator word and
/// attribute options whose full words begin at the same stream
/// position occupy the same number of words.
pub proof fn lemma_fields_len_det(
    w: Seq<u32>,
    q: int,
    endw: int,
    t: TableId,
    ind: u32,
    current: bool,
    extra: nat,
    g1: CifFields,
    g2: CifFields,
)
    requires
        g1.wf(t, ind, current, extra),
        g2.wf(t, ind, current, extra),
        0 <= q,
        endw <= w.len(),
        q + g1.words(t, ind).len() <= endw,
        q + g2.words(t, ind).len() <= endw,
        g1.words(t, ind) == w.subrange(q, q + g1.words(t, ind).len()),
        g2.words(t, ind) == w.subrange(q, q + g2.words(t, ind).len()),
    ensures
        g1.words(t, ind).len() == g2.words(t, ind).len(),
{
    lemma_fields_len_det_seg(w, q, endw, t, ind, current, extra, g1, g2, 31);
}

/// Two containers that agree slot-by-slot above `lo` have the same
/// word segment there.
proof fn lemma_words_seg_frame(a: CifFields, b: CifFields, t: TableId, ind: u32, hi: int, lo: int)
    requires
        forall|c: u32| lo <= c < 32 ==> #[trigger] a.value_at(c) == b.value_at(c) && a.attrs_at(c)
            =~= b.attrs_at(c),
        0 <= lo,
        hi < 32,
    ensures
        a.words_seg(t, ind, hi, lo) == b.words_seg(t, ind, hi, lo),
    decreases hi - lo + 1,
{
    if hi >= lo {
        lemma_words_seg_frame(a, b, t, ind, hi - 1, lo);
        assert(a.entry_words(t, ind, hi as u32) == b.entry_words(t, ind, hi as u32));
    }
}

} // verus!

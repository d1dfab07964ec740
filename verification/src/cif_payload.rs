//! The CIF-bearing payload shared by context packets, control
//! packets and query acknowledgements: the CIF0 indicator word, the
//! chained CIF1/2/3/7 words, and the data fields they declare. The
//! cancellation payload carries the indicator words alone.

use vstd::prelude::*;

use crate::bits::{bit, take_word};
use crate::cif::{
    cif7_current, cif7_extra, Cif0, Cif1, Cif2, Cif3, Cif7, CIF0_CIF1_ENABLED_BIT,
    CIF0_CIF7_ENABLED_BIT, CIF1_SPECTRUM_BIT,
};
use crate::cif_fields::{table_kind, CifFields, TableId};
use crate::composites::Spectrum;
use crate::errors::VitaError;
use crate::field_value::FieldValue;

verus! {

/// A CIF indicator cascade with its data fields.
#[derive(Clone, Debug, PartialEq, Eq)]
pub struct CifPayload {
    /// The CIF0 indicator word, always present.
    pub cif0: Cif0,
    /// The CIF1 indicator word, present iff CIF0 bit 1 is set.
    pub cif1: Option<Cif1>,
    /// The CIF2 indicator word, present iff CIF0 bit 2 is set.
    pub cif2: Option<Cif2>,
    /// The CIF3 indicator word, present iff CIF0 bit 3 is set.
    pub cif3: Option<Cif3>,
    /// The CIF7 attributes word, present iff CIF0 bit 7 is set.
    pub cif7: Option<Cif7>,
    /// The data fields declared by CIF0.
    pub fields0: CifFields,
    /// The data fields declared by CIF1.
    pub fields1: CifFields,
}

impl CifPayload {
    /// The CIF1 indicator word, zero when absent.
    pub open spec fn cif1_word(self) -> u32 {
        match self.cif1 {
            Option::Some(c) => c.0,
            Option::None => 0,
        }
    }

    /// Whether base field values are serialized.
    pub open spec fn current(self) -> bool {
        cif7_current(self.cif7)
    }

    /// Attribute entries per flagged field.
    pub open spec fn extra(self) -> nat {
        cif7_extra(self.cif7)
    }

    /// A freshly built payload: an all-clear CIF0, no chained words,
    /// and nothing stored in either field container.
    pub open spec fn is_empty(self) -> bool {
        &&& self.cif0.0 == 0
        &&& self.cif1 is None
        &&& self.cif2 is None
        &&& self.cif3 is None
        &&& self.cif7 is None
        &&& self.fields0.len_ok() && self.fields0.all_empty()
        &&& self.fields1.len_ok() && self.fields1.all_empty()
    }

    /// Chained indicator words are present exactly when their CIF0
    /// chain bit is set, and both field containers agree with their
    /// indicator words.
    pub open spec fn wf(self) -> bool {
        &&& self.cif1 is Some <==> self.cif0.spec_cif1_enabled()
        &&& self.cif2 is Some <==> self.cif0.spec_cif2_enabled()
        &&& self.cif3 is Some <==> self.cif0.spec_cif3_enabled()
        &&& self.cif7 is Some <==> self.cif0.spec_field_attributes_enabled()
        &&& self.fields0.wf(TableId::TableCif0, self.cif0.0, self.current(), self.extra())
        &&& self.fields1.wf(TableId::TableCif1, self.cif1_word(), self.current(), self.extra())
    }

    /// The wire words: the indicator cascade, then the CIF0 fields,
    /// then the CIF1 fields.
    pub open spec fn words(self) -> Seq<u32> {
        seq![self.cif0.0] + (match self.cif1 {
            Option::Some(c) => seq![c.0],
            Option::None => Seq::<u32>::empty(),
        }) + (match self.cif2 {
            Option::Some(c) => seq![c.0],
            Option::None => Seq::<u32>::empty(),
        }) + (match self.cif3 {
            Option::Some(c) => seq![c.0],
            Option::None => Seq::<u32>::empty(),
        }) + (match self.cif7 {
            Option::Some(c) => seq![c.0],
            Option::None => Seq::<u32>::empty(),
        }) + self.fields0.words(TableId::TableCif0, self.cif0.0) + self.fields1.words(
            TableId::TableCif1,
            self.cif1_word(),
        )
    }

    /// Serialization only needs the stored values to respect their
    /// own bounds; well-formedness implies that.
    pub proof fn lemma_wf_storage(self)
        requires
            self.wf(),
        ensures
            self.fields0.storage_ok(),
            self.fields1.storage_ok(),
    {
        assert forall|b: u32| b < 32 implies match #[trigger] self.fields0.value_at(b) {
            Option::Some(v) => v.wf(),
            Option::None => true,
        } by {
            assert(self.fields0.wf_entry(
                TableId::TableCif0,
                self.cif0.0,
                self.current(),
                self.extra(),
                b,
            ));
        }
        assert forall|b: u32, j: int|
            b < 32 && 0 <= j < self.fields0.attrs_at(b).len() implies (#[trigger] self.fields0.attrs_at(
            b,
        )[j]).wf() by {
            assert(self.fields0.wf_entry(
                TableId::TableCif0,
                self.cif0.0,
                self.current(),
                self.extra(),
                b,
            ));
        }
        assert forall|b: u32| b < 32 implies match #[trigger] self.fields1.value_at(b) {
            Option::Some(v) => v.wf(),
            Option::None => true,
        } by {
            assert(self.fields1.wf_entry(
                TableId::TableCif1,
                self.cif1_word(),
                self.current(),
                self.extra(),
                b,
            ));
        }
        assert forall|b: u32, j: int|
            b < 32 && 0 <= j < self.fields1.attrs_at(b).len() implies (#[trigger] self.fields1.attrs_at(
            b,
        )[j]).wf() by {
            assert(self.fields1.wf_entry(
                TableId::TableCif1,
                self.cif1_word(),
                self.current(),
                self.extra(),
                b,
            ));
        }
    }

    /// A payload with an all-clear CIF0 and no fields.
    pub fn new() -> (r: CifPayload)
        ensures
            r.wf(),
            r.is_empty(),
            r.words() == seq![0u32],
            r.cif0.0 == 0,
            r.cif1 is None,
            r.cif2 is None,
            r.cif3 is None,
            r.cif7 is None,
            r.fields0.all_empty(),
            r.fields1.all_empty(),
    {
        let fields0 = CifFields::new();
        let fields1 = CifFields::new();
        let r = CifPayload {
            cif0: Cif0(0),
            cif1: Option::None,
            cif2: Option::None,
            cif3: Option::None,
            cif7: Option::None,
            fields0,
            fields1,
        };
        proof {
            crate::bits::lemma_bit_zero(1);
            crate::bits::lemma_bit_zero(2);
            crate::bits::lemma_bit_zero(3);
            crate::bits::lemma_bit_zero(7);
            r.fields0.lemma_empty(TableId::TableCif0, r.current(), r.extra(), 31, 0);
            r.fields1.lemma_empty(TableId::TableCif1, r.current(), r.extra(), 31, 0);
            assert(r.words() =~= seq![0u32]);
        }
        r
    }

    /// Append the payload's wire words.
    pub fn encode(&self, out: &mut Vec<u32>)
        requires
            self.fields0.storage_ok(),
            self.fields1.storage_ok(),
        ensures
            final(out)@ == old(out)@ + self.words(),
    {
        out.push(self.cif0.0);
        match &self.cif1 {
            Option::Some(c) => out.push(c.0),
            Option::None => (),
        }
        match &self.cif2 {
            Option::Some(c) => out.push(c.0),
            Option::None => (),
        }
        match &self.cif3 {
            Option::Some(c) => out.push(c.0),
            Option::None => (),
        }
        match &self.cif7 {
            Option::Some(c) => out.push(c.0),
            Option::None => (),
        }
        let ind1: u32 = match &self.cif1 {
            Option::Some(c) => c.0,
            Option::None => 0,
        };
        self.fields0.encode(out, TableId::TableCif0, self.cif0.0);
        self.fields1.encode(out, TableId::TableCif1, ind1);
        assert(out@ =~= old(out)@ + self.words());
    }

    /// Where each part of an encoded payload stands in the stream.
    #[verifier::rlimit(100)]
    #[verifier::spinoff_prover]
    proof fn lemma_layout(w: Seq<u32>, start0: int, end: int, cw: CifPayload)
        requires
            cw.wf(),
            0 <= start0,
            start0 + cw.words().len() <= end,
            end <= w.len(),
            cw.words() == w.subrange(start0, start0 + cw.words().len()),
        ensures
            w[start0] == cw.cif0.0,
            cw.cif1 matches Option::Some(c) ==> w[start0 + 1] == c.0,
            cw.cif2 matches Option::Some(c) ==> w[start0 + 1 + cw.chain1_len()] == c.0,
            cw.cif3 matches Option::Some(c) ==> w[start0 + 1 + cw.chain1_len()
                + cw.chain2_len()] == c.0,
            cw.cif7 matches Option::Some(c) ==> w[start0 + 1 + cw.chain1_len() + cw.chain2_len()
                + cw.chain3_len()] == c.0,
            cw.fields0.words(TableId::TableCif0, cw.cif0.0) == w.subrange(
                start0 + cw.cascade_len(),
                start0 + cw.cascade_len() + cw.fields0.words(TableId::TableCif0, cw.cif0.0).len(),
            ),
            cw.fields1.words(TableId::TableCif1, cw.cif1_word()) == w.subrange(
                start0 + cw.cascade_len() + cw.fields0.words(TableId::TableCif0, cw.cif0.0).len(),
                start0 + cw.words().len(),
            ),
            cw.words().len() == cw.cascade_len() + cw.fields0.words(
                TableId::TableCif0,
                cw.cif0.0,
            ).len() + cw.fields1.words(TableId::TableCif1, cw.cif1_word()).len(),
    {
        let ll = cw.words().len() as int;
        let h = seq![cw.cif0.0];
        let m1 = match cw.cif1 {
            Option::Some(c) => seq![c.0],
            Option::None => Seq::<u32>::empty(),
        };
        let m2 = match cw.cif2 {
            Option::Some(c) => seq![c.0],
            Option::None => Seq::<u32>::empty(),
        };
        let m3 = match cw.cif3 {
            Option::Some(c) => seq![c.0],
            Option::None => Seq::<u32>::empty(),
        };
        let m7 = match cw.cif7 {
            Option::Some(c) => seq![c.0],
            Option::None => Seq::<u32>::empty(),
        };
        let f0w = cw.fields0.words(TableId::TableCif0, cw.cif0.0);
        let f1w = cw.fields1.words(TableId::TableCif1, cw.cif1_word());
        assert(cw.words() == (((((h + m1) + m2) + m3) + m7) + f0w) + f1w);
        assert((((((h + m1) + m2) + m3) + m7) + f0w) + f1w =~= h + (m1 + (m2 + (m3 + (m7 + (f0w
            + f1w))))));
        crate::bits::lemma_drop_prefix(
            h,
            m1 + (m2 + (m3 + (m7 + (f0w + f1w)))),
            w,
            start0,
            start0 + ll,
        );
        crate::bits::lemma_drop_prefix(
            m1,
            m2 + (m3 + (m7 + (f0w + f1w))),
            w,
            start0 + 1,
            start0 + ll,
        );
        crate::bits::lemma_drop_prefix(
            m2,
            m3 + (m7 + (f0w + f1w)),
            w,
            start0 + 1 + m1.len(),
            start0 + ll,
        );
        crate::bits::lemma_drop_prefix(
            m3,
            m7 + (f0w + f1w),
            w,
            start0 + 1 + m1.len() + m2.len(),
            start0 + ll,
        );
        crate::bits::lemma_drop_prefix(
            m7,
            f0w + f1w,
            w,
            start0 + 1 + m1.len() + m2.len() + m3.len(),
            start0 + ll,
        );
        crate::bits::lemma_drop_prefix(
            f0w,
            f1w,
            w,
            start0 + 1 + m1.len() + m2.len() + m3.len() + m7.len(),
            start0 + ll,
        );
        assert(h == w.subrange(start0, start0 + 1));
        assert(w.subrange(start0, start0 + 1)[0] == w[start0]);
        if cw.cif1 is Some {
            assert(m1 == w.subrange(start0 + 1, start0 + 2));
            assert(w.subrange(start0 + 1, start0 + 2)[0] == w[start0 + 1]);
        }
        if cw.cif2 is Some {
            let o2 = start0 + 1 + m1.len();
            assert(m2 == w.subrange(o2, o2 + 1));
            assert(w.subrange(o2, o2 + 1)[0] == w[o2]);
        }
        if cw.cif3 is Some {
            let o3 = start0 + 1 + m1.len() + m2.len();
            assert(m3 == w.subrange(o3, o3 + 1));
            assert(w.subrange(o3, o3 + 1)[0] == w[o3]);
        }
        if cw.cif7 is Some {
            let o7 = start0 + 1 + m1.len() + m2.len() + m3.len();
            assert(m7 == w.subrange(o7, o7 + 1));
            assert(w.subrange(o7, o7 + 1)[0] == w[o7]);
        }
    }

    /// One when the CIF1 word is present, zero otherwise.
    pub open spec fn chain1_len(self) -> int {
        if self.cif1 is Some {
            1int
        } else {
            0int
        }
    }

    /// One when the CIF2 word is present, zero otherwise.
    pub open spec fn chain2_len(self) -> int {
        if self.cif2 is Some {
            1int
        } else {
            0int
        }
    }

    /// One when the CIF3 word is present, zero otherwise.
    pub open spec fn chain3_len(self) -> int {
        if self.cif3 is Some {
            1int
        } else {
            0int
        }
    }

    /// One when the CIF7 word is present, zero otherwise.
    pub open spec fn chain7_len(self) -> int {
        if self.cif7 is Some {
            1int
        } else {
            0int
        }
    }

    /// How many words the indicator cascade occupies.
    pub open spec fn cascade_len(self) -> int {
        1 + self.chain1_len() + self.chain2_len() + self.chain3_len() + self.chain7_len()
    }

    /// A well-formed CIF payload whose words stand at `start` within
    /// the stream, wholly before `end`.
    pub open spec fn encoded_at(w: Seq<u32>, start: int, end: int) -> bool {
        exists|c: CifPayload|
            #[trigger] c.wf() && start + c.words().len() <= end && c.words() == w.subrange(
                start,
                start + c.words().len(),
            )
    }

    /// Read one CIF payload from the word stream. Whenever a
    /// well-formed payload is encoded at the current position, the
    /// read succeeds.
    #[verifier::rlimit(100)]
    #[verifier::spinoff_prover]
    pub fn parse(w: &Vec<u32>, pos: &mut usize, end: usize) -> (r: Result<CifPayload, VitaError>)
        requires
            *old(pos) <= end,
            end <= w@.len(),
            end <= 0xFFFF,
        ensures
            r.is_ok() ==> *old(pos) <= *final(pos) <= end && r.unwrap().wf()
                && r.unwrap().words() == w@.subrange(*old(pos) as int, *final(pos) as int),
            r.is_err() ==> r == Err::<CifPayload, VitaError>(VitaError::TruncatedPacket),
            Self::encoded_at(w@, *old(pos) as int, end as int) ==> r.is_ok(),
    {
        let ghost has_w = Self::encoded_at(w@, *old(pos) as int, end as int);
        let ghost cw = choose|c: CifPayload|
            #[trigger] c.wf() && *old(pos) + c.words().len() <= end && c.words() == w@.subrange(
                *old(pos) as int,
                *old(pos) + c.words().len(),
            );
        let ghost start0: int = *old(pos) as int;
        let ghost ll: int = cw.words().len() as int;
        proof {
            if has_w {
                Self::lemma_layout(w@, start0, end as int, cw);
            }
        }
        let w0 = take_word(w, pos, end)?;
        let cif0 = Cif0(w0);
        let cif1 = if cif0.cif1_enabled() {
            Option::Some(Cif1(take_word(w, pos, end)?))
        } else {
            Option::None
        };
        let cif2 = if cif0.cif2_enabled() {
            Option::Some(Cif2(take_word(w, pos, end)?))
        } else {
            Option::None
        };
        let cif3 = if cif0.cif3_enabled() {
            Option::Some(Cif3(take_word(w, pos, end)?))
        } else {
            Option::None
        };
        let cif7 = if cif0.field_attributes_enabled() {
            Option::Some(Cif7(take_word(w, pos, end)?))
        } else {
            Option::None
        };
        let current = match &cif7 {
            Option::Some(c) => c.current(),
            Option::None => true,
        };
        let extra = match &cif7 {
            Option::Some(c) => c.extra_attrs(),
            Option::None => 0,
        };
        let ghost q_ind = *pos;
        proof {
            if has_w {
                assert(cif1 == cw.cif1);
                assert(cif2 == cw.cif2);
                assert(cif3 == cw.cif3);
                assert(cif7 == cw.cif7);
                assert(current == cw.current());
                assert(extra as nat == cw.extra());
                assert(q_ind as int == start0 + cw.cascade_len());
                assert(CifFields::encoded_fields_at(
                    w@,
                    q_ind as int,
                    end as int,
                    TableId::TableCif0,
                    w0,
                    current,
                    extra as nat,
                ));
            }
        }
        let mut p: usize = *pos;
        let fields0 = CifFields::parse(w, &mut p, end, TableId::TableCif0, w0, current, extra)?;
        let ghost q_f0 = p;
        proof {
            if has_w {
                crate::cif_fields::lemma_fields_len_det(
                    w@,
                    q_ind as int,
                    end as int,
                    TableId::TableCif0,
                    w0,
                    current,
                    extra as nat,
                    fields0,
                    cw.fields0,
                );
                assert(q_f0 as int == q_ind as int + cw.fields0.words(
                    TableId::TableCif0,
                    cw.cif0.0,
                ).len());
                if cw.cif1 is Some {
                    assert(CifFields::encoded_fields_at(
                        w@,
                        q_f0 as int,
                        end as int,
                        TableId::TableCif1,
                        cw.cif1_word(),
                        current,
                        extra as nat,
                    ));
                }
            }
        }
        let fields1 = match &cif1 {
            Option::Some(c1) => {
                let f = CifFields::parse(w, &mut p, end, TableId::TableCif1, c1.0, current, extra)?;
                f
            },
            Option::None => {
                let f = CifFields::new();
                f
            },
        };
        let r = CifPayload { cif0, cif1, cif2, cif3, cif7, fields0, fields1 };
        proof {
            let ind = seq![cif0.0] + (match r.cif1 {
                Option::Some(c) => seq![c.0],
                Option::None => Seq::<u32>::empty(),
            }) + (match r.cif2 {
                Option::Some(c) => seq![c.0],
                Option::None => Seq::<u32>::empty(),
            }) + (match r.cif3 {
                Option::Some(c) => seq![c.0],
                Option::None => Seq::<u32>::empty(),
            }) + (match r.cif7 {
                Option::Some(c) => seq![c.0],
                Option::None => Seq::<u32>::empty(),
            });
            assert(ind =~= w@.subrange(*old(pos) as int, q_ind as int));
            if r.cif1 is None {
                r.fields1.lemma_empty(TableId::TableCif1, r.current(), r.extra(), 31, 0);
                assert(p == q_f0);
            }
            assert(r.fields1.words(TableId::TableCif1, r.cif1_word()) == w@.subrange(
                q_f0 as int,
                p as int,
            ));
            assert(r.words() == ind + r.fields0.words(TableId::TableCif0, cif0.0)
                + r.fields1.words(TableId::TableCif1, r.cif1_word()));
            assert(r.words() =~= w@.subrange(*old(pos) as int, p as int));
        }
        *pos = p;
        Ok(r)
    }
}

impl CifPayload {
    /// Both field containers have their full complement of slots.
    pub open spec fn slots_ok(self) -> bool {
        self.fields0.len_ok() && self.fields1.len_ok()
    }

    /// Everything except CIF0 bit `b` and the CIF0 field slot `b` is
    /// unchanged.
    pub open spec fn frame_except0(pre: CifPayload, post: CifPayload, b: u32) -> bool {
        &&& post.cif1 == pre.cif1
        &&& post.cif2 == pre.cif2
        &&& post.cif3 == pre.cif3
        &&& post.cif7 == pre.cif7
        &&& post.fields1 == pre.fields1
        &&& post.fields0.len_ok()
        &&& forall|c: u32| c < 32 && c != b ==> #[trigger] post.fields0.value_at(c)
            == pre.fields0.value_at(c)
        &&& forall|c: u32| c < 32 && c != b ==> #[trigger] post.fields0.attrs_at(c)
            == pre.fields0.attrs_at(c)
        &&& forall|j: u32| j < 32 && j != b ==> #[trigger] bit(post.cif0.0, j) == bit(
            pre.cif0.0,
            j,
        )
    }

    /// Set or clear one CIF0 data field together with its indicator
    /// bit. Clearing also empties the field's attribute vector.
    pub fn set_field0(&mut self, b: u32, v: Option<FieldValue>)
        requires
            old(self).slots_ok(),
            table_kind(TableId::TableCif0, b) is Some,
            v matches Option::Some(x) ==> Option::Some(x.kind()) == table_kind(
                TableId::TableCif0,
                b,
            ) && x.wf(),
        ensures
            final(self).slots_ok(),
            Self::frame_except0(*old(self), *final(self), b),
            final(self).fields0.value_at(b) == v,
            bit(final(self).cif0.0, b) == (v is Some),
            v is Some ==> final(self).fields0.attrs_at(b) == old(self).fields0.attrs_at(b),
            v is None ==> final(self).fields0.attrs_at(b).len() == 0,
            old(self).wf() && cif7_current(old(self).cif7) && (v is None || cif7_extra(
                old(self).cif7,
            ) == 0 || old(self).fields0.attrs_at(b).len() == cif7_extra(old(self).cif7)) ==> final(self).wf(),
    {
        proof {
            assert(8 <= b <= 30);
        }
        let ghost pre = *self;
        match v {
            Option::Some(x) => {
                self.cif0.set(b);
                self.fields0.set_value(b, Option::Some(x));
            },
            Option::None => {
                self.cif0.clear(b);
                self.fields0.set_value(b, Option::None);
                self.fields0.set_attributes(b, Vec::new());
            },
        }
        proof {
            let post = *self;
            if pre.wf() && cif7_current(pre.cif7) && (v is None || cif7_extra(pre.cif7) == 0
                || pre.fields0.attrs_at(b).len() == cif7_extra(pre.cif7)) {
                let cur = cif7_current(post.cif7);
                let ext = cif7_extra(post.cif7);
                assert forall|c: u32| c < 32 implies #[trigger] post.fields0.wf_entry(
                    TableId::TableCif0,
                    post.cif0.0,
                    cur,
                    ext,
                    c,
                ) by {
                    assert(pre.fields0.wf_entry(TableId::TableCif0, pre.cif0.0, cur, ext, c));
                }
                assert forall|c: u32| c < 32 implies #[trigger] post.fields1.wf_entry(
                    TableId::TableCif1,
                    post.cif1_word(),
                    cur,
                    ext,
                    c,
                ) by {
                    assert(pre.fields1.wf_entry(TableId::TableCif1, pre.cif1_word(), cur, ext, c));
                }
            }
        }
    }

    /// Replace one CIF0 field's attribute vector.
    pub fn set_attrs0(&mut self, b: u32, v: Vec<FieldValue>)
        requires
            old(self).slots_ok(),
            table_kind(TableId::TableCif0, b) is Some,
        ensures
            final(self).slots_ok(),
            final(self).cif0 == old(self).cif0,
            final(self).cif1 == old(self).cif1,
            final(self).cif2 == old(self).cif2,
            final(self).cif3 == old(self).cif3,
            final(self).cif7 == old(self).cif7,
            final(self).fields1 == old(self).fields1,
            final(self).fields0.attrs_at(b) == v@,
            final(self).fields0.value_at(b) == old(self).fields0.value_at(b),
            forall|c: u32| c < 32 && c != b ==> #[trigger] final(self).fields0.value_at(c) == old(self).fields0.value_at(c) && final(self).fields0.attrs_at(c) == old(self).fields0.attrs_at(
                c,
            ),
    {
        self.fields0.set_attributes(b, v);
    }

    /// Read one CIF0 data field.
    pub fn field0(&self, b: u32) -> (r: &Option<FieldValue>)
        requires
            b < 32,
            self.slots_ok(),
        ensures
            *r == self.fields0.value_at(b),
    {
        self.fields0.value(b)
    }

    /// Read one CIF0 field's attribute vector.
    pub fn attrs0(&self, b: u32) -> (r: &Vec<FieldValue>)
        requires
            b < 32,
            self.slots_ok(),
        ensures
            r@ == self.fields0.attrs_at(b),
    {
        self.fields0.attributes(b)
    }

    /// Set or clear the CIF7 field-attributes word, keeping the CIF0
    /// chain bit in step. Changing the CIF7 options changes how many
    /// attribute entries each flagged field must carry, so this is
    /// meant to be chosen before fields are filled in.
    pub fn set_cif7(&mut self, v: Option<Cif7>)
        ensures
            final(self).cif7 == v,
            final(self).cif1 == old(self).cif1,
            final(self).cif2 == old(self).cif2,
            final(self).cif3 == old(self).cif3,
            final(self).fields0 == old(self).fields0,
            final(self).fields1 == old(self).fields1,
            bit(final(self).cif0.0, CIF0_CIF7_ENABLED_BIT) == (v is Some),
            forall|j: u32| j < 32 && j != CIF0_CIF7_ENABLED_BIT ==> #[trigger] bit(
                final(self).cif0.0,
                j,
            ) == bit(old(self).cif0.0, j),
    {
        match v {
            Option::Some(c) => {
                self.cif0.set(CIF0_CIF7_ENABLED_BIT);
                self.cif7 = Option::Some(c);
            },
            Option::None => {
                self.cif0.clear(CIF0_CIF7_ENABLED_BIT);
                self.cif7 = Option::None;
            },
        }
    }

    /// Whether the context-field-changed flag of CIF0 is set.
    pub fn context_changed(&self) -> (r: bool)
        ensures
            r == self.cif0.spec_context_field_changed(),
    {
        self.cif0.context_field_changed()
    }

    /// Read the spectrum descriptor field of CIF1.
    pub fn spectrum(&self) -> (r: Option<&Spectrum>)
        requires
            self.slots_ok(),
        ensures
            match self.fields1.value_at(CIF1_SPECTRUM_BIT) {
                Option::Some(v) => (v matches FieldValue::Spectrum(s) ==> (r matches Some(p)
                    && *p == s)) && (!(v is Spectrum) ==> r is None),
                Option::None => r is None,
            },
    {
        match self.fields1.value(CIF1_SPECTRUM_BIT) {
            Option::Some(FieldValue::Spectrum(s)) => Option::Some(s),
            _ => Option::None,
        }
    }

    /// Set or clear the spectrum descriptor field, maintaining the
    /// CIF1 indicator bit and the CIF0 chain bit.
    pub fn set_spectrum(&mut self, v: Option<Spectrum>)
        requires
            old(self).slots_ok(),
        ensures
            final(self).slots_ok(),
            final(self).fields1.value_at(CIF1_SPECTRUM_BIT) == match v {
                Option::Some(s) => Option::Some(FieldValue::Spectrum(s)),
                Option::None => Option::<FieldValue>::None,
            },
            v is Some ==> (final(self).cif1 matches Option::Some(c) && bit(c.0, CIF1_SPECTRUM_BIT)),
            old(self).wf() && cif7_current(old(self).cif7) && (v is None || cif7_extra(
                old(self).cif7,
            ) == 0 || old(self).fields1.attrs_at(CIF1_SPECTRUM_BIT).len() == cif7_extra(
                old(self).cif7,
            )) ==> final(self).wf(),
            final(self).fields0 == old(self).fields0,
            final(self).cif7 == old(self).cif7,
            final(self).cif2 == old(self).cif2,
            final(self).cif3 == old(self).cif3,
    {
        let ghost pre = *self;
        match v {
            Option::Some(s) => {
                let w1: u32 = match &self.cif1 {
                    Option::Some(c) => c.0,
                    Option::None => 0,
                };
                self.cif1 = Option::Some(Cif1(crate::bits::set_bit32(w1, CIF1_SPECTRUM_BIT)));
                self.cif0.set(CIF0_CIF1_ENABLED_BIT);
                self.fields1.set_value(CIF1_SPECTRUM_BIT, Option::Some(FieldValue::Spectrum(s)));
                proof {
                    if pre.cif1 is None {
                        assert forall|j: u32| j < 32 && j != CIF1_SPECTRUM_BIT implies !bit(
                            final(self).cif1_word(),
                            j,
                        ) by {
                            crate::bits::lemma_bit_zero(j);
                            crate::bits::lemma_bit_or(0, CIF1_SPECTRUM_BIT, j);
                        }
                    }
                }
            },
            Option::None => {
                match &self.cif1 {
                    Option::Some(c) => {
                        let w1: u32 = c.0;
                        self.cif1 = Option::Some(
                            Cif1(crate::bits::clear_bit32(w1, CIF1_SPECTRUM_BIT)),
                        );
                    },
                    Option::None => (),
                }
                self.fields1.set_value(CIF1_SPECTRUM_BIT, Option::None);
                self.fields1.set_attributes(CIF1_SPECTRUM_BIT, Vec::new());
            },
        }
        proof {
            let post = *self;
            assert forall|j: u32| j < 32 implies !bit(0u32, j) by {
                crate::bits::lemma_bit_zero(j);
            }
            if pre.wf() && cif7_current(pre.cif7) && (v is None || cif7_extra(pre.cif7) == 0
                || pre.fields1.attrs_at(CIF1_SPECTRUM_BIT).len() == cif7_extra(pre.cif7)) {
                let cur = cif7_current(post.cif7);
                let ext = cif7_extra(post.cif7);
                assert forall|c: u32| c < 32 implies #[trigger] post.fields0.wf_entry(
                    TableId::TableCif0,
                    post.cif0.0,
                    cur,
                    ext,
                    c,
                ) by {
                    assert(pre.fields0.wf_entry(TableId::TableCif0, pre.cif0.0, cur, ext, c));
                }
                assert forall|c: u32| c < 32 implies #[trigger] post.fields1.wf_entry(
                    TableId::TableCif1,
                    post.cif1_word(),
                    cur,
                    ext,
                    c,
                ) by {
                    assert(pre.fields1.wf_entry(TableId::TableCif1, pre.cif1_word(), cur, ext, c));
                }
            }
        }
    }
}

/// The payload of a cancellation packet: the indicator cascade alone,
/// naming the fields of the command being cancelled.
#[derive(Clone, Debug, PartialEq, Eq, Structural)]
pub struct Cancellation {
    /// The CIF0 indicator word, always present.
    pub cif0: Cif0,
    /// The CIF1 indicator word, present iff CIF0 bit 1 is set.
    pub cif1: Option<Cif1>,
    /// The CIF2 indicator word, present iff CIF0 bit 2 is set.
    pub cif2: Option<Cif2>,
    /// The CIF3 indicator word, present iff CIF0 bit 3 is set.
    pub cif3: Option<Cif3>,
    /// The CIF7 attributes word, present iff CIF0 bit 7 is set.
    pub cif7: Option<Cif7>,
}

impl Default for Cancellation {
    /// A cancellation naming no fields.
    fn default() -> (r: Self)
        ensures
            r.cif0.0 == 0,
            r.cif1 is None,
            r.cif2 is None,
            r.cif3 is None,
            r.cif7 is None,
    {
        Cancellation {
            cif0: Cif0(0),
            cif1: Option::None,
            cif2: Option::None,
            cif3: Option::None,
            cif7: Option::None,
        }
    }
}

impl Cancellation {
    /// Chained indicator words are present exactly when their CIF0
    /// chain bit is set.
    pub open spec fn wf(self) -> bool {
        &&& self.cif1 is Some <==> self.cif0.spec_cif1_enabled()
        &&& self.cif2 is Some <==> self.cif0.spec_cif2_enabled()
        &&& self.cif3 is Some <==> self.cif0.spec_cif3_enabled()
        &&& self.cif7 is Some <==> self.cif0.spec_field_attributes_enabled()
    }

    /// The wire words: the indicator cascade.
    pub open spec fn words(self) -> Seq<u32> {
        seq![self.cif0.0] + (match self.cif1 {
            Option::Some(c) => seq![c.0],
            Option::None => Seq::<u32>::empty(),
        }) + (match self.cif2 {
            Option::Some(c) => seq![c.0],
            Option::None => Seq::<u32>::empty(),
        }) + (match self.cif3 {
            Option::Some(c) => seq![c.0],
            Option::None => Seq::<u32>::empty(),
        }) + (match self.cif7 {
            Option::Some(c) => seq![c.0],
            Option::None => Seq::<u32>::empty(),
        })
    }

    /// A reference to the CIF0 indicator word.
    pub fn cif0(&self) -> (r: &Cif0)
        ensures
            r == self.cif0,
    {
        &self.cif0
    }

    /// A mutable reference to the CIF0 indicator word.
    pub fn cif0_mut(&mut self) -> (r: &mut Cif0)
        ensures
            *r == old(self).cif0,
            *final(self) == (Cancellation { cif0: *final(r), ..*old(self) }),
    {
        &mut self.cif0
    }

    /// Append the payload's wire words.
    pub fn encode(&self, out: &mut Vec<u32>)
        ensures
            final(out)@ == old(out)@ + self.words(),
    {
        out.push(self.cif0.0);
        match &self.cif1 {
            Option::Some(c) => out.push(c.0),
            Option::None => (),
        }
        match &self.cif2 {
            Option::Some(c) => out.push(c.0),
            Option::None => (),
        }
        match &self.cif3 {
            Option::Some(c) => out.push(c.0),
            Option::None => (),
        }
        match &self.cif7 {
            Option::Some(c) => out.push(c.0),
            Option::None => (),
        }
        assert(out@ =~= old(out)@ + self.words());
    }

    /// A well-formed cancellation whose words stand at `start` within
    /// the stream, wholly before `end`.
    pub open spec fn encoded_at(w: Seq<u32>, start: int, end: int) -> bool {
        exists|c: Cancellation|
            #[trigger] c.wf() && start + c.words().len() <= end && c.words() == w.subrange(
                start,
                start + c.words().len(),
            )
    }

    /// Read one cancellation payload from the word stream. Whenever a
    /// well-formed cancellation is encoded at the current position,
    /// the read succeeds.
    pub fn parse(w: &Vec<u32>, pos: &mut usize, end: usize) -> (r: Result<Cancellation, VitaError>)
        requires
            *old(pos) <= end,
            end <= w@.len(),
        ensures
            r.is_ok() ==> *old(pos) <= *final(pos) <= end && r.unwrap().wf()
                && r.unwrap().words() == w@.subrange(*old(pos) as int, *final(pos) as int),
            r.is_err() ==> r == Err::<Cancellation, VitaError>(VitaError::TruncatedPacket),
            Self::encoded_at(w@, *old(pos) as int, end as int) ==> r.is_ok(),
    {
        proof {
            if Self::encoded_at(w@, *old(pos) as int, end as int) {
                let cc = choose|c: Cancellation|
                    #[trigger] c.wf() && *old(pos) + c.words().len() <= end && c.words()
                        == w@.subrange(*old(pos) as int, *old(pos) + c.words().len());
                assert(cc.words().len() >= 1);
                assert(cc.words()[0] == w@[*old(pos) as int]);
                assert(w@[*old(pos) as int] == cc.cif0.0);
                assert(cc.words().len() == 1 + (if cc.cif1 is Some {
                    1int
                } else {
                    0int
                }) + (if cc.cif2 is Some {
                    1int
                } else {
                    0int
                }) + (if cc.cif3 is Some {
                    1int
                } else {
                    0int
                }) + (if cc.cif7 is Some {
                    1int
                } else {
                    0int
                }));
            }
        }
        let w0 = take_word(w, pos, end)?;
        let cif0 = Cif0(w0);
        let cif1 = if cif0.cif1_enabled() {
            Option::Some(Cif1(take_word(w, pos, end)?))
        } else {
            Option::None
        };
        let cif2 = if cif0.cif2_enabled() {
            Option::Some(Cif2(take_word(w, pos, end)?))
        } else {
            Option::None
        };
        let cif3 = if cif0.cif3_enabled() {
            Option::Some(Cif3(take_word(w, pos, end)?))
        } else {
            Option::None
        };
        let cif7 = if cif0.field_attributes_enabled() {
            Option::Some(Cif7(take_word(w, pos, end)?))
        } else {
            Option::None
        };
        let r = Cancellation { cif0, cif1, cif2, cif3, cif7 };
        proof {
            assert(r.words() =~= w@.subrange(*old(pos) as int, *final(pos) as int));
        }
        Ok(r)
    }
}

} // verus!

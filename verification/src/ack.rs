//! Acknowledgement payloads: two independent banks of indicator
//! words, one for warnings (WIF) and one for errors (EIF), each
//! mirroring the CIF0-3/7 cascade, followed by one-word response
//! records for every flagged field.

use vstd::prelude::*;

use crate::bits::{bit, get_bit32, set_bit32, take_word};
use crate::cif::{cif7_current, cif7_extra, Cif0, Cif1, Cif2, Cif3, Cif7};
use crate::cif_fields::{CifFields, TableId};
use crate::errors::VitaError;
use crate::field_value::FieldValue;

verus! {

/// Which bank of an acknowledgement a response belongs to.
#[derive(Clone, Copy, Debug, PartialEq, Eq, Structural)]
pub enum AckLevel {
    /// The warning bank.
    Warning,
    /// The error bank.
    Error,
}

/// Response-record bit positions.
pub const ACK_FIELD_NOT_EXECUTED_BIT: u32 = 31;

pub const ACK_DEVICE_FAILURE_BIT: u32 = 30;

pub const ACK_ERRONEOUS_FIELD_BIT: u32 = 29;

pub const ACK_PARAM_OUT_OF_RANGE_BIT: u32 = 28;

pub const ACK_PARAM_UNSUPPORTED_PRECISION_BIT: u32 = 27;

pub const ACK_FIELD_VALUE_INVALID_BIT: u32 = 26;

pub const ACK_TIMESTAMP_PROBLEM_BIT: u32 = 25;

/// A one-word bitmap of diagnostic codes attached to one field of an
/// acknowledgement bank.
#[derive(Clone, Copy, Debug, PartialEq, Eq, Structural)]
pub struct AckResponse(pub u32);

impl Default for AckResponse {
    /// A response with no diagnostic set.
    fn default() -> (r: Self)
        ensures
            r.0 == 0,
    {
        AckResponse(0)
    }
}

impl AckResponse {
    /// The response word as a raw integer.
    pub fn as_u32(&self) -> (r: u32)
        ensures
            r == self.0,
    {
        self.0
    }

    /// Whether the parameter-out-of-range diagnostic is set.
    pub open spec fn spec_param_out_of_range(&self) -> bool {
        bit(self.0, ACK_PARAM_OUT_OF_RANGE_BIT)
    }

    #[verifier::when_used_as_spec(spec_param_out_of_range)]
    pub fn param_out_of_range(&self) -> (r: bool)
        ensures
            r == self.spec_param_out_of_range(),
    {
        get_bit32(self.0, ACK_PARAM_OUT_OF_RANGE_BIT)
    }

    /// Flag the parameter-out-of-range diagnostic.
    pub fn set_param_out_of_range(&mut self)
        ensures
            forall|j: u32| j < 32 ==> #[trigger] bit(final(self).0, j) == (j
                == ACK_PARAM_OUT_OF_RANGE_BIT || bit(old(self).0, j)),
    {
        self.0 = set_bit32(self.0, ACK_PARAM_OUT_OF_RANGE_BIT);
    }

    /// Whether the erroneous-field diagnostic is set.
    pub open spec fn spec_erroneous_field(&self) -> bool {
        bit(self.0, ACK_ERRONEOUS_FIELD_BIT)
    }

    #[verifier::when_used_as_spec(spec_erroneous_field)]
    pub fn erroneous_field(&self) -> (r: bool)
        ensures
            r == self.spec_erroneous_field(),
    {
        get_bit32(self.0, ACK_ERRONEOUS_FIELD_BIT)
    }

    /// Flag the erroneous-field diagnostic.
    pub fn set_erroneous_field(&mut self)
        ensures
            forall|j: u32| j < 32 ==> #[trigger] bit(final(self).0, j) == (j
                == ACK_ERRONEOUS_FIELD_BIT || bit(old(self).0, j)),
    {
        self.0 = set_bit32(self.0, ACK_ERRONEOUS_FIELD_BIT);
    }

    /// Whether the device-failure diagnostic is set.
    pub open spec fn spec_device_failure(&self) -> bool {
        bit(self.0, ACK_DEVICE_FAILURE_BIT)
    }

    #[verifier::when_used_as_spec(spec_device_failure)]
    pub fn device_failure(&self) -> (r: bool)
        ensures
            r == self.spec_device_failure(),
    {
        get_bit32(self.0, ACK_DEVICE_FAILURE_BIT)
    }

    /// Flag the device-failure diagnostic.
    pub fn set_device_failure(&mut self)
        ensures
            forall|j: u32| j < 32 ==> #[trigger] bit(final(self).0, j) == (j
                == ACK_DEVICE_FAILURE_BIT || bit(old(self).0, j)),
    {
        self.0 = set_bit32(self.0, ACK_DEVICE_FAILURE_BIT);
    }
}

/// The payload shared by validation and execution acknowledgements.
#[derive(Clone, Debug, PartialEq, Eq)]
pub struct Ack {
    /// Warning-bank CIF0 indicator word.
    pub wif0: Option<Cif0>,
    /// Warning-bank CIF1 indicator word.
    pub wif1: Option<Cif1>,
    /// Warning-bank CIF2 indicator word.
    pub wif2: Option<Cif2>,
    /// Warning-bank CIF3 indicator word.
    pub wif3: Option<Cif3>,
    /// Warning-bank CIF7 attributes word.
    pub wif7: Option<Cif7>,
    /// Error-bank CIF0 indicator word.
    pub eif0: Option<Cif0>,
    /// Error-bank CIF1 indicator word.
    pub eif1: Option<Cif1>,
    /// Error-bank CIF2 indicator word.
    pub eif2: Option<Cif2>,
    /// Error-bank CIF3 indicator word.
    pub eif3: Option<Cif3>,
    /// Error-bank CIF7 attributes word.
    pub eif7: Option<Cif7>,
    /// Response records of the warning-bank CIF0 fields.
    pub wif0_fields: CifFields,
    /// Response records of the warning-bank CIF1 fields.
    pub wif1_fields: CifFields,
    /// Response records of the error-bank CIF0 fields.
    pub eif0_fields: CifFields,
    /// Response records of the error-bank CIF1 fields.
    pub eif1_fields: CifFields,
}

impl Ack {
    /// The warning-bank CIF0 word, zero when absent.
    pub open spec fn wif0_word(self) -> u32 {
        match self.wif0 {
            Option::Some(c) => c.0,
            Option::None => 0,
        }
    }

    /// The warning-bank CIF1 word, zero when absent.
    pub open spec fn wif1_word(self) -> u32 {
        match self.wif1 {
            Option::Some(c) => c.0,
            Option::None => 0,
        }
    }

    /// The error-bank CIF0 word, zero when absent.
    pub open spec fn eif0_word(self) -> u32 {
        match self.eif0 {
            Option::Some(c) => c.0,
            Option::None => 0,
        }
    }

    /// The error-bank CIF1 word, zero when absent.
    pub open spec fn eif1_word(self) -> u32 {
        match self.eif1 {
            Option::Some(c) => c.0,
            Option::None => 0,
        }
    }

    /// A freshly built acknowledgement: no bank, no chained word, and
    /// nothing stored in any response container.
    pub open spec fn is_empty(self) -> bool {
        &&& self.wif0 is None
        &&& self.wif1 is None
        &&& self.wif2 is None
        &&& self.wif3 is None
        &&& self.wif7 is None
        &&& self.eif0 is None
        &&& self.eif1 is None
        &&& self.eif2 is None
        &&& self.eif3 is None
        &&& self.eif7 is None
        &&& self.wif0_fields.len_ok() && self.wif0_fields.all_empty()
        &&& self.wif1_fields.len_ok() && self.wif1_fields.all_empty()
        &&& self.eif0_fields.len_ok() && self.eif0_fields.all_empty()
        &&& self.eif1_fields.len_ok() && self.eif1_fields.all_empty()
    }

    /// The warning bank is present iff the CAM requests warnings, the
    /// error bank iff it requests errors; within each bank the chained
    /// words follow their chain bits and the response records agree
    /// with the indicators.
    pub open spec fn wf(self, warning: bool, error: bool) -> bool {
        &&& self.wif0 is Some <==> warning
        &&& self.wif1 is Some <==> (self.wif0 is Some && bit(self.wif0_word(), 1))
        &&& self.wif2 is Some <==> (self.wif0 is Some && bit(self.wif0_word(), 2))
        &&& self.wif3 is Some <==> (self.wif0 is Some && bit(self.wif0_word(), 3))
        &&& self.wif7 is Some <==> (self.wif0 is Some && bit(self.wif0_word(), 7))
        &&& self.eif0 is Some <==> error
        &&& self.eif1 is Some <==> (self.eif0 is Some && bit(self.eif0_word(), 1))
        &&& self.eif2 is Some <==> (self.eif0 is Some && bit(self.eif0_word(), 2))
        &&& self.eif3 is Some <==> (self.eif0 is Some && bit(self.eif0_word(), 3))
        &&& self.eif7 is Some <==> (self.eif0 is Some && bit(self.eif0_word(), 7))
        &&& self.wif0_fields.wf(
            TableId::TableAck0,
            self.wif0_word(),
            cif7_current(self.wif7),
            cif7_extra(self.wif7),
        )
        &&& self.wif1_fields.wf(
            TableId::TableAck1,
            self.wif1_word(),
            cif7_current(self.wif7),
            cif7_extra(self.wif7),
        )
        &&& self.eif0_fields.wf(
            TableId::TableAck0,
            self.eif0_word(),
            cif7_current(self.eif7),
            cif7_extra(self.eif7),
        )
        &&& self.eif1_fields.wf(
            TableId::TableAck1,
            self.eif1_word(),
            cif7_current(self.eif7),
            cif7_extra(self.eif7),
        )
    }

    /// The wire words: both indicator cascades, then the warning
    /// responses, then the error responses.
    pub open spec fn wif_ind_words(self) -> Seq<u32> {
        cascade_words(self.wif0, self.wif1, self.wif2, self.wif3, self.wif7)
    }

    /// The wire words of the error-bank indicator cascade.
    pub open spec fn eif_ind_words(self) -> Seq<u32> {
        cascade_words(self.eif0, self.eif1, self.eif2, self.eif3, self.eif7)
    }

    /// The wire words of the response records, warnings first.
    pub open spec fn resp_words(self) -> Seq<u32> {
        self.wif0_fields.words(TableId::TableAck0, self.wif0_word()) + self.wif1_fields.words(
            TableId::TableAck1,
            self.wif1_word(),
        ) + self.eif0_fields.words(TableId::TableAck0, self.eif0_word()) + self.eif1_fields.words(
            TableId::TableAck1,
            self.eif1_word(),
        )
    }

    /// The wire words: both indicator cascades, then the response
    /// records.
    pub open spec fn words(self) -> Seq<u32> {
        self.wif_ind_words() + self.eif_ind_words() + self.resp_words()
    }

    /// Serialization only needs the stored records to respect their
    /// own bounds; a response record always does.
    pub open spec fn storage_ok(self) -> bool {
        &&& self.wif0_fields.storage_ok()
        &&& self.wif1_fields.storage_ok()
        &&& self.eif0_fields.storage_ok()
        &&& self.eif1_fields.storage_ok()
    }

    /// Serialization only needs the stored records to respect their
    /// own bounds; well-formedness implies that.
    pub proof fn lemma_wf_storage(self, warning: bool, error: bool)
        requires
            self.wf(warning, error),
        ensures
            self.storage_ok(),
    {
        lemma_fields_storage(self.wif0_fields, TableId::TableAck0, self.wif0_word(), self.wif7);
        lemma_fields_storage(self.wif1_fields, TableId::TableAck1, self.wif1_word(), self.wif7);
        lemma_fields_storage(self.eif0_fields, TableId::TableAck0, self.eif0_word(), self.eif7);
        lemma_fields_storage(self.eif1_fields, TableId::TableAck1, self.eif1_word(), self.eif7);
    }

    /// The payload's length in 32-bit words.
    pub fn size_words(&self) -> (r: u16)
        requires
            self.storage_ok(),
            self.words().len() <= 0xFFFF,
        ensures
            r == self.words().len(),
    {
        let mut tmp: Vec<u32> = Vec::new();
        self.encode(&mut tmp);
        tmp.len() as u16
    }

    /// An acknowledgement with neither bank present.
    pub fn new() -> (r: Ack)
        ensures
            r.wf(false, false),
            r.is_empty(),
            r.storage_ok(),
            r.words() == Seq::<u32>::empty(),
    {
        let r = Ack {
            wif0: Option::None,
            wif1: Option::None,
            wif2: Option::None,
            wif3: Option::None,
            wif7: Option::None,
            eif0: Option::None,
            eif1: Option::None,
            eif2: Option::None,
            eif3: Option::None,
            eif7: Option::None,
            wif0_fields: CifFields::new(),
            wif1_fields: CifFields::new(),
            eif0_fields: CifFields::new(),
            eif1_fields: CifFields::new(),
        };
        proof {
            crate::bits::lemma_bit_zero(1);
            crate::bits::lemma_bit_zero(2);
            crate::bits::lemma_bit_zero(3);
            crate::bits::lemma_bit_zero(7);
            r.wif0_fields.lemma_empty(TableId::TableAck0, true, 0, 31, 0);
            r.wif1_fields.lemma_empty(TableId::TableAck1, true, 0, 31, 0);
            r.eif0_fields.lemma_empty(TableId::TableAck0, true, 0, 31, 0);
            r.eif1_fields.lemma_empty(TableId::TableAck1, true, 0, 31, 0);
            assert(r.words() =~= Seq::<u32>::empty());
        }
        r
    }

    /// Append the payload's wire words.
    #[verifier::rlimit(100)]
    #[verifier::spinoff_prover]
    pub fn encode(&self, out: &mut Vec<u32>)
        requires
            self.storage_ok(),
        ensures
            final(out)@ == old(out)@ + self.words(),
    {
        encode_cascade(out, &self.wif0, &self.wif1, &self.wif2, &self.wif3, &self.wif7);
        encode_cascade(out, &self.eif0, &self.eif1, &self.eif2, &self.eif3, &self.eif7);
        let ghost out_ind = out@;
        let w0: u32 = match &self.wif0 {
            Option::Some(c) => c.0,
            Option::None => 0,
        };
        let w1: u32 = match &self.wif1 {
            Option::Some(c) => c.0,
            Option::None => 0,
        };
        let e0: u32 = match &self.eif0 {
            Option::Some(c) => c.0,
            Option::None => 0,
        };
        let e1: u32 = match &self.eif1 {
            Option::Some(c) => c.0,
            Option::None => 0,
        };
        self.wif0_fields.encode(out, TableId::TableAck0, w0);
        self.wif1_fields.encode(out, TableId::TableAck1, w1);
        self.eif0_fields.encode(out, TableId::TableAck0, e0);
        self.eif1_fields.encode(out, TableId::TableAck1, e1);
        proof {
            assert(out@ =~= out_ind + self.resp_words());
            assert(out@ =~= old(out)@ + self.words());
        }
    }

    /// Read one acknowledgement payload from the word stream; the CAM
    /// warning and error flags say which banks are present.
    #[verifier::rlimit(100)]
    pub fn parse(w: &Vec<u32>, pos: &mut usize, end: usize, warning: bool, error: bool) -> (r:
        Result<Ack, VitaError>)
        requires
            *old(pos) <= end,
            end <= w@.len(),
            end <= 0xFFFF,
        ensures
            r.is_ok() ==> *old(pos) <= *final(pos) <= end && r.unwrap().wf(warning, error)
                && r.unwrap().words() == w@.subrange(*old(pos) as int, *final(pos) as int),
            r.is_err() ==> r == Err::<Ack, VitaError>(VitaError::TruncatedPacket),
    {
        let mut p: usize = *pos;
        let (wif0, wif1, wif2, wif3, wif7) = parse_cascade(w, &mut p, end, warning)?;
        let (eif0, eif1, eif2, eif3, eif7) = parse_cascade(w, &mut p, end, error)?;
        let ghost q_ind = p;
        let w_cur = match &wif7 {
            Option::Some(c) => c.current(),
            Option::None => true,
        };
        let w_extra = match &wif7 {
            Option::Some(c) => c.extra_attrs(),
            Option::None => 0,
        };
        let e_cur = match &eif7 {
            Option::Some(c) => c.current(),
            Option::None => true,
        };
        let e_extra = match &eif7 {
            Option::Some(c) => c.extra_attrs(),
            Option::None => 0,
        };
        let w0: u32 = match &wif0 {
            Option::Some(c) => c.0,
            Option::None => 0,
        };
        let w1: u32 = match &wif1 {
            Option::Some(c) => c.0,
            Option::None => 0,
        };
        let e0: u32 = match &eif0 {
            Option::Some(c) => c.0,
            Option::None => 0,
        };
        let e1: u32 = match &eif1 {
            Option::Some(c) => c.0,
            Option::None => 0,
        };
        let wif0_fields = CifFields::parse(w, &mut p, end, TableId::TableAck0, w0, w_cur, w_extra)?;
        let wif1_fields = CifFields::parse(w, &mut p, end, TableId::TableAck1, w1, w_cur, w_extra)?;
        let eif0_fields = CifFields::parse(w, &mut p, end, TableId::TableAck0, e0, e_cur, e_extra)?;
        let eif1_fields = CifFields::parse(w, &mut p, end, TableId::TableAck1, e1, e_cur, e_extra)?;
        let r = Ack {
            wif0,
            wif1,
            wif2,
            wif3,
            wif7,
            eif0,
            eif1,
            eif2,
            eif3,
            eif7,
            wif0_fields,
            wif1_fields,
            eif0_fields,
            eif1_fields,
        };
        proof {
            assert(r.wif_ind_words() + r.eif_ind_words() =~= w@.subrange(
                *old(pos) as int,
                q_ind as int,
            ));
            assert(r.resp_words() =~= w@.subrange(q_ind as int, p as int));
            assert(r.words() =~= w@.subrange(*old(pos) as int, p as int));
        }
        *pos = p;
        Ok(r)
    }

}

/// The wire word of an optional CIF0 indicator.
pub open spec fn opt_cif0_words(c: Option<Cif0>) -> Seq<u32> {
    match c {
        Option::Some(x) => seq![x.0],
        Option::None => Seq::empty(),
    }
}

/// The wire word of an optional CIF1 indicator.
pub open spec fn opt_cif1_words(c: Option<Cif1>) -> Seq<u32> {
    match c {
        Option::Some(x) => seq![x.0],
        Option::None => Seq::empty(),
    }
}

/// The wire word of an optional CIF2 indicator.
pub open spec fn opt_cif2_words(c: Option<Cif2>) -> Seq<u32> {
    match c {
        Option::Some(x) => seq![x.0],
        Option::None => Seq::empty(),
    }
}

/// The wire word of an optional CIF3 indicator.
pub open spec fn opt_cif3_words(c: Option<Cif3>) -> Seq<u32> {
    match c {
        Option::Some(x) => seq![x.0],
        Option::None => Seq::empty(),
    }
}

/// The wire word of an optional CIF7 indicator.
pub open spec fn opt_cif7_words(c: Option<Cif7>) -> Seq<u32> {
    match c {
        Option::Some(x) => seq![x.0],
        Option::None => Seq::empty(),
    }
}

/// A well-formed fields container stores only values that respect
/// their own bounds.
proof fn lemma_fields_storage(f: CifFields, t: TableId, ind: u32, c7: Option<Cif7>)
    requires
        f.wf(t, ind, cif7_current(c7), cif7_extra(c7)),
    ensures
        f.storage_ok(),
{
    let current = cif7_current(c7);
    let extra = cif7_extra(c7);
    assert forall|b: u32| b < 32 implies match #[trigger] f.value_at(b) {
        Option::Some(v) => v.wf(),
        Option::None => true,
    } by {
        assert(f.wf_entry(t, ind, current, extra, b));
    }
    assert forall|b: u32, j: int|
        b < 32 && 0 <= j < f.attrs_at(b).len() implies (#[trigger] f.attrs_at(b)[j]).wf() by {
        assert(f.wf_entry(t, ind, current, extra, b));
    }
}

/// The wire words of one optional indicator cascade.
pub open spec fn cascade_words(
    c0: Option<Cif0>,
    c1: Option<Cif1>,
    c2: Option<Cif2>,
    c3: Option<Cif3>,
    c7: Option<Cif7>,
) -> Seq<u32> {
    opt_cif0_words(c0) + opt_cif1_words(c1) + opt_cif2_words(c2) + opt_cif3_words(c3)
        + opt_cif7_words(c7)
}

/// Append one optional indicator cascade.
fn encode_cascade(
    out: &mut Vec<u32>,
    c0: &Option<Cif0>,
    c1: &Option<Cif1>,
    c2: &Option<Cif2>,
    c3: &Option<Cif3>,
    c7: &Option<Cif7>,
)
    ensures
        final(out)@ == old(out)@ + cascade_words(*c0, *c1, *c2, *c3, *c7),
{
    match c0 {
        Option::Some(x) => out.push(x.0),
        Option::None => (),
    }
    match c1 {
        Option::Some(x) => out.push(x.0),
        Option::None => (),
    }
    match c2 {
        Option::Some(x) => out.push(x.0),
        Option::None => (),
    }
    match c3 {
        Option::Some(x) => out.push(x.0),
        Option::None => (),
    }
    match c7 {
        Option::Some(x) => out.push(x.0),
        Option::None => (),
    }
    assert(out@ =~= old(out)@ + cascade_words(*c0, *c1, *c2, *c3, *c7));
}

/// Read one optional indicator cascade: the leading word when the
/// bank is present, then the chained words its chain bits declare.
#[verifier::rlimit(50)]
fn parse_cascade(w: &Vec<u32>, pos: &mut usize, end: usize, present: bool) -> (r: Result<
    (Option<Cif0>, Option<Cif1>, Option<Cif2>, Option<Cif3>, Option<Cif7>),
    VitaError,
>)
    requires
        *old(pos) <= end,
        end <= w@.len(),
    ensures
        r.is_ok() ==> {
            let (c0, c1, c2, c3, c7) = r.unwrap();
            &&& *old(pos) <= *final(pos) <= end
            &&& c0 is Some <==> present
            &&& c1 is Some <==> (c0 matches Option::Some(x) && bit(x.0, 1))
            &&& c2 is Some <==> (c0 matches Option::Some(x) && bit(x.0, 2))
            &&& c3 is Some <==> (c0 matches Option::Some(x) && bit(x.0, 3))
            &&& c7 is Some <==> (c0 matches Option::Some(x) && bit(x.0, 7))
            &&& cascade_words(c0, c1, c2, c3, c7) == w@.subrange(
                *old(pos) as int,
                *final(pos) as int,
            )
        },
        r.is_err() ==> r == Err::<
            (Option<Cif0>, Option<Cif1>, Option<Cif2>, Option<Cif3>, Option<Cif7>),
            VitaError,
        >(VitaError::TruncatedPacket),
{
    let start: usize = *pos;
    let mut p: usize = start;
    let c0 = if present {
        Option::Some(Cif0(take_word(w, &mut p, end)?))
    } else {
        Option::None
    };
    let ghost q0 = p;
    let c1 = match &c0 {
        Option::Some(c) if c.cif1_enabled() => Option::Some(Cif1(take_word(w, &mut p, end)?)),
        _ => Option::None,
    };
    let ghost q1 = p;
    let c2 = match &c0 {
        Option::Some(c) if c.cif2_enabled() => Option::Some(Cif2(take_word(w, &mut p, end)?)),
        _ => Option::None,
    };
    let ghost q2 = p;
    let c3 = match &c0 {
        Option::Some(c) if c.cif3_enabled() => Option::Some(Cif3(take_word(w, &mut p, end)?)),
        _ => Option::None,
    };
    let ghost q3 = p;
    let c7 = match &c0 {
        Option::Some(c) if c.field_attributes_enabled() => Option::Some(
            Cif7(take_word(w, &mut p, end)?),
        ),
        _ => Option::None,
    };
    proof {
        assert(opt_cif0_words(c0) =~= w@.subrange(start as int, q0 as int));
        assert(opt_cif1_words(c1) =~= w@.subrange(q0 as int, q1 as int));
        assert(opt_cif2_words(c2) =~= w@.subrange(q1 as int, q2 as int));
        assert(opt_cif3_words(c3) =~= w@.subrange(q2 as int, q3 as int));
        assert(opt_cif7_words(c7) =~= w@.subrange(q3 as int, p as int));
        assert(cascade_words(c0, c1, c2, c3, c7) =~= w@.subrange(start as int, p as int));
    }
    *pos = p;
    Ok((c0, c1, c2, c3, c7))
}

} // verus!

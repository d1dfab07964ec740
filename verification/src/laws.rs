//! The library's cross-cutting guarantees, stated once over the spec
//! functions that the codec's contracts use.

use vstd::prelude::*;

use crate::bits::{bit, lemma_words_bytes_len, words_bytes};
use crate::cam::ControlAckMode;
use crate::cif::{cif7_current, CIF1_SPECTRUM_BIT};
use crate::cif_fields::{table_kind, TableId};
use crate::cif_payload::CifPayload;
use crate::command::{Command, CommandPayload};
use crate::header::flag;
use crate::packet::{Payload, Vrt};

verus! {

/// A packet whose declared size matches its structure serializes to
/// exactly `packet_size` 32-bit words, four bytes each. Parsed
/// packets always satisfy `size_ok`, and `update_packet_size`
/// re-establishes it after mutation.
pub proof fn lemma_encoded_length(p: Vrt)
    requires
        p.size_ok(),
    ensures
        words_bytes(p.words()).len() == 4 * p.header.packet_size,
{
    lemma_words_bytes_len(p.words());
}

/// In a well-formed CIF payload whose CIF7 options keep base values
/// present, a CIF0 data field is stored exactly when its indicator
/// bit is set, and likewise for the CIF1 fields. When a CIF7 word
/// clears its current-value bit the wire format itself omits every
/// base value, so field slots are empty while their bits stay set;
/// that is the one family of payloads this statement leaves out.
pub proof fn lemma_indicator_matches_fields(p: CifPayload, b: u32)
    requires
        p.wf(),
        cif7_current(p.cif7),
        b < 32,
    ensures
        table_kind(TableId::TableCif0, b) is Some ==> (bit(p.cif0.0, b)
            <==> p.fields0.value_at(b) is Some),
        table_kind(TableId::TableCif1, b) is Some ==> (bit(p.cif1_word(), b)
            <==> p.fields1.value_at(b) is Some),
{
    assert(p.fields0.wf_entry(TableId::TableCif0, p.cif0.0, p.current(), p.extra(), b));
    assert(p.fields1.wf_entry(TableId::TableCif1, p.cif1_word(), p.current(), p.extra(), b));
}

/// A field slot is only ever occupied when its indicator bit is set,
/// whatever the CIF7 options say.
pub proof fn lemma_fields_need_indicator(p: CifPayload, b: u32)
    requires
        p.wf(),
        b < 32,
    ensures
        p.fields0.value_at(b) is Some ==> bit(p.cif0.0, b),
        p.fields1.value_at(b) is Some ==> bit(p.cif1_word(), b),
{
    assert(p.fields0.wf_entry(TableId::TableCif0, p.cif0.0, p.current(), p.extra(), b));
    assert(p.fields1.wf_entry(TableId::TableCif1, p.cif1_word(), p.current(), p.extra(), b));
}

/// The two controllee identifier forms of a command are mutually
/// exclusive, and so are the two controller forms.
pub proof fn lemma_id_forms_exclusive(c: Command)
    requires
        c.wf_addressing(),
    ensures
        c.controllee_id is Some ==> c.controllee_uuid is None,
        c.controllee_uuid is Some ==> c.controllee_id is None,
        c.controller_id is Some ==> c.controller_uuid is None,
        c.controller_uuid is Some ==> c.controller_id is None,
{
}

/// In a well-formed acknowledgement packet the CAM selects exactly
/// one of validation, execution and query state, and the selected
/// kind matches the payload variant.
pub proof fn lemma_ack_selects_one_kind(p: Vrt, c: Command)
    requires
        p.wf(),
        p.payload == Payload::Command(c),
        p.header.indicator_26,
    ensures
        flag(c.cam.spec_validation()) + flag(c.cam.spec_execution()) + flag(c.cam.spec_state())
            == 1,
        c.cam.spec_validation() <==> c.command_payload is ValidationAck,
        c.cam.spec_execution() <==> c.command_payload is ExecAck,
        c.cam.spec_state() <==> c.command_payload is QueryAck,
{
}

} // verus!

//! The structural half of the round-trip guarantee: two well-formed
//! packets with the same wire words agree on the header, on every
//! prologue extension, on the trailer, and on every fixed-width part
//! of the payload; word-vector contents agree through the byte-exact
//! serialization contracts.

use vstd::prelude::*;

use crate::ack::{cascade_words, Ack};
use crate::bits::{
    bit, lemma_halves_pack, lemma_u128_join, lemma_u64_join, u128_words, u64_words,
};
use crate::cif::{Cif0, Cif1, Cif2, Cif3, Cif7};
use crate::cif_payload::{Cancellation, CifPayload};
use crate::command::{Command, CommandPayload};
use crate::header::lemma_header_word_injective;
use crate::packet::{Payload, Vrt};

verus! {

/// Splitting equal concatenations at the same point gives equal
/// parts.
proof fn lemma_split(x1: Seq<u32>, y1: Seq<u32>, x2: Seq<u32>, y2: Seq<u32>)
    requires
        x1 + y1 == x2 + y2,
        x1.len() == x2.len(),
    ensures
        x1 == x2,
        y1 == y2,
{
    assert((x1 + y1).len() == x1.len() + y1.len());
    assert((x2 + y2).len() == x2.len() + y2.len());
    assert(y1.len() == y2.len());
    assert forall|i: int| 0 <= i < x1.len() implies x1[i] == x2[i] by {
        assert((x1 + y1)[i] == x1[i]);
        assert((x2 + y2)[i] == x2[i]);
    }
    assert(x1 =~= x2);
    assert forall|i: int| 0 <= i < y1.len() implies y1[i] == y2[i] by {
        assert((x1 + y1)[x1.len() + i] == y1[i]);
        assert((x2 + y2)[x2.len() + i] == y2[i]);
    }
    assert(y1 =~= y2);
}

/// Sequence concatenation reassociates.
proof fn lemma_assoc(a: Seq<u32>, b: Seq<u32>, c: Seq<u32>)
    ensures
        (a + b) + c == a + (b + c),
{
    assert((a + b) + c =~= a + (b + c));
}

/// Splitting two equal seven-part concatenations whose fixed parts
/// have matching lengths gives equal parts.
#[verifier::rlimit(100)]
#[verifier::spinoff_prover]
proof fn lemma_split7(
    h1: Seq<u32>,
    s1: Seq<u32>,
    c1: Seq<u32>,
    i1: Seq<u32>,
    f1: Seq<u32>,
    p1: Seq<u32>,
    t1: Seq<u32>,
    h2: Seq<u32>,
    s2: Seq<u32>,
    c2: Seq<u32>,
    i2: Seq<u32>,
    f2: Seq<u32>,
    p2: Seq<u32>,
    t2: Seq<u32>,
)
    requires
        (((((h1 + s1) + c1) + i1) + f1) + p1) + t1 == (((((h2 + s2) + c2) + i2) + f2) + p2) + t2,
        h1.len() == h2.len(),
        s1.len() == s2.len(),
        c1.len() == c2.len(),
        i1.len() == i2.len(),
        f1.len() == f2.len(),
        t1.len() == t2.len(),
    ensures
        h1 == h2,
        s1 == s2,
        c1 == c2,
        i1 == i2,
        f1 == f2,
        p1 == p2,
        t1 == t2,
{
    lemma_assoc(((((h1 + s1) + c1) + i1) + f1), p1, t1);
    lemma_assoc((((h1 + s1) + c1) + i1), f1, p1 + t1);
    lemma_assoc(((h1 + s1) + c1), i1, f1 + (p1 + t1));
    lemma_assoc((h1 + s1), c1, i1 + (f1 + (p1 + t1)));
    lemma_assoc(h1, s1, c1 + (i1 + (f1 + (p1 + t1))));
    lemma_assoc(((((h2 + s2) + c2) + i2) + f2), p2, t2);
    lemma_assoc((((h2 + s2) + c2) + i2), f2, p2 + t2);
    lemma_assoc(((h2 + s2) + c2), i2, f2 + (p2 + t2));
    lemma_assoc((h2 + s2), c2, i2 + (f2 + (p2 + t2)));
    lemma_assoc(h2, s2, c2 + (i2 + (f2 + (p2 + t2))));
    lemma_split(h1, s1 + (c1 + (i1 + (f1 + (p1 + t1)))), h2, s2 + (c2 + (i2 + (f2 + (p2 + t2)))));
    lemma_split(s1, c1 + (i1 + (f1 + (p1 + t1))), s2, c2 + (i2 + (f2 + (p2 + t2))));
    lemma_split(c1, i1 + (f1 + (p1 + t1)), c2, i2 + (f2 + (p2 + t2)));
    lemma_split(i1, f1 + (p1 + t1), i2, f2 + (p2 + t2));
    lemma_split(f1, p1 + t1, f2, p2 + t2);
    assert(p1.len() == p2.len());
    lemma_split(p1, t1, p2, t2);
}

/// The two payloads agree on the CIF indicator cascade.
pub open spec fn cascades_agree(x: CifPayload, y: CifPayload) -> bool {
    &&& x.cif0 == y.cif0
    &&& x.cif1 == y.cif1
    &&& x.cif2 == y.cif2
    &&& x.cif3 == y.cif3
    &&& x.cif7 == y.cif7
}

/// The two acknowledgement payloads agree on both indicator
/// cascades.
pub open spec fn ack_banks_agree(x: Ack, y: Ack) -> bool {
    &&& x.wif0 == y.wif0
    &&& x.wif1 == y.wif1
    &&& x.wif2 == y.wif2
    &&& x.wif3 == y.wif3
    &&& x.wif7 == y.wif7
    &&& x.eif0 == y.eif0
    &&& x.eif1 == y.eif1
    &&& x.eif2 == y.eif2
    &&& x.eif3 == y.eif3
    &&& x.eif7 == y.eif7
}

/// The two command bodies agree on every fixed-width part.
pub open spec fn commands_agree(x: Command, y: Command) -> bool {
    &&& x.cam == y.cam
    &&& x.message_id == y.message_id
    &&& x.controllee_id == y.controllee_id
    &&& x.controllee_uuid == y.controllee_uuid
    &&& x.controller_id == y.controller_id
    &&& x.controller_uuid == y.controller_uuid
    &&& match (x.command_payload, y.command_payload) {
        (CommandPayload::Control(p), CommandPayload::Control(q)) => cascades_agree(p, q),
        (CommandPayload::Cancellation(p), CommandPayload::Cancellation(q)) => p == q,
        (CommandPayload::ValidationAck(p), CommandPayload::ValidationAck(q)) => ack_banks_agree(
            p,
            q,
        ),
        (CommandPayload::ExecAck(p), CommandPayload::ExecAck(q)) => ack_banks_agree(p, q),
        (CommandPayload::QueryAck(p), CommandPayload::QueryAck(q)) => cascades_agree(p, q),
        _ => false,
    }
}

/// The two payloads have the same variant and agree on its
/// fixed-width parts; signal-data payloads agree word for word.
pub open spec fn payloads_agree(pa: Payload, pb: Payload) -> bool {
    match (pa, pb) {
        (Payload::SignalData(x), Payload::SignalData(y)) => x.data@ == y.data@,
        (Payload::Context(x), Payload::Context(y)) => cascades_agree(x, y),
        (Payload::Command(x), Payload::Command(y)) => commands_agree(x, y),
        _ => false,
    }
}

/// Two optional-indicator cascades with equal words and matching
/// leading presence are equal, and so are their continuations.
#[verifier::rlimit(100)]
proof fn lemma_cascade_det(
    c0x: Option<Cif0>,
    c1x: Option<Cif1>,
    c2x: Option<Cif2>,
    c3x: Option<Cif3>,
    c7x: Option<Cif7>,
    rx: Seq<u32>,
    c0y: Option<Cif0>,
    c1y: Option<Cif1>,
    c2y: Option<Cif2>,
    c3y: Option<Cif3>,
    c7y: Option<Cif7>,
    ry: Seq<u32>,
)
    requires
        cascade_words(c0x, c1x, c2x, c3x, c7x) + rx == cascade_words(c0y, c1y, c2y, c3y, c7y) + ry,
        c0x is Some <==> c0y is Some,
        c1x is Some <==> (c0x matches Option::Some(c) && bit(c.0, 1)),
        c2x is Some <==> (c0x matches Option::Some(c) && bit(c.0, 2)),
        c3x is Some <==> (c0x matches Option::Some(c) && bit(c.0, 3)),
        c7x is Some <==> (c0x matches Option::Some(c) && bit(c.0, 7)),
        c1y is Some <==> (c0y matches Option::Some(c) && bit(c.0, 1)),
        c2y is Some <==> (c0y matches Option::Some(c) && bit(c.0, 2)),
        c3y is Some <==> (c0y matches Option::Some(c) && bit(c.0, 3)),
        c7y is Some <==> (c0y matches Option::Some(c) && bit(c.0, 7)),
    ensures
        c0x == c0y,
        c1x == c1y,
        c2x == c2y,
        c3x == c3y,
        c7x == c7y,
        rx == ry,
{
    let w0x = match c0x {
        Option::Some(c) => seq![c.0],
        Option::None => Seq::<u32>::empty(),
    };
    let w1x = match c1x {
        Option::Some(c) => seq![c.0],
        Option::None => Seq::<u32>::empty(),
    };
    let w2x = match c2x {
        Option::Some(c) => seq![c.0],
        Option::None => Seq::<u32>::empty(),
    };
    let w3x = match c3x {
        Option::Some(c) => seq![c.0],
        Option::None => Seq::<u32>::empty(),
    };
    let w7x = match c7x {
        Option::Some(c) => seq![c.0],
        Option::None => Seq::<u32>::empty(),
    };
    let w0y = match c0y {
        Option::Some(c) => seq![c.0],
        Option::None => Seq::<u32>::empty(),
    };
    let w1y = match c1y {
        Option::Some(c) => seq![c.0],
        Option::None => Seq::<u32>::empty(),
    };
    let w2y = match c2y {
        Option::Some(c) => seq![c.0],
        Option::None => Seq::<u32>::empty(),
    };
    let w3y = match c3y {
        Option::Some(c) => seq![c.0],
        Option::None => Seq::<u32>::empty(),
    };
    let w7y = match c7y {
        Option::Some(c) => seq![c.0],
        Option::None => Seq::<u32>::empty(),
    };
    assert(cascade_words(c0x, c1x, c2x, c3x, c7x) == (((w0x + w1x) + w2x) + w3x) + w7x);
    lemma_assoc((((w0x + w1x) + w2x) + w3x) + w7x, rx, Seq::<u32>::empty());
    lemma_assoc(((w0x + w1x) + w2x) + w3x, w7x, rx);
    lemma_assoc((w0x + w1x) + w2x, w3x, w7x + rx);
    lemma_assoc(w0x + w1x, w2x, w3x + (w7x + rx));
    lemma_assoc(w0x, w1x, w2x + (w3x + (w7x + rx)));
    assert(cascade_words(c0x, c1x, c2x, c3x, c7x) + rx == w0x + (w1x + (w2x + (w3x + (w7x
        + rx)))));
    assert(cascade_words(c0y, c1y, c2y, c3y, c7y) == (((w0y + w1y) + w2y) + w3y) + w7y);
    lemma_assoc(((w0y + w1y) + w2y) + w3y, w7y, ry);
    lemma_assoc((w0y + w1y) + w2y, w3y, w7y + ry);
    lemma_assoc(w0y + w1y, w2y, w3y + (w7y + ry));
    lemma_assoc(w0y, w1y, w2y + (w3y + (w7y + ry)));
    assert(cascade_words(c0y, c1y, c2y, c3y, c7y) + ry == w0y + (w1y + (w2y + (w3y + (w7y
        + ry)))));
    lemma_split(w0x, w1x + (w2x + (w3x + (w7x + rx))), w0y, w1y + (w2y + (w3y + (w7y + ry))));
    if c0x is Some && c0y is Some {
        assert(w0x[0] == w0y[0]);
    }
    assert(c0x == c0y);
    lemma_split(w1x, w2x + (w3x + (w7x + rx)), w1y, w2y + (w3y + (w7y + ry)));
    if c1x is Some && c1y is Some {
        assert(w1x[0] == w1y[0]);
    }
    lemma_split(w2x, w3x + (w7x + rx), w2y, w3y + (w7y + ry));
    if c2x is Some && c2y is Some {
        assert(w2x[0] == w2y[0]);
    }
    lemma_split(w3x, w7x + rx, w3y, w7y + ry);
    if c3x is Some && c3y is Some {
        assert(w3x[0] == w3y[0]);
    }
    lemma_split(w7x, rx, w7y, ry);
    if c7x is Some && c7y is Some {
        assert(w7x[0] == w7y[0]);
    }
}

/// Two well-formed CIF payloads with the same wire words agree on
/// the whole indicator cascade.
#[verifier::rlimit(100)]
proof fn lemma_cif_payload_det(x: CifPayload, y: CifPayload)
    requires
        x.wf(),
        y.wf(),
        x.words() == y.words(),
    ensures
        cascades_agree(x, y),
{
    let m1x = match x.cif1 {
        Option::Some(c) => seq![c.0],
        Option::None => Seq::<u32>::empty(),
    };
    let m2x = match x.cif2 {
        Option::Some(c) => seq![c.0],
        Option::None => Seq::<u32>::empty(),
    };
    let m3x = match x.cif3 {
        Option::Some(c) => seq![c.0],
        Option::None => Seq::<u32>::empty(),
    };
    let m7x = match x.cif7 {
        Option::Some(c) => seq![c.0],
        Option::None => Seq::<u32>::empty(),
    };
    let fx = x.fields0.words(crate::cif_fields::TableId::TableCif0, x.cif0.0) + x.fields1.words(
        crate::cif_fields::TableId::TableCif1,
        x.cif1_word(),
    );
    let m1y = match y.cif1 {
        Option::Some(c) => seq![c.0],
        Option::None => Seq::<u32>::empty(),
    };
    let m2y = match y.cif2 {
        Option::Some(c) => seq![c.0],
        Option::None => Seq::<u32>::empty(),
    };
    let m3y = match y.cif3 {
        Option::Some(c) => seq![c.0],
        Option::None => Seq::<u32>::empty(),
    };
    let m7y = match y.cif7 {
        Option::Some(c) => seq![c.0],
        Option::None => Seq::<u32>::empty(),
    };
    let fy = y.fields0.words(crate::cif_fields::TableId::TableCif0, y.cif0.0) + y.fields1.words(
        crate::cif_fields::TableId::TableCif1,
        y.cif1_word(),
    );
    let f0x = x.fields0.words(crate::cif_fields::TableId::TableCif0, x.cif0.0);
    let f1x = x.fields1.words(crate::cif_fields::TableId::TableCif1, x.cif1_word());
    let h0x = seq![x.cif0.0];
    assert(x.words() == (((((h0x + m1x) + m2x) + m3x) + m7x) + f0x) + f1x);
    lemma_assoc(((((h0x + m1x) + m2x) + m3x) + m7x), f0x, f1x);
    lemma_assoc((((h0x + m1x) + m2x) + m3x), m7x, fx);
    lemma_assoc(((h0x + m1x) + m2x), m3x, m7x + fx);
    lemma_assoc((h0x + m1x), m2x, m3x + (m7x + fx));
    lemma_assoc(h0x, m1x, m2x + (m3x + (m7x + fx)));
    assert(x.words() == h0x + (m1x + (m2x + (m3x + (m7x + fx)))));
    let f0y = y.fields0.words(crate::cif_fields::TableId::TableCif0, y.cif0.0);
    let f1y = y.fields1.words(crate::cif_fields::TableId::TableCif1, y.cif1_word());
    let h0y = seq![y.cif0.0];
    assert(y.words() == (((((h0y + m1y) + m2y) + m3y) + m7y) + f0y) + f1y);
    lemma_assoc(((((h0y + m1y) + m2y) + m3y) + m7y), f0y, f1y);
    lemma_assoc((((h0y + m1y) + m2y) + m3y), m7y, fy);
    lemma_assoc(((h0y + m1y) + m2y), m3y, m7y + fy);
    lemma_assoc((h0y + m1y), m2y, m3y + (m7y + fy));
    lemma_assoc(h0y, m1y, m2y + (m3y + (m7y + fy)));
    assert(y.words() == h0y + (m1y + (m2y + (m3y + (m7y + fy)))));
    lemma_split(
        seq![x.cif0.0],
        m1x + (m2x + (m3x + (m7x + fx))),
        seq![y.cif0.0],
        m1y + (m2y + (m3y + (m7y + fy))),
    );
    assert(seq![x.cif0.0][0] == seq![y.cif0.0][0]);
    assert(x.cif0.0 == y.cif0.0);
    assert(x.cif0 == y.cif0);
    lemma_split(m1x, m2x + (m3x + (m7x + fx)), m1y, m2y + (m3y + (m7y + fy)));
    if x.cif1 is Some && y.cif1 is Some {
        assert(m1x[0] == m1y[0]);
    }
    lemma_split(m2x, m3x + (m7x + fx), m2y, m3y + (m7y + fy));
    if x.cif2 is Some && y.cif2 is Some {
        assert(m2x[0] == m2y[0]);
    }
    lemma_split(m3x, m7x + fx, m3y, m7y + fy);
    if x.cif3 is Some && y.cif3 is Some {
        assert(m3x[0] == m3y[0]);
    }
    lemma_split(m7x, fx, m7y, fy);
    if x.cif7 is Some && y.cif7 is Some {
        assert(m7x[0] == m7y[0]);
    }
}

/// Two well-formed cancellation payloads with the same wire words are
/// equal.
#[verifier::rlimit(100)]
proof fn lemma_cancellation_det(x: Cancellation, y: Cancellation)
    requires
        x.wf(),
        y.wf(),
        x.words() == y.words(),
    ensures
        x == y,
{
    let m1x = match x.cif1 {
        Option::Some(c) => seq![c.0],
        Option::None => Seq::<u32>::empty(),
    };
    let m2x = match x.cif2 {
        Option::Some(c) => seq![c.0],
        Option::None => Seq::<u32>::empty(),
    };
    let m3x = match x.cif3 {
        Option::Some(c) => seq![c.0],
        Option::None => Seq::<u32>::empty(),
    };
    let m7x = match x.cif7 {
        Option::Some(c) => seq![c.0],
        Option::None => Seq::<u32>::empty(),
    };
    let m1y = match y.cif1 {
        Option::Some(c) => seq![c.0],
        Option::None => Seq::<u32>::empty(),
    };
    let m2y = match y.cif2 {
        Option::Some(c) => seq![c.0],
        Option::None => Seq::<u32>::empty(),
    };
    let m3y = match y.cif3 {
        Option::Some(c) => seq![c.0],
        Option::None => Seq::<u32>::empty(),
    };
    let m7y = match y.cif7 {
        Option::Some(c) => seq![c.0],
        Option::None => Seq::<u32>::empty(),
    };
    let h0x = seq![x.cif0.0];
    assert(x.words() == (((h0x + m1x) + m2x) + m3x) + m7x);
    lemma_assoc(((h0x + m1x) + m2x), m3x, m7x);
    lemma_assoc((h0x + m1x), m2x, m3x + m7x);
    lemma_assoc(h0x, m1x, m2x + (m3x + m7x));
    assert(x.words() == h0x + (m1x + (m2x + (m3x + m7x))));
    let h0y = seq![y.cif0.0];
    assert(y.words() == (((h0y + m1y) + m2y) + m3y) + m7y);
    lemma_assoc(((h0y + m1y) + m2y), m3y, m7y);
    lemma_assoc((h0y + m1y), m2y, m3y + m7y);
    lemma_assoc(h0y, m1y, m2y + (m3y + m7y));
    assert(y.words() == h0y + (m1y + (m2y + (m3y + m7y))));
    lemma_split(seq![x.cif0.0], m1x + (m2x + (m3x + m7x)), seq![y.cif0.0], m1y + (m2y + (m3y
        + m7y)));
    assert(seq![x.cif0.0][0] == seq![y.cif0.0][0]);
    assert(x.cif0 == y.cif0);
    lemma_split(m1x, m2x + (m3x + m7x), m1y, m2y + (m3y + m7y));
    if x.cif1 is Some && y.cif1 is Some {
        assert(m1x[0] == m1y[0]);
    }
    lemma_split(m2x, m3x + m7x, m2y, m3y + m7y);
    if x.cif2 is Some && y.cif2 is Some {
        assert(m2x[0] == m2y[0]);
    }
    lemma_split(m3x, m7x, m3y, m7y);
    if x.cif3 is Some && y.cif3 is Some {
        assert(m3x[0] == m3y[0]);
    }
    if x.cif7 is Some && y.cif7 is Some {
        assert(m7x[0] == m7y[0]);
    }
}

/// Two well-formed acknowledgement payloads with the same wire words
/// agree on both indicator cascades.
#[verifier::rlimit(100)]
proof fn lemma_ack_det(x: Ack, y: Ack, warning: bool, error: bool)
    requires
        x.wf(warning, error),
        y.wf(warning, error),
        x.words() == y.words(),
    ensures
        ack_banks_agree(x, y),
{
    lemma_assoc(x.wif_ind_words(), x.eif_ind_words(), x.resp_words());
    lemma_assoc(y.wif_ind_words(), y.eif_ind_words(), y.resp_words());
    assert(x.words() == x.wif_ind_words() + (x.eif_ind_words() + x.resp_words()));
    assert(y.words() == y.wif_ind_words() + (y.eif_ind_words() + y.resp_words()));
    lemma_cascade_det(
        x.wif0,
        x.wif1,
        x.wif2,
        x.wif3,
        x.wif7,
        x.eif_ind_words() + x.resp_words(),
        y.wif0,
        y.wif1,
        y.wif2,
        y.wif3,
        y.wif7,
        y.eif_ind_words() + y.resp_words(),
    );
    lemma_cascade_det(
        x.eif0,
        x.eif1,
        x.eif2,
        x.eif3,
        x.eif7,
        x.resp_words(),
        y.eif0,
        y.eif1,
        y.eif2,
        y.eif3,
        y.eif7,
        y.resp_words(),
    );
}

/// Two well-formed command bodies with the same wire words agree on
/// every fixed-width part.
#[verifier::rlimit(100)]
proof fn lemma_command_det(x: Command, y: Command, ack: bool, cancellation: bool)
    requires
        x.wf(ack, cancellation),
        y.wf(ack, cancellation),
        x.words() == y.words(),
    ensures
        commands_agree(x, y),
{
    let eidx = Command::opt_id_words(x.controllee_id);
    let euux = Command::opt_uuid_words(x.controllee_uuid);
    let ridx = Command::opt_id_words(x.controller_id);
    let ruux = Command::opt_uuid_words(x.controller_uuid);
    let px = x.command_payload.words();
    let eidy = Command::opt_id_words(y.controllee_id);
    let euuy = Command::opt_uuid_words(y.controllee_uuid);
    let ridy = Command::opt_id_words(y.controller_id);
    let ruuy = Command::opt_uuid_words(y.controller_uuid);
    let py = y.command_payload.words();
    let hx = seq![x.cam.0, x.message_id];
    assert(x.words() == ((((hx + eidx) + euux) + ridx) + ruux) + px);
    lemma_assoc((((hx + eidx) + euux) + ridx), ruux, px);
    lemma_assoc(((hx + eidx) + euux), ridx, ruux + px);
    lemma_assoc((hx + eidx), euux, ridx + (ruux + px));
    lemma_assoc(hx, eidx, euux + (ridx + (ruux + px)));
    assert(x.words() == hx + (eidx + (euux + (ridx + (ruux + px)))));
    let hy = seq![y.cam.0, y.message_id];
    assert(y.words() == ((((hy + eidy) + euuy) + ridy) + ruuy) + py);
    lemma_assoc((((hy + eidy) + euuy) + ridy), ruuy, py);
    lemma_assoc(((hy + eidy) + euuy), ridy, ruuy + py);
    lemma_assoc((hy + eidy), euuy, ridy + (ruuy + py));
    lemma_assoc(hy, eidy, euuy + (ridy + (ruuy + py)));
    assert(y.words() == hy + (eidy + (euuy + (ridy + (ruuy + py)))));
    lemma_split(
        seq![x.cam.0, x.message_id],
        eidx + (euux + (ridx + (ruux + px))),
        seq![y.cam.0, y.message_id],
        eidy + (euuy + (ridy + (ruuy + py))),
    );
    assert(seq![x.cam.0, x.message_id][0] == seq![y.cam.0, y.message_id][0]);
    assert(seq![x.cam.0, x.message_id][1] == seq![y.cam.0, y.message_id][1]);
    assert(x.cam == y.cam);
    lemma_split(eidx, euux + (ridx + (ruux + px)), eidy, euuy + (ridy + (ruuy + py)));
    if x.controllee_id is Some && y.controllee_id is Some {
        assert(eidx[0] == eidy[0]);
    }
    lemma_split(euux, ridx + (ruux + px), euuy, ridy + (ruuy + py));
    lemma_split(ridx, ruux + px, ridy, ruuy + py);
    if x.controller_id is Some && y.controller_id is Some {
        assert(ridx[0] == ridy[0]);
    }
    lemma_split(ruux, px, ruuy, py);
    if x.controllee_uuid is Some {
        let a = x.controllee_uuid->0;
        let b = y.controllee_uuid->0;
        assert(u128_words(a) == u128_words(b));
        lemma_u128_join(a);
        lemma_u128_join(b);
    }
    if x.controller_uuid is Some {
        let a = x.controller_uuid->0;
        let b = y.controller_uuid->0;
        assert(u128_words(a) == u128_words(b));
        lemma_u128_join(a);
        lemma_u128_join(b);
    }
    match (x.command_payload, y.command_payload) {
        (CommandPayload::Control(p), CommandPayload::Control(q)) => {
            lemma_cif_payload_det(p, q);
        },
        (CommandPayload::Cancellation(p), CommandPayload::Cancellation(q)) => {
            lemma_cancellation_det(p, q);
        },
        (CommandPayload::ValidationAck(p), CommandPayload::ValidationAck(q)) => {
            lemma_ack_det(p, q, x.cam.spec_warning(), x.cam.spec_error());
        },
        (CommandPayload::ExecAck(p), CommandPayload::ExecAck(q)) => {
            lemma_ack_det(p, q, x.cam.spec_warning(), x.cam.spec_error());
        },
        (CommandPayload::QueryAck(p), CommandPayload::QueryAck(q)) => {
            lemma_cif_payload_det(p, q);
        },
        _ => {
            assert(false);
        },
    }
}

/// The stream-identifier words of a packet.
spec fn stream_words(a: Vrt) -> Seq<u32> {
    match a.stream_id {
        Option::Some(v) => seq![v],
        Option::None => Seq::<u32>::empty(),
    }
}

/// The class-identifier words of a packet.
spec fn class_words(a: Vrt) -> Seq<u32> {
    match a.class_id {
        Option::Some(c) => c.words(),
        Option::None => Seq::<u32>::empty(),
    }
}

/// The integer-timestamp words of a packet.
spec fn its_words(a: Vrt) -> Seq<u32> {
    match a.integer_timestamp {
        Option::Some(t) => seq![t],
        Option::None => Seq::<u32>::empty(),
    }
}

/// The fractional-timestamp words of a packet.
spec fn fts_words(a: Vrt) -> Seq<u32> {
    match a.fractional_timestamp {
        Option::Some(t) => u64_words(t),
        Option::None => Seq::<u32>::empty(),
    }
}

/// The trailer words of a packet.
spec fn trailer_words(a: Vrt) -> Seq<u32> {
    match a.trailer {
        Option::Some(t) => seq![t],
        Option::None => Seq::<u32>::empty(),
    }
}

/// A packet's words in fully left-nested seven-part form.
#[verifier::spinoff_prover]
proof fn lemma_packet_shape(a: Vrt)
    ensures
        a.words() == (((((seq![a.header.word()] + stream_words(a)) + class_words(a)) + its_words(
            a,
        )) + fts_words(a)) + a.payload.words()) + trailer_words(a),
{
    let ha = seq![a.header.word()];
    let sa = stream_words(a);
    let ca = class_words(a);
    let ia = its_words(a);
    let fa = fts_words(a);
    lemma_assoc(ha, sa, ca);
    lemma_assoc(ha, sa + ca, ia);
    lemma_assoc(ha, (sa + ca) + ia, fa);
    assert(ha + a.prologue_words() == (((ha + sa) + ca) + ia) + fa);
}

/// The non-payload parts of two well-formed packets with the same
/// wire words are equal, and their payload words coincide.
#[verifier::rlimit(100)]
#[verifier::spinoff_prover]
proof fn lemma_prologue_det(a: Vrt, b: Vrt)
    requires
        a.header.wf(),
        b.header.wf(),
        a.stream_id is Some <==> a.header.has_stream_id(),
        a.class_id is Some <==> a.header.class_id_included,
        a.integer_timestamp is Some <==> a.header.tsi != crate::header::Tsi::Omitted,
        a.fractional_timestamp is Some <==> a.header.tsf != crate::header::Tsf::Omitted,
        a.trailer is Some <==> a.header.has_trailer(),
        b.stream_id is Some <==> b.header.has_stream_id(),
        b.class_id is Some <==> b.header.class_id_included,
        b.integer_timestamp is Some <==> b.header.tsi != crate::header::Tsi::Omitted,
        b.fractional_timestamp is Some <==> b.header.tsf != crate::header::Tsf::Omitted,
        b.trailer is Some <==> b.header.has_trailer(),
        a.words() == b.words(),
    ensures
        a.header == b.header,
        a.stream_id == b.stream_id,
        a.class_id == b.class_id,
        a.integer_timestamp == b.integer_timestamp,
        a.fractional_timestamp == b.fractional_timestamp,
        a.trailer == b.trailer,
        a.payload.words() == b.payload.words(),
{
    lemma_packet_shape(a);
    lemma_packet_shape(b);
    let ha = seq![a.header.word()];
    let hb = seq![b.header.word()];
    assert(ha[0] == a.words()[0]);
    assert(hb[0] == b.words()[0]);
    assert(a.header.word() == b.header.word());
    lemma_header_word_injective(a.header, b.header);
    lemma_split7(
        ha,
        stream_words(a),
        class_words(a),
        its_words(a),
        fts_words(a),
        a.payload.words(),
        trailer_words(a),
        hb,
        stream_words(b),
        class_words(b),
        its_words(b),
        fts_words(b),
        b.payload.words(),
        trailer_words(b),
    );
    if a.stream_id is Some && b.stream_id is Some {
        assert(stream_words(a)[0] == stream_words(b)[0]);
    }
    if a.integer_timestamp is Some && b.integer_timestamp is Some {
        assert(its_words(a)[0] == its_words(b)[0]);
    }
    if a.trailer is Some && b.trailer is Some {
        assert(trailer_words(a)[0] == trailer_words(b)[0]);
    }
    lemma_tail_values(a, b);
}

/// A class identifier is pinned by its two wire words, and a
/// fractional timestamp by its two.
proof fn lemma_tail_values(a: Vrt, b: Vrt)
    requires
        a.class_id is Some <==> b.class_id is Some,
        a.class_id is Some ==> (a.class_id->0).words() == (b.class_id->0).words(),
        a.fractional_timestamp is Some <==> b.fractional_timestamp is Some,
        a.fractional_timestamp is Some ==> u64_words(a.fractional_timestamp->0) == u64_words(
            b.fractional_timestamp->0,
        ),
    ensures
        a.class_id == b.class_id,
        a.fractional_timestamp == b.fractional_timestamp,
{
    if a.class_id is Some {
        let x = a.class_id->0;
        let y = b.class_id->0;
        assert(x.words()[0] == y.words()[0]);
        assert(x.words()[1] == y.words()[1]);
        lemma_halves_pack(x.information_class as u32, x.packet_class as u32);
        lemma_halves_pack(y.information_class as u32, y.packet_class as u32);
        assert(x == y);
    }
    if a.fractional_timestamp is Some {
        let x = a.fractional_timestamp->0;
        let y = b.fractional_timestamp->0;
        lemma_u64_join(x);
        lemma_u64_join(y);
    }
}

/// Two well-formed packets that serialize to the same words agree on
/// the header, on every prologue extension, on the trailer, and on
/// every fixed-width part of the payload. Together with the parser's
/// byte-exactness — a decoded packet re-encodes to exactly the bytes
/// it was read from — this pins the decode of an encoded packet down
/// to the original.
pub proof fn lemma_decode_deterministic(a: Vrt, b: Vrt)
    requires
        a.wf(),
        b.wf(),
        a.words() == b.words(),
    ensures
        a.header == b.header,
        a.stream_id == b.stream_id,
        a.class_id == b.class_id,
        a.integer_timestamp == b.integer_timestamp,
        a.fractional_timestamp == b.fractional_timestamp,
        a.trailer == b.trailer,
        payloads_agree(a.payload, b.payload),
{
    lemma_prologue_det(a, b);
    match (a.payload, b.payload) {
        (Payload::SignalData(x), Payload::SignalData(y)) => {
            assert(x.data@ == y.data@);
        },
        (Payload::Context(x), Payload::Context(y)) => {
            lemma_cif_payload_det(x, y);
        },
        (Payload::Command(x), Payload::Command(y)) => {
            lemma_command_det(x, y, a.header.indicator_26, a.header.indicator_24);
        },
        _ => {
            assert(false);
        },
    }
}

} // verus!

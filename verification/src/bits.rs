//! Word-level primitives: single-bit tests on 32-bit indicator words,
//! splitting wide integers into big-endian 32-bit words, and the
//! byte-level view of a word sequence.

use vstd::prelude::*;

use crate::errors::VitaError;

verus! {

/// True when bit `i` (0 = least significant) of `w` is set.
pub open spec fn bit(w: u32, i: u32) -> bool
    recommends
        i < 32,
{
    w & (1u32 << i) != 0
}

/// Setting bit `i` leaves every other bit alone and sets bit `i`.
pub proof fn lemma_bit_or(w: u32, i: u32, j: u32)
    requires
        i < 32,
        j < 32,
    ensures
        bit(w | (1u32 << i), j) == (i == j || bit(w, j)),
{
    assert((w | (1u32 << i)) & (1u32 << j) != 0 <==> (i == j || w & (1u32 << j) != 0))
        by (bit_vector)
        requires
            i < 32,
            j < 32,
    ;
}

/// Clearing bit `i` leaves every other bit alone and clears bit `i`.
pub proof fn lemma_bit_and_not(w: u32, i: u32, j: u32)
    requires
        i < 32,
        j < 32,
    ensures
        bit(w & !(1u32 << i), j) == (i != j && bit(w, j)),
{
    assert((w & !(1u32 << i)) & (1u32 << j) != 0 <==> (i != j && w & (1u32 << j) != 0))
        by (bit_vector)
        requires
            i < 32,
            j < 32,
    ;
}

/// The zero word has no bit set.
pub proof fn lemma_bit_zero(j: u32)
    requires
        j < 32,
    ensures
        !bit(0u32, j),
{
    assert(0u32 & (1u32 << j) == 0) by (bit_vector);
}

/// Or-ing into the zero word gives the mask itself.
pub proof fn lemma_zero_or(x: u32)
    ensures
        0u32 | x == x,
{
    assert(0u32 | x == x) by (bit_vector);
}

/// Set bit `i` of a word, leaving all other bits alone.
pub fn set_bit32(w: u32, i: u32) -> (r: u32)
    requires
        i < 32,
    ensures
        r == w | (1u32 << i),
        forall|j: u32| j < 32 ==> #[trigger] bit(r, j) == (j == i || bit(w, j)),
{
    let r = w | (1u32 << i);
    proof {
        assert forall|j: u32| j < 32 implies #[trigger] bit(r, j) == (j == i || bit(w, j)) by {
            lemma_bit_or(w, i, j);
        }
    }
    r
}

/// Clear bit `i` of a word, leaving all other bits alone.
pub fn clear_bit32(w: u32, i: u32) -> (r: u32)
    requires
        i < 32,
    ensures
        r == w & !(1u32 << i),
        forall|j: u32| j < 32 ==> #[trigger] bit(r, j) == (j != i && bit(w, j)),
{
    let r = w & !(1u32 << i);
    proof {
        assert forall|j: u32| j < 32 implies #[trigger] bit(r, j) == (j != i && bit(w, j)) by {
            lemma_bit_and_not(w, i, j);
        }
    }
    r
}

/// Test bit `i` of a word.
pub fn get_bit32(w: u32, i: u32) -> (r: bool)
    requires
        i < 32,
    ensures
        r == bit(w, i),
{
    w & (1u32 << i) != 0
}

/// High word of a 64-bit value.
pub open spec fn hi32(x: u64) -> u32 {
    (x >> 32) as u32
}

/// Low word of a 64-bit value.
pub open spec fn lo32(x: u64) -> u32 {
    x as u32
}

/// The two big-endian words of a 64-bit value.
pub open spec fn u64_words(x: u64) -> Seq<u32> {
    seq![hi32(x), lo32(x)]
}

/// Rebuilding a 64-bit value from its two words gives the value back.
pub proof fn lemma_u64_join(x: u64)
    ensures
        ((hi32(x) as u64) << 32) | (lo32(x) as u64) == x,
{
    assert(((((x >> 32) as u32) as u64) << 32) | ((x as u32) as u64) == x) by (bit_vector);
}

/// Splitting a value built from two words gives the words back.
pub proof fn lemma_u64_split(hi: u32, lo: u32)
    ensures
        hi32(((hi as u64) << 32) | (lo as u64)) == hi,
        lo32(((hi as u64) << 32) | (lo as u64)) == lo,
{
    let x = ((hi as u64) << 32) | (lo as u64);
    assert(((((hi as u64) << 32) | (lo as u64)) >> 32) as u32 == hi && ((((hi as u64) << 32) | (
    lo as u64)) as u32) == lo) by (bit_vector);
}

/// The four big-endian words of a 128-bit value, most significant first.
pub open spec fn u128_words(x: u128) -> Seq<u32> {
    seq![(x >> 96) as u32, (x >> 64) as u32, (x >> 32) as u32, x as u32]
}

/// Rebuilding a 128-bit value from its four words gives the value back.
pub proof fn lemma_u128_join(x: u128)
    ensures
        (((x >> 96) as u32 as u128) << 96) | (((x >> 64) as u32 as u128) << 64) | (((x
            >> 32) as u32 as u128) << 32) | (x as u32 as u128) == x,
{
    assert((((x >> 96) as u32 as u128) << 96) | (((x >> 64) as u32 as u128) << 64) | (((x
        >> 32) as u32 as u128) << 32) | (x as u32 as u128) == x) by (bit_vector);
}

/// Splitting a 128-bit value built from four words gives the words back.
pub proof fn lemma_u128_split(a: u32, b: u32, c: u32, d: u32)
    ensures
        u128_words(
            ((a as u128) << 96) | ((b as u128) << 64) | ((c as u128) << 32) | (d as u128),
        ) == seq![a, b, c, d],
{
    let x = ((a as u128) << 96) | ((b as u128) << 64) | ((c as u128) << 32) | (d as u128);
    assert((x >> 96) as u32 == a && (x >> 64) as u32 == b && (x >> 32) as u32 == c && x as u32 == d)
        by (bit_vector)
        requires
            x == ((a as u128) << 96) | ((b as u128) << 64) | ((c as u128) << 32) | (d as u128),
    ;
    assert(u128_words(x) =~= seq![a, b, c, d]);
}

/// The four big-endian bytes of a 32-bit word.
pub open spec fn word_bytes(w: u32) -> Seq<u8> {
    seq![(w >> 24) as u8, (w >> 16) as u8, (w >> 8) as u8, w as u8]
}

/// The big-endian byte view of a word sequence.
pub open spec fn words_bytes(ws: Seq<u32>) -> Seq<u8>
    decreases ws.len(),
{
    if ws.len() == 0 {
        Seq::empty()
    } else {
        word_bytes(ws[0]) + words_bytes(ws.drop_first())
    }
}

/// A word sequence's byte view has four bytes per word.
pub proof fn lemma_words_bytes_len(ws: Seq<u32>)
    ensures
        words_bytes(ws).len() == 4 * ws.len(),
    decreases ws.len(),
{
    if ws.len() > 0 {
        lemma_words_bytes_len(ws.drop_first());
    }
}

/// The byte view distributes over concatenation.
pub proof fn lemma_words_bytes_app(a: Seq<u32>, b: Seq<u32>)
    ensures
        words_bytes(a + b) == words_bytes(a) + words_bytes(b),
    decreases a.len(),
{
    if a.len() == 0 {
        assert(a + b =~= b);
        assert(words_bytes(a) + words_bytes(b) =~= words_bytes(b));
    } else {
        assert((a + b).drop_first() =~= a.drop_first() + b);
        lemma_words_bytes_app(a.drop_first(), b);
        assert(words_bytes(a + b) =~= words_bytes(a) + words_bytes(b));
    }
}

/// Appending one word appends its four bytes.
pub proof fn lemma_words_bytes_snoc(s: Seq<u32>, w: u32)
    ensures
        words_bytes(s.push(w)) == words_bytes(s) + word_bytes(w),
{
    lemma_words_bytes_app(s, seq![w]);
    assert(s.push(w) =~= s + seq![w]);
    assert(seq![w].drop_first() =~= Seq::<u32>::empty());
    assert(words_bytes(Seq::<u32>::empty()) == Seq::<u8>::empty());
    assert(words_bytes(seq![w]) =~= word_bytes(w));
}

/// Rebuilding a word from its four bytes gives the word back.
pub proof fn lemma_word_from_bytes(b0: u8, b1: u8, b2: u8, b3: u8)
    ensures
        word_bytes(
            ((b0 as u32) << 24) | ((b1 as u32) << 16) | ((b2 as u32) << 8) | (b3 as u32),
        ) == seq![b0, b1, b2, b3],
{
    let w = ((b0 as u32) << 24) | ((b1 as u32) << 16) | ((b2 as u32) << 8) | (b3 as u32);
    assert((w >> 24) as u8 == b0 && (w >> 16) as u8 == b1 && (w >> 8) as u8 == b2 && w as u8 == b3)
        by (bit_vector)
        requires
            w == ((b0 as u32) << 24) | ((b1 as u32) << 16) | ((b2 as u32) << 8) | (b3 as u32),
    ;
    assert(word_bytes(w) =~= seq![b0, b1, b2, b3]);
}

/// Two words with the same byte view are equal.
pub proof fn lemma_word_bytes_injective(a: u32, b: u32)
    requires
        word_bytes(a) == word_bytes(b),
    ensures
        a == b,
{
    lemma_word_bytes_join(a);
    lemma_word_bytes_join(b);
    assert(word_bytes(a)[0] == word_bytes(b)[0]);
    assert(word_bytes(a)[1] == word_bytes(b)[1]);
    assert(word_bytes(a)[2] == word_bytes(b)[2]);
    assert(word_bytes(a)[3] == word_bytes(b)[3]);
}

/// Splitting a word into bytes and rebuilding it gives the word back.
pub proof fn lemma_word_bytes_join(w: u32)
    ensures
        (((w >> 24) as u8 as u32) << 24) | (((w >> 16) as u8 as u32) << 16) | (((w
            >> 8) as u8 as u32) << 8) | (w as u8 as u32) == w,
{
    assert((((w >> 24) as u8 as u32) << 24) | (((w >> 16) as u8 as u32) << 16) | (((w
        >> 8) as u8 as u32) << 8) | (w as u8 as u32) == w) by (bit_vector);
}

/// Append the two big-endian words of a 64-bit value.
pub fn push_u64(out: &mut Vec<u32>, x: u64)
    ensures
        final(out)@ == old(out)@ + u64_words(x),
{
    out.push((x >> 32) as u32);
    out.push(x as u32);
    assert(out@ =~= old(out)@ + u64_words(x));
}

/// Append the four big-endian words of a 128-bit value.
pub fn push_u128(out: &mut Vec<u32>, x: u128)
    ensures
        final(out)@ == old(out)@ + u128_words(x),
{
    out.push((x >> 96) as u32);
    out.push((x >> 64) as u32);
    out.push((x >> 32) as u32);
    out.push(x as u32);
    assert(out@ =~= old(out)@ + u128_words(x));
}

/// Read the next word of a bounded word stream, or report truncation.
pub fn take_word(w: &Vec<u32>, pos: &mut usize, end: usize) -> (r: Result<u32, VitaError>)
    requires
        *old(pos) <= end,
        end <= w@.len(),
    ensures
        r.is_ok() <==> *old(pos) < end,
        r.is_ok() ==> r.unwrap() == w@[*old(pos) as int] && *final(pos) == *old(pos) + 1,
        r.is_err() ==> r == Err::<u32, VitaError>(VitaError::TruncatedPacket) && *final(pos)
            == *old(pos),
{
    if *pos < end {
        let v = w[*pos];
        *pos = *pos + 1;
        Ok(v)
    } else {
        Err(VitaError::TruncatedPacket)
    }
}

/// Read the next two words of a bounded word stream as a 64-bit value.
pub fn take_u64(w: &Vec<u32>, pos: &mut usize, end: usize) -> (r: Result<u64, VitaError>)
    requires
        *old(pos) <= end,
        end <= w@.len(),
    ensures
        r.is_ok() <==> *old(pos) + 2 <= end,
        r.is_ok() ==> u64_words(r.unwrap()) == w@.subrange(*old(pos) as int, *old(pos) + 2)
            && *final(pos) == *old(pos) + 2,
        r.is_err() ==> r == Err::<u64, VitaError>(VitaError::TruncatedPacket),
{
    if end - *pos >= 2 {
        let hi = w[*pos];
        let lo = w[*pos + 1];
        *pos = *pos + 2;
        let v = join_u64(hi, lo);
        proof {
            assert(u64_words(v) =~= w@.subrange(*old(pos) as int, *old(pos) + 2));
        }
        Ok(v)
    } else {
        Err(VitaError::TruncatedPacket)
    }
}

/// Read the next four words of a bounded word stream as a 128-bit
/// value.
pub fn take_u128(w: &Vec<u32>, pos: &mut usize, end: usize) -> (r: Result<u128, VitaError>)
    requires
        *old(pos) <= end,
        end <= w@.len(),
    ensures
        r.is_ok() <==> *old(pos) + 4 <= end,
        r.is_ok() ==> u128_words(r.unwrap()) == w@.subrange(*old(pos) as int, *old(pos) + 4)
            && *final(pos) == *old(pos) + 4,
        r.is_err() ==> r == Err::<u128, VitaError>(VitaError::TruncatedPacket),
{
    if end - *pos >= 4 {
        let a = w[*pos];
        let b = w[*pos + 1];
        let c = w[*pos + 2];
        let d = w[*pos + 3];
        *pos = *pos + 4;
        let v = join_u128(a, b, c, d);
        proof {
            assert(u128_words(v) =~= w@.subrange(*old(pos) as int, *old(pos) + 4));
        }
        Ok(v)
    } else {
        Err(VitaError::TruncatedPacket)
    }
}

/// Casting a signed 64-bit value through its unsigned image is the
/// identity.
pub proof fn lemma_i64_cast(x: i64)
    ensures
        (x as u64) as i64 == x,
{
    assert((x as u64) as i64 == x) by (bit_vector);
}

/// Casting a signed 32-bit value through its unsigned image is the
/// identity.
pub proof fn lemma_i32_cast(x: i32)
    ensures
        (x as u32) as i32 == x,
{
    assert((x as u32) as i32 == x) by (bit_vector);
}

/// Casting a signed 16-bit value into the low half of a word and
/// back is the identity.
pub proof fn lemma_i16_cast(x: i16)
    ensures
        ((((x as u16) as u32) as u16) as i16) == x,
{
    assert(((((x as u16) as u32) as u16) as i16) == x) by (bit_vector);
}

/// Casting an unsigned 32-bit value through its signed image is the
/// identity.
pub proof fn lemma_u32_cast(x: u32)
    ensures
        (x as i32) as u32 == x,
{
    assert((x as i32) as u32 == x) by (bit_vector);
}

/// A word splits into its upper and lower half-words and repacks.
pub proof fn lemma_halves(w: u32)
    ensures
        ((w >> 16) << 16) | (w & 0xFFFF) == w,
        w >> 16 <= 0xFFFF,
        w & 0xFFFF <= 0xFFFF,
{
    assert(((w >> 16) << 16) | (w & 0xFFFF) == w && w >> 16 <= 0xFFFF && w & 0xFFFF <= 0xFFFF)
        by (bit_vector);
}

/// A concatenation equal to a slice of a stream splits into two
/// adjacent slices of the stream.
pub proof fn lemma_drop_prefix(x: Seq<u32>, y: Seq<u32>, s: Seq<u32>, a: int, b: int)
    requires
        0 <= a,
        a + x.len() + y.len() == b,
        b <= s.len(),
        x + y == s.subrange(a, b),
    ensures
        x == s.subrange(a, a + x.len()),
        y == s.subrange(a + x.len(), b),
{
    assert forall|k: int| 0 <= k < x.len() implies x[k] == s[a + k] by {
        assert((x + y)[k] == x[k]);
        assert(s.subrange(a, b)[k] == s[a + k]);
    }
    assert(x =~= s.subrange(a, a + x.len()));
    assert forall|k: int| 0 <= k < y.len() implies y[k] == s[a + x.len() + k] by {
        assert((x + y)[x.len() + k] == y[k]);
        assert(s.subrange(a, b)[x.len() + k] == s[a + x.len() + k]);
    }
    assert(y =~= s.subrange(a + x.len(), b));
}

/// Packing two half-words reads back as the halves.
pub proof fn lemma_halves_pack(hi: u32, lo: u32)
    requires
        hi <= 0xFFFF,
        lo <= 0xFFFF,
    ensures
        ((hi << 16) | lo) >> 16 == hi,
        ((hi << 16) | lo) & 0xFFFF == lo,
{
    assert(((hi << 16) | lo) >> 16 == hi && ((hi << 16) | lo) & 0xFFFF == lo) by (bit_vector)
        requires
            hi <= 0xFFFF,
            lo <= 0xFFFF,
    ;
}

/// Flatten a word vector into its big-endian byte view.
pub fn words_to_bytes(w: &Vec<u32>) -> (r: Vec<u8>)
    ensures
        r@ == words_bytes(w@),
{
    let mut out: Vec<u8> = Vec::new();
    let mut i: usize = 0;
    while i < w.len()
        invariant
            i <= w@.len(),
            out@ == words_bytes(w@.subrange(0, i as int)),
        decreases w@.len() - i,
    {
        let x = w[i];
        out.push((x >> 24) as u8);
        out.push((x >> 16) as u8);
        out.push((x >> 8) as u8);
        out.push(x as u8);
        i = i + 1;
        proof {
            lemma_words_bytes_snoc(w@.subrange(0, i - 1), x);
            assert(w@.subrange(0, i as int) =~= w@.subrange(0, i - 1).push(x));
            assert(out@ =~= words_bytes(w@.subrange(0, i - 1)) + word_bytes(x));
        }
    }
    proof {
        assert(w@.subrange(0, w@.len() as int) =~= w@);
    }
    out
}

/// Group a big-endian byte slice into `nw` words.
pub fn bytes_to_words(bytes: &[u8], nw: usize) -> (r: Vec<u32>)
    requires
        4 * nw <= bytes@.len(),
    ensures
        r@.len() == nw,
        words_bytes(r@) == bytes@.subrange(0, 4 * nw),
{
    let n_bytes: usize = bytes.len();
    let mut out: Vec<u32> = Vec::new();
    let mut i: usize = 0;
    while i < nw
        invariant
            i <= nw,
            4 * nw <= n_bytes,
            n_bytes == bytes@.len(),
            out@.len() == i,
            words_bytes(out@) == bytes@.subrange(0, 4 * i),
        decreases nw - i,
    {
        let b0 = bytes[4 * i];
        let b1 = bytes[4 * i + 1];
        let b2 = bytes[4 * i + 2];
        let b3 = bytes[4 * i + 3];
        let x: u32 = ((b0 as u32) << 24) | ((b1 as u32) << 16) | ((b2 as u32) << 8) | (b3 as u32);
        proof {
            lemma_word_from_bytes(b0, b1, b2, b3);
            lemma_words_bytes_snoc(out@, x);
        }
        out.push(x);
        i = i + 1;
        proof {
            assert(word_bytes(x) =~= bytes@.subrange(4 * (i - 1), 4 * i));
            assert(words_bytes(out@) =~= bytes@.subrange(0, 4 * i));
        }
    }
    proof {
        assert(words_bytes(out@) =~= bytes@.subrange(0, 4 * nw));
    }
    out
}

/// Read the next `n` words of a bounded word stream.
pub fn take_words(w: &Vec<u32>, pos: &mut usize, end: usize, n: usize) -> (r: Result<
    Vec<u32>,
    VitaError,
>)
    requires
        *old(pos) <= end,
        end <= w@.len(),
    ensures
        r.is_ok() <==> *old(pos) + n <= end,
        r.is_ok() ==> r.unwrap()@ == w@.subrange(*old(pos) as int, *old(pos) + n) && *final(pos)
            == *old(pos) + n,
        r.is_err() ==> r == Err::<Vec<u32>, VitaError>(VitaError::TruncatedPacket),
{
    if n > end - *pos {
        return Err(VitaError::TruncatedPacket);
    }
    let start: usize = *pos;
    let mut out: Vec<u32> = Vec::new();
    let mut i: usize = 0;
    while i < n
        invariant
            start + n <= end,
            end <= w@.len(),
            i <= n,
            out@ == w@.subrange(start as int, start + i),
        decreases n - i,
    {
        out.push(w[start + i]);
        i = i + 1;
        proof {
            assert(out@ =~= w@.subrange(start as int, start + i));
        }
    }
    *pos = start + n;
    Ok(out)
}

/// Read two words as one 64-bit value, most significant word first.
pub fn join_u64(hi: u32, lo: u32) -> (r: u64)
    ensures
        u64_words(r) == seq![hi, lo],
        r == ((hi as u64) << 32) | (lo as u64),
{
    let r: u64 = ((hi as u64) << 32) | (lo as u64);
    proof {
        lemma_u64_split(hi, lo);
        assert(u64_words(r) =~= seq![hi, lo]);
    }
    r
}

/// Read four words as one 128-bit value, most significant word first.
pub fn join_u128(a: u32, b: u32, c: u32, d: u32) -> (r: u128)
    ensures
        u128_words(r) == seq![a, b, c, d],
{
    let r: u128 = ((a as u128) << 96) | ((b as u128) << 64) | ((c as u128) << 32) | (d as u128);
    proof {
        lemma_u128_split(a, b, c, d);
    }
    r
}

} // verus!

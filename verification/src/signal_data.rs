//! The signal-data payload: an opaque sequence of 32-bit words whose
//! byte view round-trips big-endian.

use vstd::prelude::*;

use crate::bits::{
    lemma_word_from_bytes, lemma_words_bytes_snoc, take_words, word_bytes, words_bytes,
};
use crate::errors::VitaError;

verus! {

/// A signal-data payload.
#[derive(Clone, Debug, PartialEq, Eq)]
pub struct SignalData {
    /// The payload words, each carrying four big-endian bytes.
    pub data: Vec<u32>,
}

impl Default for SignalData {
    /// An empty payload.
    fn default() -> (r: Self)
        ensures
            r.data@ == Seq::<u32>::empty(),
    {
        SignalData { data: Vec::new() }
    }
}

impl SignalData {
    /// The payload must leave room for the header within the 16-bit
    /// packet size.
    pub open spec fn wf(self) -> bool {
        self.data@.len() <= 0xFFFE
    }

    /// The wire words are the payload words themselves.
    pub open spec fn words(self) -> Seq<u32> {
        self.data@
    }

    /// A new, empty signal-data payload.
    pub fn new() -> (r: SignalData)
        ensures
            r.data@ == Seq::<u32>::empty(),
            r.wf(),
    {
        SignalData { data: Vec::new() }
    }

    /// A payload holding the given bytes, four to a word. Fails with
    /// `PayloadUneven32BitWords` exactly when the byte count is not a
    /// multiple of four.
    pub fn from_bytes(bytes: &[u8]) -> (r: Result<SignalData, VitaError>)
        requires
            bytes@.len() <= 0xFFFB * 4,
        ensures
            bytes@.len() % 4 != 0 ==> r == Err::<SignalData, VitaError>(
                VitaError::PayloadUneven32BitWords,
            ),
            bytes@.len() % 4 == 0 ==> (r matches Ok(s) && words_bytes(s.words()) == bytes@ && s.wf()),
    {
        let mut ret = SignalData::new();
        ret.set_payload(bytes)?;
        Ok(ret)
    }

    /// The payload as a vector of bytes, big-endian within each word.
    pub fn payload(&self) -> (r: Vec<u8>)
        ensures
            r@ == words_bytes(self.words()),
    {
        let mut out: Vec<u8> = Vec::new();
        let mut i: usize = 0;
        while i < self.data.len()
            invariant
                i <= self.data@.len(),
                out@ == words_bytes(self.data@.subrange(0, i as int)),
            decreases self.data@.len() - i,
        {
            let w = self.data[i];
            out.push((w >> 24) as u8);
            out.push((w >> 16) as u8);
            out.push((w >> 8) as u8);
            out.push(w as u8);
            i = i + 1;
            proof {
                lemma_words_bytes_snoc(self.data@.subrange(0, i - 1), w);
                assert(self.data@.subrange(0, i as int) =~= self.data@.subrange(0, i - 1).push(w));
                assert(out@ =~= words_bytes(self.data@.subrange(0, i - 1)) + word_bytes(w));
            }
        }
        proof {
            assert(self.data@.subrange(0, self.data@.len() as int) =~= self.data@);
        }
        out
    }

    /// Replace the payload with the given bytes, four to a word.
    /// Fails, leaving the payload unchanged, exactly when the byte
    /// count is not a multiple of four.
    pub fn set_payload(&mut self, bytes: &[u8]) -> (r: Result<(), VitaError>)
        requires
            bytes@.len() <= 0xFFFB * 4,
        ensures
            bytes@.len() % 4 != 0 ==> r == Err::<(), VitaError>(VitaError::PayloadUneven32BitWords)
                && *final(self) == *old(self),
            bytes@.len() % 4 == 0 ==> r == Ok::<(), VitaError>(()) && words_bytes(
                final(self).words(),
            ) == bytes@ && final(self).data@.len() == bytes@.len() / 4 && final(self).wf(),
    {
        if bytes.len() % 4 != 0 {
            return Err(VitaError::PayloadUneven32BitWords);
        }
        let n: usize = bytes.len() / 4;
        let mut packed: Vec<u32> = Vec::new();
        let mut i: usize = 0;
        while i < n
            invariant
                i <= n,
                n == bytes@.len() / 4,
                bytes@.len() % 4 == 0,
                bytes@.len() <= 0xFFFB * 4,
                packed@.len() == i,
                words_bytes(packed@) == bytes@.subrange(0, 4 * i),
            decreases n - i,
        {
            let b0 = bytes[4 * i];
            let b1 = bytes[4 * i + 1];
            let b2 = bytes[4 * i + 2];
            let b3 = bytes[4 * i + 3];
            let w: u32 = ((b0 as u32) << 24) | ((b1 as u32) << 16) | ((b2 as u32) << 8) | (
            b3 as u32);
            proof {
                lemma_word_from_bytes(b0, b1, b2, b3);
                lemma_words_bytes_snoc(packed@, w);
            }
            packed.push(w);
            i = i + 1;
            proof {
                assert(word_bytes(w) =~= bytes@.subrange(4 * (i - 1), 4 * i));
                assert(words_bytes(packed@) =~= bytes@.subrange(0, 4 * i));
            }
        }
        self.data = packed;
        proof {
            assert(bytes@.subrange(0, bytes@.len() as int) =~= bytes@);
        }
        Ok(())
    }

    /// The payload length in 32-bit words.
    pub fn size_words(&self) -> (r: u16)
        requires
            self.wf(),
        ensures
            r == self.data@.len(),
    {
        self.data.len() as u16
    }

    /// The payload length in bytes.
    pub fn payload_size_bytes(&self) -> (r: usize)
        requires
            self.wf(),
        ensures
            r == 4 * self.data@.len(),
    {
        self.data.len() * 4
    }

    /// Append the payload's wire words.
    pub fn encode(&self, out: &mut Vec<u32>)
        ensures
            final(out)@ == old(out)@ + self.words(),
    {
        crate::composites::push_all(out, &self.data);
    }

    /// Read exactly the words remaining before `end` as the payload.
    pub fn parse(w: &Vec<u32>, pos: &mut usize, end: usize) -> (r: Result<SignalData, VitaError>)
        requires
            1 <= *old(pos) <= end,
            end <= w@.len(),
            end <= 0xFFFF,
        ensures
            r matches Ok(s) && s.wf() && s.words() == w@.subrange(*old(pos) as int, end as int),
            *final(pos) == end,
    {
        let n: usize = end - *pos;
        let data = match take_words(w, pos, end, n) {
            Result::Ok(d) => d,
            Result::Err(_) => {
                proof {
                    assert(false);
                }
                Vec::new()
            },
        };
        Ok(SignalData { data })
    }
}

} // verus!

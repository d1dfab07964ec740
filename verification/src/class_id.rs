//! The optional class identifier: the organizationally unique
//! identifier of the class's definer, and the information-class and
//! packet-class codes.

use vstd::prelude::*;

use crate::bits::{lemma_halves, take_word};
use crate::errors::VitaError;

verus! {

/// The two class-identifier words. The first carries the pad-bit
/// count and the 24-bit OUI, kept whole so reserved bits survive a
/// decode/encode cycle.
#[derive(Clone, Copy, Debug, PartialEq, Eq, Structural)]
pub struct ClassId {
    /// Pad-bit count, reserved bits and the 24-bit OUI.
    pub pad_and_oui: u32,
    /// The information-class code.
    pub information_class: u16,
    /// The packet-class code.
    pub packet_class: u16,
}

impl Default for ClassId {
    /// An all-zero class identifier.
    fn default() -> (r: Self)
        ensures
            r == (ClassId { pad_and_oui: 0, information_class: 0, packet_class: 0 }),
    {
        ClassId { pad_and_oui: 0, information_class: 0, packet_class: 0 }
    }
}

impl ClassId {
    /// The two wire words.
    pub open spec fn words(self) -> Seq<u32> {
        seq![
            self.pad_and_oui,
            ((self.information_class as u32) << 16) | (self.packet_class as u32),
        ]
    }

    /// The 24-bit organizationally unique identifier.
    pub fn oui(&self) -> (r: u32)
        ensures
            r == self.pad_and_oui & 0xFFFFFF,
    {
        self.pad_and_oui & 0xFFFFFF
    }

    /// Append the identifier's wire words.
    pub fn encode(&self, out: &mut Vec<u32>)
        ensures
            final(out)@ == old(out)@ + self.words(),
    {
        out.push(self.pad_and_oui);
        out.push(((self.information_class as u32) << 16) | (self.packet_class as u32));
        assert(out@ =~= old(out)@ + self.words());
    }

    /// Read one class identifier from the word stream; it succeeds
    /// exactly when two words remain.
    pub fn parse(w: &Vec<u32>, pos: &mut usize, end: usize) -> (r: Result<ClassId, VitaError>)
        requires
            *old(pos) <= end,
            end <= w@.len(),
        ensures
            r.is_ok() <==> *old(pos) + 2 <= end,
            r.is_ok() ==> *old(pos) <= *final(pos) <= end && r.unwrap().words() == w@.subrange(
                *old(pos) as int,
                *final(pos) as int,
            ),
            r.is_err() ==> r == Err::<ClassId, VitaError>(VitaError::TruncatedPacket),
    {
        let pad_and_oui = take_word(w, pos, end)?;
        let w2 = take_word(w, pos, end)?;
        proof {
            lemma_halves(w2);
        }
        let r = ClassId {
            pad_and_oui,
            information_class: (w2 >> 16) as u16,
            packet_class: (w2 & 0xFFFF) as u16,
        };
        proof {
            assert(r.words() =~= w@.subrange(*old(pos) as int, *final(pos) as int));
        }
        Ok(r)
    }
}

} // verus!

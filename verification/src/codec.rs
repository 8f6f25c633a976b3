//! The raw-bytes argument codec.
//!
//! A call argument may be handed over pre-encoded: the caller serializes it
//! outside the structured argument schema and the payload must cross the
//! serialization boundary untouched.  [`Raw`] is the pass-through container
//! for such a payload, and the contracts here pin its encoding down to the
//! identity on bytes: no truncation, no transformation.

use vstd::prelude::*;
use vstd::slice::slice_to_vec;

verus! {

/// A pre-encoded call argument: opaque bytes carried through the call
/// boundary without interpretation.
#[derive(Debug, PartialEq, Eq)]
pub struct Raw(pub Vec<u8>);

impl Clone for Raw {
    /// Cloning keeps the payload's bytes.
    fn clone(&self) -> (r: Self)
        ensures
            r@ == self@,
    {
        Raw(slice_to_vec(self.0.as_slice()))
    }
}

impl View for Raw {
    type V = Seq<u8>;

    open spec fn view(&self) -> Seq<u8> {
        self.0@
    }
}

/// What serializing a raw payload appends to the output: the payload itself.
pub open spec fn encoded_raw(payload: Seq<u8>) -> Seq<u8> {
    payload
}

/// What deserializing yields from an input buffer: the whole buffer.
pub open spec fn decoded_raw(bytes: Seq<u8>) -> Seq<u8> {
    bytes
}

impl Raw {
    /// Serialize the payload by appending it, byte for byte, to `writer`.
    pub fn serialize(&self, writer: &mut Vec<u8>)
        ensures
            final(writer)@ == old(writer)@ + encoded_raw(self@),
    {
        let mut i: usize = 0;
        while i < self.0.len()
            invariant
                i <= self.0.len(),
                writer@ == old(writer)@ + self.0@.subrange(0, i as int),
            decreases self.0.len() - i,
        {
            writer.push(self.0[i]);
            i = i + 1;
            proof {
                assert(self.0@.subrange(0, i as int)
                    =~= self.0@.subrange(0, i - 1).push(self.0@[i - 1]));
                assert(writer@ =~= old(writer)@ + self.0@.subrange(0, i as int));
            }
        }
        proof {
            assert(self.0@.subrange(0, self.0@.len() as int) =~= self.0@);
        }
    }

    /// Deserialize by taking every byte of the input as the payload.
    pub fn deserialize(bytes: &[u8]) -> (r: Self)
        ensures
            r@ == decoded_raw(bytes@),
    {
        Raw(slice_to_vec(bytes))
    }
}

/// Law: a raw payload survives the codec unchanged.  Encoding is the
/// identity on bytes, and decoding what was encoded returns the original
/// payload; in the other direction, re-encoding a decoded buffer returns
/// that buffer.
pub proof fn lemma_raw_round_trip(payload: Seq<u8>)
    ensures
        encoded_raw(payload) == payload,
        decoded_raw(encoded_raw(payload)) == payload,
        encoded_raw(decoded_raw(payload)) == payload,
{
}

} // verus!

//! Argument records of the administrative calls.
//!
//! An administrative call carries either a structured record, such as
//! [`NewOwnerArgs`], or a pre-encoded payload wrapped in
//! [`crate::codec::Raw`]; the scenario driver serializes the record at the
//! call boundary.

use vstd::prelude::*;

use crate::account::{lemma_valid_id_is_ascii, AccountId};
use crate::codec::Raw;

verus! {

/// An identifier as a raw payload: its characters, one byte each (valid
/// identifiers are ASCII).
pub open spec fn id_payload_bytes(s: Seq<char>) -> Seq<u8> {
    Seq::new(s.len(), |i: int| s[i] as u8)
}

/// Argument record of the owner-change call.
#[derive(Debug)]
pub struct NewOwnerArgs {
    /// The account that is to become the owner.
    pub new_owner: AccountId,
}

impl NewOwnerArgs {
    /// Well-formedness: the proposed owner is a valid identifier.
    pub open spec fn wf(&self) -> bool {
        self.new_owner.wf()
    }

    /// Encode the proposed owner as the sole payload of a raw-argument
    /// owner-change call: the identifier's bytes, nothing around them.
    pub fn to_raw(&self) -> (r: Raw)
        requires
            self.wf(),
        ensures
            r@ == id_payload_bytes(self.new_owner@),
    {
        broadcast use vstd::string::is_ascii_spec_bytes;

        proof {
            lemma_valid_id_is_ascii(self.new_owner@);
        }
        let s = self.new_owner.as_str();
        let bytes = s.as_bytes_vec();
        proof {
            assert(vstd::string::is_ascii(s));
            assert(bytes@ =~= id_payload_bytes(self.new_owner@));
        }
        Raw(bytes)
    }
}

impl Clone for NewOwnerArgs {
    /// Cloning keeps the proposed owner.
    fn clone(&self) -> (r: Self)
        ensures
            r.new_owner@ == self.new_owner@,
    {
        NewOwnerArgs { new_owner: self.new_owner.clone() }
    }
}

} // verus!

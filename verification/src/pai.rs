//! The tile value: a thin wrapper around a numeric code, converted to and
//! from its external representations through the codec table.

use crate::table::code_for;
use crate::table::spec_code_of;
use crate::table::spec_token;
use crate::table::string_for;
use vstd::prelude::*;

verus! {

/// A tile identifier, holding its bare numeric code.
///
/// Any byte is accepted; only codes whose value modulo 60 names a real
/// slot of the table render as a meaningful token, every other byte
/// renders as the sentinel. Two values are equal iff their raw codes are
/// equal: codes are never normalized before comparison, so a value
/// holding code 61 is not equal to one holding code 1 even though both
/// render as the same token.
#[derive(Debug, Clone, Copy, PartialEq, Eq, Structural)]
pub struct Pai(pub u8);

impl Pai {
    /// Render as the human-readable token: the forward table read at slot
    /// `code % 60`.
    pub fn to_human(&self) -> (s: String)
        ensures
            s@ == spec_token((self.0 % 60) as int),
    {
        string_for(self.0)
    }
}

impl<'a> From<&'a str> for Pai {
    /// Parse a token through the reverse lookup. An unrecognized token
    /// silently yields the sentinel value `Pai(0)` rather than an error.
    fn from(s: &'a str) -> (p: Pai) {
        Pai(code_for(s))
    }
}

impl<'a> vstd::std_specs::convert::FromSpecImpl<&'a str> for Pai {
    open spec fn obeys_from_spec() -> bool {
        true
    }

    open spec fn from_spec(s: &'a str) -> Pai {
        Pai(spec_code_of(s@))
    }
}

/// The raw numeric form of a sequence of tiles: each value's bare code,
/// with order and length preserved exactly and no table lookup involved.
pub fn pai_codes(pais: &[Pai]) -> (codes: Vec<u8>)
    ensures
        codes@.len() == pais@.len(),
        forall|k: int| 0 <= k < pais@.len() ==> codes@[k] == pais@[k].0,
{
    let mut codes: Vec<u8> = Vec::new();
    let mut i: usize = 0;
    while i < pais.len()
        invariant
            i <= pais@.len(),
            codes@.len() == i,
            forall|k: int| 0 <= k < i ==> codes@[k] == pais@[k].0,
        decreases pais@.len() - i,
    {
        codes.push(pais[i].0);
        i = i + 1;
    }
    codes
}

} // verus!

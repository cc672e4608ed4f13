//! Laws of the codec: the forward table and the reverse lookup derived
//! from it are inverse to each other wherever that can hold, and decoding
//! wraps around modulo 60.

use crate::table::first_slot_from;
use crate::table::sentinel_token;
use crate::table::spec_code_of;
use crate::table::spec_token;
use vstd::prelude::*;

verus! {

/// The rank named by a rank character; 0 for any other character.
spec fn rank_of(c: char) -> int {
    if c == '1' {
        1
    } else if c == '2' {
        2
    } else if c == '3' {
        3
    } else if c == '4' {
        4
    } else if c == '5' {
        5
    } else if c == '6' {
        6
    } else if c == '7' {
        7
    } else if c == '8' {
        8
    } else if c == '9' {
        9
    } else {
        0
    }
}

/// Reads a slot number back off a token's shape. On every token of the
/// forward table other than the sentinel this recovers the token's slot,
/// which is what makes those tokens pairwise distinct.
spec fn slot_of_token(t: Seq<char>) -> int {
    if t.len() == 1 {
        if t[0] == 'E' {
            41
        } else if t[0] == 'S' {
            42
        } else if t[0] == 'W' {
            43
        } else if t[0] == 'N' {
            44
        } else if t[0] == 'P' {
            45
        } else if t[0] == 'F' {
            46
        } else if t[0] == 'C' {
            47
        } else {
            0
        }
    } else if t.len() == 2 {
        if t[1] == 'm' {
            10 + rank_of(t[0])
        } else if t[1] == 'p' {
            20 + rank_of(t[0])
        } else if t[1] == 's' {
            30 + rank_of(t[0])
        } else {
            0
        }
    } else if t.len() == 3 {
        if t[1] == 'm' {
            51
        } else if t[1] == 'p' {
            52
        } else if t[1] == 's' {
            53
        } else {
            0
        }
    } else {
        0
    }
}

/// On a non-sentinel slot, reading the slot back off the token's shape
/// recovers the slot.
proof fn lemma_slot_of_token(i: int)
    requires
        0 <= i <= 60,
        spec_token(i) != sentinel_token(),
    ensures
        slot_of_token(spec_token(i)) == i,
{
}

/// Scanning from slot `i`, the first match is found: if `t` sits at slot
/// `k` and nowhere in `[i, k)`, the scan starting at `i` yields `k`.
proof fn lemma_first_slot_found(t: Seq<char>, i: nat, k: nat)
    requires
        i <= k <= 60,
        spec_token(k as int) == t,
        forall|j: int| i <= j < k ==> spec_token(j) != t,
    ensures
        first_slot_from(t, i) == k as u8,
    decreases k - i,
{
    if i < k {
        assert(spec_token(i as int) != t);
        lemma_first_slot_found(t, i + 1, k);
    }
}

/// Every token other than the duplicated sentinel occupies exactly one
/// slot of the forward table.
pub proof fn lemma_non_sentinel_slot_unique(i: int, j: int)
    requires
        0 <= i <= 60,
        0 <= j <= 60,
        i != j,
        spec_token(i) != sentinel_token(),
    ensures
        spec_token(i) != spec_token(j),
{
    if spec_token(j) != sentinel_token() {
        lemma_slot_of_token(i);
        lemma_slot_of_token(j);
    }
}

/// Encoding a table token recovers its slot: the token at a non-sentinel
/// slot encodes back to exactly that slot, and the sentinel token encodes
/// to the sentinel code 0 (its first slot), never to any of its duplicates.
pub proof fn lemma_code_of_token(i: int)
    requires
        0 <= i <= 60,
    ensures
        spec_token(i) == sentinel_token() ==> spec_code_of(spec_token(i)) == 0,
        spec_token(i) != sentinel_token() ==> spec_code_of(spec_token(i)) == i as u8,
{
    if spec_token(i) == sentinel_token() {
        assert(spec_token(0) == sentinel_token());
        lemma_first_slot_found(spec_token(i), 0, 0);
    } else {
        assert forall|j: int| 0 <= j < i implies spec_token(j) != spec_token(i) by {
            lemma_non_sentinel_slot_unique(i, j);
        }
        lemma_first_slot_found(spec_token(i), 0, i as nat);
    }
}

/// Round trip: every token that appears in the forward table, the
/// sentinel included, is reproduced by rendering its encoded code.
pub proof fn lemma_token_round_trip(i: int)
    requires
        0 <= i <= 60,
    ensures
        spec_token((spec_code_of(spec_token(i)) % 60) as int) == spec_token(i),
{
    lemma_code_of_token(i);
}

/// Scanning from slot `i`, a token that occurs nowhere at or after `i`
/// yields the sentinel code 0.
proof fn lemma_first_slot_none(t: Seq<char>, i: nat)
    requires
        forall|j: int| i <= j <= 60 ==> spec_token(j) != t,
    ensures
        first_slot_from(t, i) == 0,
    decreases 61 - i,
{
    if i <= 60 {
        lemma_first_slot_none(t, i + 1);
    }
}

/// Uniform fallback: a token that appears nowhere in the forward table
/// encodes to the sentinel code 0, never to an error.
pub proof fn lemma_unknown_token_is_sentinel(t: Seq<char>)
    requires
        forall|i: int| 0 <= i <= 60 ==> spec_token(i) != t,
    ensures
        spec_code_of(t) == 0,
{
    lemma_first_slot_none(t, 0);
}

/// Wrap-around: a code below 60 and that code plus 60 are reduced to the
/// same slot, so both render as the same token.
pub proof fn lemma_decode_wraps(code: u8)
    requires
        code < 60,
    ensures
        spec_token(((code + 60) % 60) as int) == spec_token((code % 60) as int),
{
}

} // verus!

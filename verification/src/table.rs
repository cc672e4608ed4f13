//! The codec table: the forward mapping from numeric code to token, its
//! derived reverse lookup, and the laws that relate the two.

use vstd::prelude::*;

verus! {

/// The character naming rank `d` of a numbered suit, for `d` in 1..=9.
pub open spec fn rank_char(d: int) -> char {
    if d == 1 {
        '1'
    } else if d == 2 {
        '2'
    } else if d == 3 {
        '3'
    } else if d == 4 {
        '4'
    } else if d == 5 {
        '5'
    } else if d == 6 {
        '6'
    } else if d == 7 {
        '7'
    } else if d == 8 {
        '8'
    } else {
        '9'
    }
}

/// The sentinel token, rendered for every code with no assigned meaning.
pub open spec fn sentinel_token() -> Seq<char> {
    seq!['?']
}

/// The forward table: the canonical token at slot `i`.
///
/// Slots 11..=19 hold the man suit `1m`..`9m`, 21..=29 the pin suit,
/// 31..=39 the sou suit, 41..=47 the honors `E`,`S`,`W`,`N`,`P`,`F`,`C`,
/// and 51..=53 the red fives `5mr`,`5pr`,`5sr`. Every other slot holds
/// the sentinel `?`.
pub open spec fn spec_token(i: int) -> Seq<char> {
    if 11 <= i <= 19 {
        seq![rank_char(i - 10), 'm']
    } else if 21 <= i <= 29 {
        seq![rank_char(i - 20), 'p']
    } else if 31 <= i <= 39 {
        seq![rank_char(i - 30), 's']
    } else if i == 41 {
        seq!['E']
    } else if i == 42 {
        seq!['S']
    } else if i == 43 {
        seq!['W']
    } else if i == 44 {
        seq!['N']
    } else if i == 45 {
        seq!['P']
    } else if i == 46 {
        seq!['F']
    } else if i == 47 {
        seq!['C']
    } else if i == 51 {
        seq!['5', 'm', 'r']
    } else if i == 52 {
        seq!['5', 'p', 'r']
    } else if i == 53 {
        seq!['5', 's', 'r']
    } else {
        sentinel_token()
    }
}

/// The slot of the first occurrence of `t` in the forward table at or
/// after slot `i`; the sentinel code 0 when `t` occurs nowhere there.
pub open spec fn first_slot_from(t: Seq<char>, i: nat) -> u8
    decreases 61 - i,
{
    if i > 60 {
        0
    } else if spec_token(i as int) == t {
        i as u8
    } else {
        first_slot_from(t, i + 1)
    }
}

/// The reverse lookup, derived from the forward table by scanning it in
/// slot order with the first match winning. The duplicated sentinel token
/// therefore resolves to slot 0, and a token that appears nowhere in the
/// table yields the sentinel code 0.
pub open spec fn spec_code_of(t: Seq<char>) -> u8 {
    first_slot_from(t, 0)
}

/// The forward table itself: the token stored at slot `idx`.
pub fn token_at(idx: u8) -> (s: String)
    requires
        idx <= 60,
    ensures
        s@ == spec_token(idx as int),
{
    let t: &str = match idx {
        11 => "1m",
        12 => "2m",
        13 => "3m",
        14 => "4m",
        15 => "5m",
        16 => "6m",
        17 => "7m",
        18 => "8m",
        19 => "9m",
        21 => "1p",
        22 => "2p",
        23 => "3p",
        24 => "4p",
        25 => "5p",
        26 => "6p",
        27 => "7p",
        28 => "8p",
        29 => "9p",
        31 => "1s",
        32 => "2s",
        33 => "3s",
        34 => "4s",
        35 => "5s",
        36 => "6s",
        37 => "7s",
        38 => "8s",
        39 => "9s",
        41 => "E",
        42 => "S",
        43 => "W",
        44 => "N",
        45 => "P",
        46 => "F",
        47 => "C",
        51 => "5mr",
        52 => "5pr",
        53 => "5sr",
        _ => "?",
    };
    proof {
        reveal_strlit("1m");
        reveal_strlit("2m");
        reveal_strlit("3m");
        reveal_strlit("4m");
        reveal_strlit("5m");
        reveal_strlit("6m");
        reveal_strlit("7m");
        reveal_strlit("8m");
        reveal_strlit("9m");
        reveal_strlit("1p");
        reveal_strlit("2p");
        reveal_strlit("3p");
        reveal_strlit("4p");
        reveal_strlit("5p");
        reveal_strlit("6p");
        reveal_strlit("7p");
        reveal_strlit("8p");
        reveal_strlit("9p");
        reveal_strlit("1s");
        reveal_strlit("2s");
        reveal_strlit("3s");
        reveal_strlit("4s");
        reveal_strlit("5s");
        reveal_strlit("6s");
        reveal_strlit("7s");
        reveal_strlit("8s");
        reveal_strlit("9s");
        reveal_strlit("E");
        reveal_strlit("S");
        reveal_strlit("W");
        reveal_strlit("N");
        reveal_strlit("P");
        reveal_strlit("F");
        reveal_strlit("C");
        reveal_strlit("5mr");
        reveal_strlit("5pr");
        reveal_strlit("5sr");
        reveal_strlit("?");
        assert(t@ =~= spec_token(idx as int));
    }
    t.to_owned()
}

/// Code to token. The code is reduced modulo 60 before the table is read,
/// so that every byte maps to some token (deliberate wrap-around rather
/// than an out-of-bounds read).
pub fn string_for(code: u8) -> (s: String)
    ensures
        s@ == spec_token((code % 60) as int),
{
    token_at(code % 60)
}

/// Token to code: scan the forward table in slot order and return the
/// first slot holding `token`; an unrecognized token yields the sentinel
/// code 0 rather than an error.
pub fn code_for(token: &str) -> (code: u8)
    ensures
        code == spec_code_of(token@),
{
    let t: String = token.to_owned();
    let mut i: u8 = 0;
    while i <= 60
        invariant
            i <= 61,
            t@ == token@,
            spec_code_of(token@) == first_slot_from(token@, i as nat),
        decreases 61 - i,
    {
        let cand = token_at(i);
        if cand.eq(&t) {
            return i;
        }
        i = i + 1;
    }
    0
}

} // verus!

//! Big-endian packing of four octets into a 32-bit word.
//!
//! Virtual IPv4 addresses and frame length prefixes share this layout: the
//! first octet is the most significant one.

use vstd::arithmetic::div_mod::{
    lemma_div_denominator, lemma_fundamental_div_mod, lemma_fundamental_div_mod_converse,
};
use vstd::prelude::*;

verus! {

/// The word whose big-endian octets are `a`, `b`, `c`, `d`.
pub open spec fn join_octets(a: u8, b: u8, c: u8, d: u8) -> u32 {
    (a as int * 16777216 + b as int * 65536 + c as int * 256 + d as int) as u32
}

/// The `i`-th big-endian octet of `word` (`0` is the most significant).
pub open spec fn octet_at(word: u32, i: int) -> u8 {
    if i == 0 {
        (word as int / 16777216) as u8
    } else if i == 1 {
        (word as int / 65536 % 256) as u8
    } else if i == 2 {
        (word as int / 256 % 256) as u8
    } else {
        (word as int % 256) as u8
    }
}

/// The four big-endian octets of `word`.
pub open spec fn split_word(word: u32) -> Seq<u8> {
    seq![octet_at(word, 0), octet_at(word, 1), octet_at(word, 2), octet_at(word, 3)]
}

/// The word spelled by the first four octets of `octets`.
pub open spec fn join_seq(octets: Seq<u8>) -> u32
    recommends
        octets.len() >= 4,
{
    join_octets(octets[0], octets[1], octets[2], octets[3])
}

/// Splitting a word and joining the octets again gives the word back.
pub proof fn lemma_join_split(word: u32)
    ensures
        join_octets(
            octet_at(word, 0),
            octet_at(word, 1),
            octet_at(word, 2),
            octet_at(word, 3),
        ) == word,
        join_seq(split_word(word)) == word,
{
    let w: int = word as int;
    let hi: int = w / 16777216;
    let mid: int = w / 65536;
    let low: int = w / 256;
    lemma_fundamental_div_mod(w, 256);
    lemma_fundamental_div_mod(low, 256);
    lemma_fundamental_div_mod(mid, 256);
    lemma_div_denominator(w, 256, 256);
    lemma_div_denominator(w, 65536, 256);
    assert(low / 256 == mid);
    assert(mid / 256 == hi);
    assert(0 <= hi < 256);
    assert(w == hi * 16777216 + (mid % 256) * 65536 + (low % 256) * 256 + w % 256);
}

/// Joining four octets and splitting the word again gives the octets back.
pub proof fn lemma_split_join(a: u8, b: u8, c: u8, d: u8)
    ensures
        octet_at(join_octets(a, b, c, d), 0) == a,
        octet_at(join_octets(a, b, c, d), 1) == b,
        octet_at(join_octets(a, b, c, d), 2) == c,
        octet_at(join_octets(a, b, c, d), 3) == d,
        split_word(join_octets(a, b, c, d)) == seq![a, b, c, d],
{
    let w: int = a as int * 16777216 + b as int * 65536 + c as int * 256 + d as int;
    assert(0 <= w < 4294967296);
    lemma_fundamental_div_mod_converse(
        w,
        16777216,
        a as int,
        b as int * 65536 + c as int * 256 + d as int,
    );
    lemma_fundamental_div_mod_converse(w, 65536, a as int * 256 + b as int, c as int * 256 + d as int);
    lemma_fundamental_div_mod_converse(a as int * 256 + b as int, 256, a as int, b as int);
    lemma_fundamental_div_mod_converse(
        w,
        256,
        a as int * 65536 + b as int * 256 + c as int,
        d as int,
    );
    lemma_fundamental_div_mod_converse(
        a as int * 65536 + b as int * 256 + c as int,
        256,
        a as int * 256 + b as int,
        c as int,
    );
    assert(w / 16777216 == a as int);
    assert(w / 65536 % 256 == b as int);
    assert(w / 256 % 256 == c as int);
    assert(w % 256 == d as int);
}

/// Packs four big-endian octets into a word.
pub fn from_octets(octets: [u8; 4]) -> (word: u32)
    ensures
        word == join_octets(octets[0], octets[1], octets[2], octets[3]),
        split_word(word) == octets@,
{
    proof {
        lemma_split_join(octets[0], octets[1], octets[2], octets[3]);
        assert(octets@ =~= seq![octets[0], octets[1], octets[2], octets[3]]);
    }
    let a: u32 = octets[0] as u32;
    let b: u32 = octets[1] as u32;
    let c: u32 = octets[2] as u32;
    let d: u32 = octets[3] as u32;
    a * 16777216 + b * 65536 + c * 256 + d
}

/// Unpacks a word into its four big-endian octets.
pub fn to_octets(word: u32) -> (octets: [u8; 4])
    ensures
        octets@ == split_word(word),
        join_octets(octets[0], octets[1], octets[2], octets[3]) == word,
{
    proof {
        lemma_join_split(word);
    }
    let a: u8 = (word / 16777216) as u8;
    let b: u8 = (word / 65536 % 256) as u8;
    let c: u8 = (word / 256 % 256) as u8;
    let d: u8 = (word % 256) as u8;
    let octets: [u8; 4] = [a, b, c, d];
    assert(octets@ =~= split_word(word));
    octets
}

} // verus!

//! Text armor: bytes written as standard base64 (the alphabet that ends in
//! `+` and `/`, padded with `=` to a multiple of four characters, without line
//! breaks), so that they can travel where only text can.

use base64::engine::general_purpose::STANDARD;
use base64::Engine;
use vstd::prelude::*;

verus! {

/// The 64 symbols of standard base64, in the order of their values.
pub open spec fn alphabet() -> Seq<char> {
    "ABCDEFGHIJKLMNOPQRSTUVWXYZabcdefghijklmnopqrstuvwxyz0123456789+/"@
}

/// The four characters that stand for a group of one, two or three bytes.
/// The bits of the group are read six at a time, from the highest down;
/// where the group is short, the missing low bits are zero and the
/// characters that would hold nothing but missing bits are `=`.
pub open spec fn armor_group(group: Seq<u8>) -> Seq<char>
    recommends
        1 <= group.len() <= 3,
{
    let b0 = group[0] as int;
    let b1 = if group.len() > 1 { group[1] as int } else { 0 };
    let b2 = if group.len() > 2 { group[2] as int } else { 0 };
    seq![
        alphabet()[b0 / 4],
        alphabet()[(b0 % 4) * 16 + b1 / 16],
        if group.len() > 1 { alphabet()[(b1 % 16) * 4 + b2 / 64] } else { '=' },
        if group.len() > 2 { alphabet()[b2 % 64] } else { '=' },
    ]
}

/// Standard base64 of `bytes`: the groups of three bytes in order, each as
/// four characters, with a last group of one or two bytes padded.
pub open spec fn armor_of(bytes: Seq<u8>) -> Seq<char>
    decreases bytes.len(),
{
    if bytes.len() == 0 {
        Seq::empty()
    } else if bytes.len() <= 3 {
        armor_group(bytes)
    } else {
        armor_group(bytes.take(3)) + armor_of(bytes.skip(3))
    }
}

/// The number of characters that `len` bytes take in armor.
pub open spec fn armor_len(len: nat) -> nat {
    4 * ((len + 2) / 3)
}

/// The longest input, in bytes, whose armor can be held in memory as one
/// string: a string has at most `isize::MAX` bytes.
pub open spec fn armor_limit() -> nat {
    (isize::MAX as nat) / 4 * 3
}

/// Whether `len` bytes can be armored.
pub open spec fn can_armor(len: nat) -> bool {
    len <= armor_limit()
}

/// The armor of `len` bytes has `armor_len(len)` characters.
pub proof fn lemma_armor_len(bytes: Seq<u8>)
    ensures
        armor_of(bytes).len() == armor_len(bytes.len()),
    decreases bytes.len(),
{
    if bytes.len() > 3 {
        lemma_armor_len(bytes.skip(3));
    }
}

/// Within the limit, the armor fits in a string.
pub proof fn lemma_armor_fits(len: nat)
    requires
        can_armor(len),
    ensures
        armor_len(len) <= isize::MAX,
{
}

/// Calls `Engine::encode` of the base64 crate on its `STANDARD` engine.
/// Trusted: that the string it returns is the standard base64 of the input,
/// as `armor_of` states it. The call fails on an input whose armor would be
/// longer than a string can be, which the precondition leaves out.
#[verifier::external_body]
fn base64_standard(bytes: &[u8]) -> (text: String)
    requires
        armor_len(bytes@.len()) <= isize::MAX,
    ensures
        text@ == armor_of(bytes@),
{
    STANDARD.encode(bytes)
}

/// Armors `bytes`, unless they are too many for their armor to be held in
/// one string.
pub fn armor(bytes: &[u8]) -> (text: Option<String>)
    ensures
        can_armor(bytes@.len()) ==> text is Some && text->Some_0@ == armor_of(bytes@),
        !can_armor(bytes@.len()) ==> text is None,
        text matches Some(t) ==> t@.len() == armor_len(bytes@.len()),
{
    if bytes.len() <= (isize::MAX as usize) / 4 * 3 {
        proof {
            lemma_armor_fits(bytes@.len());
            lemma_armor_len(bytes@);
        }
        Some(base64_standard(bytes))
    } else {
        None
    }
}

} // verus!

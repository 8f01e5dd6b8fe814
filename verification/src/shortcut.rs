//! Reading the target of a shortcut out of the buffer that the shell fills.

use vstd::prelude::*;

verus! {

/// What `String::from_utf16_lossy` decodes a sequence of UTF-16 code units
/// to.
pub uninterp spec fn utf16_lossy(units: Seq<u16>) -> Seq<char>;

/// Calls `String::from_utf16_lossy`, which decodes UTF-16 and puts the
/// replacement character in the place of what is not valid. The text is a
/// function of the code units, which is all the contract claims.
#[verifier::external_body]
fn decode_utf16_lossy(units: &Vec<u16>) -> (text: String)
    ensures
        text@ == utf16_lossy(units@),
{
    String::from_utf16_lossy(units)
}

/// The number of code units before the first zero, or the length of the
/// buffer where it holds no zero.
pub open spec fn terminator_position(units: Seq<u16>) -> int
    decreases units.len(),
{
    if units.len() == 0 || units[0] == 0 {
        0
    } else {
        1 + terminator_position(units.skip(1))
    }
}

/// The code units before the terminating zero.
pub open spec fn before_terminator(units: Seq<u16>) -> Seq<u16> {
    units.take(terminator_position(units))
}

/// The position of the terminator lies in the buffer, no unit before it is
/// zero, and a unit at it is zero.
pub proof fn lemma_terminator_position(units: Seq<u16>)
    ensures
        0 <= terminator_position(units) <= units.len(),
        forall|i: int| 0 <= i < terminator_position(units) ==> units[i] != 0,
        terminator_position(units) < units.len() ==> units[terminator_position(units)] == 0,
    decreases units.len(),
{
    if units.len() > 0 && units[0] != 0 {
        let rest = units.skip(1);
        lemma_terminator_position(rest);
        assert forall|i: int| 0 <= i < terminator_position(units) implies units[i] != 0 by {
            if i > 0 {
                assert(units[i] == rest[i - 1]);
            }
        }
        if terminator_position(units) < units.len() {
            assert(units[terminator_position(units)] == rest[terminator_position(rest)]);
        }
    }
}

/// Copies the code units before the first zero.
pub fn units_before_terminator(slice: &[u16]) -> (units: Vec<u16>)
    ensures
        units@ == before_terminator(slice@),
{
    let mut units: Vec<u16> = Vec::new();
    let mut at: usize = 0;
    assert(slice@.skip(0) =~= slice@);
    while at < slice.len() && slice[at] != 0
        invariant
            at <= slice.len(),
            units@ == slice@.take(at as int),
            terminator_position(slice@) == at + terminator_position(slice@.skip(at as int)),
        decreases slice.len() - at,
    {
        units.push(slice[at]);
        assert(slice@.skip(at as int).skip(1) =~= slice@.skip(at + 1));
        assert(slice@.take(at + 1) =~= slice@.take(at as int).push(slice@[at as int]));
        at += 1;
    }
    units
}

/// Reads the text in front of the terminating zero of a buffer of UTF-16
/// code units. A buffer without a zero is read to its end.
pub fn strip_null_terminator(slice: &[u16]) -> (text: Option<String>)
    ensures
        text matches Some(decoded) && decoded@ == utf16_lossy(before_terminator(slice@)),
{
    let units = units_before_terminator(slice);
    Some(decode_utf16_lossy(&units))
}

} // verus!

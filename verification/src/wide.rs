//! Text for the system's wide-character interfaces.

use vstd::prelude::*;

verus! {

/// The UTF-16 code units of one character: the character itself where it
/// fits in sixteen bits, and a surrogate pair, high before low, where it
/// does not.
pub open spec fn utf16_of_char(c: char) -> Seq<u16> {
    let scalar = c as u32 as int;
    if scalar < 0x1_0000 {
        seq![scalar as u16]
    } else {
        seq![
            (0xD800 + (scalar - 0x1_0000) / 0x400) as u16,
            (0xDC00 + (scalar - 0x1_0000) % 0x400) as u16,
        ]
    }
}

/// The UTF-16 code units of a text: those of its characters, in order.
pub open spec fn utf16_of(text: Seq<char>) -> Seq<u16>
    decreases text.len(),
{
    if text.len() == 0 {
        Seq::empty()
    } else {
        utf16_of(text.drop_last()) + utf16_of_char(text.last())
    }
}

/// Encodes `s` as UTF-16 and ends it with a zero, as the system's
/// wide-character interfaces take their strings.
pub fn wide_string(s: &str) -> (wide: Vec<u16>)
    ensures
        wide@ == utf16_of(s@).push(0),
{
    let mut wide: Vec<u16> = Vec::new();
    for c in it: s.chars()
        invariant
            it.seq() == s@,
            wide@ == utf16_of(s@.take(it.index())),
    {
        assert(s@.take(it.index() + 1).drop_last() =~= s@.take(it.index()));
        let scalar: u32 = c as u32;
        if scalar < 0x1_0000 {
            wide.push(scalar as u16);
        } else {
            let offset: u32 = scalar - 0x1_0000;
            wide.push((0xD800 + offset / 0x400) as u16);
            wide.push((0xDC00 + offset % 0x400) as u16);
        }
    }
    assert(s@.take(s@.len() as int) =~= s@);
    wide.push(0);
    wide
}

} // verus!

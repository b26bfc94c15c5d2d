//! The last number of an address.

use crate::text;
use vstd::prelude::*;

verus! {

/// What stands behind the last dot of an address, up to the colon before the
/// port.
pub open spec fn last_octet(ip: Seq<char>) -> Seq<char> {
    text::before_first(text::behind_last(ip, '.'), ':')
}

/// The last number of an address, or zero where there is none that fits in a
/// byte.
pub fn get_ip(ip: &str) -> (octet: u8)
    ensures
        octet == if text::writes_byte(last_octet(ip@)) {
            text::byte_value(last_octet(ip@))
        } else {
            0
        },
{
    let chars: Vec<char> = text::characters(ip);
    let from: usize = text::find_behind_last(&chars, '.');
    let upto: usize = text::find_first(&chars, ':', from);
    proof {
        let tail = text::behind_last(ip@, '.');
        lemma_place_in_tail(ip@, ':', from as int, from as int);
        assert(chars@.subrange(from as int, upto as int) =~= tail.take(
            text::first_place(tail, ':', 0),
        ));
    }
    match text::parse_byte(&chars, from, upto) {
        Some(octet) => octet,
        None => 0,
    }
}

/// Looking for a character in the tail of a text finds it at the same spot as
/// looking for it in the whole text from there on.
proof fn lemma_place_in_tail(s: Seq<char>, c: char, start: int, from: int)
    requires
        0 <= start <= from <= s.len(),
    ensures
        text::first_place(s, c, from) == start + text::first_place(s.skip(start), c, from - start),
    decreases s.len() - from,
{
    if from < s.len() && s[from] != c {
        lemma_place_in_tail(s, c, start, from + 1);
    }
}

} // verus!

//! The name under which a running instance announces itself.

use vstd::prelude::*;
use vstd::string::{StrSliceExecFns, StringExecFns};

verus! {

/// The UTF-16 code units of one character: the character's own code where
/// it is below 0x10000, else a high and a low surrogate that carry the upper
/// and the lower ten bits of what the code exceeds 0x10000 by.
pub open spec fn char_utf16(c: char) -> Seq<u16> {
    let code = c as int;
    if code < 0x10000 {
        seq![code as u16]
    } else {
        seq![(0xD800 + (code - 0x10000) / 0x400) as u16, (0xDC00 + (code - 0x10000) % 0x400) as u16]
    }
}

/// The UTF-16 code units of a text: those of its characters, in order.
pub open spec fn utf16(text: Seq<char>) -> Seq<u16>
    decreases text.len(),
{
    if text.len() == 0 {
        Seq::empty()
    } else {
        utf16(text.drop_last()) + char_utf16(text.last())
    }
}

/// The name of the system-wide lock for a window title: the title between
/// `Global\` and `_mutex`, in UTF-16, ended by a zero.
pub open spec fn mutex_name(window_title: Seq<char>) -> Seq<u16> {
    utf16("Global\\"@ + window_title + "_mutex"@).push(0u16)
}

/// Returns the UTF-16 code units of `text`.
pub fn encode_utf16(text: &str) -> (units: Vec<u16>)
    ensures
        units@ == utf16(text@),
{
    let n = text.unicode_len();
    let mut units: Vec<u16> = Vec::new();
    let mut i: usize = 0;
    while i < n
        invariant
            i <= n,
            n == text@.len(),
            units@ == utf16(text@.take(i as int)),
        decreases n - i,
    {
        let c = text.get_char(i);
        let code: u32 = c as u32;
        proof {
            let next = text@.take(i + 1);
            assert(next.drop_last() =~= text@.take(i as int));
            assert(next.last() == c);
        }
        if code < 0x10000 {
            units.push(code as u16);
        } else {
            let rest: u32 = code - 0x10000;
            units.push((0xD800 + rest / 0x400) as u16);
            units.push((0xDC00 + rest % 0x400) as u16);
        }
        assert(units@ =~= utf16(text@.take(i as int)) + char_utf16(c));
        i += 1;
    }
    assert(text@.take(n as int) =~= text@);
    units
}

/// Returns the name of the system-wide lock for `window_title`.
pub fn create_mutex_name(window_title: &str) -> (name: Vec<u16>)
    ensures
        name@ == mutex_name(window_title@),
{
    let mut text = String::from_str("Global\\");
    text.append(window_title);
    text.append("_mutex");
    let mut name = encode_utf16(text.as_str());
    name.push(0);
    name
}

} // verus!

//! UTF-16 text for the Windows wide-string APIs.

use vstd::prelude::*;

verus! {

/// The UTF-16 code units of one character: one unit in the basic
/// multilingual plane, a surrogate pair above it.
pub open spec fn utf16_of_char(c: char) -> Seq<u16> {
    let v = c as int;
    if v < 0x10000 {
        seq![v as u16]
    } else {
        let w = v - 0x10000;
        seq![(0xD800 + w / 0x400) as u16, (0xDC00 + w % 0x400) as u16]
    }
}

/// The UTF-16 encoding of a character sequence.
pub open spec fn utf16_encode(s: Seq<char>) -> Seq<u16>
    decreases s.len(),
{
    if s.len() == 0 {
        seq![]
    } else {
        utf16_encode(s.drop_last()) + utf16_of_char(s.last())
    }
}

/// Calls `str::encode_utf16` and collects the units; the contract claims
/// what its documentation says, that the units are the string's UTF-16
/// encoding (native endian, no byte-order mark).
#[verifier::external_body]
fn encode_utf16(text: &str) -> (units: Vec<u16>)
    ensures
        units@ == utf16_encode(text@),
{
    text.encode_utf16().collect()
}

/// Converts a string into a NUL-terminated UTF-16 string for Windows.
pub fn wide(text: &str) -> (units: Vec<u16>)
    ensures
        units@ == utf16_encode(text@).push(0u16),
{
    let mut units = encode_utf16(text);
    units.push(0);
    units
}

/// Copies the UTF-16 encoding of `text` into a fixed-size Windows character
/// array, as far as both reach; the rest of `target` is left as it was.
pub fn copy_wide_to_fixed(text: &str, target: &mut [u16])
    ensures
        final(target)@.len() == old(target)@.len(),
        forall|i: int|
            0 <= i < old(target)@.len() ==> #[trigger] final(target)@[i] == if i < utf16_encode(
                text@,
            ).len() {
                utf16_encode(text@)[i]
            } else {
                old(target)@[i]
            },
{
    let units = encode_utf16(text);
    let n: usize = if units.len() < target.len() { units.len() } else { target.len() };
    let mut i: usize = 0;
    while i < n
        invariant
            n <= units@.len(),
            n <= target@.len(),
            units@ == utf16_encode(text@),
            n == units@.len() || n == old(target)@.len(),
            i <= n,
            target@.len() == old(target)@.len(),
            forall|j: int| 0 <= j < i ==> #[trigger] target@[j] == units@[j],
            forall|j: int| i <= j < target@.len() ==> #[trigger] target@[j] == old(target)@[j],
        decreases n - i,
    {
        target[i] = units[i];
        i = i + 1;
    }
}

} // verus!

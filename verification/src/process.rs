//! Telling the player's process and module from all the others by name.
//!
//! The operating system lists processes and modules with their names as
//! zero-terminated wide strings. Making the list is the caller's business;
//! picking the right entry is done here.

use vstd::prelude::*;
use vstd::slice::slice_subrange;
use crate::text::{chars_of, decode_utf16_lossy};

verus! {

/// The number of code units in front of the first zero unit of `buffer` at or
/// behind `from`, counted from the start of the buffer; the length of the
/// buffer if there is no zero unit.
pub open spec fn terminator(buffer: Seq<u16>, from: int) -> int
    decreases buffer.len() - from,
{
    if from >= buffer.len() || from < 0 {
        buffer.len() as int
    } else if buffer[from] == 0 {
        from
    } else {
        terminator(buffer, from + 1)
    }
}

/// The name that a buffer holds: the text of its code units up to the first
/// zero unit.
pub open spec fn name_in(buffer: Seq<u16>) -> Seq<char> {
    decode_utf16_lossy(buffer.take(terminator(buffer, 0)))
}

/// The number of a character, with the capital letters of ASCII counted as
/// their small ones.
pub open spec fn folded(c: char) -> u32 {
    if 'A' <= c <= 'Z' {
        (c as u32 + 32) as u32
    } else {
        c as u32
    }
}

/// Whether two names are the same but for the case of ASCII letters.
pub open spec fn same_name(a: Seq<char>, b: Seq<char>) -> bool {
    a.len() == b.len() && forall|i: int| 0 <= i < a.len() ==> folded(#[trigger] a[i]) == folded(
        b[i],
    )
}

/// Whether the entry at `index` is the first whose name is `target` but for
/// the case of ASCII letters.
pub open spec fn first_named(entries: Seq<Vec<u16>>, target: Seq<char>, index: int) -> bool {
    &&& 0 <= index < entries.len()
    &&& same_name(name_in(entries[index]@), target)
    &&& forall|earlier: int|
        0 <= earlier < index ==> !same_name(name_in(#[trigger] entries[earlier]@), target)
}

/// Reads the name out of a zero-terminated buffer. Malformed UTF-16 is
/// replaced, never refused.
pub fn entry_name(buffer: &[u16]) -> (name: String)
    ensures
        name@ == name_in(buffer@),
{
    let mut length: usize = 0;
    while length < buffer.len() && buffer[length] != 0
        invariant
            length <= buffer@.len(),
            terminator(buffer@, length as int) == terminator(buffer@, 0),
        decreases buffer@.len() - length,
    {
        length += 1;
    }
    let units = slice_subrange(buffer, 0, length);
    String::from_utf16_lossy(units)
}

/// The number of a character, with the capital letters of ASCII counted as
/// their small ones.
fn fold(c: char) -> (code: u32)
    ensures
        code == folded(c),
{
    if 'A' <= c && c <= 'Z' {
        c as u32 + 32
    } else {
        c as u32
    }
}

/// Tells whether two names are the same but for the case of ASCII letters.
pub fn names_match(a: &str, b: &str) -> (same: bool)
    ensures
        same == same_name(a@, b@),
{
    let left = chars_of(a);
    let right = chars_of(b);
    if left.len() != right.len() {
        return false;
    }
    let mut i: usize = 0;
    while i < left.len()
        invariant
            i <= left@.len(),
            left@.len() == right@.len(),
            left@ == a@,
            right@ == b@,
            forall|j: int| 0 <= j < i ==> folded(#[trigger] left@[j]) == folded(right@[j]),
        decreases left@.len() - i,
    {
        if fold(left[i]) != fold(right[i]) {
            return false;
        }
        i += 1;
    }
    true
}

/// Finds the first entry whose name is `target` but for the case of ASCII
/// letters. `entries` holds the name buffers in the order in which the
/// operating system listed them.
pub fn find_entry(entries: &Vec<Vec<u16>>, target: &str) -> (found: Option<usize>)
    ensures
        match found {
            Some(index) => first_named(entries@, target@, index as int),
            None => forall|index: int|
                0 <= index < entries@.len() ==> !same_name(
                    name_in(#[trigger] entries@[index]@),
                    target@,
                ),
        },
{
    let mut index: usize = 0;
    while index < entries.len()
        invariant
            index <= entries@.len(),
            forall|earlier: int|
                0 <= earlier < index ==> !same_name(
                    name_in(#[trigger] entries@[earlier]@),
                    target@,
                ),
        decreases entries@.len() - index,
    {
        let name = entry_name(entries[index].as_slice());
        if names_match(name.as_str(), target) {
            return Some(index);
        }
        index += 1;
    }
    None
}

} // verus!

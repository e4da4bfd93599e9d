//! Strings as character vectors, for comparing them position by position.

use vstd::prelude::*;

verus! {

/// The characters of `s`, in order.
pub fn chars_of(s: &str) -> (v: Vec<char>)
    ensures
        v@ == s@,
{
    let mut v: Vec<char> = Vec::new();
    for c in it: s.chars()
        invariant
            v@ == s@.take(it.index() as int),
            it.seq() == s@,
    {
        v.push(c);
    }
    v
}

/// The text held by each vector of `table`, in order.
pub open spec fn rows(table: Seq<Vec<char>>) -> Seq<Seq<char>> {
    Seq::new(table.len(), |j: int| table[j]@)
}

/// The characters of each string in `names`, in order.
pub fn chars_of_each(names: &[&str]) -> (table: Vec<Vec<char>>)
    ensures
        rows(table@) == names.deep_view(),
{
    let mut table: Vec<Vec<char>> = Vec::new();
    let mut i: usize = 0;
    while i < names.len()
        invariant
            i <= names.len(),
            table.len() == i,
            forall|j: int| 0 <= j < i ==> (#[trigger] table@[j])@ == names@[j]@,
        decreases names.len() - i,
    {
        table.push(chars_of(names[i]));
        i += 1;
    }
    assert(rows(table@) =~= names.deep_view());
    table
}

/// Whether the first `len` characters of `pattern` begin `text`.
pub(crate) fn begins_with(text: &Vec<char>, pattern: &Vec<char>, len: usize) -> (r: bool)
    requires
        len <= pattern.len(),
    ensures
        r == pattern@.take(len as int).is_prefix_of(text@),
{
    if len > text.len() {
        return false;
    }
    let mut i: usize = 0;
    while i < len
        invariant
            i <= len <= text.len(),
            len <= pattern.len(),
            forall|j: int| 0 <= j < i ==> text@[j] == pattern@[j],
        decreases len - i,
    {
        if text[i] != pattern[i] {
            assert(pattern@.take(len as int)[i as int] != text@.subrange(0, len as int)[i as int]);
            return false;
        }
        i += 1;
    }
    assert(pattern@.take(len as int) =~= text@.subrange(0, len as int));
    true
}

} // verus!

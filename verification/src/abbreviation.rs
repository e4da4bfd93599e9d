//! The shortest abbreviation that names each command of a set, and the help
//! text that shows it in parentheses at the head of the command's name.

use crate::chars::{chars_of, chars_of_each, rows};
use crate::command::{candidates, candidates_begin_with_input, positions};
use vstd::prelude::*;

verus! {

/// Whether exactly one of `names` begins with `prefix`.
pub open spec fn names_one(names: Seq<Seq<char>>, prefix: Seq<char>) -> bool {
    candidates(names, prefix).len() == 1
}

/// Whether no prefix of `name`, from the empty one to `name` itself, is borne
/// by exactly one of `names`.
pub open spec fn has_no_unique_prefix(names: Seq<Seq<char>>, name: Seq<char>) -> bool {
    forall|k: int| 0 <= k <= name.len() ==> !names_one(names, #[trigger] name.take(k))
}

/// Whether `len` is the least length at which a prefix of `name` is borne by
/// exactly one of `names`.
pub open spec fn is_shortest_unique(names: Seq<Seq<char>>, name: Seq<char>, len: int) -> bool {
    &&& 0 <= len <= name.len()
    &&& names_one(names, name.take(len))
    &&& forall|k: int| 0 <= k < len ==> !names_one(names, #[trigger] name.take(k))
}

/// `name` with its first `len` characters in parentheses.
pub open spec fn marked(name: Seq<char>, len: int) -> Seq<char> {
    seq!['('] + name.take(len) + seq![')'] + name.skip(len)
}

/// Whether `text` shows `name` with its shortest unique prefix among `names`
/// in parentheses, or `name` as it is where it has no such prefix.
pub open spec fn is_abbreviation_of(
    names: Seq<Seq<char>>,
    name: Seq<char>,
    text: Seq<char>,
) -> bool {
    ||| exists|len: int|
        #[trigger] is_shortest_unique(names, name, len) && text == marked(name, len)
    ||| has_no_unique_prefix(names, name) && text == name
}

/// The length of the shortest prefix of `name` that exactly one of `commands`
/// begins with; `None` where `name` has no such prefix.
pub fn shortest_unique_prefix(commands: &[&str], name: &str) -> (r: Option<usize>)
    ensures
        match r {
            Some(len) => is_shortest_unique(commands.deep_view(), name@, len as int),
            None => has_no_unique_prefix(commands.deep_view(), name@),
        },
{
    let table = chars_of_each(commands);
    let pattern = chars_of(name);
    let ghost names = commands.deep_view();
    let mut len: usize = 0;
    loop
        invariant
            len <= pattern.len(),
            pattern@ == name@,
            names == commands.deep_view(),
            rows(table@) == names,
            forall|k: int| 0 <= k < len ==> !names_one(names, #[trigger] name@.take(k)),
        decreases pattern.len() - len,
    {
        if positions(&table, &pattern, len).len() == 1 {
            return Some(len);
        }
        if len == pattern.len() {
            return None;
        }
        len += 1;
    }
}

/// `name` with its shortest unique prefix among `commands` in parentheses:
/// `(ve)rsion` where another command begins with `v`. A name without such a
/// prefix is returned as it is.
pub fn abbreviated(commands: &[&str], name: &str) -> (text: String)
    ensures
        is_abbreviation_of(commands.deep_view(), name@, text@),
{
    match shortest_unique_prefix(commands, name) {
        Some(len) => {
            proof {
                reveal_strlit("(");
                reveal_strlit(")");
            }
            let total = name.unicode_len();
            let mut text = String::from_str("(");
            text.append(name.substring_char(0, len));
            text.append(")");
            text.append(name.substring_char(len, total));
            assert(text@ =~= marked(name@, len as int));
            assert(is_shortest_unique(commands.deep_view(), name@, len as int));
            text
        },
        None => String::from_str(name),
    }
}

/// Each of `commands` with its shortest unique prefix in parentheses, in the
/// order of `commands`.
pub fn abbreviations(commands: &[&str]) -> (labels: Vec<String>)
    ensures
        labels.len() == commands.len(),
        forall|i: int|
            0 <= i < commands.len() ==> is_abbreviation_of(
                commands.deep_view(),
                #[trigger] commands.deep_view()[i],
                labels.deep_view()[i],
            ),
{
    let mut labels: Vec<String> = Vec::new();
    let mut i: usize = 0;
    while i < commands.len()
        invariant
            i <= commands.len(),
            labels.len() == i,
            forall|j: int|
                0 <= j < i ==> is_abbreviation_of(
                    commands.deep_view(),
                    #[trigger] commands.deep_view()[j],
                    labels@[j]@,
                ),
        decreases commands.len() - i,
    {
        labels.push(abbreviated(commands, commands[i]));
        i += 1;
    }
    labels
}

/// Typing a command's shortest unique prefix names that command: among
/// `names`, the one candidate for the first `len` characters of `name` is
/// `name` itself.
pub proof fn shortest_prefix_resolves(names: Seq<Seq<char>>, name: Seq<char>, len: int)
    requires
        names.contains(name),
        is_shortest_unique(names, name, len),
    ensures
        candidates(names, name.take(len)).len() == 1,
        candidates(names, name.take(len))[0] == name,
{
    let typed = name.take(len);
    assert(typed.is_prefix_of(name)) by {
        assert(typed =~= name.subrange(0, typed.len() as int));
    }
    candidates_begin_with_input(names, typed, name);
    let i = choose|i: int| 0 <= i < candidates(names, typed).len() && candidates(names, typed)[i]
        == name;
    assert(i == 0);
}

/// A name has one abbreviation: two texts that both show `name` abbreviated
/// among `names` are the same text.
pub proof fn abbreviation_is_unique(
    names: Seq<Seq<char>>,
    name: Seq<char>,
    first: Seq<char>,
    second: Seq<char>,
)
    requires
        is_abbreviation_of(names, name, first),
        is_abbreviation_of(names, name, second),
    ensures
        first == second,
{
    if has_no_unique_prefix(names, name) {
        assert forall|len: int| !is_shortest_unique(names, name, len) by {
            if 0 <= len <= name.len() {
                assert(!names_one(names, name.take(len)));
            }
        }
    } else {
        let a = choose|len: int|
            #[trigger] is_shortest_unique(names, name, len) && first == marked(name, len);
        let b = choose|len: int|
            #[trigger] is_shortest_unique(names, name, len) && second == marked(name, len);
        if a < b {
            assert(!names_one(names, name.take(a)));
        } else if b < a {
            assert(!names_one(names, name.take(b)));
        }
    }
}

} // verus!

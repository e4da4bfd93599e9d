//! Resolving a typed abbreviation to one command of a set: the command that
//! begins with what was typed, where there is exactly one.

use crate::chars::{begins_with, chars_of, chars_of_each, rows};
use crate::text::{joined, push_joined};
use vstd::prelude::*;

verus! {

/// The names among `names` that begin with `input`, in the order of `names`.
pub open spec fn candidates(names: Seq<Seq<char>>, input: Seq<char>) -> Seq<Seq<char>> {
    names.filter(|name: Seq<char>| input.is_prefix_of(name))
}

/// Why an input names no single command.
#[derive(Debug, PartialEq, Eq)]
pub enum ResolveError {
    /// No command begins with the input; `available` lists every command.
    Unknown { input: String, available: Vec<String> },
    /// Several commands begin with the input; `matches` lists them.
    Ambiguous { input: String, matches: Vec<String> },
}

impl ResolveError {
    /// Whether this is the error owed to `input` among `names`: `Unknown`
    /// with every name where `input` has no candidate, `Ambiguous` with the
    /// candidates where it has two or more; either way with `input` itself.
    pub open spec fn explains(self, names: Seq<Seq<char>>, input: Seq<char>) -> bool {
        match self {
            ResolveError::Unknown { input: named, available } => {
                &&& candidates(names, input).len() == 0
                &&& named@ == input
                &&& available.deep_view() == names
            },
            ResolveError::Ambiguous { input: named, matches } => {
                &&& candidates(names, input).len() >= 2
                &&& named@ == input
                &&& matches.deep_view() == candidates(names, input)
            },
        }
    }

    /// The sentence that reports this error.
    pub open spec fn message_text(self) -> Seq<char> {
        match self {
            ResolveError::Unknown { input, available } => "Unknown command '"@ + input@
                + "'. Available commands: "@ + joined(available.deep_view(), ", "@),
            ResolveError::Ambiguous { input, matches } => "Ambiguous command '"@ + input@
                + "'. Matches: "@ + joined(matches.deep_view(), ", "@),
        }
    }

    /// Writes the error as a sentence that names the input and lists the
    /// commands concerned, separated by commas.
    pub fn message(&self) -> (text: String)
        ensures
            text@ == self.message_text(),
    {
        match self {
            ResolveError::Unknown { input, available } => {
                let mut text = String::from_str("Unknown command '");
                text.append(input.as_str());
                text.append("'. Available commands: ");
                push_joined(&mut text, available, ", ");
                text
            },
            ResolveError::Ambiguous { input, matches } => {
                let mut text = String::from_str("Ambiguous command '");
                text.append(input.as_str());
                text.append("'. Matches: ");
                push_joined(&mut text, matches, ", ");
                text
            },
        }
    }
}

/// The candidates for an input are the names that begin with it: a name is
/// among them exactly when it is one of `names` and `input` is a prefix of it.
pub proof fn candidates_begin_with_input(names: Seq<Seq<char>>, input: Seq<char>, name: Seq<char>)
    ensures
        candidates(names, input).contains(name) <==> names.contains(name) && input.is_prefix_of(
            name,
        ),
{
    let begins = |name: Seq<char>| input.is_prefix_of(name);
    if candidates(names, input).contains(name) {
        let i = choose|i: int|
            0 <= i < candidates(names, input).len() && candidates(names, input)[i] == name;
        names.lemma_filter_pred(begins, i);
        names.lemma_filter_contains_rev(begins, name);
    }
    if names.contains(name) && input.is_prefix_of(name) {
        let i = choose|i: int| 0 <= i < names.len() && names[i] == name;
        names.lemma_filter_contains(begins, i);
    }
}

proof fn candidates_step(names: Seq<Seq<char>>, input: Seq<char>, i: int)
    requires
        0 <= i < names.len(),
    ensures
        candidates(names.take(i + 1), input) == if input.is_prefix_of(names[i]) {
            candidates(names.take(i), input).push(names[i])
        } else {
            candidates(names.take(i), input)
        },
{
    assert(names.take(i + 1) =~= names.take(i).push(names[i]));
    names.take(i).lemma_filter_push(names[i], |name: Seq<char>| input.is_prefix_of(name));
}

/// The positions in `table` of the rows that begin with the first `len`
/// characters of `pattern`, in increasing order.
pub(crate) fn positions(table: &Vec<Vec<char>>, pattern: &Vec<char>, len: usize) -> (picked: Vec<
    usize,
>)
    requires
        len <= pattern.len(),
    ensures
        picked.len() == candidates(rows(table@), pattern@.take(len as int)).len(),
        forall|j: int|
            0 <= j < picked.len() ==> {
                &&& (#[trigger] picked@[j]) < table.len()
                &&& rows(table@)[picked@[j] as int] == candidates(
                    rows(table@),
                    pattern@.take(len as int),
                )[j]
            },
{
    let ghost names = rows(table@);
    let ghost input = pattern@.take(len as int);
    let mut picked: Vec<usize> = Vec::new();
    let mut i: usize = 0;
    proof {
        assert(names.take(0) =~= Seq::<Seq<char>>::empty());
        reveal_with_fuel(Seq::filter, 1);
    }
    while i < table.len()
        invariant
            i <= table.len(),
            len <= pattern.len(),
            names == rows(table@),
            input == pattern@.take(len as int),
            picked.len() == candidates(names.take(i as int), input).len(),
            forall|j: int|
                0 <= j < picked.len() ==> {
                    &&& (#[trigger] picked@[j]) < table.len()
                    &&& names[picked@[j] as int] == candidates(names.take(i as int), input)[j]
                },
        decreases table.len() - i,
    {
        proof {
            candidates_step(names, input, i as int);
        }
        if begins_with(&table[i], pattern, len) {
            picked.push(i);
        }
        i += 1;
    }
    assert(names.take(table.len() as int) =~= names);
    picked
}

/// Owned copies of the strings of `names` at the positions `picked`.
fn copies_at(names: &[&str], picked: &Vec<usize>) -> (copies: Vec<String>)
    requires
        forall|j: int| 0 <= j < picked.len() ==> (#[trigger] picked@[j]) < names.len(),
    ensures
        copies.deep_view() == Seq::new(picked.len() as nat, |j: int| names@[picked@[j] as int]@),
{
    let mut copies: Vec<String> = Vec::new();
    let mut j: usize = 0;
    while j < picked.len()
        invariant
            j <= picked.len(),
            copies.len() == j,
            forall|k: int| 0 <= k < picked.len() ==> (#[trigger] picked@[k]) < names.len(),
            forall|k: int| 0 <= k < j ==> (#[trigger] copies@[k])@ == names@[picked@[k] as int]@,
        decreases picked.len() - j,
    {
        copies.push(String::from_str(names[picked[j]]));
        j += 1;
    }
    assert(copies.deep_view() =~= Seq::new(
        picked.len() as nat,
        |j: int| names@[picked@[j] as int]@,
    ));
    copies
}

/// Owned copies of the strings of `names`, in order.
fn copies_of(names: &[&str]) -> (copies: Vec<String>)
    ensures
        copies.deep_view() == names.deep_view(),
{
    let mut copies: Vec<String> = Vec::new();
    let mut j: usize = 0;
    while j < names.len()
        invariant
            j <= names.len(),
            copies.len() == j,
            forall|k: int| 0 <= k < j ==> (#[trigger] copies@[k])@ == names@[k]@,
        decreases names.len() - j,
    {
        copies.push(String::from_str(names[j]));
        j += 1;
    }
    assert(copies.deep_view() =~= names.deep_view());
    copies
}

/// Resolves `input` against `commands`: the position of the one command
/// that begins with `input`, or the reason why there is no such one.
///
/// With no command beginning with `input` the error is `Unknown` and lists all
/// of `commands`; with two or more it is `Ambiguous` and lists exactly those,
/// in the order of `commands`.
pub fn resolve_position(commands: &[&str], input: &str) -> (r: Result<usize, ResolveError>)
    ensures
        match r {
            Ok(position) => {
                &&& position < commands.len()
                &&& candidates(commands.deep_view(), input@).len() == 1
                &&& candidates(commands.deep_view(), input@)[0] == commands@[position as int]@
            },
            Err(error) => error.explains(commands.deep_view(), input@),
        },
{
    let table = chars_of_each(commands);
    let pattern = chars_of(input);
    let picked = positions(&table, &pattern, pattern.len());
    let ghost found = candidates(commands.deep_view(), input@);
    assert(pattern@.take(pattern.len() as int) =~= input@);
    if picked.len() == 0 {
        Err(ResolveError::Unknown { input: String::from_str(input), available: copies_of(commands) })
    } else if picked.len() == 1 {
        Ok(picked[0])
    } else {
        let matches = copies_at(commands, &picked);
        assert(matches.deep_view() =~= found);
        Err(ResolveError::Ambiguous { input: String::from_str(input), matches })
    }
}

/// Resolves `input` against `commands`: the one command that begins with
/// `input`, or the reason why there is no such one, as
/// [`resolve_position`] gives it.
pub fn resolve<'a>(commands: &[&'a str], input: &str) -> (r: Result<&'a str, ResolveError>)
    ensures
        match r {
            Ok(name) => {
                &&& candidates(commands.deep_view(), input@).len() == 1
                &&& candidates(commands.deep_view(), input@)[0] == name@
            },
            Err(error) => error.explains(commands.deep_view(), input@),
        },
{
    match resolve_position(commands, input) {
        Ok(position) => Ok(commands[position]),
        Err(error) => Err(error),
    }
}

/// The commands of the monitor, in the order in which they are listed.
pub const COMMANDS: [&'static str; 4] = ["lifetime", "version", "vitals", "wifi_status"];

/// What [`match_command`] and [`select`] say of an input that names no single
/// command: the sentence for no candidate, or the one for several.
pub open spec fn is_refusal(input: Seq<char>, message: Seq<char>) -> bool {
    let found = candidates(COMMANDS.deep_view(), input);
    &&& found.len() != 1
    &&& found.len() == 0 ==> message == "Unknown command '"@ + input
        + "'. Available commands: "@ + joined(COMMANDS.deep_view(), ", "@)
    &&& found.len() >= 2 ==> message == "Ambiguous command '"@ + input + "'. Matches: "@
        + joined(found, ", "@)
}

/// Resolves `input` against [`COMMANDS`]: the one command that begins with
/// `input`, or the sentence that reports why there is none.
pub fn match_command(input: &str) -> (r: Result<&'static str, String>)
    ensures
        match r {
            Ok(name) => {
                &&& candidates(COMMANDS.deep_view(), input@).len() == 1
                &&& candidates(COMMANDS.deep_view(), input@)[0] == name@
            },
            Err(message) => is_refusal(input@, message@),
        },
{
    let table = COMMANDS;
    match resolve(table.as_slice(), input) {
        Ok(name) => Ok(name),
        Err(error) => Err(error.message()),
    }
}

/// A command of the monitor.
#[derive(Clone, Copy, Debug, PartialEq, Eq, Structural)]
pub enum Command {
    Lifetime,
    Version,
    Vitals,
    WifiStatus,
}

impl Command {
    /// Where the command stands in [`COMMANDS`].
    pub open spec fn position(self) -> int {
        match self {
            Command::Lifetime => 0,
            Command::Version => 1,
            Command::Vitals => 2,
            Command::WifiStatus => 3,
        }
    }

    /// The command's name, which is also the last part of the address that
    /// its record is fetched from.
    pub open spec fn name_text(self) -> Seq<char> {
        COMMANDS@[self.position()]@
    }

    /// The command's name.
    pub fn name(self) -> (name: &'static str)
        ensures
            name@ == self.name_text(),
    {
        let table = COMMANDS;
        match self {
            Command::Lifetime => table[0],
            Command::Version => table[1],
            Command::Vitals => table[2],
            Command::WifiStatus => table[3],
        }
    }
}

/// Two commands with the same name are the same command.
pub proof fn names_tell_commands_apart(a: Command, b: Command)
    requires
        a.name_text() == b.name_text(),
    ensures
        a == b,
{
    reveal_strlit("lifetime");
    reveal_strlit("version");
    reveal_strlit("vitals");
    reveal_strlit("wifi_status");
    assert(COMMANDS@[0]@.len() == 8);
    assert(COMMANDS@[1]@.len() == 7);
    assert(COMMANDS@[2]@.len() == 6);
    assert(COMMANDS@[3]@.len() == 11);
}

/// Resolves `input` against [`COMMANDS`]: the one command whose name begins
/// with `input`, or the sentence that reports why there is none.
pub fn select(input: &str) -> (r: Result<Command, String>)
    ensures
        match r {
            Ok(command) => {
                &&& candidates(COMMANDS.deep_view(), input@).len() == 1
                &&& candidates(COMMANDS.deep_view(), input@)[0] == command.name_text()
            },
            Err(message) => is_refusal(input@, message@),
        },
{
    let table = COMMANDS;
    match resolve_position(table.as_slice(), input) {
        Ok(position) => Ok(
            if position == 0 {
                Command::Lifetime
            } else if position == 1 {
                Command::Version
            } else if position == 2 {
                Command::Vitals
            } else {
                Command::WifiStatus
            },
        ),
        Err(error) => Err(error.message()),
    }
}

} // verus!

//! Completion of a partly typed word against the names of the commands.

use vstd::prelude::*;
use vstd::string::StrSliceExecFns;
use crate::operation::{command_names, command_set, commands};
use crate::text::starts_with;

verus! {

/// The command names that begin with `word`, in the order of the command set.
pub open spec fn candidates(word: Seq<char>) -> Seq<Seq<char>> {
    command_names().filter(|name: Seq<char>| word.is_prefix_of(name))
}

/// Every command name that begins with `word`, in the order of the command
/// set. The empty word is a prefix of every name.
pub fn list_possib(word: &str) -> (r: Vec<&str>)
    ensures
        r.deep_view() == candidates(word@),
{
    let table = command_set();
    let mut matches: Vec<&str> = Vec::new();
    assert(matches.deep_view() =~= Seq::<Seq<char>>::empty());
    let ghost fits = |name: Seq<char>| word@.is_prefix_of(name);
    let mut i: usize = 0;
    while i < table.len()
        invariant
            table@ == commands(),
            i <= table.len(),
            fits == |name: Seq<char>| word@.is_prefix_of(name),
            matches.deep_view() == command_names().take(i as int).filter(fits),
        decreases table.len() - i,
    {
        let name = table[i].name();
        proof {
            let upto = command_names().take(i + 1);
            assert(upto.drop_last() == command_names().take(i as int));
            assert(upto.last() == name@);
            reveal_with_fuel(Seq::filter, 2);
        }
        if starts_with(name, word) {
            let ghost before = matches.deep_view();
            matches.push(name);
            assert(matches.deep_view() =~= before.push(name@));
        }
        i += 1;
    }
    assert(command_names().take(i as int) == command_names());
    matches
}

/// What is left to type of the one command name that begins with `word`:
/// that name without its first `word@.len()` characters. Nothing is returned
/// where no name begins with `word`, or more than one does.
pub fn complete(word: &str) -> (r: Option<&str>)
    ensures
        r is Some <==> candidates(word@).len() == 1,
        r matches Some(rest) ==> rest@ == candidates(word@)[0].skip(word@.len() as int),
{
    let possib = list_possib(word);
    if possib.len() == 1 {
        let name = possib[0];
        proof {
            assert(possib.deep_view()[0] == name@);
            lemma_candidates_begin_with(word@, 0);
        }
        Some(name.substring_char(word.unicode_len(), name.unicode_len()))
    } else {
        None
    }
}

/// Each candidate for `word` begins with `word` and is the name of a command.
pub proof fn lemma_candidates_begin_with(word: Seq<char>, i: int)
    requires
        0 <= i < candidates(word).len(),
    ensures
        word.is_prefix_of(candidates(word)[i]),
        command_names().contains(candidates(word)[i]),
{
    let fits = |name: Seq<char>| word.is_prefix_of(name);
    command_names().lemma_filter_pred(fits, i);
    assert(candidates(word).contains(candidates(word)[i]));
    command_names().lemma_filter_contains_rev(fits, candidates(word)[i]);
}

} // verus!

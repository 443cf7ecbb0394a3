//! The names of the tables that the engine can find.
//!
//! The engine lists its tables by path. Callers want the file names alone.

use vstd::prelude::*;

verus! {

/// True of a name that has no directory part.
pub open spec fn is_base_name(name: Seq<char>) -> bool {
    !name.contains('/')
}

/// True if `part` stands somewhere in `whole`, character for character.
pub open spec fn occurs_in(part: Seq<char>, whole: Seq<char>) -> bool {
    exists|start: int|
        0 <= start && start + part.len() <= whole.len() && #[trigger] whole.subrange(
            start,
            start + part.len(),
        ) == part
}

/// The final component that `std::path::Path::file_name` finds in a path, if
/// it finds one.
pub uninterp spec fn final_component(path: Seq<char>) -> Option<Seq<char>>;

/// The name that a path is listed under: its final component, if that is a
/// name without directories.
pub open spec fn kept_name(path: Seq<char>) -> Option<Seq<char>> {
    match final_component(path) {
        Some(name) => if is_base_name(name) {
            Some(name)
        } else {
            None
        },
        None => None,
    }
}

/// `std::path::Path::file_name`: the final component of a path, if it has
/// one. A component is a piece of the path, so it stands somewhere in it.
#[verifier::external_body]
fn file_name(path: &str) -> (name: Option<String>)
    ensures
        match name {
            Some(n) => final_component(path@) == Some(n@) && occurs_in(n@, path@),
            None => final_component(path@) is None,
        },
{
    let name = std::path::Path::new(path).file_name()?;
    Some(name.to_str()?.to_owned())
}

/// Tells whether a name is free of directories.
pub fn holds_no_directory(name: &str) -> (clean: bool)
    ensures
        clean == is_base_name(name@),
{
    let mut clean = true;
    for c in it: name.chars()
        invariant
            it.seq() == name@,
            clean <==> forall|j: int| 0 <= j < it.index() ==> it.seq()[j] != '/',
    {
        if c == '/' {
            clean = false;
        }
    }
    clean
}

/// Keeps the final component of a path if it is a name without directories.
pub fn accept_name(component: Option<String>) -> (name: Option<String>)
    ensures
        match component {
            Some(c) => name == (if is_base_name(c@) {
                Some(c)
            } else {
                None
            }),
            None => name is None,
        },
{
    match component {
        Some(c) => {
            if holds_no_directory(c.as_str()) {
                Some(c)
            } else {
                None
            }
        },
        None => None,
    }
}

/// The names of a list whose every entry has one; nothing if one has none.
pub fn collect_names(found: Vec<Option<String>>) -> (names: Option<Vec<String>>)
    ensures
        names is Some <==> forall|i: int| 0 <= i < found.len() ==> found[i] is Some,
        names matches Some(n) ==> n.len() == found.len() && forall|i: int|
            0 <= i < n.len() ==> found[i] == Some(#[trigger] n[i]),
{
    let mut names: Vec<String> = Vec::new();
    let ghost all = found@;
    let mut pending = found;
    let mut rest: Vec<Option<String>> = Vec::new();
    // Walk the entries from the back, so that each can be moved out.
    while pending.len() > 0
        invariant
            all == found@,
            pending.len() + rest.len() == all.len(),
            forall|i: int| 0 <= i < pending.len() ==> pending[i] == all[i],
            forall|i: int| pending.len() <= i < all.len() ==> all[i] is Some,
            forall|i: int|
                0 <= i < rest.len() ==> #[trigger] rest[i] == all[all.len() - 1 - i],
        decreases pending.len(),
    {
        let entry = pending.pop().unwrap();
        if entry.is_none() {
            assert(all[pending.len() as int] is None);
            return None;
        }
        rest.push(entry);
    }
    while rest.len() > 0
        invariant
            all == found@,
            names.len() + rest.len() == all.len(),
            forall|i: int| 0 <= i < all.len() ==> all[i] is Some,
            forall|i: int|
                0 <= i < rest.len() ==> #[trigger] rest[i] == all[all.len() - 1 - i],
            forall|i: int| 0 <= i < names.len() ==> all[i] == Some(#[trigger] names[i]),
        decreases rest.len(),
    {
        let entry = rest.pop().unwrap();
        names.push(entry.unwrap());
    }
    Some(names)
}

/// Strips the directories from the paths of the tables that the engine found.
///
/// The result has one name for each path, in the same order, unless a path
/// has no final component that is a name: then there is no result.
pub fn table_names(located: &Vec<String>) -> (names: Option<Vec<String>>)
    ensures
        names is Some <==> forall|i: int|
            0 <= i < located.len() ==> kept_name(#[trigger] located[i]@) is Some,
        names matches Some(n) ==> n.len() == located.len() && forall|i: int|
            0 <= i < n.len() ==> kept_name(located[i]@) == Some(#[trigger] n[i]@) && is_base_name(
                n[i]@,
            ) && occurs_in(n[i]@, located[i]@),
{
    let mut found: Vec<Option<String>> = Vec::new();
    let mut i: usize = 0;
    while i < located.len()
        invariant
            i <= located.len(),
            found.len() == i,
            forall|j: int|
                0 <= j < i ==> match #[trigger] found[j] {
                    Some(n) => kept_name(located[j]@) == Some(n@) && occurs_in(n@, located[j]@),
                    None => kept_name(located[j]@) is None,
                },
        decreases located.len() - i,
    {
        let name = accept_name(file_name(located[i].as_str()));
        found.push(name);
        i += 1;
    }
    let ghost found_all = found@;
    let names = collect_names(found);
    proof {
        if names is Some {
            assert forall|j: int| 0 <= j < located.len() implies kept_name(
                #[trigger] located[j]@,
            ) is Some by {
                assert(found_all[j] is Some);
            }
        } else {
            let j = choose|j: int| 0 <= j < found_all.len() && !(found_all[j] is Some);
            assert(kept_name(located[j]@) is None);
        }
    }
    names
}

} // verus!

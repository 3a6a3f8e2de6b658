//! The variables that are set for a child process.

use crate::text::str_eq;
use vstd::prelude::*;

verus! {

/// The character sequences of a list of name and value pairs.
pub open spec fn pair_views(pairs: Seq<(String, String)>) -> Seq<(Seq<char>, Seq<char>)> {
    pairs.map_values(|p: (String, String)| (p.0@, p.1@))
}

/// Whether a variable of this name is among the entries.
pub open spec fn has_name(entries: Seq<(Seq<char>, Seq<char>)>, name: Seq<char>) -> bool {
    exists|i: int| 0 <= i < entries.len() && (#[trigger] entries[i]).0 == name
}

/// Whether no name occurs twice among the entries.
pub open spec fn distinct_names(entries: Seq<(Seq<char>, Seq<char>)>) -> bool {
    forall|i: int, j: int|
        0 <= i < j < entries.len() ==> (#[trigger] entries[i]).0 != (#[trigger] entries[j]).0
}

/// The entries once a variable is set: its value takes the place of the one
/// that the name had, or the variable is added at the end.
pub open spec fn with_variable(
    entries: Seq<(Seq<char>, Seq<char>)>,
    name: Seq<char>,
    value: Seq<char>,
) -> Seq<(Seq<char>, Seq<char>)> {
    if has_name(entries, name) {
        Seq::new(
            entries.len(),
            |i: int|
                if entries[i].0 == name {
                    (name, value)
                } else {
                    entries[i]
                },
        )
    } else {
        entries.push((name, value))
    }
}

/// Setting a variable keeps the names distinct, and afterwards the name has
/// the value that was set.
pub proof fn lemma_with_variable(
    entries: Seq<(Seq<char>, Seq<char>)>,
    name: Seq<char>,
    value: Seq<char>,
)
    requires
        distinct_names(entries),
    ensures
        distinct_names(with_variable(entries, name, value)),
        with_variable(entries, name, value).contains((name, value)),
        forall|i: int|
            0 <= i < entries.len() && entries[i].0 != name ==> with_variable(
                entries,
                name,
                value,
            ).contains(#[trigger] entries[i]),
{
    let after = with_variable(entries, name, value);
    if has_name(entries, name) {
        let at = choose|i: int| 0 <= i < entries.len() && (#[trigger] entries[i]).0 == name;
        assert(after[at] == (name, value));
        assert forall|i: int, j: int| 0 <= i < j < after.len() implies (#[trigger] after[i]).0 != (
        #[trigger] after[j]).0 by {
            assert(entries[i].0 != entries[j].0);
        }
        assert forall|i: int| 0 <= i < entries.len() && entries[i].0 != name implies after.contains(
            #[trigger] entries[i],
        ) by {
            assert(after[i] == entries[i]);
        }
    } else {
        assert(after[after.len() - 1] == (name, value));
        assert forall|i: int, j: int| 0 <= i < j < after.len() implies (#[trigger] after[i]).0 != (
        #[trigger] after[j]).0 by {
            if j < entries.len() {
                assert(entries[i].0 != entries[j].0);
            } else {
                assert(after[i] == entries[i]);
            }
        }
        assert forall|i: int| 0 <= i < entries.len() && entries[i].0 != name implies after.contains(
            #[trigger] entries[i],
        ) by {
            assert(after[i] == entries[i]);
        }
    }
}

/// Variables for a child process, each name with one value. No name occurs
/// twice.
#[derive(Debug)]
pub struct Environment {
    entries: Vec<(String, String)>,
}

impl View for Environment {
    type V = Seq<(Seq<char>, Seq<char>)>;

    closed spec fn view(&self) -> Seq<(Seq<char>, Seq<char>)> {
        pair_views(self.entries@)
    }
}

impl Environment {
    #[verifier::type_invariant]
    spec fn names_are_distinct(&self) -> bool {
        distinct_names(pair_views(self.entries@))
    }

    /// An environment that sets nothing.
    pub fn new() -> (env: Environment)
        ensures
            env@ == Seq::<(Seq<char>, Seq<char>)>::empty(),
            distinct_names(env@),
    {
        let entries: Vec<(String, String)> = Vec::new();
        assert(pair_views(entries@) =~= Seq::<(Seq<char>, Seq<char>)>::empty());
        Environment { entries }
    }

    /// Sets a variable. A value that the name had before is replaced.
    pub fn set(self, name: String, value: String) -> (env: Environment)
        ensures
            env@ == with_variable(self@, name@, value@),
            distinct_names(env@),
    {
        proof {
            use_type_invariant(&self);
            lemma_with_variable(self@, name@, value@);
        }
        let ghost before = self@;
        let mut entries = self.entries;
        let mut i: usize = 0;
        while i < entries.len()
            invariant
                i <= entries.len(),
                pair_views(entries@) == before,
                before == self@,
                distinct_names(before),
                distinct_names(with_variable(before, name@, value@)),
                forall|k: int| 0 <= k < i ==> (#[trigger] before[k]).0 != name@,
            decreases entries.len() - i,
        {
            assert(before[i as int].0 == entries@[i as int].0@);
            if str_eq(entries[i].0.as_str(), name.as_str()) {
                entries.set(i, (name, value));
                proof {
                    let after = with_variable(before, name@, value@);
                    assert(has_name(before, name@));
                    assert forall|k: int| 0 <= k < before.len() implies pair_views(entries@)[k]
                        == after[k] by {
                        if k != i {
                            assert(before[k].0 != before[i as int].0);
                        }
                    }
                    assert(pair_views(entries@) =~= after);
                }
                return Environment { entries };
            }
            i += 1;
        }
        assert(!has_name(before, name@));
        entries.push((name, value));
        assert(pair_views(entries@) =~= with_variable(before, name@, value@));
        Environment { entries }
    }

    /// The variables with their values, each name once.
    pub fn entries(&self) -> (entries: &Vec<(String, String)>)
        ensures
            pair_views(entries@) == self@,
            distinct_names(self@),
    {
        proof {
            use_type_invariant(self);
        }
        &self.entries
    }
}

} // verus!

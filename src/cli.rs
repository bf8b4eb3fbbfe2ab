//! Parsed command-line matches, as the argument parser hands them over.
//!
//! Each argument's value is kept as the text that it prints as.

use vstd::prelude::*;

verus! {

/// The arguments of one command: each name at most once, with its value.
pub struct ArgMap {
    entries: Vec<(String, String)>,
    contents: Ghost<Map<Seq<char>, Seq<char>>>,
}

impl View for ArgMap {
    type V = Map<Seq<char>, Seq<char>>;

    closed spec fn view(&self) -> Map<Seq<char>, Seq<char>> {
        self.contents@
    }
}

/// Each entry is recorded in `contents` under its name, every name of
/// `contents` has an entry, and no two entries share a name.
spec fn consistent(entries: Seq<(String, String)>, contents: Map<Seq<char>, Seq<char>>) -> bool {
    &&& forall|i: int|
        0 <= i < entries.len() ==> {
            &&& contents.contains_key(#[trigger] entries[i].0@)
            &&& contents[entries[i].0@] == entries[i].1@
        }
    &&& forall|k: Seq<char>|
        #[trigger] contents.contains_key(k) ==> exists|i: int|
            0 <= i < entries.len() && entries[i].0@ == k
    &&& forall|i: int, j: int|
        0 <= i < entries.len() && 0 <= j < entries.len() && i != j
            ==> #[trigger] entries[i] != #[trigger] entries[j] && entries[i].0@ != entries[j].0@
}

impl ArgMap {
    #[verifier::type_invariant]
    closed spec fn inv(self) -> bool {
        consistent(self.entries@, self.contents@)
    }

    /// An empty set of arguments.
    pub fn new() -> (r: ArgMap)
        ensures
            r@ == Map::<Seq<char>, Seq<char>>::empty(),
    {
        ArgMap { entries: Vec::new(), contents: Ghost(Map::empty()) }
    }

    /// The position of the entry named `name`, if there is one.
    fn find(&self, name: &String) -> (r: Option<usize>)
        ensures
            match r {
                Some(i) => i < self.entries@.len() && self.entries@[i as int].0@ == name@,
                None => forall|i: int|
                    0 <= i < self.entries@.len() ==> self.entries@[i].0@ != name@,
            },
    {
        let mut i: usize = 0;
        while i < self.entries.len()
            invariant
                i <= self.entries@.len(),
                forall|j: int| 0 <= j < i ==> self.entries@[j].0@ != name@,
            decreases self.entries@.len() - i,
        {
            if self.entries[i].0 == *name {
                return Some(i);
            }
            i = i + 1;
        }
        None
    }

    /// Sets the value of `name`, replacing the one it had.
    pub fn insert(&mut self, name: String, value: String)
        ensures
            final(self)@ == old(self)@.insert(name@, value@),
    {
        let mut cur = ArgMap::new();
        std::mem::swap(&mut cur, self);
        proof {
            use_type_invariant(&cur);
        }
        let found = cur.find(&name);
        let ArgMap { entries, contents } = cur;
        let mut entries = entries;
        let ghost old_entries = entries@;
        let ghost k = name@;
        let ghost v = value@;
        let ghost old_contents = contents@;
        let ghost new_contents = contents@.insert(k, v);
        match found {
            Some(i) => {
                entries.set(i, (name, value));
                assert forall|k2: Seq<char>| #[trigger] new_contents.contains_key(k2) implies exists|j: int|
                    0 <= j < entries@.len() && entries@[j].0@ == k2 by {
                    if k2 != k {
                        let j = choose|j: int| 0 <= j < old_entries.len() && old_entries[j].0@ == k2;
                        assert(entries@[j].0@ == k2);
                    } else {
                        assert(entries@[i as int].0@ == k2);
                    }
                }
                assert forall|j: int| 0 <= j < entries@.len() implies {
                    &&& new_contents.contains_key(#[trigger] entries@[j].0@)
                    &&& new_contents[entries@[j].0@] == entries@[j].1@
                } by {
                    if j != i as int {
                        assert(old_entries[j].0@ != old_entries[i as int].0@);
                        assert(old_contents.contains_key(old_entries[j].0@));
                    }
                }
                assert forall|a: int, b: int|
                    0 <= a < entries@.len() && 0 <= b < entries@.len() && a != b
                        implies #[trigger] entries@[a] != #[trigger] entries@[b] && entries@[a].0@ != entries@[b].0@ by {
                    assert(old_entries[a].0@ != old_entries[b].0@);
                }
            },
            None => {
                entries.push((name, value));
                assert forall|j: int| 0 <= j < entries@.len() implies {
                    &&& new_contents.contains_key(#[trigger] entries@[j].0@)
                    &&& new_contents[entries@[j].0@] == entries@[j].1@
                } by {
                    if j < old_entries.len() {
                        assert(old_contents.contains_key(old_entries[j].0@));
                    }
                }
                assert forall|a: int, b: int|
                    0 <= a < entries@.len() && 0 <= b < entries@.len() && a != b
                        implies #[trigger] entries@[a] != #[trigger] entries@[b] && entries@[a].0@ != entries@[b].0@ by {
                    if a < old_entries.len() && b < old_entries.len() {
                        assert(old_entries[a].0@ != old_entries[b].0@);
                    }
                }
                assert forall|k2: Seq<char>| #[trigger] new_contents.contains_key(k2) implies exists|j: int|
                    0 <= j < entries@.len() && entries@[j].0@ == k2 by {
                    if k2 != k {
                        let j = choose|j: int| 0 <= j < old_entries.len() && old_entries[j].0@ == k2;
                        assert(entries@[j].0@ == k2);
                    } else {
                        assert(entries@[old_entries.len() as int].0@ == k2);
                    }
                }
            },
        }
        assert(consistent(entries@, new_contents));
        *self = ArgMap { entries, contents: Ghost(new_contents) };
    }

    /// Whether an argument named `name` is present.
    pub fn contains_key(&self, name: &str) -> (r: bool)
        ensures
            r == self@.contains_key(name@),
    {
        proof {
            use_type_invariant(self);
        }
        let key = name.to_owned();
        match self.find(&key) {
            Some(_) => true,
            None => false,
        }
    }

    /// The value of the argument named `name`, if it is present.
    pub fn get(&self, name: &str) -> (r: Option<&String>)
        ensures
            match r {
                Some(v) => self@.contains_key(name@) && v@ == self@[name@],
                None => !self@.contains_key(name@),
            },
    {
        proof {
            use_type_invariant(self);
        }
        let key = name.to_owned();
        match self.find(&key) {
            Some(i) => Some(&self.entries[i].1),
            None => None,
        }
    }
}

/// A matched subcommand: its name and its own matches.
pub struct SubcommandMatches {
    pub name: String,
    pub matches: Matches,
}

/// The matches of a command: its arguments and the subcommand, if one was given.
pub struct Matches {
    pub args: ArgMap,
    pub subcommand: Option<Box<SubcommandMatches>>,
}

} // verus!

//! The environment variables that are handed to a program.
use vstd::prelude::*;

verus! {

/// What `entries` hold under each name that occurs among them.
pub open spec fn entries_map(entries: Seq<(&'static str, String)>) -> Map<Seq<char>, Seq<char>> {
    Map::new(
        |name: Seq<char>| exists|i: int| 0 <= i < entries.len() && (#[trigger] entries[i]).0@ == name,
        |name: Seq<char>|
            entries[choose|i: int|
                0 <= i < entries.len() && (#[trigger] entries[i]).0@ == name].1@,
    )
}

/// No name occurs twice.
pub open spec fn names_distinct(entries: Seq<(&'static str, String)>) -> bool {
    forall|i: int, j: int|
        0 <= i < j < entries.len() ==> (#[trigger] entries[i]).0@ != (#[trigger] entries[j]).0@
}

/// Environment variables, each with its value. No name occurs twice.
pub struct Environment {
    entries: Vec<(&'static str, String)>,
}

impl View for Environment {
    type V = Map<Seq<char>, Seq<char>>;

    closed spec fn view(&self) -> Map<Seq<char>, Seq<char>> {
        entries_map(self.entries@)
    }
}

impl Environment {
    #[verifier::type_invariant]
    spec fn well_formed(self) -> bool {
        names_distinct(self.entries@)
    }

    /// The environment without variables.
    pub fn new() -> (r: Environment)
        ensures
            r@ == Map::<Seq<char>, Seq<char>>::empty(),
    {
        let r = Environment { entries: Vec::new() };
        assert(r@ =~= Map::<Seq<char>, Seq<char>>::empty());
        r
    }

    /// Sets the variable `name`, whether or not it was set before.
    pub fn insert(&mut self, name: &'static str, value: String)
        ensures
            final(self)@ == old(self)@.insert(name@, value@),
    {
        proof {
            use_type_invariant(&*self);
        }
        let ghost before = self.entries@;
        let mut entries: Vec<(&'static str, String)> = Vec::new();
        std::mem::swap(&mut entries, &mut self.entries);
        let mut i: usize = 0;
        while i < entries.len() && !same_text(entries[i].0, name)
            invariant
                i <= entries.len(),
                forall|j: int| 0 <= j < i ==> (#[trigger] entries[j]).0@ != name@,
            decreases entries.len() - i,
        {
            i += 1;
        }
        let ghost at = i as int;
        if i < entries.len() {
            entries.set(i, (name, value));
        } else {
            entries.push((name, value));
        }
        let ghost after = entries@;
        proof {
            lemma_put(before, after, at, name@, value@);
        }
        self.entries = entries;
    }

    /// The value of the variable `name`, where it is set.
    pub fn get(&self, name: &str) -> (r: Option<String>)
        ensures
            r is Some <==> self@.contains_key(name@),
            r matches Some(value) ==> value@ == self@[name@],
    {
        proof {
            use_type_invariant(self);
        }
        let mut i: usize = 0;
        while i < self.entries.len()
            invariant
                i <= self.entries.len(),
                names_distinct(self.entries@),
                forall|j: int| 0 <= j < i ==> (#[trigger] self.entries[j]).0@ != name@,
            decreases self.entries.len() - i,
        {
            if same_text(self.entries[i].0, name) {
                proof {
                    lemma_lookup(self.entries@, i as int);
                }
                return Some(self.entries[i].1.clone());
            }
            i += 1;
        }
        None
    }

    /// All variables, in no particular order; no name occurs twice.
    pub fn entries(&self) -> (r: &Vec<(&'static str, String)>)
        ensures
            entries_map(r@) == self@,
            names_distinct(r@),
            forall|i: int, j: int|
                0 <= i < j < r@.len() ==> (#[trigger] r@[i]).0@ != (#[trigger] r@[j]).0@,
            forall|i: int|
                0 <= i < r@.len() ==> self@.contains_key((#[trigger] r@[i]).0@)
                    && self@[r@[i].0@] == r@[i].1@,
            forall|name: Seq<char>|
                self@.contains_key(name) ==> exists|i: int|
                    0 <= i < r@.len() && (#[trigger] r@[i]).0@ == name,
    {
        proof {
            use_type_invariant(self);
            every_entry_is_found(self.entries@, Seq::empty());
        }
        &self.entries
    }
}

fn same_text(a: &str, b: &str) -> (r: bool)
    ensures
        r == (a@ == b@),
{
    a.to_owned() == b.to_owned()
}

proof fn lemma_lookup(entries: Seq<(&'static str, String)>, i: int)
    requires
        names_distinct(entries),
        0 <= i < entries.len(),
    ensures
        entries_map(entries).contains_key(entries[i].0@),
        entries_map(entries)[entries[i].0@] == entries[i].1@,
{
    let k = choose|k: int| 0 <= k < entries.len() && (#[trigger] entries[k]).0@ == entries[i].0@;
    assert(k == i);
}

/// Putting a pair at the place of its name, or at the end where the name does not occur.
proof fn lemma_put(
    before: Seq<(&'static str, String)>,
    after: Seq<(&'static str, String)>,
    at: int,
    name: Seq<char>,
    value: Seq<char>,
)
    requires
        names_distinct(before),
        0 <= at <= before.len(),
        forall|j: int| 0 <= j < at ==> (#[trigger] before[j]).0@ != name,
        at < before.len() ==> before[at].0@ == name && after.len() == before.len(),
        at == before.len() ==> after.len() == before.len() + 1,
        forall|j: int|
            0 <= j < before.len() && j != at ==> #[trigger] after[j] == before[j],
        after[at].0@ == name,
        after[at].1@ == value,
    ensures
        names_distinct(after),
        entries_map(after) == entries_map(before).insert(name, value),
{
    assert(names_distinct(after)) by {
        assert forall|i: int, j: int| 0 <= i < j < after.len() implies (#[trigger] after[i]).0@ != (
        #[trigger] after[j]).0@ by {
            assert(i != at ==> after[i] == before[i]);
            assert(j != at ==> after[j] == before[j]);
        }
    }
    let (result, expected) = (entries_map(after), entries_map(before).insert(name, value));
    assert forall|n: Seq<char>| result.contains_key(n) <==> expected.contains_key(n) by {
        if result.contains_key(n) && n != name {
            let i = choose|i: int| 0 <= i < after.len() && (#[trigger] after[i]).0@ == n;
            assert(after[i] == before[i]);
        }
        if expected.contains_key(n) && n != name {
            let i = choose|i: int| 0 <= i < before.len() && (#[trigger] before[i]).0@ == n;
            assert(after[i] == before[i]);
        }
        if n == name {
            assert(after[at].0@ == n);
        }
    }
    assert forall|n: Seq<char>| result.contains_key(n) implies result[n] == expected[n] by {
        let i = choose|i: int| 0 <= i < after.len() && (#[trigger] after[i]).0@ == n;
        lemma_lookup(after, i);
        if n == name {
            lemma_lookup(after, at);
        } else {
            assert(after[i] == before[i]);
            lemma_lookup(before, i);
        }
    }
    assert(result =~= expected);
}

/// Every name has one value: where no name occurs twice, each pair is found under its name, and
/// nothing is found that is not among the pairs.
pub proof fn every_entry_is_found(entries: Seq<(&'static str, String)>, name: Seq<char>)
    requires
        forall|i: int, j: int|
            0 <= i < j < entries.len() ==> (#[trigger] entries[i]).0@ != (#[trigger] entries[j]).0@,
    ensures
        forall|i: int|
            0 <= i < entries.len() ==> {
                &&& entries_map(entries).contains_key((#[trigger] entries[i]).0@)
                &&& entries_map(entries)[entries[i].0@] == entries[i].1@
            },
        entries_map(entries).contains_key(name) ==> exists|i: int|
            0 <= i < entries.len() && (#[trigger] entries[i]).0@ == name,
{
    assert forall|i: int| 0 <= i < entries.len() implies {
        &&& entries_map(entries).contains_key((#[trigger] entries[i]).0@)
        &&& entries_map(entries)[entries[i].0@] == entries[i].1@
    } by {
        lemma_lookup(entries, i);
    }
}

} // verus!

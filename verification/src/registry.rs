//! The table of built-in functions, from name to function.

use crate::values::Name;
use vstd::prelude::*;

verus! {

/// A function that the interpreter implements natively.
#[derive(Debug, Clone, Copy, PartialEq, Eq, Structural)]
pub enum BuiltinFunction {
    /// Runs a command and waits for it: `subprocess.run`.
    SubprocessRun,
}

/// A table from names to built-in functions. No name occurs in it twice.
pub struct BuiltinRegistry {
    functions: Vec<(Name, BuiltinFunction)>,
}

/// Whether entry `i` of `entries` goes by the name `key`.
pub open spec fn named(entries: Seq<(Name, BuiltinFunction)>, key: Seq<char>, i: int) -> bool {
    0 <= i < entries.len() && entries[i].0@ == key
}

/// Whether the names of `entries` differ from one another.
pub open spec fn distinct(entries: Seq<(Name, BuiltinFunction)>) -> bool {
    forall|i: int, j: int| 0 <= i < j < entries.len() ==> entries[i].0@ != entries[j].0@
}

/// The map that `entries` stand for.
pub open spec fn table(entries: Seq<(Name, BuiltinFunction)>) -> Map<Seq<char>, BuiltinFunction> {
    Map::new(
        |key: Seq<char>| exists|i: int| named(entries, key, i),
        |key: Seq<char>| entries[choose|i: int| named(entries, key, i)].1,
    )
}

/// Where the names differ, the entry of a name is what the map holds for it.
proof fn lemma_table_entry(entries: Seq<(Name, BuiltinFunction)>, key: Seq<char>, i: int)
    requires
        distinct(entries),
        named(entries, key, i),
    ensures
        table(entries).contains_key(key),
        table(entries)[key] == entries[i].1,
{
    let c = choose|c: int| named(entries, key, c);
    assert(c == i);
}

/// An entry put in the place of one of the same name stands for an insertion.
proof fn lemma_table_replace(
    entries: Seq<(Name, BuiltinFunction)>,
    i: int,
    entry: (Name, BuiltinFunction),
)
    requires
        distinct(entries),
        named(entries, entry.0@, i),
    ensures
        distinct(entries.update(i, entry)),
        table(entries.update(i, entry)) == table(entries).insert(entry.0@, entry.1),
{
    let after = entries.update(i, entry);
    assert forall|key: Seq<char>, j: int| named(after, key, j) == named(entries, key, j) by {}
    assert(distinct(after)) by {
        assert forall|a: int, b: int| 0 <= a < b < after.len() implies after[a].0@ != after[b].0@ by {
            assert(named(entries, entries[a].0@, a));
            assert(named(entries, entries[b].0@, b));
        }
    }
    let want = table(entries).insert(entry.0@, entry.1);
    assert forall|key: Seq<char>| table(after).contains_key(key) == want.contains_key(key) by {
        if table(after).contains_key(key) {
            let j = choose|j: int| named(after, key, j);
            assert(named(entries, key, j));
        }
        if want.contains_key(key) && key != entry.0@ {
            let j = choose|j: int| named(entries, key, j);
            assert(named(after, key, j));
        }
        if key == entry.0@ {
            assert(named(after, key, i));
        }
    }
    assert forall|key: Seq<char>| table(after).contains_key(key) implies table(after)[key]
        == want[key] by {
        let j = choose|j: int| named(after, key, j);
        lemma_table_entry(after, key, j);
        if key == entry.0@ {
            assert(named(after, key, i));
            assert(j == i);
        } else {
            assert(named(entries, key, j));
            lemma_table_entry(entries, key, j);
        }
    }
    assert(table(after) =~= want);
}

/// An entry of a new name put at the end stands for an insertion.
proof fn lemma_table_push(entries: Seq<(Name, BuiltinFunction)>, entry: (Name, BuiltinFunction))
    requires
        distinct(entries),
        forall|i: int| !named(entries, entry.0@, i),
    ensures
        distinct(entries.push(entry)),
        table(entries.push(entry)) == table(entries).insert(entry.0@, entry.1),
{
    let after = entries.push(entry);
    let last = entries.len() as int;
    assert(distinct(after)) by {
        assert forall|a: int, b: int| 0 <= a < b < after.len() implies after[a].0@ != after[b].0@ by {
            if b == last {
                assert(!named(entries, entry.0@, a));
            }
        }
    }
    assert(named(after, entry.0@, last));
    let want = table(entries).insert(entry.0@, entry.1);
    assert forall|key: Seq<char>| table(after).contains_key(key) == want.contains_key(key) by {
        if table(after).contains_key(key) && key != entry.0@ {
            let j = choose|j: int| named(after, key, j);
            assert(named(entries, key, j));
        }
        if want.contains_key(key) && key != entry.0@ {
            let j = choose|j: int| named(entries, key, j);
            assert(named(after, key, j));
        }
    }
    assert forall|key: Seq<char>| table(after).contains_key(key) implies table(after)[key]
        == want[key] by {
        let j = choose|j: int| named(after, key, j);
        lemma_table_entry(after, key, j);
        if key == entry.0@ {
            assert(j == last);
        } else {
            assert(named(entries, key, j));
            lemma_table_entry(entries, key, j);
        }
    }
    assert(table(after) =~= want);
}

impl BuiltinRegistry {
    /// The invariant of the table: its names differ from one another.
    pub closed spec fn wf(&self) -> bool {
        distinct(self.functions@)
    }

    /// The table as a map from names to functions.
    pub closed spec fn view(&self) -> Map<Seq<char>, BuiltinFunction> {
        table(self.functions@)
    }

    /// A table without entries.
    pub fn new() -> (r: BuiltinRegistry)
        ensures
            r.wf(),
            r@ == Map::<Seq<char>, BuiltinFunction>::empty(),
    {
        let r = BuiltinRegistry { functions: Vec::new() };
        assert(r@ =~= Map::<Seq<char>, BuiltinFunction>::empty());
        r
    }

    /// The place of `name` among the entries, if it has one.
    fn position(&self, name: &Name) -> (r: Option<usize>)
        ensures
            match r {
                Some(i) => named(self.functions@, name@, i as int),
                None => forall|i: int| !named(self.functions@, name@, i),
            },
    {
        let mut i: usize = 0;
        while i < self.functions.len()
            invariant
                i <= self.functions@.len(),
                forall|j: int| 0 <= j < i ==> !named(self.functions@, name@, j),
            decreases self.functions@.len() - i,
        {
            if self.functions[i].0 == *name {
                return Some(i);
            }
            i = i + 1;
        }
        None
    }

    /// Enters `func` under `name`, in place of what stood there.
    pub fn register(&mut self, name: Name, func: BuiltinFunction)
        requires
            old(self).wf(),
        ensures
            final(self).wf(),
            final(self)@ == old(self)@.insert(name@, func),
    {
        let ghost before = self.functions@;
        match self.position(&name) {
            Some(i) => {
                proof {
                    lemma_table_replace(before, i as int, (name, func));
                }
                self.functions.set(i, (name, func));
            },
            None => {
                proof {
                    lemma_table_push(before, (name, func));
                }
                self.functions.push((name, func));
            },
        }
    }

    /// The function entered under `name`, if there is one.
    pub fn lookup(&self, name: &Name) -> (r: Option<&BuiltinFunction>)
        requires
            self.wf(),
        ensures
            r == if self@.contains_key(name@) {
                Some(&self@[name@])
            } else {
                None
            },
    {
        match self.position(name) {
            Some(i) => {
                proof {
                    lemma_table_entry(self.functions@, name@, i as int);
                }
                Some(&self.functions[i].1)
            },
            None => None,
        }
    }
}

} // verus!

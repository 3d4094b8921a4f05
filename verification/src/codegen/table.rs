//! A name-to-value table with the insertion semantics of a map: inserting an
//! existing name shadows the old binding.  It backs both the symbol table
//! (function names) and the per-function local table.  Its mathematical
//! image is a `Map` from the name's characters to the bound value.

use vstd::prelude::*;

verus! {

/// The map an entry list denotes: later entries shadow earlier ones.
pub open spec fn map_of<T>(entries: Seq<(String, T)>) -> Map<Seq<char>, T>
    decreases entries.len(),
{
    if entries.len() == 0 {
        Map::empty()
    } else {
        map_of(entries.drop_last()).insert(entries.last().0@, entries.last().1)
    }
}

/// A table from names to copyable values.
pub struct SymTable<T> {
    pub entries: Vec<(String, T)>,
}

impl<T: Copy> View for SymTable<T> {
    type V = Map<Seq<char>, T>;

    open spec fn view(&self) -> Map<Seq<char>, T> {
        map_of(self.entries@)
    }
}

impl<T: Copy> SymTable<T> {
    /// The empty table.
    pub fn new() -> (r: Self)
        ensures
            r@ == Map::<Seq<char>, T>::empty(),
    {
        let r = SymTable { entries: Vec::new() };
        proof {
            assert(r.entries@.len() == 0);
        }
        r
    }

    /// Binds `name` to `v`, shadowing any previous binding.
    pub fn insert(&mut self, name: String, v: T)
        ensures
            final(self)@ == old(self)@.insert(name@, v),
    {
        let ghost before = self.entries@;
        self.entries.push((name, v));
        proof {
            assert(self.entries@.drop_last() =~= before);
            assert(self.entries@.last() == self.entries@[before.len() as int]);
        }
    }

    /// The value bound to `name`, if any.
    pub fn get(&self, name: &String) -> (r: Option<T>)
        ensures
            match r {
                Some(v) => self@.contains_key(name@) && self@[name@] == v,
                None => !self@.contains_key(name@),
            },
    {
        let ghost full = self.entries@;
        proof {
            assert(full.take(full.len() as int) =~= full);
        }
        let mut k = self.entries.len();
        while k > 0
            invariant
                k <= full.len(),
                full == self.entries@,
                map_of(full).contains_key(name@) == map_of(full.take(k as int)).contains_key(
                    name@,
                ),
                map_of(full).contains_key(name@) ==> map_of(full)[name@] == map_of(
                    full.take(k as int),
                )[name@],
            decreases k,
        {
            k = k - 1;
            let e = &self.entries[k];
            proof {
                assert(full.take(k + 1).drop_last() =~= full.take(k as int));
                assert(full.take(k + 1).last() == full[k as int]);
            }
            if e.0 == *name {
                return Some(e.1);
            }
        }
        proof {
            assert(full.take(0) =~= Seq::<(String, T)>::empty());
        }
        None
    }

    /// Whether `name` is bound.
    pub fn contains(&self, name: &String) -> (r: bool)
        ensures
            r == self@.contains_key(name@),
    {
        let got = self.get(name);
        got.is_some()
    }
}

} // verus!

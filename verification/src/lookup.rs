//! Named inputs: a source of values that are looked up by key.

use vstd::prelude::*;

verus! {

/// The bindings that a list of pairs makes, a later pair replacing an earlier one with its key.
spec fn bindings(entries: Seq<(String, String)>) -> Map<Seq<char>, Seq<char>>
    decreases entries.len(),
{
    if entries.len() == 0 {
        Map::empty()
    } else {
        bindings(entries.drop_last()).insert(entries.last().0@, entries.last().1@)
    }
}

/// Named inputs in the manner of a process environment: each key is bound to at most one value.
#[derive(Debug)]
pub struct KeyLookup {
    entries: Vec<(String, String)>,
}

impl View for KeyLookup {
    type V = Map<Seq<char>, Seq<char>>;

    closed spec fn view(&self) -> Map<Seq<char>, Seq<char>> {
        bindings(self.entries@)
    }
}

impl KeyLookup {
    /// A source in which no key is bound.
    pub fn new() -> (source: KeyLookup)
        ensures
            source@ == Map::<Seq<char>, Seq<char>>::empty(),
    {
        KeyLookup { entries: Vec::new() }
    }

    /// Binds `key` to `value`, in place of the value it was bound to if it was bound.
    pub fn set(&mut self, key: &str, value: &str)
        ensures
            final(self)@ == old(self)@.insert(key@, value@),
    {
        self.entries.push((key.to_owned(), value.to_owned()));
        assert(self.entries@.drop_last() =~= old(self).entries@);
    }

    /// The value that `key` is bound to.
    pub fn get(&self, key: &str) -> (value: Option<&str>)
        ensures
            value is Some <==> self@.dom().contains(key@),
            value matches Some(text) ==> text@ == self@[key@],
    {
        let wanted = key.to_owned();
        let mut i: usize = self.entries.len();
        assert(self.entries@.subrange(0, i as int) =~= self.entries@);
        while i > 0
            invariant
                i <= self.entries.len(),
                wanted@ == key@,
                bindings(self.entries@).dom().contains(key@) <==> bindings(
                    self.entries@.subrange(0, i as int),
                ).dom().contains(key@),
                bindings(self.entries@).dom().contains(key@) ==> bindings(self.entries@)[key@]
                    == bindings(self.entries@.subrange(0, i as int))[key@],
            decreases i,
        {
            proof {
                let head = self.entries@.subrange(0, i as int);
                assert(head.drop_last() =~= self.entries@.subrange(0, i - 1));
            }
            i = i - 1;
            if self.entries[i].0 == wanted {
                return Some(self.entries[i].1.as_str());
            }
        }
        None
    }
}

} // verus!

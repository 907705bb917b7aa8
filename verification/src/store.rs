//! An in-memory directory of text resources, keyed by name: the template
//! directory (template name to template text) and the content directory
//! (file stem to markdown text) are both handed to rendering in this shape.

use vstd::prelude::*;
use crate::data::{assoc_get, assoc_has, lemma_assoc_get_at};

verus! {

/// Named text resources in insertion order; on lookup the first entry with
/// a given name wins.
#[derive(Debug)]
pub struct TextStore {
    entries: Vec<(String, String)>,
}

impl View for TextStore {
    type V = Seq<(Seq<char>, Seq<char>)>;

    closed spec fn view(&self) -> Seq<(Seq<char>, Seq<char>)> {
        Seq::new(self.entries@.len(), |i: int| (self.entries@[i].0@, self.entries@[i].1@))
    }
}

impl TextStore {
    /// An empty store.
    pub fn new() -> (r: Self)
        ensures
            r@ == Seq::<(Seq<char>, Seq<char>)>::empty(),
    {
        let r = TextStore { entries: Vec::new() };
        proof {
            assert(r@ =~= Seq::<(Seq<char>, Seq<char>)>::empty());
        }
        r
    }

    /// Adds a resource under a name.
    pub fn add(&mut self, name: String, text: String)
        ensures
            final(self)@ == old(self)@.push((name@, text@)),
    {
        let ghost prev = self@;
        self.entries.push((name, text));
        proof {
            assert(self@ =~= prev.push((self.entries@.last().0@, self.entries@.last().1@)));
        }
    }

    /// The text stored under `name`, if any.
    pub fn get<'a>(&'a self, name: &String) -> (r: Option<&'a String>)
        ensures
            match r {
                Some(t) => assoc_has(self@, name@) && t@ == assoc_get(self@, name@),
                None => !assoc_has(self@, name@),
            },
    {
        let mut i: usize = 0;
        while i < self.entries.len()
            invariant
                i <= self.entries@.len(),
                forall|l: int| 0 <= l < i ==> self@[l].0 != name@,
            decreases self.entries@.len() - i,
        {
            if self.entries[i].0 == *name {
                proof {
                    lemma_assoc_get_at(self@, name@, i as int);
                }
                return Some(&self.entries[i].1);
            }
            i += 1;
        }
        None
    }
}

} // verus!

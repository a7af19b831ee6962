//! The static data that describes an actor system: its name and how many
//! actors it should start with.

use vstd::prelude::*;

verus! {

/// A system description used by the builder, and for queries afterwards.
#[derive(Debug)]
pub struct SystemConfig {
    pub name: String,
    pub ranks: Option<usize>,
}

impl SystemConfig {
    pub fn new(name: &str) -> (c: Self)
        ensures
            c.name@ == name@,
            c.ranks is None,
    {
        SystemConfig { name: name.to_owned(), ranks: None }
    }

    pub fn set_ranks(&mut self, ranks: usize)
        ensures
            final(self).ranks == Some(ranks),
            final(self).name == old(self).name,
    {
        self.ranks = Some(ranks);
    }

    pub fn ranks(&self) -> (r: Option<usize>)
        ensures
            r == self.ranks,
    {
        self.ranks
    }

    pub fn name(&self) -> (r: String)
        ensures
            r@ == self.name@,
    {
        self.name.clone()
    }
}

impl Default for SystemConfig {
    fn default() -> (c: Self)
        ensures
            c.name@ == Seq::<char>::empty(),
            c.ranks is None,
    {
        SystemConfig { name: String::new(), ranks: None }
    }
}

} // verus!

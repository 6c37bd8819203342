//! The goal registry: the one piece of state goals share. An append-only
//! list of submitted goal names, read as a point-in-time copy. The
//! surrounding process serializes access to it.

use vstd::prelude::*;

verus! {

/// The ordered list of submitted goal names. Duplicates are kept; nothing
/// is ever removed.
pub struct Registry {
    names: Vec<String>,
}

impl View for Registry {
    type V = Seq<Seq<char>>;

    closed spec fn view(&self) -> Seq<Seq<char>> {
        self.names.deep_view()
    }
}

impl Registry {
    /// The empty registry a process starts with.
    pub fn new() -> (r: Registry)
        ensures
            r@ == Seq::<Seq<char>>::empty(),
    {
        let names: Vec<String> = Vec::new();
        proof {
            assert(names.deep_view() =~= Seq::<Seq<char>>::empty());
        }
        Registry { names }
    }

    /// Append a goal name at the end; every earlier entry keeps its place.
    pub fn register(&mut self, name: String)
        ensures
            final(self)@ == old(self)@.push(name@),
    {
        let ghost pre = self.names.deep_view();
        self.names.push(name);
        proof {
            assert(self.names.deep_view() =~= pre.push(name@));
        }
    }

    /// A point-in-time copy of the whole list, in submission order.
    pub fn snapshot(&self) -> (r: Vec<String>)
        ensures
            r.deep_view() == self@,
    {
        let mut out: Vec<String> = Vec::new();
        proof {
            assert(out.deep_view() =~= self@.take(0));
        }
        let mut i: usize = 0;
        while i < self.names.len()
            invariant
                0 <= i <= self.names@.len(),
                self@.len() == self.names@.len(),
                out.deep_view() == self@.take(i as int),
            decreases self.names@.len() - i,
        {
            let ghost pre = out.deep_view();
            out.push(self.names[i].clone());
            proof {
                assert(out.deep_view() =~= pre.push(self.names@[i as int]@));
                assert(self@.take(i as int).push(self@[i as int]) =~= self@.take(i + 1));
            }
            i = i + 1;
        }
        proof {
            assert(self@.take(self.names@.len() as int) =~= self@);
        }
        out
    }
}

/// Law: registering keeps submission order exactly. The new name stands at
/// the end, and every earlier entry, repeated names included, keeps its
/// index and its value.
pub proof fn lemma_registry_order(prior: Seq<Seq<char>>, name: Seq<char>)
    ensures
        prior.push(name).len() == prior.len() + 1,
        prior.push(name)[prior.len() as int] == name,
        forall|i: int| 0 <= i < prior.len() ==> prior.push(name)[i] == prior[i],
{
}

} // verus!

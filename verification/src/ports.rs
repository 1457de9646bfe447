//! Sources of candidate ports.

use vstd::prelude::*;

verus! {

/// Whether a source that held `before` may hold `after` once it has handed
/// out its first candidate: what came after the first candidate still comes,
/// in the same order.
pub open spec fn advanced(before: Seq<u16>, after: Seq<u16>) -> bool {
    before.len() > 0 && before.skip(1).is_prefix_of(after)
}

/// A source that still owes the candidates of `all` from the `k`-th on hands
/// out the `k`-th next, and then owes those from the next one on.
pub proof fn lemma_advanced_owes_rest(all: Seq<u16>, k: int, before: Seq<u16>, after: Seq<u16>)
    requires
        0 <= k < all.len(),
        all.skip(k).is_prefix_of(before),
        advanced(before, after),
    ensures
        before[0] == all[k],
        all.skip(k + 1).is_prefix_of(after),
{
    let owed = all.skip(k);
    let rest = all.skip(k + 1);
    assert(owed[0] == before.subrange(0, owed.len() as int)[0]);
    assert forall|i: int| 0 <= i < rest.len() implies rest[i] == after[i] by {
        assert(owed[i + 1] == before.subrange(0, owed.len() as int)[i + 1]);
        assert(before.skip(1)[i] == after.subrange(0, before.len() - 1)[i]);
    }
    assert(rest =~= after.subrange(0, rest.len() as int));
}

/// A finite source of candidate ports, tried in the order it hands them out.
pub trait ProvidePorts {
    /// The candidates that the source has left, next one first. A source
    /// that does not say what it holds is not known to hold anything in
    /// particular.
    open spec fn candidates(&self) -> Seq<u16> {
        arbitrary()
    }

    /// Hands out the next candidate.
    fn get_port(&mut self) -> (port: u16)
        requires
            old(self).candidates().len() > 0,
        ensures
            port == old(self).candidates()[0],
            advanced(old(self).candidates(), final(self).candidates()),
    ;

    /// The number of candidates left.
    fn length(&self) -> (n: usize)
        ensures
            n == self.candidates().len(),
    ;
}

/// The source of one fixed port: it declares one candidate, and hands out
/// the same port whenever it is asked.
#[derive(Debug)]
pub struct Singleton(pub u16);

impl ProvidePorts for Singleton {
    open spec fn candidates(&self) -> Seq<u16> {
        seq![self.0]
    }

    fn get_port(&mut self) -> (port: u16)
        ensures
            *final(self) == *old(self),
    {
        self.0
    }

    fn length(&self) -> (n: usize) {
        1
    }
}

/// The source of a list of ports, handed out from the front.
#[derive(Debug)]
pub struct PortList {
    ports: Vec<u16>,
    next: usize,
}

impl PortList {
    #[verifier::type_invariant]
    spec fn in_bounds(&self) -> bool {
        self.next <= self.ports@.len()
    }

    /// The source that hands out `ports`, first one first.
    pub fn new(ports: Vec<u16>) -> (list: Self)
        ensures
            list.candidates() == ports@,
    {
        PortList { ports, next: 0 }
    }
}

impl ProvidePorts for PortList {
    closed spec fn candidates(&self) -> Seq<u16> {
        self.ports@.skip(self.next as int)
    }

    fn get_port(&mut self) -> (port: u16)
        ensures
            final(self).candidates() == old(self).candidates().skip(1),
    {
        proof {
            use_type_invariant(&*self);
        }
        assert(self.next < self.ports.len());
        let port = self.ports[self.next];
        self.next = self.next + 1;
        port
    }

    fn length(&self) -> (n: usize) {
        proof {
            use_type_invariant(self);
        }
        self.ports.len() - self.next
    }
}

} // verus!

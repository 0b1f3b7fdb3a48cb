use vstd::prelude::*;

verus! {

/// Who may hold or claim tokens: an account, or a stored contract, each
/// named by its 32-byte hash.
#[derive(Clone, Copy, Debug, PartialEq, Eq)]
pub enum Identity {
    Account([u8; 32]),
    Contract([u8; 32]),
}

/// Whether `a` and `b` name the same party: the same kind and the same hash.
pub open spec fn same_party(a: Identity, b: Identity) -> bool {
    match (a, b) {
        (Identity::Account(x), Identity::Account(y)) => x@ == y@,
        (Identity::Contract(x), Identity::Contract(y)) => x@ == y@,
        _ => false,
    }
}

fn same_hash(x: &[u8; 32], y: &[u8; 32]) -> (r: bool)
    ensures
        r == (x@ == y@),
{
    let mut i: usize = 0;
    while i < 32
        invariant
            i <= 32,
            x@.len() == 32,
            y@.len() == 32,
            forall|j: int| 0 <= j < i ==> x@[j] == y@[j],
        decreases 32 - i,
    {
        if x[i] != y[i] {
            return false;
        }
        i = i + 1;
    }
    assert(x@ =~= y@);
    true
}

impl Identity {
    /// Whether `self` and `other` name the same party.
    pub fn same_as(&self, other: &Identity) -> (r: bool)
        ensures
            r == same_party(*self, *other),
    {
        match (self, other) {
            (Identity::Account(x), Identity::Account(y)) => same_hash(x, y),
            (Identity::Contract(x), Identity::Contract(y)) => same_hash(x, y),
            _ => false,
        }
    }
}

} // verus!

use bytes::Bytes;
use vstd::prelude::*;

verus! {

/// The id that is allotted `k` calls after the id `start`: ids go up by one
/// and start again at zero after the largest.
pub open spec fn id_after(start: u64, k: nat) -> u64 {
    ((start + k) % 0x1_0000_0000_0000_0000) as u64
}

/// Two calls that are fewer than 2^64 calls apart get different ids, so the
/// calls that are in flight at one time can be told apart by their ids.
pub proof fn lemma_ids_differ(start: u64, i: nat, j: nat)
    requires
        i < j,
        j - i < 0x1_0000_0000_0000_0000,
    ensures
        id_after(start, i) != id_after(start, j),
{
    let m = 0x1_0000_0000_0000_0000int;
    let a = start + i;
    let b = start + j;
    if a % m == b % m {
        assert(a == m * (a / m) + a % m) by (nonlinear_arith)
            requires
                m > 0,
        ;
        assert(b == m * (b / m) + b % m) by (nonlinear_arith)
            requires
                m > 0,
        ;
        assert(b - a == m * (b / m - a / m)) by (nonlinear_arith)
            requires
                a == m * (a / m) + a % m,
                b == m * (b / m) + b % m,
                a % m == b % m,
        ;
        assert(false) by (nonlinear_arith)
            requires
                b - a == m * (b / m - a / m),
                0 < b - a < m,
        ;
    }
}

/// The client's end of a connection: it allots the correlation ids of the
/// requests that go out on it.
pub struct Caller {
    next_id: u64,
}

impl Caller {
    /// The id that the next call will get.
    pub closed spec fn next_id(&self) -> u64 {
        self.next_id
    }

    /// A caller whose first call gets the id zero.
    pub fn new() -> (caller: Caller)
        ensures
            caller.next_id() == 0,
    {
        Caller { next_id: 0 }
    }

    /// Issues a request: allots the next id to it, and hands back the id
    /// together with the request, as they go to the connection's handler.
    pub fn call(&mut self, request: Bytes) -> (issued: (u64, Bytes))
        ensures
            issued.0 == old(self).next_id(),
            issued.1 == request,
            final(self).next_id() == id_after(old(self).next_id(), 1),
    {
        let id = self.next_id;
        self.next_id = id.wrapping_add(1);
        (id, request)
    }
}

} // verus!

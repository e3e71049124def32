use vstd::prelude::*;

verus! {

/// Whether the peer `ident` is among the members `s`.
pub open spec fn is_member<C>(s: Seq<(u64, C)>, ident: u64) -> bool {
    exists|i: int| 0 <= i < s.len() && (#[trigger] s[i]).0 == ident
}

/// No peer is among the members `s` twice.
pub open spec fn distinct_members<C>(s: Seq<(u64, C)>) -> bool {
    forall|i: int, j: int|
        0 <= i < s.len() && 0 <= j < s.len() && i != j ==> (#[trigger] s[i]).0 != (#[trigger] s[j]).0
}

/// The members `after` are the members `before` without the peer `ident`:
/// the one entry of that peer is gone, and where it had none, nothing has
/// changed.
pub open spec fn removed_from<C>(before: Seq<(u64, C)>, after: Seq<(u64, C)>, ident: u64) -> bool {
    if is_member(before, ident) {
        exists|i: int|
            0 <= i < before.len() && (#[trigger] before[i]).0 == ident && after == before.remove(i)
    } else {
        after == before
    }
}

/// The peers that are subscribed to one topic, in the order in which they
/// subscribed. A peer is known by the identity of its caller, and comes with
/// the handle through which notifications are sent to it.
pub struct Subscribers<C> {
    members: Vec<(u64, C)>,
}

impl<C> View for Subscribers<C> {
    type V = Seq<(u64, C)>;

    closed spec fn view(&self) -> Seq<(u64, C)> {
        self.members@
    }
}

impl<C> Subscribers<C> {
    /// Each peer is in the set at most once.
    pub open spec fn wf(&self) -> bool {
        distinct_members(self@)
    }

    /// A set without members.
    pub fn new() -> (set: Subscribers<C>)
        ensures
            set.wf(),
            set@ == Seq::<(u64, C)>::empty(),
    {
        Subscribers { members: Vec::new() }
    }

    /// The number of members.
    pub fn len(&self) -> (n: usize)
        ensures
            n == self@.len(),
    {
        self.members.len()
    }

    /// The identity of the member at position `i`.
    pub fn ident(&self, i: usize) -> (ident: u64)
        requires
            i < self@.len(),
        ensures
            ident == self@[i as int].0,
    {
        self.members[i].0
    }

    /// The handle of the member at position `i`.
    pub fn caller(&self, i: usize) -> (caller: &C)
        requires
            i < self@.len(),
        ensures
            *caller == self@[i as int].1,
    {
        &self.members[i].1
    }

    /// The position of the peer `ident`, if it is a member.
    fn position(&self, ident: u64) -> (at: Option<usize>)
        ensures
            match at {
                Some(i) => i < self@.len() && self@[i as int].0 == ident,
                None => !is_member(self@, ident),
            },
    {
        let mut i: usize = 0;
        while i < self.members.len()
            invariant
                i <= self.members@.len(),
                forall|j: int| 0 <= j < i ==> (#[trigger] self.members@[j]).0 != ident,
            decreases self.members@.len() - i,
        {
            if self.members[i].0 == ident {
                return Some(i);
            }
            i += 1;
        }
        None
    }

    /// Whether the peer `ident` is a member.
    pub fn contains(&self, ident: u64) -> (found: bool)
        ensures
            found == is_member(self@, ident),
    {
        self.position(ident).is_some()
    }

    /// Adds the peer `ident` with its handle, unless it is a member already.
    /// Says whether it was added.
    pub fn insert(&mut self, ident: u64, caller: C) -> (added: bool)
        requires
            old(self).wf(),
        ensures
            final(self).wf(),
            added == !is_member(old(self)@, ident),
            added ==> final(self)@ == old(self)@.push((ident, caller)),
            !added ==> final(self)@ == old(self)@,
    {
        match self.position(ident) {
            Some(_) => false,
            None => {
                self.members.push((ident, caller));
                true
            },
        }
    }

    /// Takes the peer `ident` out, if it is a member, and hands back its
    /// handle.
    pub fn remove(&mut self, ident: u64) -> (removed: Option<C>)
        requires
            old(self).wf(),
        ensures
            final(self).wf(),
            removed is Some == is_member(old(self)@, ident),
            removed is Some ==> exists|i: int|
                0 <= i < old(self)@.len() && #[trigger] old(self)@[i] == (ident, removed->Some_0),
            removed_from(old(self)@, final(self)@, ident),
            !is_member(final(self)@, ident),
    {
        match self.position(ident) {
            Some(i) => {
                let ghost before = self.members@;
                let member = self.members.remove(i);
                proof {
                    let after = self.members@;
                    assert forall|j: int| 0 <= j < after.len() implies #[trigger] after[j]
                        == before[if j < i { j } else { j + 1 }] by {}
                    assert(before[i as int] == (ident, member.1));
                }
                Some(member.1)
            },
            None => None,
        }
    }
}

} // verus!

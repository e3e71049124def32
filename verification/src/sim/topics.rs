use crate::buffer::{bytes_eq, bytes_seq};
use bytes::Bytes;
use vstd::prelude::*;

verus! {

/// The topic of the entry at position `i`.
pub open spec fn key_at<V>(s: Seq<(Bytes, V)>, i: int) -> Seq<u8> {
    bytes_seq(s[i].0)
}

/// Whether some entry of `s` stands under the topic `t`.
pub open spec fn has_key<V>(s: Seq<(Bytes, V)>, t: Seq<u8>) -> bool {
    exists|i: int| 0 <= i < s.len() && #[trigger] key_at(s, i) == t
}

/// No two entries of `s` stand under the same topic.
pub open spec fn distinct_keys<V>(s: Seq<(Bytes, V)>) -> bool {
    forall|i: int, j: int|
        0 <= i < s.len() && 0 <= j < s.len() && i != j ==> #[trigger] key_at(s, i)
            != #[trigger] key_at(s, j)
}

/// The mapping that the entries of `s` spell out.
pub open spec fn entries_map<V>(s: Seq<(Bytes, V)>) -> Map<Seq<u8>, V> {
    Map::new(
        |t: Seq<u8>| has_key(s, t),
        |t: Seq<u8>| s[choose|i: int| 0 <= i < s.len() && #[trigger] key_at(s, i) == t].1,
    )
}

/// Where topics are distinct, the mapping sends each entry's topic to that
/// entry's value.
pub proof fn lemma_entry_is_mapped<V>(s: Seq<(Bytes, V)>, i: int)
    requires
        distinct_keys(s),
        0 <= i < s.len(),
    ensures
        entries_map(s).contains_key(key_at(s, i)),
        entries_map(s)[key_at(s, i)] == s[i].1,
{
    let t = key_at(s, i);
    let j = choose|j: int| 0 <= j < s.len() && #[trigger] key_at(s, j) == t;
    assert(j == i);
}

/// A mapping from topics to values. A topic is a string of bytes, and two
/// topics are the same when their bytes are.
pub struct TopicMap<V> {
    entries: Vec<(Bytes, V)>,
}

impl<V> View for TopicMap<V> {
    type V = Map<Seq<u8>, V>;

    closed spec fn view(&self) -> Map<Seq<u8>, V> {
        entries_map(self.entries@)
    }
}

impl<V> TopicMap<V> {
    /// No topic has two entries.
    pub closed spec fn wf(&self) -> bool {
        distinct_keys(self.entries@)
    }

    /// A mapping without entries.
    pub fn new() -> (m: TopicMap<V>)
        ensures
            m.wf(),
            m@ == Map::<Seq<u8>, V>::empty(),
    {
        let m = TopicMap { entries: Vec::new() };
        assert(m@ =~= Map::<Seq<u8>, V>::empty());
        m
    }

    /// The position of the entry under `topic`, if there is one.
    fn position(&self, topic: &Bytes) -> (at: Option<usize>)
        ensures
            match at {
                Some(i) => i < self.entries@.len() && key_at(self.entries@, i as int) == bytes_seq(
                    *topic,
                ),
                None => !has_key(self.entries@, bytes_seq(*topic)),
            },
    {
        let mut i: usize = 0;
        while i < self.entries.len()
            invariant
                i <= self.entries@.len(),
                forall|j: int| 0 <= j < i ==> #[trigger] key_at(self.entries@, j) != bytes_seq(*topic),
            decreases self.entries@.len() - i,
        {
            if bytes_eq(&self.entries[i].0, topic) {
                return Some(i);
            }
            i += 1;
        }
        None
    }

    /// The topics that have a value, each once.
    pub fn topics(&self) -> (topics: Vec<Bytes>)
        requires
            self.wf(),
        ensures
            forall|t: Seq<u8>|
                self@.contains_key(t) <==> exists|j: int|
                    0 <= j < topics@.len() && bytes_seq(#[trigger] topics@[j]) == t,
            forall|i: int, j: int|
                0 <= i < topics@.len() && 0 <= j < topics@.len() && i != j ==> bytes_seq(
                    #[trigger] topics@[i],
                ) != bytes_seq(#[trigger] topics@[j]),
    {
        let mut topics: Vec<Bytes> = Vec::new();
        let mut i: usize = 0;
        while i < self.entries.len()
            invariant
                i <= self.entries@.len(),
                topics@.len() == i,
                forall|j: int|
                    0 <= j < i ==> bytes_seq(#[trigger] topics@[j]) == key_at(self.entries@, j),
            decreases self.entries@.len() - i,
        {
            topics.push(self.entries[i].0.clone());
            i += 1;
        }
        proof {
            assert forall|i: int, j: int|
                0 <= i < topics@.len() && 0 <= j < topics@.len() && i != j implies bytes_seq(
                #[trigger] topics@[i],
            ) != bytes_seq(#[trigger] topics@[j]) by {
                assert(key_at(self.entries@, i) != key_at(self.entries@, j));
            }
            assert forall|t: Seq<u8>|
                self@.contains_key(t) <==> exists|j: int|
                    0 <= j < topics@.len() && bytes_seq(#[trigger] topics@[j]) == t by {
                if self@.contains_key(t) {
                    let j = choose|j: int|
                        0 <= j < self.entries@.len() && #[trigger] key_at(self.entries@, j) == t;
                    assert(bytes_seq(topics@[j]) == t);
                }
                if exists|j: int| 0 <= j < topics@.len() && bytes_seq(#[trigger] topics@[j]) == t {
                    let j = choose|j: int|
                        0 <= j < topics@.len() && bytes_seq(#[trigger] topics@[j]) == t;
                    assert(key_at(self.entries@, j) == t);
                }
            }
        }
        topics
    }

    /// Whether `topic` has a value.
    pub fn contains_key(&self, topic: &Bytes) -> (found: bool)
        ensures
            found == self@.contains_key(bytes_seq(*topic)),
    {
        self.position(topic).is_some()
    }

    /// The value under `topic`, if it has one.
    pub fn get(&self, topic: &Bytes) -> (value: Option<&V>)
        requires
            self.wf(),
        ensures
            match value {
                Some(v) => self@.contains_key(bytes_seq(*topic)) && *v == self@[bytes_seq(*topic)],
                None => !self@.contains_key(bytes_seq(*topic)),
            },
    {
        match self.position(topic) {
            Some(i) => {
                proof {
                    lemma_entry_is_mapped(self.entries@, i as int);
                }
                Some(&self.entries[i].1)
            },
            None => None,
        }
    }

    /// Puts `value` under `topic`, in place of the value that the topic had,
    /// if it had one.
    pub fn insert(&mut self, topic: Bytes, value: V)
        requires
            old(self).wf(),
        ensures
            final(self).wf(),
            final(self)@ == old(self)@.insert(bytes_seq(topic), value),
    {
        let ghost before = self.entries@;
        let ghost t = bytes_seq(topic);
        match self.position(&topic) {
            Some(i) => {
                self.entries.set(i, (topic, value));
                proof {
                    let after = self.entries@;
                    assert forall|j: int| 0 <= j < after.len() implies #[trigger] key_at(after, j)
                        == key_at(before, j) by {}
                    assert(distinct_keys(after));
                    assert forall|u: Seq<u8>| has_key(after, u) == has_key(before, u) by {
                        if has_key(after, u) {
                            let j = choose|j: int| 0 <= j < after.len() && #[trigger] key_at(after, j) == u;
                            assert(key_at(before, j) == u);
                        }
                        if has_key(before, u) {
                            let j = choose|j: int| 0 <= j < before.len() && #[trigger] key_at(before, j) == u;
                            assert(key_at(after, j) == u);
                        }
                    }
                    assert forall|u: Seq<u8>| has_key(after, u) implies entries_map(after)[u]
                        == entries_map(before).insert(t, value)[u] by {
                        let j = choose|j: int| 0 <= j < after.len() && #[trigger] key_at(after, j) == u;
                        lemma_entry_is_mapped(after, j);
                        lemma_entry_is_mapped(before, j);
                    }
                    assert(key_at(before, i as int) == t);
                    assert(entries_map(after) =~= entries_map(before).insert(t, value));
                }
            },
            None => {
                self.entries.push((topic, value));
                proof {
                    let after = self.entries@;
                    let last = before.len() as int;
                    assert forall|j: int| 0 <= j < before.len() implies #[trigger] key_at(after, j)
                        == key_at(before, j) by {}
                    assert(key_at(after, last) == t);
                    assert(distinct_keys(after));
                    assert forall|u: Seq<u8>| has_key(after, u) == (u == t || has_key(before, u)) by {
                        if has_key(after, u) {
                            let j = choose|j: int| 0 <= j < after.len() && #[trigger] key_at(after, j) == u;
                            if j < last {
                                assert(key_at(before, j) == u);
                            }
                        }
                        if has_key(before, u) {
                            let j = choose|j: int| 0 <= j < before.len() && #[trigger] key_at(before, j) == u;
                            assert(key_at(after, j) == u);
                        }
                    }
                    assert forall|u: Seq<u8>| has_key(after, u) implies entries_map(after)[u]
                        == entries_map(before).insert(t, value)[u] by {
                        let j = choose|j: int| 0 <= j < after.len() && #[trigger] key_at(after, j) == u;
                        lemma_entry_is_mapped(after, j);
                        if j < last {
                            assert(key_at(before, j) == u);
                            lemma_entry_is_mapped(before, j);
                        }
                    }
                    assert(entries_map(after) =~= entries_map(before).insert(t, value));
                }
            },
        }
    }

    /// Takes the entry under `topic` out, and hands back the value that it
    /// had, if there was one.
    pub fn remove(&mut self, topic: &Bytes) -> (value: Option<V>)
        requires
            old(self).wf(),
        ensures
            final(self).wf(),
            final(self)@ == old(self)@.remove(bytes_seq(*topic)),
            match value {
                Some(v) => old(self)@.contains_key(bytes_seq(*topic)) && v == old(self)@[bytes_seq(
                    *topic,
                )],
                None => !old(self)@.contains_key(bytes_seq(*topic)),
            },
    {
        let ghost before = self.entries@;
        let ghost t = bytes_seq(*topic);
        match self.position(topic) {
            Some(i) => {
                proof {
                    lemma_entry_is_mapped(before, i as int);
                }
                let entry = self.entries.remove(i);
                proof {
                    let after = self.entries@;
                    assert forall|j: int| 0 <= j < after.len() implies #[trigger] key_at(after, j)
                        == key_at(before, if j < i { j } else { j + 1 }) by {}
                    assert(distinct_keys(after)) by {
                        assert forall|j: int, k: int|
                            0 <= j < after.len() && 0 <= k < after.len() && j != k implies #[trigger] key_at(
                            after,
                            j,
                        ) != #[trigger] key_at(after, k) by {
                            let jj = if j < i { j } else { j + 1 };
                            let kk = if k < i { k } else { k + 1 };
                            assert(key_at(before, jj) != key_at(before, kk));
                        }
                    }
                    assert forall|u: Seq<u8>| has_key(after, u) == (u != t && has_key(before, u)) by {
                        if has_key(after, u) {
                            let j = choose|j: int| 0 <= j < after.len() && #[trigger] key_at(after, j) == u;
                            let jj = if j < i { j } else { j + 1 };
                            assert(key_at(before, jj) == u);
                            assert(key_at(before, i as int) == t);
                        }
                        if u != t && has_key(before, u) {
                            let j = choose|j: int| 0 <= j < before.len() && #[trigger] key_at(before, j) == u;
                            let jj = if j < i { j } else { j - 1 };
                            assert(key_at(after, jj) == u);
                        }
                    }
                    assert forall|u: Seq<u8>| has_key(after, u) implies entries_map(after)[u]
                        == entries_map(before)[u] by {
                        let j = choose|j: int| 0 <= j < after.len() && #[trigger] key_at(after, j) == u;
                        let jj = if j < i { j } else { j + 1 };
                        lemma_entry_is_mapped(after, j);
                        assert(key_at(before, jj) == u);
                        lemma_entry_is_mapped(before, jj);
                    }
                    assert(entries_map(after) =~= entries_map(before).remove(t));
                }
                Some(entry.1)
            },
            None => {
                assert(entries_map(before) =~= entries_map(before).remove(t));
                None
            },
        }
    }
}

} // verus!

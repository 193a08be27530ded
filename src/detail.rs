//! Custom key/value pairs of an event: each key at most once, kept in the
//! order in which keys were first inserted.

use vstd::prelude::*;
use vstd::string::*;

verus! {

/// The pairs of a message detail.
pub type DetailEntries = Seq<(Seq<char>, Seq<char>)>;

/// The index of the last pair with key `k`, or -1 where there is none.
pub open spec fn key_index(s: DetailEntries, k: Seq<char>) -> int
    decreases s.len(),
{
    if s.len() == 0 {
        -1
    } else if s.last().0 == k {
        s.len() - 1
    } else {
        key_index(s.drop_last(), k)
    }
}

/// The pairs after `k` is given the value `v`: a pair with that key has its
/// value replaced in place, otherwise the pair comes last.
pub open spec fn detail_insert(s: DetailEntries, k: Seq<char>, v: Seq<char>) -> DetailEntries {
    if key_index(s, k) < 0 {
        s.push((k, v))
    } else {
        s.update(key_index(s, k), (k, v))
    }
}

/// No key stands in two pairs.
pub open spec fn keys_unique(s: DetailEntries) -> bool {
    forall|i: int, j: int| 0 <= i < j < s.len() ==> s[i].0 != s[j].0
}

/// A key that no pair has gives -1; otherwise the index is that of a pair
/// with the key.
pub proof fn lemma_key_index(s: DetailEntries, k: Seq<char>)
    ensures
        -1 <= key_index(s, k) < s.len(),
        key_index(s, k) < 0 <==> (forall|i: int| 0 <= i < s.len() ==> s[i].0 != k),
        key_index(s, k) >= 0 ==> s[key_index(s, k)].0 == k,
    decreases s.len(),
{
    if s.len() > 0 {
        lemma_key_index(s.drop_last(), k);
        if s.last().0 != k {
            assert forall|i: int| 0 <= i < s.len() - 1 implies s[i] == s.drop_last()[i] by {}
        }
    }
}

/// Inserting keeps the keys unique.
pub proof fn lemma_insert_keeps_keys_unique(s: DetailEntries, k: Seq<char>, v: Seq<char>)
    requires
        keys_unique(s),
    ensures
        keys_unique(detail_insert(s, k, v)),
{
    lemma_key_index(s, k);
}

/// Custom key/value pairs of an event.
#[derive(Debug)]
pub struct MessageDetail {
    entries: Vec<(String, String)>,
}

impl View for MessageDetail {
    type V = DetailEntries;

    closed spec fn view(&self) -> DetailEntries {
        self.entries@.map_values(|p: (String, String)| (p.0@, p.1@))
    }
}

impl MessageDetail {
    /// No key stands in two pairs.
    #[verifier::type_invariant]
    spec fn keys_are_unique(&self) -> bool {
        keys_unique(self@)
    }

    /// A detail without pairs.
    pub fn new() -> (r: MessageDetail)
        ensures
            r@ == Seq::<(Seq<char>, Seq<char>)>::empty(),
    {
        let r = MessageDetail { entries: Vec::new() };
        proof {
            assert(r@ =~= Seq::<(Seq<char>, Seq<char>)>::empty());
        }
        r
    }

    /// Gives `key` the value `value`.
    pub fn insert(&mut self, key: &str, value: &str)
        ensures
            final(self)@ == detail_insert(old(self)@, key@, value@),
            keys_unique(final(self)@),
    {
        proof {
            use_type_invariant(&*self);
            lemma_insert_keeps_keys_unique(self@, key@, value@);
        }
        let ghost before = self@;
        let k = String::from_str(key);
        let v = String::from_str(value);
        let mut j = self.entries.len();
        proof {
            assert(before.take(j as int) =~= before);
        }
        let mut found = false;
        while j > 0 && !found
            invariant
                j <= self.entries.len(),
                self@ == before,
                k@ == key@,
                key_index(before, key@) == key_index(before.take(j as int), key@),
                found ==> j > 0 && key_index(before, key@) == j - 1,
            decreases j + if found { 0int } else { 1int },
        {
            proof {
                assert(before.take(j as int).drop_last() =~= before.take(j - 1));
            }
            if self.entries[j - 1].0.eq(&k) {
                proof {
                    assert(before.len() == self.entries@.len());
                    assert(before[j - 1].0 == self.entries@[j - 1].0@);
                    let t = before.take(j as int);
                    assert(t.last() == before[j - 1]);
                }
                found = true;
            } else {
                j = j - 1;
            }
        }
        let mut entries: Vec<(String, String)> = Vec::new();
        std::mem::swap(&mut self.entries, &mut entries);
        if found {
            entries.set(j - 1, (k, v));
        } else {
            proof {
                assert(before.take(0) =~= Seq::<(Seq<char>, Seq<char>)>::empty());
            }
            entries.push((k, v));
        }
        proof {
            assert(entries@.map_values(|p: (String, String)| (p.0@, p.1@)) =~= detail_insert(
                before,
                key@,
                value@,
            ));
        }
        self.entries = entries;
    }

    /// The number of pairs.
    pub fn len(&self) -> (r: usize)
        ensures
            r == self@.len(),
    {
        self.entries.len()
    }

    /// The key and value of the pair at index `i`.
    pub fn entry(&self, i: usize) -> (r: (&str, &str))
        requires
            i < self@.len(),
        ensures
            r.0@ == self@[i as int].0,
            r.1@ == self@[i as int].1,
    {
        (self.entries[i].0.as_str(), self.entries[i].1.as_str())
    }
}

impl Clone for MessageDetail {
    fn clone(&self) -> (r: MessageDetail)
        ensures
            r@ == self@,
    {
        proof {
            use_type_invariant(self);
        }
        let mut entries: Vec<(String, String)> = Vec::new();
        let mut i: usize = 0;
        while i < self.entries.len()
            invariant
                i <= self.entries.len(),
                entries@.map_values(|p: (String, String)| (p.0@, p.1@)) == self@.take(i as int),
            decreases self.entries.len() - i,
        {
            let ghost prev = entries@;
            entries.push((self.entries[i].0.clone(), self.entries[i].1.clone()));
            proof {
                assert(self@.len() == self.entries@.len());
                assert(self@[i as int] == (self.entries@[i as int].0@, self.entries@[i as int].1@));
                assert(entries@ == prev.push(entries@.last()));
                assert(self@.take(i + 1) =~= self@.take(i as int).push(self@[i as int]));
                assert(entries@.map_values(|p: (String, String)| (p.0@, p.1@)) =~= self@.take(
                    i + 1,
                ));
            }
            i = i + 1;
        }
        proof {
            assert(self@.take(i as int) =~= self@);
        }
        MessageDetail { entries }
    }
}

impl PartialEq for MessageDetail {
    /// The same pairs in the same order.
    fn eq(&self, other: &MessageDetail) -> (r: bool) {
        if self.entries.len() != other.entries.len() {
            return false;
        }
        let n = self.entries.len();
        let mut i: usize = 0;
        while i < n
            invariant
                i <= n == self@.len() == other@.len(),
                self@.take(i as int) == other@.take(i as int),
            decreases n - i,
        {
            let same = self.entries[i].0.eq(&other.entries[i].0) && self.entries[i].1.eq(
                &other.entries[i].1,
            );
            if !same {
                proof {
                    assert(self@[i as int] != other@[i as int]);
                }
                return false;
            }
            proof {
                assert(self@[i as int] == other@[i as int]);
                assert(self@.take(i + 1) =~= self@.take(i as int).push(self@[i as int]));
                assert(other@.take(i + 1) =~= other@.take(i as int).push(other@[i as int]));
            }
            i = i + 1;
        }
        proof {
            assert(self@.take(n as int) =~= self@);
            assert(other@.take(n as int) =~= other@);
        }
        true
    }
}

impl vstd::std_specs::cmp::PartialEqSpecImpl for MessageDetail {
    open spec fn obeys_eq_spec() -> bool {
        true
    }

    open spec fn eq_spec(&self, other: &MessageDetail) -> bool {
        self@ == other@
    }
}

} // verus!

//! The keys of messages that were skipped on a receiving chain, found by the
//! sender's ratchet public key and the message number.
use vstd::prelude::*;

verus! {

/// Whether two 32-byte arrays hold the same bytes.
pub fn same_bytes_32(a: &[u8; 32], b: &[u8; 32]) -> (res: bool)
    ensures
        res == (a@ == b@),
{
    let mut i: usize = 0;
    while i < 32
        invariant
            i <= 32,
            forall|j: int| 0 <= j < i ==> a@[j] == b@[j],
        decreases 32 - i,
    {
        if a[i] != b[i] {
            return false;
        }
        i = i + 1;
    }
    assert(a@ =~= b@);
    true
}

/// The key of one skipped message.
pub struct SkippedKey {
    pub dh_public: [u8; 32],
    pub number: u32,
    pub key: [u8; 32],
}

/// The lookup key of a skipped entry.
pub open spec fn entry_key(e: SkippedKey) -> (Seq<u8>, u32) {
    (e.dh_public@, e.number)
}

/// No lookup key occurs twice.
pub open spec fn keys_distinct(s: Seq<SkippedKey>) -> bool {
    forall|i: int, j: int|
        0 <= i < s.len() && 0 <= j < s.len() && i != j ==> entry_key(#[trigger] s[i]) != entry_key(
            #[trigger] s[j],
        )
}

/// The map that a sequence of entries stands for.
pub open spec fn entries_map(s: Seq<SkippedKey>) -> Map<(Seq<u8>, u32), Seq<u8>>
    decreases s.len(),
{
    if s.len() == 0 {
        Map::empty()
    } else {
        entries_map(s.drop_last()).insert(entry_key(s.last()), s.last().key@)
    }
}

/// What a sequence of distinct entries maps: exactly their keys, each to its
/// entry's message key.
pub proof fn lemma_entries_map(s: Seq<SkippedKey>)
    requires
        keys_distinct(s),
    ensures
        forall|k: (Seq<u8>, u32)|
            #[trigger] entries_map(s).contains_key(k) <==> exists|i: int|
                0 <= i < s.len() && entry_key(#[trigger] s[i]) == k,
        forall|i: int| 0 <= i < s.len() ==> entries_map(s)[entry_key(#[trigger] s[i])] == s[i].key@,
    decreases s.len(),
{
    if s.len() > 0 {
        let t = s.drop_last();
        assert(keys_distinct(t)) by {
            assert forall|i: int, j: int|
                0 <= i < t.len() && 0 <= j < t.len() && i != j implies entry_key(#[trigger] t[i])
                != entry_key(#[trigger] t[j]) by {
                assert(t[i] == s[i] && t[j] == s[j]);
            }
        }
        lemma_entries_map(t);
        assert forall|k: (Seq<u8>, u32)|
            #[trigger] entries_map(s).contains_key(k) <==> exists|i: int|
                0 <= i < s.len() && entry_key(#[trigger] s[i]) == k by {
            if entries_map(s).contains_key(k) {
                if k == entry_key(s.last()) {
                    assert(entry_key(s[s.len() - 1]) == k);
                } else {
                    assert(entries_map(t).contains_key(k));
                    let i = choose|i: int| 0 <= i < t.len() && entry_key(#[trigger] t[i]) == k;
                    assert(s[i] == t[i]);
                }
            }
            if exists|i: int| 0 <= i < s.len() && entry_key(#[trigger] s[i]) == k {
                let i = choose|i: int| 0 <= i < s.len() && entry_key(#[trigger] s[i]) == k;
                if i < s.len() - 1 {
                    assert(t[i] == s[i]);
                    assert(entries_map(t).contains_key(k));
                }
            }
        }
        assert forall|i: int| 0 <= i < s.len() implies entries_map(s)[entry_key(#[trigger] s[i])]
            == s[i].key@ by {
            if i < s.len() - 1 {
                assert(t[i] == s[i]);
                assert(entry_key(s[i]) != entry_key(s[s.len() - 1]));
            }
        }
    }
}

/// Two sequences of distinct entries with the same keys and values stand for
/// the same map.
proof fn lemma_entries_map_ext(s: Seq<SkippedKey>, m: Map<(Seq<u8>, u32), Seq<u8>>)
    requires
        keys_distinct(s),
        forall|k: (Seq<u8>, u32)|
            #[trigger] m.contains_key(k) <==> exists|i: int|
                0 <= i < s.len() && entry_key(#[trigger] s[i]) == k,
        forall|i: int| 0 <= i < s.len() ==> m[entry_key(#[trigger] s[i])] == s[i].key@,
    ensures
        entries_map(s) == m,
{
    lemma_entries_map(s);
    assert forall|k: (Seq<u8>, u32)| #[trigger] m.contains_key(k) implies entries_map(s)[k] == m[k] by {
        let i = choose|i: int| 0 <= i < s.len() && entry_key(#[trigger] s[i]) == k;
        assert(entries_map(s)[entry_key(s[i])] == s[i].key@);
    }
    assert(entries_map(s) =~= m);
}

/// The skipped message keys of a session: a vector of entries in which no
/// lookup key occurs twice, standing for a map from (ratchet public key,
/// message number) to message key.
pub struct SkippedKeys {
    entries: Vec<SkippedKey>,
}

impl View for SkippedKeys {
    type V = Map<(Seq<u8>, u32), Seq<u8>>;

    closed spec fn view(&self) -> Map<(Seq<u8>, u32), Seq<u8>> {
        entries_map(self.entries@)
    }
}

impl SkippedKeys {
    /// No lookup key is held twice.
    pub closed spec fn wf(&self) -> bool {
        keys_distinct(self.entries@)
    }

    /// An empty store.
    pub fn new() -> (res: SkippedKeys)
        ensures
            res.wf(),
            res@ == Map::<(Seq<u8>, u32), Seq<u8>>::empty(),
    {
        SkippedKeys { entries: Vec::new() }
    }

    /// The number of keys held.
    pub fn len(&self) -> (res: usize)
        requires
            self.wf(),
        ensures
            res == self@.dom().len(),
    {
        proof {
            lemma_entries_map(self.entries@);
            self.lemma_dom_len();
        }
        self.entries.len()
    }

    proof fn lemma_dom_len(&self)
        requires
            keys_distinct(self.entries@),
        ensures
            self@.dom().len() == self.entries@.len(),
            self@.dom().finite(),
    {
        lemma_dom_len_of(self.entries@);
    }

    /// Whether a key is stored for message `number` of the chain of
    /// `dh_public`.
    pub fn contains(&self, dh_public: &[u8; 32], number: u32) -> (res: bool)
        requires
            self.wf(),
        ensures
            res == self@.contains_key((dh_public@, number)),
    {
        let found = self.find(dh_public, number);
        proof {
            if let Some(i) = found {
                lemma_entries_map(self.entries@);
                assert(self@.contains_key(entry_key(self.entries@[i as int])));
            }
        }
        found.is_some()
    }

    fn find(&self, dh_public: &[u8; 32], number: u32) -> (res: Option<usize>)
        requires
            self.wf(),
        ensures
            match res {
                Some(i) => i < self.entries@.len() && entry_key(self.entries@[i as int]) == (
                    dh_public@,
                    number,
                ),
                None => !self@.contains_key((dh_public@, number)),
            },
    {
        proof {
            lemma_entries_map(self.entries@);
        }
        let mut i: usize = 0;
        while i < self.entries.len()
            invariant
                i <= self.entries@.len(),
                forall|j: int| 0 <= j < i ==> entry_key(#[trigger] self.entries@[j]) != (dh_public@, number),
            decreases self.entries@.len() - i,
        {
            let e = &self.entries[i];
            if e.number == number && same_bytes_32(&e.dh_public, dh_public) {
                return Some(i);
            }
            i = i + 1;
        }
        None
    }

    /// Stores `key` under (`dh_public`, `number`), replacing what was stored there.
    pub fn insert(&mut self, dh_public: [u8; 32], number: u32, key: [u8; 32])
        requires
            old(self).wf(),
        ensures
            final(self).wf(),
            final(self)@ == old(self)@.insert((dh_public@, number), key@),
    {
        proof {
            lemma_entries_map(self.entries@);
        }
        let ghost old_entries = self.entries@;
        let found = self.find(&dh_public, number);
        let entry = SkippedKey { dh_public, number, key };
        match found {
            Some(i) => {
                let ghost new_entries = old_entries.update(i as int, entry);
                proof {
                    assert(keys_distinct(new_entries)) by {
                        assert forall|a: int, b: int|
                            0 <= a < new_entries.len() && 0 <= b < new_entries.len() && a != b implies entry_key(
                                #[trigger] new_entries[a],
                            ) != entry_key(#[trigger] new_entries[b]) by {
                            assert(entry_key(old_entries[a]) != entry_key(old_entries[b]));
                        }
                    }
                    let m = entries_map(old_entries).insert((dh_public@, number), key@);
                    assert forall|k: (Seq<u8>, u32)|
                        #[trigger] m.contains_key(k) <==> exists|j: int|
                            0 <= j < new_entries.len() && entry_key(#[trigger] new_entries[j]) == k by {
                        if m.contains_key(k) && k != (dh_public@, number) {
                            let j = choose|j: int|
                                0 <= j < old_entries.len() && entry_key(#[trigger] old_entries[j]) == k;
                            assert(entry_key(new_entries[j]) == k);
                        }
                        if k == (dh_public@, number) {
                            assert(entry_key(new_entries[i as int]) == k);
                        }
                        if exists|j: int| 0 <= j < new_entries.len() && entry_key(#[trigger] new_entries[j]) == k {
                            let j = choose|j: int|
                                0 <= j < new_entries.len() && entry_key(#[trigger] new_entries[j]) == k;
                            if j != i {
                                assert(entry_key(old_entries[j]) == k);
                            }
                        }
                    }
                    assert forall|j: int| 0 <= j < new_entries.len() implies m[entry_key(
                        #[trigger] new_entries[j],
                    )] == new_entries[j].key@ by {
                        if j != i {
                            assert(entry_key(old_entries[j]) != entry_key(old_entries[i as int]));
                        }
                    }
                    lemma_entries_map_ext(new_entries, m);
                }
                self.entries.set(i, entry);
                assert(self.entries@ == new_entries);
            },
            None => {
                proof {
                    assert forall|j: int| 0 <= j < old_entries.len() implies entry_key(
                        #[trigger] old_entries[j],
                    ) != (dh_public@, number) by {
                        if entry_key(old_entries[j]) == (dh_public@, number) {
                            assert(entries_map(old_entries).contains_key(entry_key(old_entries[j])));
                        }
                    }
                }
                self.entries.push(entry);
                proof {
                    let s = self.entries@;
                    assert(s.drop_last() =~= old_entries);
                    assert(keys_distinct(s)) by {
                        assert forall|a: int, b: int|
                            0 <= a < s.len() && 0 <= b < s.len() && a != b implies entry_key(#[trigger] s[a])
                            != entry_key(#[trigger] s[b]) by {
                            if a < old_entries.len() && b < old_entries.len() {
                                assert(s[a] == old_entries[a] && s[b] == old_entries[b]);
                            } else if a < old_entries.len() {
                                assert(s[a] == old_entries[a]);
                            } else {
                                assert(s[b] == old_entries[b]);
                            }
                        }
                    }
                }
            },
        }
    }

    /// Takes out the key stored under (`dh_public`, `number`), if any.
    pub fn remove(&mut self, dh_public: &[u8; 32], number: u32) -> (res: Option<[u8; 32]>)
        requires
            old(self).wf(),
        ensures
            final(self).wf(),
            match res {
                Some(k) => old(self)@.contains_key((dh_public@, number)) && k@ == old(self)@[(
                    dh_public@,
                    number,
                )],
                None => !old(self)@.contains_key((dh_public@, number)),
            },
            final(self)@ == old(self)@.remove((dh_public@, number)),
    {
        proof {
            lemma_entries_map(self.entries@);
        }
        let ghost old_entries = self.entries@;
        match self.find(dh_public, number) {
            None => {
                assert(old_entries.len() == 0 ==> true);
                assert(entries_map(old_entries).remove((dh_public@, number)) =~= entries_map(
                    old_entries,
                ));
                None
            },
            Some(i) => {
                let e = self.entries.remove(i);
                proof {
                    let s = self.entries@;
                    assert(s =~= old_entries.remove(i as int));
                    assert(keys_distinct(s)) by {
                        assert forall|a: int, b: int|
                            0 <= a < s.len() && 0 <= b < s.len() && a != b implies entry_key(#[trigger] s[a])
                            != entry_key(#[trigger] s[b]) by {
                            let oa = if a < i { a } else { a + 1 };
                            let ob = if b < i { b } else { b + 1 };
                            assert(s[a] == old_entries[oa] && s[b] == old_entries[ob]);
                        }
                    }
                    let k0 = (dh_public@, number);
                    let m = entries_map(old_entries).remove(k0);
                    assert forall|k: (Seq<u8>, u32)|
                        #[trigger] m.contains_key(k) <==> exists|j: int|
                            0 <= j < s.len() && entry_key(#[trigger] s[j]) == k by {
                        if m.contains_key(k) {
                            let j = choose|j: int|
                                0 <= j < old_entries.len() && entry_key(#[trigger] old_entries[j]) == k;
                            assert(j != i);
                            let sj = if j < i { j } else { j - 1 };
                            assert(s[sj] == old_entries[j]);
                        }
                        if exists|j: int| 0 <= j < s.len() && entry_key(#[trigger] s[j]) == k {
                            let j = choose|j: int| 0 <= j < s.len() && entry_key(#[trigger] s[j]) == k;
                            let oj = if j < i { j } else { j + 1 };
                            assert(s[j] == old_entries[oj]);
                            assert(entry_key(old_entries[oj]) != entry_key(old_entries[i as int]));
                        }
                    }
                    assert forall|j: int| 0 <= j < s.len() implies m[entry_key(#[trigger] s[j])]
                        == s[j].key@ by {
                        let oj = if j < i { j } else { j + 1 };
                        assert(s[j] == old_entries[oj]);
                        assert(entry_key(old_entries[oj]) != entry_key(old_entries[i as int]));
                    }
                    lemma_entries_map_ext(s, m);
                    assert(e == old_entries[i as int]);
                }
                Some(e.key)
            },
        }
    }
}

proof fn lemma_dom_len_of(s: Seq<SkippedKey>)
    requires
        keys_distinct(s),
    ensures
        entries_map(s).dom().len() == s.len(),
        entries_map(s).dom().finite(),
    decreases s.len(),
{
    if s.len() > 0 {
        let t = s.drop_last();
        assert(keys_distinct(t)) by {
            assert forall|i: int, j: int|
                0 <= i < t.len() && 0 <= j < t.len() && i != j implies entry_key(#[trigger] t[i])
                != entry_key(#[trigger] t[j]) by {
                assert(t[i] == s[i] && t[j] == s[j]);
            }
        }
        lemma_dom_len_of(t);
        lemma_entries_map(t);
        assert(!entries_map(t).contains_key(entry_key(s.last()))) by {
            if entries_map(t).contains_key(entry_key(s.last())) {
                let i = choose|i: int| 0 <= i < t.len() && entry_key(#[trigger] t[i]) == entry_key(s.last());
                assert(t[i] == s[i]);
            }
        }
    }
}

} // verus!

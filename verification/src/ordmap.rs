//! An ordered map from string keys to values, kept as two parallel vectors
//! sorted strictly by key in the lexicographic order of `text::lex_lt`.
//! It stands where the entity cache and the image sub-cache need a key-ordered
//! map whose behaviour is pinned down to the verifier.
use crate::text::{
    lemma_lex_lt_irrefl, lemma_lex_lt_total, lemma_lex_lt_trans, lex_lt, str_eq, str_lt,
};
use vstd::prelude::*;

verus! {

pub struct OrdMap<V> {
    keys: Vec<String>,
    vals: Vec<V>,
}

impl<V> OrdMap<V> {
    /// The keys, in storage order, as character sequences.
    pub closed spec fn key_seq(self) -> Seq<Seq<char>> {
        self.keys@.map_values(|k: String| k@)
    }

    /// The values, in storage order.
    pub closed spec fn val_seq(self) -> Seq<V> {
        self.vals@
    }

    pub open spec fn spec_len(self) -> nat {
        self.key_seq().len()
    }

    /// Well-formed: parallel vectors, keys strictly sorted (hence unique).
    pub closed spec fn wf(self) -> bool {
        &&& self.keys@.len() == self.vals@.len()
        &&& forall|i: int, j: int|
            0 <= i < j < self.key_seq().len() ==> lex_lt(
                self.key_seq()[i],
                self.key_seq()[j],
            )
    }

    pub closed spec fn contains_key(self, k: Seq<char>) -> bool {
        exists|i: int| 0 <= i < self.key_seq().len() && self.key_seq()[i] == k
    }

    /// The storage position of a key that the map contains.
    pub closed spec fn index_of_key(self, k: Seq<char>) -> int {
        choose|i: int| 0 <= i < self.key_seq().len() && self.key_seq()[i] == k
    }

    /// The value stored under a key, or `None`.
    pub open spec fn spec_get(self, k: Seq<char>) -> Option<V> {
        if self.contains_key(k) {
            Some(self.val_seq()[self.index_of_key(k)])
        } else {
            None
        }
    }

    /// In a well-formed map a key sits at one position only.
    pub proof fn lemma_key_unique(self, k: Seq<char>, i: int)
        requires
            self.wf(),
            0 <= i < self.key_seq().len(),
            self.key_seq()[i] == k,
        ensures
            self.contains_key(k),
            self.index_of_key(k) == i,
    {
        assert(self.contains_key(k));
        let j = self.index_of_key(k);
        if i < j {
            lemma_lex_lt_irrefl(k);
        } else if j < i {
            lemma_lex_lt_irrefl(k);
        }
    }

    /// In a well-formed map the two parallel vectors have one length.
    pub proof fn lemma_wf_lens(self)
        requires
            self.wf(),
        ensures
            self.val_seq().len() == self.spec_len(),
    {
    }

    /// The chosen index of a contained key is in range and holds the key.
    pub proof fn lemma_index_in_range(self, k: Seq<char>)
        requires
            self.contains_key(k),
        ensures
            0 <= self.index_of_key(k) < self.key_seq().len(),
            self.key_seq()[self.index_of_key(k)] == k,
    {
    }

    pub fn new() -> (r: OrdMap<V>)
        ensures
            r.wf(),
            r.spec_len() == 0,
            forall|k: Seq<char>| !r.contains_key(k),
    {
        let r = OrdMap { keys: Vec::new(), vals: Vec::new() };
        proof {
            assert(r.key_seq() =~= Seq::<Seq<char>>::empty());
        }
        r
    }

    pub fn len(&self) -> (r: usize)
        ensures
            r == self.spec_len(),
    {
        self.keys.len()
    }

    pub fn is_empty(&self) -> (r: bool)
        ensures
            r == (self.spec_len() == 0),
    {
        self.keys.len() == 0
    }

    /// The storage position of a key, or `None` when absent.
    pub fn find(&self, k: &str) -> (r: Option<usize>)
        ensures
            match r {
                Some(i) => i < self.spec_len() && self.key_seq()[i as int] == k@
                    && self.contains_key(k@),
                None => !self.contains_key(k@),
            },
    {
        let n = self.keys.len();
        let mut i: usize = 0;
        while i < n
            invariant
                i <= n,
                n == self.spec_len(),
                forall|j: int| 0 <= j < i ==> self.key_seq()[j] != k@,
            decreases n - i,
        {
            if str_eq(self.keys[i].as_str(), k) {
                return Some(i);
            }
            i = i + 1;
        }
        None
    }

    pub fn contains(&self, k: &str) -> (r: bool)
        ensures
            r == self.contains_key(k@),
    {
        match self.find(k) {
            Some(_) => true,
            None => false,
        }
    }

    pub fn get(&self, k: &str) -> (r: Option<&V>)
        requires
            self.wf(),
        ensures
            match r {
                Some(v) => self.spec_get(k@) == Some(*v),
                None => !self.contains_key(k@),
            },
    {
        match self.find(k) {
            Some(i) => {
                proof {
                    self.lemma_key_unique(k@, i as int);
                }
                Some(&self.vals[i])
            },
            None => None,
        }
    }

    /// The key at a storage position.
    pub fn key_at(&self, i: usize) -> (r: &String)
        requires
            i < self.spec_len(),
        ensures
            r@ == self.key_seq()[i as int],
    {
        &self.keys[i]
    }

    /// The value at a storage position.
    pub fn val_at(&self, i: usize) -> (r: &V)
        requires
            self.wf(),
            i < self.spec_len(),
        ensures
            *r == self.val_seq()[i as int],
    {
        &self.vals[i]
    }

    /// Swaps the value at a storage position, returning the one it held.
    pub fn replace_at(&mut self, i: usize, v: V) -> (r: V)
        requires
            old(self).wf(),
            i < old(self).spec_len(),
        ensures
            final(self).wf(),
            r == old(self).val_seq()[i as int],
            final(self).key_seq() == old(self).key_seq(),
            final(self).spec_len() == old(self).spec_len(),
            final(self).val_seq() == old(self).val_seq().update(i as int, v),
            forall|k: Seq<char>| final(self).contains_key(k) == old(self).contains_key(k),
            forall|k: Seq<char>| final(self).index_of_key(k) == old(self).index_of_key(k),
            final(self).spec_get(old(self).key_seq()[i as int]) == Some(v),
            forall|k: Seq<char>|
                k != old(self).key_seq()[i as int] ==> final(self).spec_get(k) == old(
                    self,
                ).spec_get(k),
    {
        self.vals.push(v);
        let r = self.vals.swap_remove(i);
        proof {
            assert(self.vals@ =~= old(self).vals@.update(i as int, v));
            assert(self.key_seq() == old(self).key_seq());
            if old(self).contains_key(old(self).key_seq()[i as int]) {
                old(self).lemma_key_unique(old(self).key_seq()[i as int], i as int);
                self.lemma_key_unique(old(self).key_seq()[i as int], i as int);
            }
            assert forall|k: Seq<char>|
                k != old(self).key_seq()[i as int] && old(self).contains_key(k) implies self
                .spec_get(k) == old(self).spec_get(k) by {
                let j = old(self).index_of_key(k);
                old(self).lemma_index_in_range(k);
                self.lemma_key_unique(k, j);
            }
        }
        r
    }

    /// Inserts a key the map does not hold yet, keeping the key order.
    pub fn insert_new(&mut self, k: String, v: V)
        requires
            old(self).wf(),
            !old(self).contains_key(k@),
        ensures
            final(self).wf(),
            final(self).spec_len() == old(self).spec_len() + 1,
            final(self).contains_key(k@),
            final(self).spec_get(k@) == Some(v),
            forall|k2: Seq<char>|
                k2 != k@ ==> final(self).contains_key(k2) == old(self).contains_key(k2),
            forall|k2: Seq<char>|
                k2 != k@ ==> final(self).spec_get(k2) == old(self).spec_get(k2),
    {
        let n = self.keys.len();
        let mut p: usize = 0;
        loop
            invariant
                p <= n,
                n == self.spec_len(),
                self == old(self),
                forall|j: int| 0 <= j < p ==> lex_lt(self.key_seq()[j], k@),
            ensures
                p <= n,
                p == n || !lex_lt(self.key_seq()[p as int], k@),
            decreases n - p,
        {
            if p >= n {
                break;
            }
            if !str_lt(self.keys[p].as_str(), k.as_str()) {
                break;
            }
            p = p + 1;
        }
        proof {
            if p < n {
                lemma_lex_lt_total(self.key_seq()[p as int], k@);
                assert(self.key_seq()[p as int] != k@);
                assert(lex_lt(k@, self.key_seq()[p as int]));
            }
        }
        let ghost pre = *self;
        self.keys.insert(p, k);
        self.vals.insert(p, v);
        proof {
            let ks = pre.key_seq();
            assert(self.key_seq() =~= ks.insert(p as int, k@));
            let new_ks = self.key_seq();
            // sortedness of the widened sequence
            assert forall|i: int, j: int|
                0 <= i < j < new_ks.len() implies lex_lt(new_ks[i], new_ks[j]) by {
                if i == p {
                    // k before every key that followed position p
                    if j > p {
                        if j == p + 1 {
                        } else {
                            lemma_lex_lt_trans(k@, ks[p as int], ks[j - 1]);
                        }
                    }
                } else if j == p {
                    // every key before position p comes before k
                } else if i < p && j > p {
                    if i < p && p < n {
                        lemma_lex_lt_trans(ks[i], k@, ks[j - 1]);
                    }
                } else if j < p {
                } else {
                }
            }
            assert(self.wf());
            // the new key is present once
            self.lemma_key_unique(k@, p as int);
            assert(self.spec_get(k@) == Some(v)) by {
                assert(self.val_seq() =~= pre.val_seq().insert(p as int, v));
            }
            assert(self.val_seq() =~= pre.val_seq().insert(p as int, v));
            // other keys keep their place, shifted past p
            assert forall|k2: Seq<char>|
                k2 != k@ implies self.contains_key(k2) == pre.contains_key(k2) by {
                if pre.contains_key(k2) {
                    let i = pre.index_of_key(k2);
                    pre.lemma_index_in_range(k2);
                    let i2 = if i < p { i } else { i + 1 };
                    assert(new_ks[i2] == k2);
                    self.lemma_key_unique(k2, i2);
                }
                if self.contains_key(k2) {
                    let i = self.index_of_key(k2);
                    self.lemma_index_in_range(k2);
                    let iold = if i < p { i } else { i - 1 };
                    assert(ks[iold] == k2);
                    pre.lemma_key_unique(k2, iold);
                }
            }
            assert forall|k2: Seq<char>|
                k2 != k@ implies self.spec_get(k2) == pre.spec_get(k2) by {
                if pre.contains_key(k2) {
                    let i = pre.index_of_key(k2);
                    pre.lemma_index_in_range(k2);
                    let i2 = if i < p { i } else { i + 1 };
                    assert(new_ks[i2] == k2);
                    self.lemma_key_unique(k2, i2);
                    assert(self.val_seq()[i2] == pre.val_seq()[i]);
                }
            }
        }
    }

    /// Drops every entry.
    pub fn clear(&mut self)
        ensures
            final(self).wf(),
            final(self).spec_len() == 0,
            forall|k: Seq<char>| !final(self).contains_key(k),
    {
        self.keys.clear();
        self.vals.clear();
        proof {
            assert(self.key_seq() =~= Seq::<Seq<char>>::empty());
        }
    }

    /// A copy of the key list, in key order.
    pub fn keys_cloned(&self) -> (r: Vec<String>)
        ensures
            r@.map_values(|k: String| k@) == self.key_seq(),
    {
        let n = self.keys.len();
        let mut r: Vec<String> = Vec::new();
        let mut i: usize = 0;
        while i < n
            invariant
                i <= n,
                n == self.spec_len(),
                r@.len() == i,
                forall|j: int| 0 <= j < i ==> r@.map_values(|k: String| k@)[j] == self.key_seq()[j],
            decreases n - i,
        {
            let s: String = self.keys[i].clone();
            r.push(s);
            i = i + 1;
        }
        proof {
            assert(r@.map_values(|k: String| k@) =~= self.key_seq());
        }
        r
    }
}

} // verus!

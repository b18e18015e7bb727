//! Account identities and the address-keyed map that every piece of
//! per-wallet contract state lives in.

use vstd::prelude::*;

verus! {

/// An account identity, held as the bytes of its string key.
///
/// Two addresses denote the same account exactly when their bytes agree.
#[derive(Debug)]
pub struct Address {
    pub bytes: Vec<u8>,
}

impl View for Address {
    type V = Seq<u8>;

    open spec fn view(&self) -> Seq<u8> {
        self.bytes@
    }
}

impl Address {
    /// Builds an address from the bytes of its string key.
    pub fn from_bytes(bytes: Vec<u8>) -> (r: Address)
        ensures
            r@ == bytes@,
    {
        Address { bytes }
    }

    /// Whether `self` and `other` denote the same account.
    pub fn same_as(&self, other: &Address) -> (r: bool)
        ensures
            r == (self@ == other@),
    {
        let n = self.bytes.len();
        if n != other.bytes.len() {
            return false;
        }
        let mut i: usize = 0;
        while i < n
            invariant
                n == self.bytes@.len(),
                n == other.bytes@.len(),
                i <= n,
                forall|j: int| 0 <= j < i ==> self.bytes@[j] == other.bytes@[j],
            decreases n - i,
        {
            if self.bytes[i] != other.bytes[i] {
                return false;
            }
            i = i + 1;
        }
        assert(self@ =~= other@);
        true
    }
}

impl Clone for Address {
    fn clone(&self) -> (r: Self)
        ensures
            r@ == self@,
    {
        let mut bytes: Vec<u8> = Vec::new();
        let n = self.bytes.len();
        let mut i: usize = 0;
        while i < n
            invariant
                n == self.bytes@.len(),
                i <= n,
                bytes@ == self.bytes@.subrange(0, i as int),
            decreases n - i,
        {
            bytes.push(self.bytes[i]);
            i = i + 1;
            assert(bytes@ =~= self.bytes@.subrange(0, i as int));
        }
        assert(bytes@ =~= self.bytes@);
        Address { bytes }
    }
}

impl PartialEq for Address {
    fn eq(&self, other: &Self) -> (r: bool) {
        self.same_as(other)
    }
}

impl Eq for Address {
}

impl vstd::std_specs::cmp::PartialEqSpecImpl for Address {
    open spec fn obeys_eq_spec() -> bool {
        true
    }

    open spec fn eq_spec(&self, other: &Self) -> bool {
        self@ == other@
    }
}


/// The accounts that a sequence of addresses denotes, in order.
pub open spec fn address_views(s: Seq<Address>) -> Seq<Seq<u8>> {
    s.map_values(|a: Address| a@)
}

/// A finite map keyed by account, as the contract keeps its per-wallet
/// storage entries, a wallet's trusted recipients and similar tables.
///
/// Each account occurs at most once among the keys.
#[derive(Debug)]
pub struct AddrMap<V> {
    keys: Vec<Address>,
    vals: Vec<V>,
}

impl<V> AddrMap<V> {
    /// The accounts that are keys, in insertion order.
    pub closed spec fn key_views(self) -> Seq<Seq<u8>> {
        address_views(self.keys@)
    }

    #[verifier::type_invariant]
    closed spec fn wf(self) -> bool {
        &&& self.keys@.len() == self.vals@.len()
        &&& self.key_views().no_duplicates()
    }

    spec fn slot(self, k: Seq<u8>) -> int {
        self.key_views().index_of(k)
    }
}

impl<V: View> View for AddrMap<V> {
    type V = Map<Seq<u8>, V::V>;

    closed spec fn view(&self) -> Map<Seq<u8>, V::V> {
        Map::new(
            |k: Seq<u8>| self.key_views().contains(k),
            |k: Seq<u8>| self.vals@[self.slot(k)]@,
        )
    }
}

impl<V: View> AddrMap<V> {
    proof fn lemma_at(self, i: int)
        requires
            self.wf(),
            0 <= i < self.keys@.len(),
        ensures
            self@.contains_key(self.keys@[i]@),
            self@[self.keys@[i]@] == self.vals@[i]@,
            self.slot(self.keys@[i]@) == i,
    {
        let kv = self.key_views();
        assert(kv[i] == self.keys@[i]@);
        assert(kv.contains(self.keys@[i]@));
        let j = self.slot(self.keys@[i]@);
        assert(0 <= j < kv.len() && kv[j] == kv[i]);
    }

    proof fn lemma_absent(self, k: Seq<u8>)
        requires
            forall|i: int| 0 <= i < self.keys@.len() ==> self.keys@[i]@ != k,
        ensures
            !self@.contains_key(k),
    {
        let kv = self.key_views();
        if kv.contains(k) {
            let i = choose|i: int| 0 <= i < kv.len() && kv[i] == k;
            assert(self.keys@[i]@ == k);
        }
    }

    /// The empty map.
    pub fn new() -> (r: Self)
        ensures
            r@ == Map::<Seq<u8>, V::V>::empty(),
    {
        let r = AddrMap { keys: Vec::new(), vals: Vec::new() };
        assert(r.key_views() =~= Seq::<Seq<u8>>::empty());
        assert(r@ =~= Map::<Seq<u8>, V::V>::empty());
        r
    }

    /// The position of `k` among the keys, if it is one.
    fn find(&self, k: &Address) -> (r: Option<usize>)
        ensures
            match r {
                Some(i) => i < self.keys@.len() && self.keys@[i as int]@ == k@ && self@.contains_key(
                    k@,
                ) && self@[k@] == self.vals@[i as int]@,
                None => !self@.contains_key(k@),
            },
    {
        proof {
            use_type_invariant(self);
        }
        let n = self.keys.len();
        let mut i: usize = 0;
        while i < n
            invariant
                self.wf(),
                n == self.keys@.len(),
                i <= n,
                forall|j: int| 0 <= j < i ==> self.keys@[j]@ != k@,
            decreases n - i,
        {
            if self.keys[i].same_as(k) {
                proof {
                    self.lemma_at(i as int);
                }
                return Some(i);
            }
            i = i + 1;
        }
        proof {
            self.lemma_absent(k@);
        }
        None
    }

    /// Whether `k` is a key.
    pub fn contains_key(&self, k: &Address) -> (r: bool)
        ensures
            r == self@.contains_key(k@),
    {
        self.find(k).is_some()
    }

    /// The value stored under `k`, if any.
    pub fn get(&self, k: &Address) -> (r: Option<&V>)
        ensures
            r.is_some() == self@.contains_key(k@),
            r matches Some(v) ==> v@ == self@[k@],
    {
        proof {
            use_type_invariant(self);
        }
        match self.find(k) {
            Some(i) => Some(&self.vals[i]),
            None => None,
        }
    }

    /// Stores `v` under `k`, replacing what was stored there.
    pub fn set(&mut self, k: Address, v: V)
        ensures
            final(self)@ == old(self)@.insert(k@, v@),
    {
        proof {
            use_type_invariant(&*self);
        }
        let mut taken = AddrMap { keys: Vec::new(), vals: Vec::new() };
        proof {
            assert(taken.key_views() =~= Seq::<Seq<u8>>::empty());
        }
        std::mem::swap(self, &mut taken);
        let ghost before = taken;
        let found = taken.find(&k);
        let AddrMap { mut keys, mut vals } = taken;
        match found {
            Some(i) => {
                vals.set(i, v);
                let after = AddrMap { keys, vals };
                proof {
                    assert(after.key_views() =~= before.key_views());
                    assert forall|j: int| 0 <= j < after.keys@.len() implies after.slot(
                        after.keys@[j]@,
                    ) == j by {
                        after.lemma_at(j);
                    }
                    assert forall|kk: Seq<u8>| #[trigger] after@.contains_key(kk) implies after@[kk]
                        == before@.insert(k@, v@)[kk] by {
                        let j = after.slot(kk);
                        after.lemma_at(j);
                        before.lemma_at(j);
                    }
                    assert(after@ =~= before@.insert(k@, v@));
                }
                *self = after;
            },
            None => {
                let ghost kv = k@;
                keys.push(k);
                vals.push(v);
                proof {
                    let bkv = before.key_views();
                    let akv = address_views(keys@);
                    assert(akv =~= bkv.push(kv));
                    assert(!bkv.contains(kv));
                    assert forall|x: int, y: int|
                        0 <= x < akv.len() && 0 <= y < akv.len() && x != y implies akv[x]
                        != akv[y] by {
                        if x == bkv.len() {
                            assert(akv[y] == bkv[y]);
                        } else if y == bkv.len() {
                            assert(akv[x] == bkv[x]);
                        }
                    }
                }
                let after = AddrMap { keys, vals };
                proof {
                    assert(after.key_views() =~= before.key_views().push(kv));
                    let n = before.keys@.len() as int;
                    after.lemma_at(n);
                    assert forall|kk: Seq<u8>| #[trigger] after@.contains_key(kk) implies after@[kk]
                        == before@.insert(kv, v@)[kk] by {
                        let j = after.slot(kk);
                        after.lemma_at(j);
                        if j < n {
                            before.lemma_at(j);
                        }
                    }
                    assert forall|kk: Seq<u8>| #[trigger] before@.insert(kv, v@).contains_key(kk)
                        implies after@.contains_key(kk) by {
                        if kk != kv {
                            let j = before.slot(kk);
                            before.lemma_at(j);
                            after.lemma_at(j);
                        }
                    }
                    assert(after@ =~= before@.insert(kv, v@));
                }
                *self = after;
            },
        }
    }

    /// Removes `k` and what was stored under it.
    pub fn remove(&mut self, k: &Address)
        ensures
            final(self)@ == old(self)@.remove(k@),
    {
        proof {
            use_type_invariant(&*self);
        }
        let found = self.find(k);
        match found {
            None => {
                proof {
                    assert(self@ =~= self@.remove(k@));
                }
            },
            Some(i) => {
                let mut taken = AddrMap { keys: Vec::new(), vals: Vec::new() };
                proof {
                    assert(taken.key_views() =~= Seq::<Seq<u8>>::empty());
                }
                std::mem::swap(self, &mut taken);
                let ghost before = taken;
                let AddrMap { mut keys, mut vals } = taken;
                keys.remove(i);
                vals.remove(i);
                proof {
                    let bkv = before.key_views();
                    let akv = address_views(keys@);
                    assert(akv =~= bkv.remove(i as int));
                    assert forall|x: int, y: int|
                        0 <= x < akv.len() && 0 <= y < akv.len() && x != y implies akv[x]
                        != akv[y] by {
                        let bx = if x < i { x } else { x + 1 };
                        let by_ = if y < i { y } else { y + 1 };
                        assert(akv[x] == bkv[bx]);
                        assert(akv[y] == bkv[by_]);
                    }
                }
                let after = AddrMap { keys, vals };
                proof {
                    let n = after.keys@.len() as int;
                    assert forall|kk: Seq<u8>| #[trigger] after@.contains_key(kk) implies before@.remove(
                        k@,
                    ).contains_key(kk) && after@[kk] == before@[kk] by {
                        let j = after.slot(kk);
                        after.lemma_at(j);
                        let bj = if j < i { j } else { j + 1 };
                        assert(after.keys@[j] == before.keys@[bj]);
                        before.lemma_at(bj);
                        before.lemma_at(i as int);
                    }
                    assert forall|kk: Seq<u8>| #[trigger] before@.remove(k@).contains_key(kk)
                        implies after@.contains_key(kk) by {
                        let bj = before.slot(kk);
                        before.lemma_at(bj);
                        before.lemma_at(i as int);
                        assert(bj != i);
                        let j = if bj < i { bj } else { bj - 1 };
                        assert(after.keys@[j] == before.keys@[bj]);
                        after.lemma_at(j);
                    }
                    assert(after@ =~= before@.remove(k@));
                }
                *self = after;
            },
        }
    }

    /// The `i`-th key, in insertion order, and the value stored under it.
    pub fn entry(&self, i: usize) -> (r: (&Address, &V))
        requires
            i < self@.len(),
        ensures
            self@.contains_key(r.0@),
            self@[r.0@] == r.1@,
    {
        proof {
            use_type_invariant(self);
            self.key_views().unique_seq_to_set();
            assert(self@.dom() =~= self.key_views().to_set());
            self.lemma_at(i as int);
        }
        (&self.keys[i], &self.vals[i])
    }

    /// The number of keys.
    pub fn len(&self) -> (r: usize)
        ensures
            r == self@.len(),
            self@.dom().finite(),
    {
        proof {
            use_type_invariant(self);
            self.key_views().unique_seq_to_set();
            assert(self@.dom() =~= self.key_views().to_set());
        }
        self.keys.len()
    }
}


impl<V: View + Copy> Clone for AddrMap<V> {
    fn clone(&self) -> (r: Self)
        ensures
            r@ == self@,
    {
        proof {
            use_type_invariant(self);
        }
        let n = self.keys.len();
        let mut keys: Vec<Address> = Vec::new();
        let mut vals: Vec<V> = Vec::new();
        let mut i: usize = 0;
        while i < n
            invariant
                self.wf(),
                n == self.keys@.len(),
                i <= n,
                keys@.len() == i,
                vals@.len() == i,
                address_views(keys@) =~= self.key_views().subrange(0, i as int),
                forall|j: int| 0 <= j < i ==> vals@[j] == self.vals@[j],
            decreases n - i,
        {
            keys.push(self.keys[i].clone());
            vals.push(self.vals[i]);
            i = i + 1;
            assert(address_views(keys@) =~= self.key_views().subrange(0, i as int));
        }
        proof {
            assert(address_views(keys@) =~= self.key_views());
            assert(vals@ =~= self.vals@);
        }
        let r = AddrMap { keys, vals };
        proof {
            assert forall|kk: Seq<u8>| #[trigger] r@.contains_key(kk) implies r@[kk] == self@[kk] by {
                let j = r.slot(kk);
                r.lemma_at(j);
                self.lemma_at(j);
            }
            assert(r@ =~= self@);
        }
        r
    }
}

/// Whether `v` lists the account `a`.
pub fn addresses_contain(v: &Vec<Address>, a: &Address) -> (r: bool)
    ensures
        r == address_views(v@).contains(a@),
{
    let n = v.len();
    let mut i: usize = 0;
    while i < n
        invariant
            n == v@.len(),
            i <= n,
            forall|j: int| 0 <= j < i ==> v@[j]@ != a@,
        decreases n - i,
    {
        if v[i].same_as(a) {
            assert(address_views(v@)[i as int] == a@);
            return true;
        }
        i = i + 1;
    }
    proof {
        if address_views(v@).contains(a@) {
            let j = choose|j: int| 0 <= j < n && address_views(v@)[j] == a@;
            assert(v@[j]@ == a@);
        }
    }
    false
}

/// A copy of a list of addresses.
pub fn clone_addresses(v: &Vec<Address>) -> (r: Vec<Address>)
    ensures
        address_views(r@) == address_views(v@),
{
    let n = v.len();
    let mut out: Vec<Address> = Vec::new();
    let mut i: usize = 0;
    while i < n
        invariant
            n == v@.len(),
            i <= n,
            out@.len() == i,
            address_views(out@) =~= address_views(v@).subrange(0, i as int),
        decreases n - i,
    {
        let c = v[i].clone();
        out.push(c);
        proof {
            assert(address_views(out@)[i as int] == address_views(v@)[i as int]);
        }
        i = i + 1;
        assert(address_views(out@) =~= address_views(v@).subrange(0, i as int));
    }
    assert(address_views(out@) =~= address_views(v@));
    out
}

} // verus!

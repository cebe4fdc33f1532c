//! The replay-protection registry and the attester registry.
use vstd::prelude::*;
use crate::bytes::bytes_equal;
use crate::EthAddress;

verus! {

/// The nonce keys that were used, with a floor below which every nonce counts as used.
#[derive(Debug, Clone)]
pub struct UsedNonces {
    first_nonce: u64,
    used: Vec<[u8; 32]>,
}

impl UsedNonces {
    /// The nonces below this one count as used.
    pub closed spec fn first_nonce_spec(&self) -> u64 {
        self.first_nonce
    }

    /// The keys marked used.
    pub closed spec fn used_keys(&self) -> Set<Seq<u8>> {
        Set::new(|k: Seq<u8>| exists|i: int| 0 <= i < self.used@.len() && self.used@[i]@ == k)
    }

    /// Whether the nonce with the given key counts as used.
    pub open spec fn is_used_spec(&self, key: Seq<u8>, nonce: u64) -> bool {
        nonce < self.first_nonce_spec() || self.used_keys().contains(key)
    }

    /// An empty registry whose nonces below `first_nonce` count as used.
    pub fn new(first_nonce: u64) -> (r: UsedNonces)
        ensures
            r.first_nonce_spec() == first_nonce,
            r.used_keys() == Set::<Seq<u8>>::empty(),
    {
        let r = UsedNonces { first_nonce, used: Vec::new() };
        assert(r.used_keys() =~= Set::<Seq<u8>>::empty());
        r
    }

    /// The floor below which every nonce counts as used.
    pub fn first_nonce(&self) -> (r: u64)
        ensures
            r == self.first_nonce_spec(),
    {
        self.first_nonce
    }

    fn contains(&self, nonce_hashed: &[u8; 32]) -> (r: bool)
        ensures
            r == self.used_keys().contains(nonce_hashed@),
    {
        let mut i: usize = 0;
        while i < self.used.len()
            invariant
                i <= self.used@.len(),
                forall|j: int| 0 <= j < i ==> self.used@[j]@ != nonce_hashed@,
            decreases self.used@.len() - i,
        {
            if bytes_equal(&self.used[i], nonce_hashed) {
                return true;
            }
            i = i + 1;
        }
        false
    }

    /// Marks the key as used, for good.
    pub fn use_nonce(&mut self, nonce_hashed: [u8; 32])
        ensures
            final(self).first_nonce_spec() == old(self).first_nonce_spec(),
            final(self).used_keys() == old(self).used_keys().insert(nonce_hashed@),
    {
        if !self.contains(&nonce_hashed) {
            self.used.push(nonce_hashed);
            assert forall|k: Seq<u8>| #[trigger]
                final(self).used_keys().contains(k) implies old(self).used_keys().insert(
                nonce_hashed@,
            ).contains(k) by {
                let i = choose|i: int|
                    0 <= i < final(self).used@.len() && final(self).used@[i]@ == k;
                if i < old(self).used@.len() {
                    assert(old(self).used@[i] == final(self).used@[i]);
                }
            }
            assert forall|k: Seq<u8>| #[trigger]
                old(self).used_keys().insert(nonce_hashed@).contains(k) implies final(self).used_keys().contains(k) by {
                if k == nonce_hashed@ {
                    assert(final(self).used@[old(self).used@.len() as int] == nonce_hashed);
                } else {
                    let i = choose|i: int|
                        0 <= i < old(self).used@.len() && old(self).used@[i]@ == k;
                    assert(final(self).used@[i] == old(self).used@[i]);
                }
            }
            assert(final(self).used_keys() =~= old(self).used_keys().insert(nonce_hashed@));
        } else {
            assert(old(self).used_keys().insert(nonce_hashed@) =~= old(self).used_keys());
        }
    }

    /// Whether the nonce with the given key counts as used: below the floor, or marked.
    pub fn is_used_nonce(&self, nonce_hashed: [u8; 32], nonce: u64) -> (r: bool)
        ensures
            r == self.is_used_spec(nonce_hashed@, nonce),
    {
        nonce < self.first_nonce || self.contains(&nonce_hashed)
    }
}

/// Every nonce below the floor counts as used, whatever its key, marked or not.
pub proof fn lemma_nonce_floor(registry: UsedNonces, key: Seq<u8>, nonce: u64)
    requires
        nonce < registry.first_nonce_spec(),
    ensures
        registry.is_used_spec(key, nonce),
{
}

/// The enabled attesters.
#[derive(Debug, Clone)]
pub struct Attesters {
    enabled: Vec<EthAddress>,
}

impl Attesters {
    /// The identifiers of the enabled attesters.
    pub closed spec fn enabled_set(&self) -> Set<Seq<u8>> {
        Set::new(|k: Seq<u8>| exists|i: int| 0 <= i < self.enabled@.len() && self.enabled@[i]@ == k)
    }

    /// A registry with no attester enabled.
    pub fn new() -> (r: Attesters)
        ensures
            r.enabled_set() == Set::<Seq<u8>>::empty(),
    {
        let r = Attesters { enabled: Vec::new() };
        assert(r.enabled_set() =~= Set::<Seq<u8>>::empty());
        r
    }

    /// Whether `attester` is enabled.
    pub fn is_attester(&self, attester: EthAddress) -> (r: bool)
        ensures
            r == self.enabled_set().contains(attester@),
    {
        let mut i: usize = 0;
        while i < self.enabled.len()
            invariant
                i <= self.enabled@.len(),
                forall|j: int| 0 <= j < i ==> self.enabled@[j]@ != attester@,
            decreases self.enabled@.len() - i,
        {
            if bytes_equal(&self.enabled[i], &attester) {
                return true;
            }
            i = i + 1;
        }
        false
    }

    /// Enables `attester`.
    pub fn enable_attester(&mut self, attester: EthAddress)
        ensures
            final(self).enabled_set() == old(self).enabled_set().insert(attester@),
    {
        if !self.is_attester(attester) {
            self.enabled.push(attester);
            assert forall|k: Seq<u8>| #[trigger]
                final(self).enabled_set().contains(k) implies old(self).enabled_set().insert(
                attester@,
            ).contains(k) by {
                let i = choose|i: int|
                    0 <= i < final(self).enabled@.len() && final(self).enabled@[i]@ == k;
                if i < old(self).enabled@.len() {
                    assert(old(self).enabled@[i] == final(self).enabled@[i]);
                }
            }
            assert forall|k: Seq<u8>| #[trigger]
                old(self).enabled_set().insert(attester@).contains(k) implies final(self).enabled_set().contains(k) by {
                if k == attester@ {
                    assert(final(self).enabled@[old(self).enabled@.len() as int] == attester);
                } else {
                    let i = choose|i: int|
                        0 <= i < old(self).enabled@.len() && old(self).enabled@[i]@ == k;
                    assert(final(self).enabled@[i] == old(self).enabled@[i]);
                }
            }
            assert(final(self).enabled_set() =~= old(self).enabled_set().insert(attester@));
        } else {
            assert(old(self).enabled_set().insert(attester@) =~= old(self).enabled_set());
        }
    }

    /// Disables `attester`.
    pub fn disable_attester(&mut self, attester: EthAddress)
        ensures
            final(self).enabled_set() == old(self).enabled_set().remove(attester@),
    {
        let ghost old_enabled = self.enabled@;
        let mut kept: Vec<EthAddress> = Vec::new();
        let mut i: usize = 0;
        while i < self.enabled.len()
            invariant
                i <= self.enabled@.len(),
                self.enabled@ == old_enabled,
                forall|j: int| 0 <= j < kept@.len() ==> kept@[j]@ != attester@,
                forall|j: int|
                    0 <= j < kept@.len() ==> exists|m: int|
                        0 <= m < i && #[trigger] kept@[j]@ == old_enabled[m]@,
                forall|m: int|
                    0 <= m < i && old_enabled[m]@ != attester@ ==> exists|j: int|
                        0 <= j < kept@.len() && #[trigger] kept@[j]@ == old_enabled[m]@,
            decreases self.enabled@.len() - i,
        {
            let a = self.enabled[i];
            let ghost before = kept@;
            if !bytes_equal(&a, &attester) {
                kept.push(a);
                assert(kept@[kept@.len() - 1]@ == old_enabled[i as int]@);
            }
            assert forall|m: int|
                0 <= m < i + 1 && old_enabled[m]@ != attester@ implies exists|j: int|
                    0 <= j < kept@.len() && #[trigger] kept@[j]@ == old_enabled[m]@ by {
                if m < i {
                    let j = choose|j: int|
                        0 <= j < before.len() && #[trigger] before[j]@ == old_enabled[m]@;
                    assert(kept@[j] == before[j]);
                } else {
                    assert(kept@[kept@.len() - 1]@ == old_enabled[m]@);
                }
            }
            i = i + 1;
        }
        self.enabled = kept;
        let ghost removed = Set::new(
            |k: Seq<u8>| exists|i: int| 0 <= i < old_enabled.len() && old_enabled[i]@ == k,
        ).remove(attester@);
        assert forall|k: Seq<u8>| #[trigger]
            final(self).enabled_set().contains(k) implies removed.contains(k) by {
            let j = choose|j: int| 0 <= j < kept@.len() && kept@[j]@ == k;
            assert(kept@[j]@ == k);
        }
        assert forall|k: Seq<u8>| #[trigger] removed.contains(k) implies final(self).enabled_set().contains(k) by {
            let m = choose|m: int| 0 <= m < old_enabled.len() && old_enabled[m]@ == k;
            assert(old_enabled[m]@ == k);
        }
        assert(final(self).enabled_set() =~= removed);
    }
}

} // verus!

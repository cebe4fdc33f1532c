//! The routing tables of the token messenger. Each table keeps every write in order; a
//! lookup goes by the latest write for its key, and clearing a key writes an empty entry.
use vstd::prelude::*;
use crate::bytes::bytes_equal;
use crate::{Address, GenericAddress};

verus! {

/// The counterpart registered for `domain` by the writes in `entries`.
pub open spec fn route_in(entries: Seq<(u32, Option<GenericAddress>)>, domain: u32) -> Option<
    GenericAddress,
>
    decreases entries.len(),
{
    if entries.len() == 0 {
        None
    } else if entries.last().0 == domain {
        entries.last().1
    } else {
        route_in(entries.drop_last(), domain)
    }
}

/// The counterpart token messenger of each remote domain.
#[derive(Debug, Clone)]
pub struct RemoteTokenMessengers {
    entries: Vec<(u32, Option<GenericAddress>)>,
}

impl RemoteTokenMessengers {
    /// The counterpart of each domain that has one.
    pub closed spec fn routes(&self) -> Map<u32, GenericAddress> {
        Map::new(
            |d: u32| route_in(self.entries@, d) is Some,
            |d: u32| route_in(self.entries@, d)->Some_0,
        )
    }

    /// No domain has a counterpart.
    pub fn new() -> (r: RemoteTokenMessengers)
        ensures
            r.routes() == Map::<u32, GenericAddress>::empty(),
    {
        let r = RemoteTokenMessengers { entries: Vec::new() };
        assert(r.routes() =~= Map::<u32, GenericAddress>::empty());
        r
    }

    /// Registers `remote_token_messenger` as the counterpart for `domain`.
    pub fn add_remote_token_messenger(&mut self, domain: u32, remote_token_messenger: GenericAddress)
        ensures
            final(self).routes() == old(self).routes().insert(domain, remote_token_messenger),
    {
        self.entries.push((domain, Some(remote_token_messenger)));
        assert(final(self).entries@.drop_last() == old(self).entries@);
        assert(final(self).routes() =~= old(self).routes().insert(domain, remote_token_messenger));
    }

    /// Clears the counterpart of `domain`.
    pub fn remove_remote_token_messenger(&mut self, domain: u32)
        ensures
            final(self).routes() == old(self).routes().remove(domain),
    {
        self.entries.push((domain, None));
        assert(final(self).entries@.drop_last() == old(self).entries@);
        assert(final(self).routes() =~= old(self).routes().remove(domain));
    }

    /// The counterpart of `domain`, if it has one.
    pub fn get_remote_token_messenger(&self, domain: u32) -> (r: Option<GenericAddress>)
        ensures
            r == (if self.routes().contains_key(domain) {
                Some(self.routes()[domain])
            } else {
                None
            }),
    {
        let mut i: usize = self.entries.len();
        assert(self.entries@.subrange(0, i as int) =~= self.entries@);
        while i > 0
            invariant
                i <= self.entries@.len(),
                route_in(self.entries@, domain) == route_in(self.entries@.subrange(0, i as int), domain),
            decreases i,
        {
            let ghost prefix = self.entries@.subrange(0, i as int);
            let entry = self.entries[i - 1];
            if entry.0 == domain {
                return entry.1;
            }
            assert(prefix.drop_last() =~= self.entries@.subrange(0, i - 1));
            i = i - 1;
        }
        None
    }
}

/// The local token linked to `(domain, remote_token)` by the writes in `entries`.
pub open spec fn token_in(
    entries: Seq<(u32, GenericAddress, Option<Address>)>,
    domain: u32,
    remote_token: Seq<u8>,
) -> Option<Address>
    decreases entries.len(),
{
    if entries.len() == 0 {
        None
    } else if entries.last().0 == domain && entries.last().1@ == remote_token {
        entries.last().2
    } else {
        token_in(entries.drop_last(), domain, remote_token)
    }
}

/// The local token linked to each (domain, remote token) pair.
#[derive(Debug, Clone)]
pub struct LinkedTokenPairs {
    entries: Vec<(u32, GenericAddress, Option<Address>)>,
}

impl LinkedTokenPairs {
    /// The local token of each linked (domain, remote token) pair.
    pub closed spec fn pairs(&self) -> Map<(u32, Seq<u8>), Address> {
        Map::new(
            |k: (u32, Seq<u8>)| token_in(self.entries@, k.0, k.1) is Some,
            |k: (u32, Seq<u8>)| token_in(self.entries@, k.0, k.1)->Some_0,
        )
    }

    /// No pair is linked.
    pub fn new() -> (r: LinkedTokenPairs)
        ensures
            r.pairs() == Map::<(u32, Seq<u8>), Address>::empty(),
    {
        let r = LinkedTokenPairs { entries: Vec::new() };
        assert(r.pairs() =~= Map::<(u32, Seq<u8>), Address>::empty());
        r
    }

    /// Links `local_token` to `remote_token` of `domain`.
    pub fn link(&mut self, domain: u32, remote_token: GenericAddress, local_token: Address)
        ensures
            final(self).pairs() == old(self).pairs().insert((domain, remote_token@), local_token),
    {
        self.entries.push((domain, remote_token, Some(local_token)));
        assert(final(self).entries@.drop_last() == old(self).entries@);
        assert(final(self).pairs() =~= old(self).pairs().insert((domain, remote_token@), local_token));
    }

    /// Unlinks `remote_token` of `domain`.
    pub fn unlink(&mut self, domain: u32, remote_token: GenericAddress)
        ensures
            final(self).pairs() == old(self).pairs().remove((domain, remote_token@)),
    {
        self.entries.push((domain, remote_token, None));
        assert(final(self).entries@.drop_last() == old(self).entries@);
        assert(final(self).pairs() =~= old(self).pairs().remove((domain, remote_token@)));
    }

    /// The local token linked to `remote_token` of `domain`, if any.
    pub fn get(&self, domain: u32, remote_token: &GenericAddress) -> (r: Option<Address>)
        ensures
            r == (if self.pairs().contains_key((domain, remote_token@)) {
                Some(self.pairs()[(domain, remote_token@)])
            } else {
                None
            }),
    {
        let mut i: usize = self.entries.len();
        assert(self.entries@.subrange(0, i as int) =~= self.entries@);
        while i > 0
            invariant
                i <= self.entries@.len(),
                token_in(self.entries@, domain, remote_token@) == token_in(
                    self.entries@.subrange(0, i as int),
                    domain,
                    remote_token@,
                ),
            decreases i,
        {
            let ghost prefix = self.entries@.subrange(0, i as int);
            let entry = &self.entries[i - 1];
            if entry.0 == domain && bytes_equal(&entry.1, remote_token) {
                return entry.2;
            }
            assert(prefix.drop_last() =~= self.entries@.subrange(0, i - 1));
            i = i - 1;
        }
        None
    }
}

} // verus!

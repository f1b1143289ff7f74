//! Address-keyed registry of optional contract capabilities.

use crate::address::Address;
use vstd::prelude::*;

verus! {

/// A mapping from contract address to the capability attached to it.
///
/// Each address occurs at most once. An address that is absent stands for the default
/// behaviour.
#[derive(Debug)]
pub struct ContractRegistry<T> {
    contracts: Vec<(Address, T)>,
}

impl<T> ContractRegistry<T> {
    #[verifier::type_invariant]
    spec fn keys_are_unique(&self) -> bool {
        forall|i: int, j: int|
            0 <= i < self.contracts@.len() && 0 <= j < self.contracts@.len() && i != j
                ==> self.contracts@[i].0@ != self.contracts@[j].0@
    }

    spec fn position_of(&self, key: Seq<u8>) -> int {
        choose|i: int| 0 <= i < self.contracts@.len() && self.contracts@[i].0@ == key
    }

    /// The registry as a map from address bytes to capability.
    pub closed spec fn view(&self) -> Map<Seq<u8>, T> {
        Map::new(
            |key: Seq<u8>|
                exists|i: int| 0 <= i < self.contracts@.len() && self.contracts@[i].0@ == key,
            |key: Seq<u8>| self.contracts@[self.position_of(key)].1,
        )
    }

    /// An empty registry.
    pub fn new() -> (registry: Self)
        ensures
            registry@ == Map::<Seq<u8>, T>::empty(),
    {
        let registry = ContractRegistry { contracts: Vec::new() };
        assert(registry@ =~= Map::<Seq<u8>, T>::empty());
        registry
    }

    fn find(&self, address: &Address) -> (found: Option<usize>)
        ensures
            match found {
                Some(i) => i < self.contracts@.len() && self.contracts@[i as int].0@ == address@,
                None => forall|j: int|
                    0 <= j < self.contracts@.len() ==> self.contracts@[j].0@ != address@,
            },
    {
        let mut i: usize = 0;
        while i < self.contracts.len()
            invariant
                i <= self.contracts@.len(),
                forall|j: int| 0 <= j < i ==> self.contracts@[j].0@ != address@,
            decreases self.contracts@.len() - i,
        {
            if self.contracts[i].0 == *address {
                return Some(i);
            }
            i += 1;
        }
        None
    }

    /// Registers a contract, replacing the capability already attached to the address, if any.
    pub fn register(&mut self, address: Address, contract: T)
        ensures
            final(self)@ == old(self)@.insert(address@, contract),
    {
        proof {
            use_type_invariant(&*self);
        }
        let ghost before = *self;
        let found = self.find(&address);
        let mut taken = ContractRegistry { contracts: Vec::new() };
        core::mem::swap(self, &mut taken);
        let ContractRegistry { contracts: mut entries } = taken;
        let ghost slot = match found {
            Some(i) => i as int,
            None => entries@.len() as int,
        };
        match found {
            Some(i) => {
                entries.set(i, (address, contract));
            },
            None => {
                entries.push((address, contract));
            },
        }
        assert(entries@[slot].0@ == address@ && entries@[slot].1 == contract);
        assert(forall|j: int|
            0 <= j < entries@.len() && j != slot ==> entries@[j] == before.contracts@[j]);
        *self = ContractRegistry { contracts: entries };
        let ghost wanted = before@.insert(address@, contract);
        assert forall|key: Seq<u8>| wanted.dom().contains(key) implies self@.dom().contains(
            key,
        ) by {
            if key != address@ {
                let q = before.position_of(key);
                assert(self.contracts@[q].0@ == key);
            }
        }
        assert forall|key: Seq<u8>| #[trigger] self@.dom().contains(key) implies wanted.dom().contains(
            key,
        ) && self@[key] == wanted[key] by {
            let p = self.position_of(key);
            if key != address@ {
                assert(before.contracts@[p].0@ == key);
                assert(before.position_of(key) == p);
            }
        }
        assert(self@ =~= wanted);
    }

    /// The capability attached to an address, if one is registered.
    pub fn get(&self, address: &Address) -> (contract: Option<&T>)
        ensures
            match contract {
                Some(found) => self@.contains_key(address@) && *found == self@[address@],
                None => !self@.contains_key(address@),
            },
    {
        proof {
            use_type_invariant(self);
        }
        match self.find(address) {
            Some(i) => {
                assert(self.contracts@[i as int].0@ == address@);
                Some(&self.contracts[i].1)
            },
            None => None,
        }
    }

    /// Every registered address, each once.
    pub fn addresses(&self) -> (keys: Vec<Address>)
        ensures
            keys@.len() == self@.dom().len(),
            self@.dom().finite(),
            forall|key: Seq<u8>|
                self@.contains_key(key) <==> exists|i: int|
                    0 <= i < keys@.len() && (#[trigger] keys@[i])@ == key,
            forall|i: int, j: int|
                0 <= i < keys@.len() && 0 <= j < keys@.len() && i != j ==> keys@[i]@ != keys@[j]@,
    {
        proof {
            use_type_invariant(self);
        }
        let mut keys: Vec<Address> = Vec::new();
        let mut i: usize = 0;
        while i < self.contracts.len()
            invariant
                i <= self.contracts@.len(),
                keys@.len() == i,
                forall|j: int| 0 <= j < i ==> (#[trigger] keys@[j])@ == self.contracts@[j].0@,
            decreases self.contracts@.len() - i,
        {
            keys.push(self.contracts[i].0);
            i += 1;
        }
        proof {
            self.lemma_domain_size();
            assert forall|key: Seq<u8>| self@.contains_key(key) implies exists|i: int|
                0 <= i < keys@.len() && (#[trigger] keys@[i])@ == key by {
                let p = self.position_of(key);
                assert(keys@[p]@ == key);
            }
        }
        keys
    }

    proof fn lemma_domain_size(&self)
        requires
            self.keys_are_unique(),
        ensures
            self@.dom().finite(),
            self@.dom().len() == self.contracts@.len(),
    {
        let entries = self.contracts@;
        let key_at = |i: int| entries[i].0@;
        let indices = Set::new(|i: int| 0 <= i < entries.len());
        vstd::set_lib::lemma_int_range(0, entries.len() as int);
        assert(indices =~= vstd::set_lib::set_int_range(0, entries.len() as int));
        assert(vstd::relations::injective_on(key_at, indices));
        vstd::set_lib::lemma_map_size(indices, indices.map(key_at), key_at);
        assert forall|key: Seq<u8>| self@.dom().contains(key) implies indices.map(key_at).contains(
            key,
        ) by {
            let p = self.position_of(key);
            assert(indices.contains(p) && key == key_at(p));
        }
        assert forall|key: Seq<u8>| indices.map(key_at).contains(key) implies self@.dom().contains(
            key,
        ) by {
            let p = choose|i: int| indices.contains(i) && key == key_at(i);
            assert(entries[p].0@ == key);
        }
        assert(indices.map(key_at) =~= self@.dom());
    }
}

impl<T> Default for ContractRegistry<T> {
    fn default() -> (registry: Self)
        ensures
            registry@ == Map::<Seq<u8>, T>::empty(),
    {
        ContractRegistry::new()
    }
}

} // verus!

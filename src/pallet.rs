use crate::genome::{combine, Kitty};
use crate::random::Entropy;
use crate::state::{lemma_mint_inv, lemma_move_inv, Config, Error, Event, PalletView};
use std::collections::HashMap;
use vstd::prelude::*;

verus! {

broadcast use vstd::std_specs::hash::group_hash_axioms;

/// The registry: the identifier counter, the asset store and the ownership
/// index. Commands apply one at a time and either succeed whole or change
/// nothing.
pub struct Pallet {
    config: Config,
    next_kitty_id: u64,
    kitties: HashMap<u64, Kitty>,
    kitty_owner: HashMap<u64, u64>,
    owned_kitties: HashMap<u64, Vec<u64>>,
}

impl View for Pallet {
    type V = PalletView;

    closed spec fn view(&self) -> PalletView {
        PalletView {
            max_owned: self.config.max_owned_kitties,
            max_index: self.config.max_kitty_index,
            next: self.next_kitty_id,
            kitties: self.kitties@,
            owner: self.kitty_owner@,
            owned: self.owned_kitties@.map_values(|v: Vec<u64>| v@),
        }
    }
}

impl Pallet {
    pub open spec fn wf(&self) -> bool {
        self@.inv()
    }

    /// An empty registry whose counter starts at zero.
    pub fn new(config: Config) -> (r: Pallet)
        ensures
            r.wf(),
            r@ == (PalletView {
                max_owned: config.max_owned_kitties,
                max_index: config.max_kitty_index,
                next: 0,
                kitties: Map::empty(),
                owner: Map::empty(),
                owned: Map::empty(),
            }),
    {
        let r = Pallet {
            config,
            next_kitty_id: 0,
            kitties: HashMap::new(),
            kitty_owner: HashMap::new(),
            owned_kitties: HashMap::new(),
        };
        assert(r@.owned =~= Map::empty());
        r
    }

    /// The number of creatures that `who` holds.
    fn owned_len(&self, who: u64) -> (r: usize)
        ensures
            r == self@.owned_of(who).len(),
    {
        match self.owned_kitties.get(&who) {
            Some(v) => v.len(),
            None => 0,
        }
    }

    /// Takes `who`'s owned-set out of the index.
    fn take_owned(&mut self, who: u64) -> (r: Vec<u64>)
        ensures
            r@ == old(self)@.owned_of(who),
            final(self).owned_kitties@ == old(self).owned_kitties@.remove(who),
            final(self).config == old(self).config,
            final(self).next_kitty_id == old(self).next_kitty_id,
            final(self).kitties@ == old(self).kitties@,
            final(self).kitty_owner@ == old(self).kitty_owner@,
    {
        match self.owned_kitties.remove(&who) {
            Some(v) => v,
            None => Vec::new(),
        }
    }

    /// Issues the next identifier to `who` with genome `kitty`.
    fn mint(&mut self, who: u64, kitty: Kitty)
        requires
            old(self).wf(),
            old(self)@.check_create(who) is Ok,
        ensures
            final(self).wf(),
            final(self)@ == old(self)@.mint(who, kitty),
    {
        proof {
            lemma_mint_inv(self@, who, kitty);
        }
        let ghost before = self@;
        let id = self.next_kitty_id;
        self.kitties.insert(id, kitty);
        self.kitty_owner.insert(id, who);
        self.next_kitty_id = id + 1;
        let mut set = self.take_owned(who);
        set.push(id);
        self.owned_kitties.insert(who, set);
        assert(self@.owned =~= before.mint(who, kitty).owned);
        assert(self@ == before.mint(who, kitty));
    }

    /// Creates a creature for `who`, whose genome is the host's random bytes
    /// for this command.
    pub fn create(&mut self, who: u64, dna: [u8; 16]) -> (r: Result<Event, Error>)
        requires
            old(self).wf(),
        ensures
            final(self).wf(),
            match old(self)@.check_create(who) {
                Ok(id) => r == Ok::<Event, Error>(Event::KittyCreated(who, id, Kitty(dna)))
                    && final(self)@ == old(self)@.mint(who, Kitty(dna)),
                Err(e) => r == Err::<Event, Error>(e) && final(self)@ == old(self)@,
            },
    {
        if self.next_kitty_id == self.config.max_kitty_index {
            return Err(Error::InvalidKittyIndex);
        }
        if self.owned_len(who) >= self.config.max_owned_kitties as usize {
            return Err(Error::TooManyKitties);
        }
        let id = self.next_kitty_id;
        let kitty = Kitty(dna);
        self.mint(who, kitty);
        Ok(Event::KittyCreated(who, id, kitty))
    }

    /// Breeds creatures `kitty_id_1` and `kitty_id_2` into a new creature held
    /// by `who`, with `selector` as the host's random bytes for this command.
    /// The actor need not own either parent.
    pub fn breed(&mut self, who: u64, kitty_id_1: u64, kitty_id_2: u64, selector: [u8; 16]) -> (r:
        Result<Event, Error>)
        requires
            old(self).wf(),
        ensures
            final(self).wf(),
            match old(self)@.check_breed(who, kitty_id_1, kitty_id_2) {
                Ok(id) => r matches Ok(Event::KittyBreed(w, a, b, n, k)) && w == who && a
                    == kitty_id_1 && b == kitty_id_2 && n == id && k.0@ == old(self)@.offspring(
                    kitty_id_1,
                    kitty_id_2,
                    selector@,
                ) && final(self)@ == old(self)@.mint(who, k),
                Err(e) => r == Err::<Event, Error>(e) && final(self)@ == old(self)@,
            },
    {
        if kitty_id_1 == kitty_id_2 {
            return Err(Error::SameKittyId);
        }
        let kitty1 = match self.get_kitty(kitty_id_1) {
            Ok(k) => k,
            Err(()) => return Err(Error::KittyNotExists),
        };
        let kitty2 = match self.get_kitty(kitty_id_2) {
            Ok(k) => k,
            Err(()) => return Err(Error::KittyNotExists),
        };
        let id = match self.get_next_id() {
            Ok(id) => id,
            Err(()) => return Err(Error::InvalidKittyIndex),
        };
        if self.owned_len(who) >= self.config.max_owned_kitties as usize {
            return Err(Error::TooManyKitties);
        }
        let next_kitty = combine(&kitty1, &kitty2, &selector);
        self.mint(who, next_kitty);
        Ok(Event::KittyBreed(who, kitty_id_1, kitty_id_2, id, next_kitty))
    }

    /// Creates a creature for `who` whose genome is drawn from the host's
    /// entropy for this command.
    pub fn create_seeded(&mut self, who: u64, entropy: &Entropy) -> (r: Result<Event, Error>)
        requires
            old(self).wf(),
        ensures
            final(self).wf(),
            match old(self)@.check_create(who) {
                Ok(id) => r matches Ok(Event::KittyCreated(w, n, k)) && w == who && n == id && k.0@
                    == entropy.bytes_for(who) && final(self)@ == old(self)@.mint(who, k),
                Err(e) => r == Err::<Event, Error>(e) && final(self)@ == old(self)@,
            },
    {
        let dna = entropy.value_for(who);
        self.create(who, dna)
    }

    /// Breeds two creatures into one for `who`, with the selector drawn from
    /// the host's entropy for this command.
    pub fn breed_seeded(&mut self, who: u64, kitty_id_1: u64, kitty_id_2: u64, entropy: &Entropy) -> (r:
        Result<Event, Error>)
        requires
            old(self).wf(),
        ensures
            final(self).wf(),
            match old(self)@.check_breed(who, kitty_id_1, kitty_id_2) {
                Ok(id) => r matches Ok(Event::KittyBreed(w, a, b, n, k)) && w == who && a
                    == kitty_id_1 && b == kitty_id_2 && n == id && k.0@ == old(self)@.offspring(
                    kitty_id_1,
                    kitty_id_2,
                    entropy.bytes_for(who),
                ) && final(self)@ == old(self)@.mint(who, k),
                Err(e) => r == Err::<Event, Error>(e) && final(self)@ == old(self)@,
            },
    {
        let selector = entropy.value_for(who);
        self.breed(who, kitty_id_1, kitty_id_2, selector)
    }

    /// Passes creature `kitty_id` from `who` to `receiver`: it leaves the
    /// sender's owned-set and joins the end of the receiver's.
    pub fn transfer(&mut self, who: u64, receiver: u64, kitty_id: u64) -> (r: Result<Event, Error>)
        requires
            old(self).wf(),
        ensures
            final(self).wf(),
            match old(self)@.check_transfer(who, receiver, kitty_id) {
                Ok(_) => r == Ok::<Event, Error>(Event::KittyTransferred(who, kitty_id, receiver))
                    && final(self)@ == old(self)@.move_kitty(who, receiver, kitty_id),
                Err(e) => r == Err::<Event, Error>(e) && final(self)@ == old(self)@,
            },
    {
        if !self.kitties.contains_key(&kitty_id) {
            return Err(Error::KittyNotExists);
        }
        let owner = match self.kitty_owner.get(&kitty_id) {
            Some(o) => *o,
            None => return Err(Error::KittyNotExists),
        };
        if owner != who {
            return Err(Error::NotKittyOwner);
        }
        if receiver != who && self.owned_len(receiver) >= self.config.max_owned_kitties as usize {
            return Err(Error::TooManyKitties);
        }
        let ghost before = self@;
        proof {
            lemma_move_inv(before, who, receiver, kitty_id);
        }
        self.kitty_owner.insert(kitty_id, receiver);
        let mut from_set = self.take_owned(who);
        let idx = first_index(&from_set, kitty_id);
        from_set.remove(idx);
        self.owned_kitties.insert(who, from_set);
        let mut to_set = self.take_owned(receiver);
        to_set.push(kitty_id);
        self.owned_kitties.insert(receiver, to_set);
        assert(self@.owned =~= before.move_kitty(who, receiver, kitty_id).owned);
        assert(self@ == before.move_kitty(who, receiver, kitty_id));
        Ok(Event::KittyTransferred(who, kitty_id, receiver))
    }

    /// The identifier that will be issued next.
    pub fn next_kitty_id(&self) -> (r: u64)
        ensures
            r == self@.next,
    {
        self.next_kitty_id
    }

    /// The genome of creature `id`, if it exists.
    pub fn kitties(&self, id: u64) -> (r: Option<Kitty>)
        ensures
            r == (if self@.kitties.contains_key(id) {
                Some(self@.kitties[id])
            } else {
                None
            }),
    {
        match self.kitties.get(&id) {
            Some(k) => Some(*k),
            None => None,
        }
    }

    /// The owner of creature `id`, if it exists.
    pub fn kitty_owner(&self, id: u64) -> (r: Option<u64>)
        ensures
            r == (if self@.owner.contains_key(id) {
                Some(self@.owner[id])
            } else {
                None
            }),
    {
        match self.kitty_owner.get(&id) {
            Some(o) => Some(*o),
            None => None,
        }
    }

    /// The creatures that `who` holds, in order of acquisition.
    pub fn owned_kitties(&self, who: u64) -> (r: Vec<u64>)
        ensures
            r@ == self@.owned_of(who),
    {
        let mut r: Vec<u64> = Vec::new();
        match self.owned_kitties.get(&who) {
            Some(v) => {
                let mut i: usize = 0;
                while i < v.len()
                    invariant
                        0 <= i <= v.len(),
                        r@ == v@.subrange(0, i as int),
                    decreases v.len() - i,
                {
                    r.push(v[i]);
                    i = i + 1;
                }
                assert(v@.subrange(0, v.len() as int) =~= v@);
            },
            None => {},
        }
        r
    }

    /// Moves the counter forward to `id` without issuing anything: the
    /// identifiers below it that were never issued stay unused for good.
    pub fn set_next_kitty_id(&mut self, id: u64)
        requires
            old(self).wf(),
            old(self)@.next <= id <= old(self)@.max_index,
        ensures
            final(self).wf(),
            final(self)@ == (PalletView { next: id, ..old(self)@ }),
    {
        let ghost before = self@;
        self.next_kitty_id = id;
        assert(self@ == (PalletView { next: id, ..before }));
        assert forall|a: u64| #[trigger] self@.owned_of(a) == before.owned_of(a) by {}
    }

    /// The identifier that the next creation would issue, or `Err` when the
    /// identifier space is exhausted.
    pub fn get_next_id(&self) -> (r: Result<u64, ()>)
        ensures
            r == (if self@.next == self@.max_index {
                Err::<u64, ()>(())
            } else {
                Ok(self@.next)
            }),
    {
        if self.next_kitty_id == self.config.max_kitty_index {
            Err(())
        } else {
            Ok(self.next_kitty_id)
        }
    }

    /// The genome of creature `id`, or `Err` when there is none.
    pub fn get_kitty(&self, id: u64) -> (r: Result<Kitty, ()>)
        ensures
            r == (if self@.kitties.contains_key(id) {
                Ok::<Kitty, ()>(self@.kitties[id])
            } else {
                Err(())
            }),
    {
        match self.kitties.get(&id) {
            Some(k) => Ok(*k),
            None => Err(()),
        }
    }
}

/// The first position of `x` in `v`, which holds it.
fn first_index(v: &Vec<u64>, x: u64) -> (r: usize)
    requires
        v@.contains(x),
    ensures
        r < v@.len(),
        v@.index_of_first(x) == Some(r as int),
{
    let mut i: usize = 0;
    while i < v.len()
        invariant
            0 <= i <= v.len(),
            v@.contains(x),
            forall|j: int| 0 <= j < i ==> v@[j] != x,
        decreases v.len() - i,
    {
        if v[i] == x {
            proof {
                v@.index_of_first_ensures(x);
            }
            return i;
        }
        i = i + 1;
    }
    assert(false);
    0
}

} // verus!

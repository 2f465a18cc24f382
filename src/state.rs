use crate::genome::{combine_spec, Kitty};
use vstd::prelude::*;

verus! {

/// The limits that a registry is set up with.
#[derive(Clone, Copy, PartialEq, Eq, Debug)]
pub struct Config {
    /// How many creatures one account may hold at once.
    pub max_owned_kitties: u32,
    /// The largest value of the identifier space. It is never issued: reaching
    /// it means that the space is exhausted.
    pub max_kitty_index: u64,
}

/// Why a command was rejected. A rejected command changes nothing.
#[derive(Clone, Copy, PartialEq, Eq, Debug)]
pub enum Error {
    /// The identifier space is exhausted.
    InvalidKittyIndex,
    /// A referenced creature does not exist.
    KittyNotExists,
    /// Both parents of a breed are the same creature.
    SameKittyId,
    /// The actor does not own the creature.
    NotKittyOwner,
    /// The receiving account already holds as many creatures as it may.
    TooManyKitties,
}

/// The notification of a command that succeeded.
#[derive(Clone, Copy, PartialEq, Eq, Debug)]
pub enum Event {
    /// The account, the new identifier and its genome.
    KittyCreated(u64, u64, Kitty),
    /// The account, the two parents, the new identifier and its genome.
    KittyBreed(u64, u64, u64, u64, Kitty),
    /// The sender, the identifier and the receiver.
    KittyTransferred(u64, u64, u64),
}

/// The registry as mathematical values.
pub struct PalletView {
    pub max_owned: u32,
    pub max_index: u64,
    /// The identifier that will be issued next.
    pub next: u64,
    /// The asset store: identifier to genome.
    pub kitties: Map<u64, Kitty>,
    /// The owner of each creature.
    pub owner: Map<u64, u64>,
    /// The ordered owned-set of each account that has held a creature.
    pub owned: Map<u64, Seq<u64>>,
}

impl PalletView {
    /// The creatures that an account holds, in order of acquisition.
    pub open spec fn owned_of(self, a: u64) -> Seq<u64> {
        if self.owned.contains_key(a) {
            self.owned[a]
        } else {
            Seq::empty()
        }
    }

    pub open spec fn issued(self, id: u64) -> bool {
        self.kitties.contains_key(id)
    }

    /// The identifiers whose recorded owner is `a`.
    pub open spec fn ids_owned_by(self, a: u64) -> Set<u64> {
        Set::new(|id: u64| self.owner.contains_key(id) && self.owner[id] == a)
    }

    /// Every issued identifier has one owner and lies below the counter; each
    /// owned-set is bounded, without repeats, and agrees with the owner map
    /// in both directions.
    pub open spec fn inv(self) -> bool {
        &&& self.next <= self.max_index
        &&& self.kitties.dom() == self.owner.dom()
        &&& forall|id: u64| #[trigger] self.kitties.contains_key(id) ==> id < self.next
        &&& forall|a: u64|
            #[trigger] self.owned_of(a).len() <= self.max_owned && self.owned_of(a).no_duplicates()
        &&& forall|a: u64, j: int|
            0 <= j < self.owned_of(a).len() ==> self.owner.contains_key(
                #[trigger] self.owned_of(a)[j],
            ) && self.owner[self.owned_of(a)[j]] == a
        &&& forall|id: u64| #[trigger]
            self.owner.contains_key(id) ==> self.owned_of(self.owner[id]).contains(id)
    }

    /// The identifier that a creation by `who` would issue, or why it fails.
    pub open spec fn check_create(self, who: u64) -> Result<u64, Error> {
        if self.next == self.max_index {
            Err(Error::InvalidKittyIndex)
        } else if self.owned_of(who).len() >= self.max_owned {
            Err(Error::TooManyKitties)
        } else {
            Ok(self.next)
        }
    }

    /// The identifier that a breed of `a` and `b` by `who` would issue, or why
    /// it fails. The actor need not own the parents.
    pub open spec fn check_breed(self, who: u64, a: u64, b: u64) -> Result<u64, Error> {
        if a == b {
            Err(Error::SameKittyId)
        } else if !self.issued(a) || !self.issued(b) {
            Err(Error::KittyNotExists)
        } else {
            self.check_create(who)
        }
    }

    /// Whether `who` may hand creature `id` to `to`, or why not.
    pub open spec fn check_transfer(self, who: u64, to: u64, id: u64) -> Result<(), Error> {
        if !self.issued(id) {
            Err(Error::KittyNotExists)
        } else if self.owner[id] != who {
            Err(Error::NotKittyOwner)
        } else if to != who && self.owned_of(to).len() >= self.max_owned {
            Err(Error::TooManyKitties)
        } else {
            Ok(())
        }
    }

    /// The genome bred from parents `a` and `b` under a selector.
    pub open spec fn offspring(self, a: u64, b: u64, selector: Seq<u8>) -> Seq<u8> {
        combine_spec(self.kitties[a].0@, self.kitties[b].0@, selector)
    }

    /// The registry after issuing the next identifier to `who` with genome `kitty`.
    pub open spec fn mint(self, who: u64, kitty: Kitty) -> PalletView {
        PalletView {
            next: (self.next + 1) as u64,
            kitties: self.kitties.insert(self.next, kitty),
            owner: self.owner.insert(self.next, who),
            owned: self.owned.insert(who, self.owned_of(who).push(self.next)),
            ..self
        }
    }

    /// The registry after creature `id` passes from `from` to the end of `to`'s
    /// owned-set.
    pub open spec fn move_kitty(self, from: u64, to: u64, id: u64) -> PalletView {
        let left = self.owned.insert(from, self.owned_of(from).remove_value(id));
        let to_before = if left.contains_key(to) {
            left[to]
        } else {
            Seq::empty()
        };
        PalletView {
            owner: self.owner.insert(id, to),
            owned: left.insert(to, to_before.push(id)),
            ..self
        }
    }
}

/// Removing the one occurrence of `x` from a sequence without repeats.
proof fn lemma_remove_unique(s: Seq<u64>, x: u64)
    requires
        s.no_duplicates(),
        s.contains(x),
    ensures
        s.remove_value(x).len() == s.len() - 1,
        s.remove_value(x).no_duplicates(),
        !s.remove_value(x).contains(x),
        forall|y: u64| y != x ==> (s.remove_value(x).contains(y) <==> s.contains(y)),
{
    s.index_of_first_ensures(x);
    let i = s.index_of_first(x)->Some_0;
    let r = s.remove(i);
    assert(s.remove_value(x) == r);
    assert forall|j: int| 0 <= j < r.len() implies r[j] == if j < i {
        s[j]
    } else {
        s[j + 1]
    } by {}
    assert forall|j1: int, j2: int| 0 <= j1 < r.len() && 0 <= j2 < r.len() && j1 != j2 implies r[j1]
        != r[j2] by {
        let k1 = if j1 < i {
            j1
        } else {
            j1 + 1
        };
        let k2 = if j2 < i {
            j2
        } else {
            j2 + 1
        };
        assert(s[k1] != s[k2]);
    }
    if r.contains(x) {
        let j = choose|j: int| 0 <= j < r.len() && r[j] == x;
        let k = if j < i {
            j
        } else {
            j + 1
        };
        assert(s[k] == s[i]);
    }
    assert forall|y: u64| y != x implies (r.contains(y) <==> s.contains(y)) by {
        if s.contains(y) {
            let k = choose|k: int| 0 <= k < s.len() && s[k] == y;
            if k < i {
                assert(r[k] == y);
            } else {
                assert(k != i);
                assert(r[k - 1] == y);
            }
        }
        if r.contains(y) {
            let j = choose|j: int| 0 <= j < r.len() && r[j] == y;
            if j < i {
                assert(s[j] == y);
            } else {
                assert(s[j + 1] == y);
            }
        }
    }
}

/// Appending a value that a sequence without repeats lacks keeps it without repeats.
proof fn lemma_push_fresh(s: Seq<u64>, x: u64)
    requires
        s.no_duplicates(),
        !s.contains(x),
    ensures
        s.push(x).no_duplicates(),
        s.push(x).contains(x),
{
    let t = s.push(x);
    assert(t[s.len() as int] == x);
    assert forall|i: int, j: int| 0 <= i < t.len() && 0 <= j < t.len() && i != j implies t[i]
        != t[j] by {
        if i < s.len() && j < s.len() {
            assert(s[i] != s[j]);
        } else if i < s.len() {
            assert(s[i] != x);
        } else {
            assert(s[j] != x);
        }
    }
}

/// Issuing an identifier keeps the registry consistent.
pub proof fn lemma_mint_inv(v: PalletView, who: u64, kitty: Kitty)
    requires
        v.inv(),
        v.check_create(who) is Ok,
    ensures
        v.mint(who, kitty).inv(),
{
    let w = v.mint(who, kitty);
    let id = v.next;
    assert(!v.owner.contains_key(id));
    assert(w.kitties.dom() =~= w.owner.dom());
    assert forall|a: u64| #[trigger]
        w.owned_of(a).len() <= w.max_owned && w.owned_of(a).no_duplicates() by {
        if a == who {
            let s = v.owned_of(who);
            assert(!s.contains(id)) by {
                if s.contains(id) {
                    let j = choose|j: int| 0 <= j < s.len() && s[j] == id;
                    assert(v.owner.contains_key(s[j]));
                }
            }
            lemma_push_fresh(s, id);
            assert(w.owned_of(a) == s.push(id));
        } else {
            assert(w.owned_of(a) == v.owned_of(a));
        }
    }
    assert forall|a: u64, j: int| 0 <= j < w.owned_of(a).len() implies w.owner.contains_key(
        #[trigger] w.owned_of(a)[j],
    ) && w.owner[w.owned_of(a)[j]] == a by {
        if a == who && j == v.owned_of(who).len() {
        } else {
            assert(v.owner.contains_key(v.owned_of(a)[j]));
        }
    }
    assert forall|x: u64| #[trigger] w.owner.contains_key(x) implies w.owned_of(w.owner[x]).contains(
        x,
    ) by {
        if x == id {
            assert(w.owned_of(who)[v.owned_of(who).len() as int] == id);
        } else {
            let a = v.owner[x];
            assert(v.owned_of(a).contains(x));
            let j = choose|j: int| 0 <= j < v.owned_of(a).len() && v.owned_of(a)[j] == x;
            assert(w.owned_of(a)[j] == x);
        }
    }
}

/// Passing a creature to another owned-set keeps the registry consistent.
pub proof fn lemma_move_inv(v: PalletView, from: u64, to: u64, id: u64)
    requires
        v.inv(),
        v.check_transfer(from, to, id) is Ok,
    ensures
        v.move_kitty(from, to, id).inv(),
{
    let w = v.move_kitty(from, to, id);
    let sf = v.owned_of(from);
    let r = sf.remove_value(id);
    assert(v.owner.contains_key(id));
    assert(sf.contains(id));
    lemma_remove_unique(sf, id);
    let tb = if to == from {
        r
    } else {
        v.owned_of(to)
    };
    assert(!tb.contains(id)) by {
        if to != from && tb.contains(id) {
            let j = choose|j: int| 0 <= j < tb.len() && tb[j] == id;
            assert(v.owner.contains_key(v.owned_of(to)[j]));
        }
    }
    lemma_push_fresh(tb, id);
    assert(w.owned_of(to) == tb.push(id));
    assert(to != from ==> w.owned_of(from) == r);
    assert forall|a: u64| a != to && a != from implies #[trigger] w.owned_of(a) == v.owned_of(
        a,
    ) by {}
    assert(w.owner.dom() =~= v.owner.dom());
    assert forall|a: u64| #[trigger]
        w.owned_of(a).len() <= w.max_owned && w.owned_of(a).no_duplicates() by {
        if a == to {
        } else if a == from {
        } else {
            assert(w.owned_of(a) == v.owned_of(a));
        }
    }
    // every member of an owned-set is a creature whose new owner is that account
    assert forall|a: u64, j: int| 0 <= j < w.owned_of(a).len() implies w.owner.contains_key(
        #[trigger] w.owned_of(a)[j],
    ) && w.owner[w.owned_of(a)[j]] == a by {
        let x = w.owned_of(a)[j];
        if a == to && j == tb.len() {
            assert(x == id);
        } else {
            let s = if a == to {
                tb
            } else if a == from {
                r
            } else {
                v.owned_of(a)
            };
            assert(x == s[j]);
            assert(s.contains(x));
            assert(x != id);
            if a == from || (a == to && to == from) {
                assert(sf.contains(x));
                let k = choose|k: int| 0 <= k < sf.len() && sf[k] == x;
                assert(v.owner.contains_key(sf[k]));
            } else {
                assert(v.owner.contains_key(v.owned_of(a)[j]));
            }
        }
    }
    // every creature sits in its owner's owned-set
    assert forall|x: u64| #[trigger] w.owner.contains_key(x) implies w.owned_of(w.owner[x]).contains(
        x,
    ) by {
        if x == id {
            assert(w.owned_of(to)[tb.len() as int] == id);
        } else {
            let a = v.owner[x];
            assert(w.owner[x] == a);
            assert(v.owned_of(a).contains(x));
            if a == to {
                if to == from {
                    assert(r.contains(x));
                } else {
                    assert(tb.contains(x));
                }
                let j = choose|j: int| 0 <= j < tb.len() && tb[j] == x;
                assert(w.owned_of(to)[j] == x);
            } else if a == from {
                assert(r.contains(x));
            } else {
                assert(w.owned_of(a) == v.owned_of(a));
            }
        }
    }
}

} // verus!

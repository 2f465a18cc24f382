use crate::genome::Kitty;
use crate::state::{Error, PalletView};
use vstd::prelude::*;

verus! {

/// A creation issues an identifier above every identifier issued before and
/// never issued itself; afterwards the creator alone holds it, with the given
/// genome.
pub proof fn lemma_create_issues_fresh_id(v: PalletView, who: u64, kitty: Kitty)
    requires
        v.inv(),
        v.check_create(who) is Ok,
    ensures
        ({
            let id = v.check_create(who)->Ok_0;
            let w = v.mint(who, kitty);
            &&& forall|j: u64| v.issued(j) ==> j < id
            &&& !v.issued(id)
            &&& w.issued(id) && w.kitties[id] == kitty
            &&& w.owner[id] == who
            &&& w.owned_of(who).contains(id)
            &&& forall|a: u64| a != who ==> !(#[trigger] w.owned_of(a)).contains(id)
        }),
{
    let id = v.next;
    let w = v.mint(who, kitty);
    assert(w.owned_of(who)[v.owned_of(who).len() as int] == id);
    assert forall|a: u64| a != who implies !(#[trigger] w.owned_of(a)).contains(id) by {
        assert(w.owned_of(a) == v.owned_of(a));
        if v.owned_of(a).contains(id) {
            let j = choose|j: int| 0 <= j < v.owned_of(a).len() && v.owned_of(a)[j] == id;
            assert(v.owner.contains_key(v.owned_of(a)[j]));
        }
    }
}

/// Once a transfer to another account has succeeded, the former owner can no
/// longer transfer the same creature.
pub proof fn lemma_no_double_spend(v: PalletView, who: u64, receiver: u64, other: u64, id: u64)
    requires
        v.inv(),
        who != receiver,
        v.check_transfer(who, receiver, id) is Ok,
    ensures
        v.move_kitty(who, receiver, id).check_transfer(who, other, id) == Err::<(), Error>(
            Error::NotKittyOwner,
        ),
{
}

/// Each account's owned-set holds exactly as many creatures as the owner map
/// records for it.
pub proof fn lemma_owned_count(v: PalletView, a: u64)
    requires
        v.inv(),
    ensures
        v.owned_of(a).len() == v.ids_owned_by(a).len(),
        v.owned_of(a).to_set() == v.ids_owned_by(a),
{
    let s = v.owned_of(a);
    assert forall|x: u64| s.to_set().contains(x) <==> v.ids_owned_by(a).contains(x) by {
        if s.contains(x) {
            let j = choose|j: int| 0 <= j < s.len() && s[j] == x;
            assert(v.owner.contains_key(s[j]));
        }
        if v.owner.contains_key(x) && v.owner[x] == a {
            assert(v.owned_of(v.owner[x]).contains(x));
        }
    }
    assert(s.to_set() =~= v.ids_owned_by(a));
    s.unique_seq_to_set();
}

/// An account whose owned-set is full can gain no creature: a creation or a
/// breed for it fails with `TooManyKitties` (where the identifier space is not
/// exhausted and the parents are valid), as does a transfer to it from another
/// account that owns the creature.
pub proof fn lemma_capacity_boundary(v: PalletView, a: u64)
    requires
        v.inv(),
        v.owned_of(a).len() == v.max_owned,
    ensures
        v.next != v.max_index ==> v.check_create(a) == Err::<u64, Error>(Error::TooManyKitties),
        forall|x: u64, y: u64|
            x != y && v.issued(x) && v.issued(y) && v.next != v.max_index ==> #[trigger] v.check_breed(
                a,
                x,
                y,
            ) == Err::<u64, Error>(Error::TooManyKitties),
        forall|from: u64, id: u64|
            from != a && v.issued(id) && v.owner[id] == from ==> #[trigger] v.check_transfer(
                from,
                a,
                id,
            ) == Err::<(), Error>(Error::TooManyKitties),
{
}

} // verus!

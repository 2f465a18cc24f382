use kitties::{random_value, Config, Error, Pallet};

const LIMIT: u32 = 3;
const MAX_INDEX: u64 = 255;

fn new_pallet() -> Pallet {
    Pallet::new(Config { max_owned_kitties: LIMIT, max_kitty_index: MAX_INDEX })
}

fn seed() -> [u8; 32] {
    let mut s = [0u8; 32];
    for (i, b) in s.iter_mut().enumerate() {
        *b = i as u8;
    }
    s
}

fn dna(who: u64, index: u32) -> [u8; 16] {
    random_value(&seed(), 1, who, Some(index))
}

#[test]
fn create_works() {
    let mut p = new_pallet();
    let kitty_id = 0u64;

    assert!(p.create(1, dna(1, 0)).is_ok());
    assert!(p.kitties(kitty_id).is_some());
    assert_eq!(p.next_kitty_id(), 1);
    assert_eq!(p.kitty_owner(kitty_id), Some(1));
}

#[test]
fn create_invalid_kitty_idx_err() {
    let mut p = new_pallet();
    p.set_next_kitty_id(MAX_INDEX);

    assert_eq!(p.create(1, dna(1, 0)), Err(Error::InvalidKittyIndex));
}

#[test]
fn create_too_many_kitties_err() {
    let mut p = new_pallet();
    for i in 0..LIMIT {
        assert!(p.create(1, dna(1, i)).is_ok());
    }

    assert_eq!(p.create(1, dna(1, LIMIT)), Err(Error::TooManyKitties));
    assert_eq!(p.next_kitty_id(), LIMIT as u64);
}

#[test]
fn transfer_works() {
    let mut p = new_pallet();
    let receiver = 2;
    let kitty_id = 0;

    assert!(p.create(1, dna(1, 0)).is_ok());
    assert!(p.transfer(1, receiver, kitty_id).is_ok());
    assert_eq!(p.kitty_owner(kitty_id), Some(2));
}

#[test]
fn transfer_kitty_not_exists_err() {
    let mut p = new_pallet();
    let receiver = 3;
    let kitty_id = 0;
    let kitty_id1 = 1;

    assert!(p.create(1, dna(1, 0)).is_ok());
    assert_eq!(p.kitty_owner(kitty_id), Some(1));
    assert_eq!(p.transfer(1, receiver, kitty_id1), Err(Error::KittyNotExists));
}

#[test]
fn transfer_not_owner_err() {
    let mut p = new_pallet();
    let kitty_id = 0;

    assert!(p.create(1, dna(1, 0)).is_ok());
    assert_eq!(p.kitty_owner(kitty_id), Some(1));
    assert_eq!(p.transfer(2, 3, kitty_id), Err(Error::NotKittyOwner));
}

#[test]
fn transfer_too_many_kitties_err() {
    let mut p = new_pallet();
    let receiver_id = 2;
    let kitty_id = 0;

    assert!(p.create(1, dna(1, 0)).is_ok());
    for id in 1..=LIMIT as u64 {
        assert!(p.create(receiver_id, dna(receiver_id, id as u32)).is_ok());
        assert_eq!(p.kitty_owner(id), Some(receiver_id));
    }

    assert_eq!(p.transfer(1, receiver_id, kitty_id), Err(Error::TooManyKitties));
    assert_eq!(p.kitty_owner(kitty_id), Some(1));
}

#[test]
fn breed_works() {
    let mut p = new_pallet();

    assert!(p.create(1, dna(1, 0)).is_ok());
    assert!(p.create(1, dna(1, 1)).is_ok());
    assert_eq!(p.kitty_owner(0), Some(1));
    assert_eq!(p.kitty_owner(1), Some(1));

    assert!(p.breed(1, 0, 1, dna(1, 2)).is_ok());
}

#[test]
fn breed_same_kitty_id_err() {
    let mut p = new_pallet();
    let kitty_id = 0;

    assert_eq!(p.breed(1, kitty_id, kitty_id, dna(1, 0)), Err(Error::SameKittyId));
}

#[test]
fn breed_first_kitty_not_exists_err() {
    let mut p = new_pallet();
    let kitty_id = 1;
    let kitty_id_1 = 0;

    assert!(p.create(1, dna(1, 0)).is_ok());
    assert_eq!(p.kitty_owner(kitty_id_1), Some(1));
    assert!(p.kitty_owner(kitty_id).is_none());
    assert_eq!(p.breed(1, kitty_id, kitty_id_1, dna(1, 1)), Err(Error::KittyNotExists));
}

#[test]
fn breed_second_kitty_not_exists_err() {
    let mut p = new_pallet();
    let kitty_id = 0;
    let kitty_id_1 = 1;

    assert!(p.create(1, dna(1, 0)).is_ok());
    assert_eq!(p.kitty_owner(kitty_id), Some(1));
    assert!(p.kitty_owner(kitty_id_1).is_none());
    assert_eq!(p.breed(1, kitty_id, kitty_id_1, dna(1, 1)), Err(Error::KittyNotExists));
}

#[test]
fn breed_invalid_kitty_index_err() {
    let mut p = new_pallet();
    let limit = LIMIT as u64;
    let total_limit = MAX_INDEX;
    let mut j: u64 = 0;
    let mut n: u32 = 0;

    loop {
        if (j + 1) * limit > total_limit {
            break;
        }
        for _ in 0..limit {
            assert!(p.create(j, dna(j, n)).is_ok());
            n += 1;
        }
        j += 1;
    }
    if j * limit < total_limit {
        for _ in 0..total_limit - j * limit {
            assert!(p.create(j + 1, dna(j + 1, n)).is_ok());
            n += 1;
        }
    }

    assert_eq!(p.breed(0, 0, 1, dna(0, n)), Err(Error::InvalidKittyIndex));
}

#[test]
fn breed_too_many_kitties_err() {
    let mut p = new_pallet();
    for i in 0..LIMIT {
        assert!(p.create(1, dna(1, i)).is_ok());
    }

    assert_eq!(p.breed(1, 0, 1, dna(1, LIMIT)), Err(Error::TooManyKitties));
    assert_eq!(p.next_kitty_id(), LIMIT as u64);
    assert_eq!(p.owned_kitties(1), vec![0, 1, 2]);
    assert!(p.kitties(LIMIT as u64).is_none());
}

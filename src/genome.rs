use vstd::prelude::*;

verus! {

/// A creature's genome: sixteen bytes, fixed once the creature exists.
#[derive(Clone, Copy, PartialEq, Eq, Debug)]
pub struct Kitty(pub [u8; 16]);

/// One byte of an offspring: wherever the selector has a 1 bit, the bits of
/// both parents are or-ed; wherever it has a 0 bit, the result is 0.
pub open spec fn combined_byte(a: u8, b: u8, selector: u8) -> u8 {
    (a & selector) | (b & selector)
}

/// The genome derived from two parent genomes under a selector.
pub open spec fn combine_spec(a: Seq<u8>, b: Seq<u8>, selector: Seq<u8>) -> Seq<u8> {
    Seq::new(16, |i: int| combined_byte(a[i], b[i], selector[i]))
}

/// Derives an offspring genome from two parents, byte by byte.
pub fn combine(a: &Kitty, b: &Kitty, selector: &[u8; 16]) -> (r: Kitty)
    ensures
        r.0@ == combine_spec(a.0@, b.0@, selector@),
        forall|i: int|
            0 <= i < 16 ==> #[trigger] r.0@[i] == (a.0@[i] & selector@[i]) | (b.0@[i]
                & selector@[i]),
{
    let mut data: [u8; 16] = [0u8; 16];
    let mut i: usize = 0;
    while i < 16
        invariant
            0 <= i <= 16,
            forall|j: int| 0 <= j < i ==> data@[j] == combined_byte(a.0@[j], b.0@[j], selector@[j]),
        decreases 16 - i,
    {
        data[i] = (a.0[i] & selector[i]) | (b.0[i] & selector[i]);
        i = i + 1;
    }
    assert(data@ =~= combine_spec(a.0@, b.0@, selector@));
    Kitty(data)
}

} // verus!

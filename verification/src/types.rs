use vstd::prelude::*;

use crate::migrations::v1_to_v2::OldKitty;

verus! {

broadcast use vstd::array::group_array_axioms;

/// Identifiers are unsigned 32-bit integers, allocated monotonically from 0.
/// The maximum representable value is reserved as a sentinel and is never
/// allocated.
pub type KittyId = u32;

/// An opaque, already-authenticated account handle.
pub type AccountId = u64;

/// Currency amounts moved by the currency collaborator.
pub type Balance = u64;

/// The record layout version this code expects on disk.
pub const CURRENT_VERSION: u16 = 2;

/// A creature record in the current layout: an opaque 16-byte genetic
/// payload and an 8-byte display name.
#[derive(Clone, Copy, PartialEq, Eq, Debug)]
pub struct Kitty {
    pub dna: [u8; 16],
    pub name: [u8; 8],
}

/// A stored entity in any of the layouts that ever existed on disk.
/// The very first layout had no name at all; the next one carried a 4-byte
/// name; the current one widens the name to 8 bytes.
#[derive(Clone, Copy, PartialEq, Eq, Debug)]
pub enum StoredKitty {
    V0 { dna: [u8; 16] },
    V1(OldKitty),
    V2(Kitty),
}

/// The layout version a stored record belongs to.
pub open spec fn stored_layout(r: StoredKitty) -> u16 {
    match r {
        StoredKitty::V0 { .. } => 0,
        StoredKitty::V1(_) => 1,
        StoredKitty::V2(_) => 2,
    }
}

/// The genetic payload of a stored record; no migration step may change it.
pub open spec fn stored_dna(r: StoredKitty) -> [u8; 16] {
    match r {
        StoredKitty::V0 { dna } => dna,
        StoredKitty::V1(o) => o.dna,
        StoredKitty::V2(k) => k.dna,
    }
}

/// One byte of the genetic combination rule: each bit of the child is the
/// first parent's bit where the selector bit is 1, and the complement of the
/// second parent's bit where the selector bit is 0.
pub open spec fn combine_byte(p1: u8, p2: u8, sel: u8) -> u8 {
    (p1 & sel) | (!p2 & !sel)
}

/// The full 16-byte combination of two parents under a selector.
pub open spec fn combine_seq(d1: Seq<u8>, d2: Seq<u8>, sel: Seq<u8>) -> Seq<u8> {
    Seq::new(16, |i: int| combine_byte(d1[i], d2[i], sel[i]))
}

/// The fixed placeholder name given to an entity when migration introduces
/// the name field.
pub open spec fn placeholder_name() -> Seq<u8> {
    Seq::new(8, |i: int| 0u8)
}

/// The zero padding appended when migration widens a 4-byte name to 8
/// bytes.
pub open spec fn zero_pad4() -> Seq<u8> {
    Seq::new(4, |i: int| 0u8)
}

/// Relates a stored record after one run of the migration chain to the
/// record before it: the dna is never altered; a record with no name gets
/// the fixed placeholder; a 4-byte name is zero-padded to 8 bytes; a record
/// already in the current layout is left untouched.
pub open spec fn is_current_of(new_rec: StoredKitty, old_rec: StoredKitty) -> bool {
    match old_rec {
        StoredKitty::V0 { dna } => new_rec matches StoredKitty::V2(k) && k.dna == dna && k.name@
            == placeholder_name(),
        StoredKitty::V1(o) => new_rec matches StoredKitty::V2(k) && k.dna == o.dna && k.name@
            == o.name@ + zero_pad4(),
        StoredKitty::V2(k0) => new_rec == StoredKitty::V2(k0),
    }
}

fn combine_one(p1: u8, p2: u8, sel: u8) -> (r: u8)
    ensures
        r == combine_byte(p1, p2, sel),
{
    (p1 & sel) | (!p2 & !sel)
}

/// Computes the child dna from the parents' dna and a selector, byte by
/// byte. The rule is deliberately asymmetric: the first parent contributes
/// directly, the second by complement. It is a pure function of its three
/// 16-byte inputs.
pub fn combine_dna(dna1: &[u8; 16], dna2: &[u8; 16], selector: &[u8; 16]) -> (r: [u8; 16])
    ensures
        r@ == combine_seq(dna1@, dna2@, selector@),
{
    let mut out: [u8; 16] = [0u8; 16];
    let mut i: usize = 0;
    while i < 16
        invariant
            0 <= i <= 16,
            out@.len() == 16,
            forall|j: int| 0 <= j < i ==> out@[j] == combine_byte(dna1@[j], dna2@[j], selector@[j]),
        decreases 16 - i,
    {
        out[i] = combine_one(dna1[i], dna2[i], selector[i]);
        i = i + 1;
    }
    proof {
        assert(out@ =~= combine_seq(dna1@, dna2@, selector@));
    }
    out
}

} // verus!

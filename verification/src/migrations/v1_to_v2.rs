use vstd::prelude::*;

use crate::migrations::migrate::entities_rewritten;
use crate::pallet::Pallet;
use crate::types::is_current_of;
use crate::types::stored_layout;
use crate::types::zero_pad4;
use crate::types::Kitty;
use crate::types::StoredKitty;

verus! {

broadcast use vstd::array::group_array_axioms;

/// A creature record in the previous on-disk layout: the genetic payload
/// with a 4-byte display name.
#[derive(Clone, Copy, PartialEq, Eq, Debug)]
pub struct OldKitty {
    pub dna: [u8; 16],
    pub name: [u8; 4],
}

/// The migration step that applies when the on-disk version is 1 and the
/// code expects version 2: every stored record's 4-byte name is widened to
/// 8 bytes by zero-padding. The dna, the identifiers, ownership, parentage
/// and listings are untouched, and the recorded version is left for the
/// chain driver to advance. On a store at any other version this is a
/// no-op.
pub fn migrate(p: &mut Pallet)
    requires
        old(p).wf(),
    ensures
        old(p).storage_version != 1 ==> *final(p) == *old(p),
        old(p).storage_version == 1 ==> final(p).storage_version == old(p).storage_version
            && entities_rewritten(*old(p), *final(p)),
{
    if p.storage_version != 1 {
        return ;
    }
    let n = p.kitties.idx_len();
    let mut i: usize = 0;
    while i < n
        invariant
            old(p).wf(),
            old(p).storage_version == 1,
            n == old(p).kitties.kv().len(),
            0 <= i <= n,
            p.next_kitty_id == old(p).next_kitty_id,
            p.kitty_owner == old(p).kitty_owner,
            p.kitty_parents == old(p).kitty_parents,
            p.kitty_on_sale == old(p).kitty_on_sale,
            p.storage_version == old(p).storage_version,
            p.kitties.wf(),
            p.kitties.kv().len() == n,
            forall|j: int| 0 <= j < n ==> p.kitties.kv()[j].0 == old(p).kitties.kv()[j].0,
            forall|j: int|
                0 <= j < i ==> is_current_of(p.kitties.kv()[j].1, old(p).kitties.kv()[j].1),
            forall|j: int| i <= j < n ==> p.kitties.kv()[j].1 == old(p).kitties.kv()[j].1,
        decreases n - i,
    {
        let rec = *p.kitties.value_at(i);
        proof {
            old(p).kitties.lemma_kv_index(i as int);
            assert(stored_layout(rec) == 1);
        }
        let new_rec = match rec {
            StoredKitty::V1(o) => {
                let widened: [u8; 8] = [o.name[0], o.name[1], o.name[2], o.name[3], 0, 0, 0, 0];
                proof {
                    assert(widened@ =~= o.name@ + zero_pad4());
                }
                StoredKitty::V2(Kitty { dna: o.dna, name: widened })
            },
            _ => vstd::pervasive::unreached(),
        };
        p.kitties.set_value_at(i, new_rec);
        i = i + 1;
    }
    proof {
        assert forall|k: u32| p.kitties@.contains_key(k) <==> old(p).kitties@.contains_key(k) by {
            p.kitties.lemma_kv_contains(k);
            old(p).kitties.lemma_kv_contains(k);
        }
        assert(p.kitties@.dom() =~= old(p).kitties@.dom());
    }
}

} // verus!

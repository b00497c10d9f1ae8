use vstd::prelude::*;

use crate::migrations::migrate::entities_rewritten;
use crate::pallet::Pallet;
use crate::types::is_current_of;
use crate::types::placeholder_name;
use crate::types::stored_layout;
use crate::types::Kitty;
use crate::types::StoredKitty;

verus! {

broadcast use vstd::array::group_array_axioms;

/// The migration step that applies when the on-disk version is 0 and the
/// code expects version 2: every stored record, which so far carried only
/// its dna, gains the 8-byte name field with the fixed placeholder value.
/// The dna, the identifiers, ownership, parentage and listings are
/// untouched, and the recorded version is left for the chain driver to
/// advance. On a store at any other version this is a no-op.
pub fn migrate(p: &mut Pallet)
    requires
        old(p).wf(),
    ensures
        old(p).storage_version != 0 ==> *final(p) == *old(p),
        old(p).storage_version == 0 ==> final(p).storage_version == old(p).storage_version
            && entities_rewritten(*old(p), *final(p)),
{
    if p.storage_version != 0 {
        return ;
    }
    let n = p.kitties.idx_len();
    let mut i: usize = 0;
    while i < n
        invariant
            old(p).wf(),
            old(p).storage_version == 0,
            n == old(p).kitties.kv().len(),
            0 <= i <= n,
            p.next_kitty_id == old(p).next_kitty_id,
            p.kitty_owner == old(p).kitty_owner,
            p.kitty_parents == old(p).kitty_parents,
            p.kitty_on_sale == old(p).kitty_on_sale,
            p.storage_version == old(p).storage_version,
            p.kitties.wf(),
            p.kitties.kv().len() == n,
            forall|j: int| 0 <= j < n ==> p.kitties.kv()[j].0 == old(p).kitties.kv()[j].0,
            forall|j: int|
                0 <= j < i ==> is_current_of(p.kitties.kv()[j].1, old(p).kitties.kv()[j].1),
            forall|j: int| i <= j < n ==> p.kitties.kv()[j].1 == old(p).kitties.kv()[j].1,
        decreases n - i,
    {
        let rec = *p.kitties.value_at(i);
        proof {
            old(p).kitties.lemma_kv_index(i as int);
            assert(stored_layout(rec) == 0);
        }
        let new_rec = match rec {
            StoredKitty::V0 { dna } => {
                let named: [u8; 8] = [0u8; 8];
                proof {
                    assert(named@ =~= placeholder_name());
                }
                StoredKitty::V2(Kitty { dna, name: named })
            },
            _ => vstd::pervasive::unreached(),
        };
        p.kitties.set_value_at(i, new_rec);
        i = i + 1;
    }
    proof {
        assert forall|k: u32| p.kitties@.contains_key(k) <==> old(p).kitties@.contains_key(k) by {
            p.kitties.lemma_kv_contains(k);
            old(p).kitties.lemma_kv_contains(k);
        }
        assert(p.kitties@.dom() =~= old(p).kitties@.dom());
    }
}

} // verus!

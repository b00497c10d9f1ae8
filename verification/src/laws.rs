use vstd::prelude::*;

use crate::config::Error;
use crate::migrations::migrate::migrate_post;
use crate::pallet::listed_post;
use crate::pallet::Pallet;
use crate::types::is_current_of;
use crate::types::AccountId;
use crate::types::KittyId;

verus! {

/// Two stores hold identical persisted state: the counter, the entity
/// table with its records in place, the ownership, parentage and listing
/// tables, and the recorded schema version all agree.
pub open spec fn same_stored_state(a: Pallet, b: Pallet) -> bool {
    &&& a.next_kitty_id == b.next_kitty_id
    &&& a.kitties.kv() == b.kitties.kv()
    &&& a.kitty_owner@ == b.kitty_owner@
    &&& a.kitty_parents@ == b.kitty_parents@
    &&& a.kitty_on_sale@ == b.kitty_on_sale@
    &&& a.storage_version == b.storage_version
}

/// Running the migration chain twice in succession produces identical
/// stored state after the second run as after the first: the first run
/// leaves every record in the current layout, so the second run rewrites
/// nothing.
pub proof fn lemma_migration_idempotent(pre: Pallet, mid: Pallet, post: Pallet)
    requires
        pre.wf(),
        migrate_post(pre, mid),
        migrate_post(mid, post),
    ensures
        same_stored_state(mid, post),
{
    assert forall|j: int| 0 <= j < mid.kitties.kv().len() implies (#[trigger] post.kitties.kv()[j])
        == mid.kitties.kv()[j] by {
        assert(is_current_of(mid.kitties.kv()[j].1, pre.kitties.kv()[j].1));
        assert(is_current_of(post.kitties.kv()[j].1, mid.kitties.kv()[j].1));
    }
    assert(post.kitties.kv() =~= mid.kitties.kv());
}

/// A `list` that succeeded cannot be repeated: an immediate second `list`
/// of the same identifier by the same owner is rejected as `AlreadyListed`.
pub proof fn lemma_relist_rejected(pre: Pallet, post: Pallet, who: AccountId, kitty_id: KittyId)
    requires
        pre.migrated(),
        pre.sale_check(who, kitty_id) is None,
        listed_post(pre, post, kitty_id),
    ensures
        post.sale_check(who, kitty_id) == Some(Error::AlreadyListed),
{
    assert(post.on_sale_map().contains_key(kitty_id));
}

} // verus!

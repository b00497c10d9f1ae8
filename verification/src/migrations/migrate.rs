use vstd::prelude::*;

use crate::migrations::v0_to_v2;
use crate::migrations::v1_to_v2;
use crate::pallet::Pallet;
use crate::types::is_current_of;
use crate::types::stored_layout;
use crate::types::KittyId;
use crate::types::StoredKitty;
use crate::types::CURRENT_VERSION;

verus! {

/// What a migration step does to the entity table.
#[derive(Clone, Copy, PartialEq, Eq, Debug)]
pub enum StepKind {
    /// Introduce the 8-byte name field with the fixed placeholder.
    IntroduceLabel,
    /// Widen the 4-byte name field to 8 bytes by zero-padding.
    WidenLabel,
}

/// One entry of the migration chain: the step applies when the on-disk
/// version equals `from` and the code's current version equals `to`.
#[derive(Clone, Copy, PartialEq, Eq, Debug)]
pub struct MigrationStep {
    pub from: u16,
    pub to: u16,
    pub kind: StepKind,
}

/// The ordered chain of known migration steps.
pub fn migration_steps() -> (r: Vec<MigrationStep>)
    ensures
        r@.len() == 2,
        r@[0] == (MigrationStep { from: 0, to: CURRENT_VERSION, kind: StepKind::IntroduceLabel }),
        r@[1] == (MigrationStep { from: 1, to: CURRENT_VERSION, kind: StepKind::WidenLabel }),
{
    let mut steps: Vec<MigrationStep> = Vec::new();
    steps.push(MigrationStep { from: 0, to: CURRENT_VERSION, kind: StepKind::IntroduceLabel });
    steps.push(MigrationStep { from: 1, to: CURRENT_VERSION, kind: StepKind::WidenLabel });
    steps
}

/// Relates the store after a pass over the entity table to the store before
/// it: everything but the entity table is untouched, the table keeps its
/// identifiers in place, and each record is rewritten to the current layout
/// as `is_current_of` describes.
pub open spec fn entities_rewritten(pre: Pallet, post: Pallet) -> bool {
    &&& post.next_kitty_id == pre.next_kitty_id
    &&& post.kitty_owner == pre.kitty_owner
    &&& post.kitty_parents == pre.kitty_parents
    &&& post.kitty_on_sale == pre.kitty_on_sale
    &&& post.kitties.wf()
    &&& post.kitties@.dom() == pre.kitties@.dom()
    &&& post.kitties.kv().len() == pre.kitties.kv().len()
    &&& forall|j: int|
        0 <= j < pre.kitties.kv().len() ==> (#[trigger] post.kitties.kv()[j]).0
            == pre.kitties.kv()[j].0 && is_current_of(post.kitties.kv()[j].1, pre.kitties.kv()[j].1)
}

/// The full effect of the migration chain: the entity table is rewritten to
/// the current layout and the recorded version is advanced to match the
/// code, with everything else untouched.
pub open spec fn migrate_post(pre: Pallet, post: Pallet) -> bool {
    &&& entities_rewritten(pre, post)
    &&& post.storage_version == CURRENT_VERSION
}

/// A store whose entity table has been rewritten and whose version has been
/// advanced satisfies the full invariant at the current version.
pub proof fn lemma_migrate_establishes_wf(pre: Pallet, post: Pallet)
    requires
        pre.wf(),
        migrate_post(pre, post),
    ensures
        post.migrated(),
{
    assert forall|id: KittyId| post.kitties@.dom().contains(id) implies stored_layout(
        post.kitties@[id],
    ) == CURRENT_VERSION by {
        post.kitties.lemma_kv_contains(id);
        let j = choose|j: int| 0 <= j < post.kitties.kv().len() && post.kitties.kv()[j].0 == id;
        post.kitties.lemma_kv_index(j);
        assert(is_current_of(post.kitties.kv()[j].1, pre.kitties.kv()[j].1));
    }
    assert forall|id: KittyId| post.kitty_parents@.dom().contains(id) implies post.kitties@.dom()
        .contains(id) by {
        assert(pre.kitties@.dom().contains(id));
    }
    assert forall|id: KittyId| post.kitty_on_sale@.dom().contains(id) implies post.kitties@.dom()
        .contains(id) by {
        assert(pre.kitties@.dom().contains(id));
    }
    assert forall|id: KittyId| post.kitties@.dom().contains(id) implies id < post.next_kitty_id by {
        assert(pre.kitties@.dom().contains(id));
    }
}

/// Runs the migration chain: compares the persisted version with the code's
/// current version, applies exactly the steps of the chain whose tag
/// matches that pair, in order, and then records the current version. When
/// the persisted version is already current, the store is unchanged apart
/// from rewriting the version to itself.
pub fn migrate(p: &mut Pallet)
    requires
        old(p).wf(),
    ensures
        final(p).migrated(),
        migrate_post(*old(p), *final(p)),
{
    let stored: u16 = p.storage_version;
    let steps = migration_steps();
    let n = steps.len();
    let mut i: usize = 0;
    while i < n
        invariant
            old(p).wf(),
            stored == old(p).storage_version,
            n == steps@.len(),
            steps@.len() == 2,
            steps@[0] == (MigrationStep {
                from: 0,
                to: CURRENT_VERSION,
                kind: StepKind::IntroduceLabel,
            }),
            steps@[1] == (MigrationStep {
                from: 1,
                to: CURRENT_VERSION,
                kind: StepKind::WidenLabel,
            }),
            0 <= i <= n,
            p.storage_version == stored,
            ((stored == 0 && i >= 1) || (stored == 1 && i >= 2)) ==> entities_rewritten(
                *old(p),
                *p,
            ),
            !((stored == 0 && i >= 1) || (stored == 1 && i >= 2)) ==> *p == *old(p),
        decreases n - i,
    {
        let step = steps[i];
        if step.from == stored && step.to == CURRENT_VERSION {
            match step.kind {
                StepKind::IntroduceLabel => v0_to_v2::migrate(p),
                StepKind::WidenLabel => v1_to_v2::migrate(p),
            }
        }
        i = i + 1;
    }
    if stored == CURRENT_VERSION {
        proof {
            assert forall|j: int| 0 <= j < p.kitties.kv().len() implies (
            #[trigger] p.kitties.kv()[j]).0 == old(p).kitties.kv()[j].0 && is_current_of(
                p.kitties.kv()[j].1,
                old(p).kitties.kv()[j].1,
            ) by {
                old(p).kitties.lemma_kv_index(j);
                assert(stored_layout(old(p).kitties.kv()[j].1) == CURRENT_VERSION);
            }
        }
    }
    p.storage_version = CURRENT_VERSION;
    proof {
        lemma_migrate_establishes_wf(*old(p), *p);
    }
}

} // verus!

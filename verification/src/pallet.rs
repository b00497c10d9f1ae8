use vstd::prelude::*;

use crate::config::Config;
use crate::config::Error;
use crate::config::Event;
use crate::id_map::IdMap;
use crate::types::combine_dna;
use crate::types::combine_seq;
use crate::types::stored_dna;
use crate::types::stored_layout;
use crate::types::AccountId;
use crate::types::Kitty;
use crate::types::KittyId;
use crate::types::StoredKitty;
use crate::types::CURRENT_VERSION;

verus! {

/// The persisted state of the ledger: the identifier counter, the entity
/// table, the ownership table, the parentage table, the marketplace listing
/// set, and the on-disk schema version. Every public operation takes the
/// store explicitly, so tests can run several independent instances.
#[derive(Clone, PartialEq, Eq, Debug)]
pub struct Pallet {
    pub next_kitty_id: KittyId,
    pub kitties: IdMap<StoredKitty>,
    pub kitty_owner: IdMap<AccountId>,
    pub kitty_parents: IdMap<(KittyId, KittyId)>,
    pub kitty_on_sale: IdMap<()>,
    pub storage_version: u16,
}

impl Pallet {
    /// The entity table, as a map from identifier to stored record.
    pub open spec fn kitties_map(&self) -> Map<KittyId, StoredKitty> {
        self.kitties@
    }

    /// The ownership table, as a map from identifier to owner.
    pub open spec fn owners_map(&self) -> Map<KittyId, AccountId> {
        self.kitty_owner@
    }

    /// The parentage table; an entry exists only for entities produced by
    /// combination.
    pub open spec fn parents_map(&self) -> Map<KittyId, (KittyId, KittyId)> {
        self.kitty_parents@
    }

    /// The listing set, as the domain of a unit-valued map.
    pub open spec fn on_sale_map(&self) -> Map<KittyId, ()> {
        self.kitty_on_sale@
    }

    pub open spec fn next_id(&self) -> KittyId {
        self.next_kitty_id
    }

    pub open spec fn version(&self) -> u16 {
        self.storage_version
    }

    /// The structural invariant of the store: tables are well formed, every
    /// entity has exactly one ownership record and vice versa, parentage and
    /// listings exist only for existing entities, every assigned identifier
    /// lies below the counter, and the version never exceeds what the code
    /// understands.
    pub open spec fn base_inv(&self) -> bool {
        &&& self.kitties.wf()
        &&& self.kitty_owner.wf()
        &&& self.kitty_parents.wf()
        &&& self.kitty_on_sale.wf()
        &&& self.owners_map().dom() == self.kitties_map().dom()
        &&& forall|id: KittyId|
            self.parents_map().dom().contains(id) ==> self.kitties_map().dom().contains(id)
        &&& forall|id: KittyId|
            self.on_sale_map().dom().contains(id) ==> self.kitties_map().dom().contains(id)
        &&& forall|id: KittyId| self.kitties_map().dom().contains(id) ==> id < self.next_kitty_id
        &&& self.storage_version <= CURRENT_VERSION
    }

    /// Every stored record has the layout of version `v`.
    pub open spec fn layouts_at(&self, v: u16) -> bool {
        forall|id: KittyId|
            self.kitties_map().dom().contains(id) ==> stored_layout(self.kitties_map()[id]) == v
    }

    /// Well-formed store: structural invariant, with every record in the
    /// layout the recorded version announces.
    pub open spec fn wf(&self) -> bool {
        &&& self.base_inv()
        &&& self.layouts_at(self.storage_version)
    }

    /// A store the migration chain has brought up to the current version;
    /// only such a store accepts normal operations.
    pub open spec fn migrated(&self) -> bool {
        &&& self.wf()
        &&& self.storage_version == CURRENT_VERSION
    }

    /// An empty store at the current version, as created at genesis.
    pub fn new() -> (p: Pallet)
        ensures
            p.migrated(),
            p.next_kitty_id == 0,
            p.kitties_map() == Map::<KittyId, StoredKitty>::empty(),
            p.owners_map() == Map::<KittyId, AccountId>::empty(),
            p.parents_map() == Map::<KittyId, (KittyId, KittyId)>::empty(),
            p.on_sale_map() == Map::<KittyId, ()>::empty(),
            p.storage_version == CURRENT_VERSION,
    {
        let p = Pallet {
            next_kitty_id: 0,
            kitties: IdMap::new(),
            kitty_owner: IdMap::new(),
            kitty_parents: IdMap::new(),
            kitty_on_sale: IdMap::new(),
            storage_version: CURRENT_VERSION,
        };
        proof {
            assert(p.owners_map().dom() =~= p.kitties_map().dom());
        }
        p
    }

    /// An empty store whose on-disk version is `version`, as restored from
    /// persisted state written by an older release. Fails exactly when the
    /// version is newer than this code understands.
    pub fn new_at_version(version: u16) -> (r: Option<Pallet>)
        ensures
            version <= CURRENT_VERSION <==> r is Some,
            match r {
                Some(p) => {
                    &&& p.wf()
                    &&& p.next_kitty_id == 0
                    &&& p.kitties_map() == Map::<KittyId, StoredKitty>::empty()
                    &&& p.owners_map() == Map::<KittyId, AccountId>::empty()
                    &&& p.parents_map() == Map::<KittyId, (KittyId, KittyId)>::empty()
                    &&& p.on_sale_map() == Map::<KittyId, ()>::empty()
                    &&& p.storage_version == version
                },
                None => true,
            },
    {
        if version > CURRENT_VERSION {
            return None;
        }
        let p = Pallet {
            next_kitty_id: 0,
            kitties: IdMap::new(),
            kitty_owner: IdMap::new(),
            kitty_parents: IdMap::new(),
            kitty_on_sale: IdMap::new(),
            storage_version: version,
        };
        proof {
            assert(p.owners_map().dom() =~= p.kitties_map().dom());
        }
        Some(p)
    }

    /// Restores one entity record and its owner into a store being loaded
    /// from persisted state. Succeeds exactly when the record has the layout
    /// the store's version announces and its identifier lies below the
    /// counter; on failure the store is untouched.
    pub fn restore_kitty(&mut self, kitty_id: KittyId, record: StoredKitty, owner: AccountId) -> (r:
        bool)
        requires
            old(self).wf(),
        ensures
            final(self).wf(),
            r == (stored_layout(record) == old(self).storage_version
                && kitty_id < old(self).next_kitty_id),
            r ==> {
                &&& final(self).kitties_map() == old(self).kitties_map().insert(kitty_id, record)
                &&& final(self).owners_map() == old(self).owners_map().insert(kitty_id, owner)
                &&& final(self).parents_map() == old(self).parents_map()
                &&& final(self).on_sale_map() == old(self).on_sale_map()
                &&& final(self).next_kitty_id == old(self).next_kitty_id
                &&& final(self).storage_version == old(self).storage_version
            },
            !r ==> *final(self) == *old(self),
    {
        let layout: u16 = match record {
            StoredKitty::V0 { .. } => 0,
            StoredKitty::V1(_) => 1,
            StoredKitty::V2(_) => 2,
        };
        if layout != self.storage_version || kitty_id >= self.next_kitty_id {
            return false;
        }
        self.kitties.insert(kitty_id, record);
        self.kitty_owner.insert(kitty_id, owner);
        proof {
            assert(self.owners_map().dom() =~= self.kitties_map().dom());
        }
        true
    }

    /// Reads the current counter, returns it, and advances the counter by
    /// one. The maximum representable identifier is reserved as a sentinel:
    /// reaching it is exhaustion, and on failure the counter is unchanged.
    pub fn get_next_id(&mut self) -> (r: Result<KittyId, Error>)
        requires
            old(self).wf(),
        ensures
            final(self).wf(),
            final(self).kitties == old(self).kitties,
            final(self).kitty_owner == old(self).kitty_owner,
            final(self).kitty_parents == old(self).kitty_parents,
            final(self).kitty_on_sale == old(self).kitty_on_sale,
            final(self).storage_version == old(self).storage_version,
            old(self).next_kitty_id == KittyId::MAX ==> r == Err::<KittyId, Error>(
                Error::CapacityExhausted,
            ) && final(self).next_kitty_id == old(self).next_kitty_id,
            old(self).next_kitty_id != KittyId::MAX ==> r == Ok::<KittyId, Error>(
                old(self).next_kitty_id,
            ) && final(self).next_kitty_id == old(self).next_kitty_id + 1,
    {
        if self.next_kitty_id == KittyId::MAX {
            return Err(Error::CapacityExhausted);
        }
        let current = self.next_kitty_id;
        self.next_kitty_id = current + 1;
        Ok(current)
    }

    /// Overwrites the counter, used when restoring persisted state. The
    /// counter may only move forward: identifiers below it stay unusable.
    pub fn set_next_kitty_id(&mut self, value: KittyId)
        requires
            old(self).wf(),
            old(self).next_kitty_id <= value,
        ensures
            final(self).wf(),
            final(self).next_kitty_id == value,
            final(self).kitties == old(self).kitties,
            final(self).kitty_owner == old(self).kitty_owner,
            final(self).kitty_parents == old(self).kitty_parents,
            final(self).kitty_on_sale == old(self).kitty_on_sale,
            final(self).storage_version == old(self).storage_version,
    {
        self.next_kitty_id = value;
    }

    pub fn next_kitty_id(&self) -> (r: KittyId)
        ensures
            r == self.next_kitty_id,
    {
        self.next_kitty_id
    }

    pub fn storage_version(&self) -> (r: u16)
        ensures
            r == self.storage_version,
    {
        self.storage_version
    }

    /// The stored entity record under an identifier, in whatever layout the
    /// store currently holds.
    pub fn kitty_record(&self, kitty_id: KittyId) -> (r: Option<StoredKitty>)
        requires
            self.wf(),
        ensures
            match r {
                Some(rec) => self.kitties_map().contains_key(kitty_id)
                    && rec == self.kitties_map()[kitty_id],
                None => !self.kitties_map().contains_key(kitty_id),
            },
    {
        match self.kitties.get(kitty_id) {
            Some(rec) => Some(*rec),
            None => None,
        }
    }

    /// The entity under an identifier, in the current layout.
    pub fn kitties(&self, kitty_id: KittyId) -> (r: Option<Kitty>)
        requires
            self.migrated(),
        ensures
            match r {
                Some(k) => self.kitties_map().contains_key(kitty_id) && self.kitties_map()[kitty_id]
                    == StoredKitty::V2(k),
                None => !self.kitties_map().contains_key(kitty_id),
            },
    {
        match self.kitties.get(kitty_id) {
            Some(rec) => match rec {
                StoredKitty::V2(k) => Some(*k),
                _ => vstd::pervasive::unreached(),
            },
            None => None,
        }
    }

    /// The owner of an entity.
    pub fn owner(&self, kitty_id: KittyId) -> (r: Option<AccountId>)
        requires
            self.wf(),
        ensures
            match r {
                Some(who) => self.owners_map().contains_key(kitty_id)
                    && who == self.owners_map()[kitty_id],
                None => !self.owners_map().contains_key(kitty_id),
            },
    {
        match self.kitty_owner.get(kitty_id) {
            Some(who) => Some(*who),
            None => None,
        }
    }

    /// The recorded parents of an entity produced by combination, or the
    /// default pair for any other identifier.
    pub fn kitty_parents(&self, kitty_id: KittyId) -> (r: (KittyId, KittyId))
        requires
            self.wf(),
        ensures
            self.parents_map().contains_key(kitty_id) ==> r == self.parents_map()[kitty_id],
            !self.parents_map().contains_key(kitty_id) ==> r == (0u32, 0u32),
    {
        match self.kitty_parents.get(kitty_id) {
            Some(parents) => *parents,
            None => (0, 0),
        }
    }

    /// Whether an entity is currently offered for sale.
    pub fn kitty_on_sale(&self, kitty_id: KittyId) -> (r: Option<()>)
        requires
            self.wf(),
        ensures
            r is Some <==> self.on_sale_map().contains_key(kitty_id),
    {
        match self.kitty_on_sale.get(kitty_id) {
            Some(_) => Some(()),
            None => None,
        }
    }

    /// The validation cascade of `create`: only identifier exhaustion can be
    /// detected before the currency collaborator is consulted.
    pub open spec fn create_check(&self) -> Option<Error> {
        if self.next_kitty_id == KittyId::MAX {
            Some(Error::CapacityExhausted)
        } else {
            None
        }
    }

    /// The validation cascade of `breed`: both parents must exist, then a
    /// fresh identifier must be available.
    pub open spec fn breed_check(&self, kitty_id_1: KittyId, kitty_id_2: KittyId) -> Option<Error> {
        if !self.kitties_map().contains_key(kitty_id_1) {
            Some(Error::UnknownEntity)
        } else if !self.kitties_map().contains_key(kitty_id_2) {
            Some(Error::UnknownEntity)
        } else if self.next_kitty_id == KittyId::MAX {
            Some(Error::CapacityExhausted)
        } else {
            None
        }
    }

    /// The validation cascade of `transfer`: the entity must exist and the
    /// caller must be its current owner.
    pub open spec fn transfer_check(&self, who: AccountId, kitty_id: KittyId) -> Option<Error> {
        if !self.kitties_map().contains_key(kitty_id) {
            Some(Error::UnknownEntity)
        } else if self.owners_map()[kitty_id] != who {
            Some(Error::NotOwner)
        } else {
            None
        }
    }

    /// The validation cascade of `sale`: the entity must exist, the caller
    /// must own it, and it must not be listed already.
    pub open spec fn sale_check(&self, who: AccountId, kitty_id: KittyId) -> Option<Error> {
        if !self.kitties_map().contains_key(kitty_id) {
            Some(Error::UnknownEntity)
        } else if self.owners_map()[kitty_id] != who {
            Some(Error::NotOwner)
        } else if self.on_sale_map().contains_key(kitty_id) {
            Some(Error::AlreadyListed)
        } else {
            None
        }
    }

    /// The validation cascade of `buy`: the entity must exist, must be
    /// listed, and the caller must not already own it.
    pub open spec fn buy_check(&self, who: AccountId, kitty_id: KittyId) -> Option<Error> {
        if !self.kitties_map().contains_key(kitty_id) {
            Some(Error::UnknownEntity)
        } else if !self.on_sale_map().contains_key(kitty_id) {
            Some(Error::NotListed)
        } else if self.owners_map()[kitty_id] == who {
            Some(Error::SelfPurchase)
        } else {
            None
        }
    }
}

/// The state change of a successful `create`: the returned identifier is the
/// counter value before the call, the counter advances by one, the new
/// entity is stored in the current layout under the caller's ownership, and
/// nothing else moves.
pub open spec fn created_post(
    pre: Pallet,
    post: Pallet,
    who: AccountId,
    name: [u8; 8],
    kitty_id: KittyId,
    kitty: Kitty,
) -> bool {
    &&& kitty_id == pre.next_kitty_id
    &&& kitty.name == name
    &&& post.next_kitty_id == pre.next_kitty_id + 1
    &&& post.kitties_map() == pre.kitties_map().insert(kitty_id, StoredKitty::V2(kitty))
    &&& post.owners_map() == pre.owners_map().insert(kitty_id, who)
    &&& post.parents_map() == pre.parents_map()
    &&& post.on_sale_map() == pre.on_sale_map()
    &&& post.storage_version == pre.storage_version
}

/// The state change of a successful `breed`: as `created_post`, except that
/// the child's dna is the genetic combination of the parents' dna under some
/// 16-byte selector, and the parentage of the child is recorded.
pub open spec fn bred_post(
    pre: Pallet,
    post: Pallet,
    who: AccountId,
    kitty_id_1: KittyId,
    kitty_id_2: KittyId,
    name: [u8; 8],
    kitty_id: KittyId,
    kitty: Kitty,
) -> bool {
    &&& kitty_id == pre.next_kitty_id
    &&& kitty.name == name
    &&& exists|sel: Seq<u8>|
        sel.len() == 16 && kitty.dna@ == #[trigger] combine_seq(
            stored_dna(pre.kitties_map()[kitty_id_1])@,
            stored_dna(pre.kitties_map()[kitty_id_2])@,
            sel,
        )
    &&& post.next_kitty_id == pre.next_kitty_id + 1
    &&& post.kitties_map() == pre.kitties_map().insert(kitty_id, StoredKitty::V2(kitty))
    &&& post.owners_map() == pre.owners_map().insert(kitty_id, who)
    &&& post.parents_map() == pre.parents_map().insert(kitty_id, (kitty_id_1, kitty_id_2))
    &&& post.on_sale_map() == pre.on_sale_map()
    &&& post.storage_version == pre.storage_version
}

/// The state change of a successful `transfer`: only the ownership record of
/// the one entity is rewritten. A listing survives a plain transfer: the new
/// owner inherits it.
pub open spec fn transferred_post(pre: Pallet, post: Pallet, to: AccountId, kitty_id: KittyId) -> bool {
    &&& post.kitties_map() == pre.kitties_map()
    &&& post.owners_map() == pre.owners_map().insert(kitty_id, to)
    &&& post.parents_map() == pre.parents_map()
    &&& post.on_sale_map() == pre.on_sale_map()
    &&& post.next_kitty_id == pre.next_kitty_id
    &&& post.storage_version == pre.storage_version
}

/// The state change of a successful `sale`: the entity turns `Listed`,
/// nothing else moves.
pub open spec fn listed_post(pre: Pallet, post: Pallet, kitty_id: KittyId) -> bool {
    &&& post.kitties_map() == pre.kitties_map()
    &&& post.owners_map() == pre.owners_map()
    &&& post.parents_map() == pre.parents_map()
    &&& post.on_sale_map() == pre.on_sale_map().insert(kitty_id, ())
    &&& post.next_kitty_id == pre.next_kitty_id
    &&& post.storage_version == pre.storage_version
}

/// The state change of a successful `buy`: ownership moves to the buyer and
/// the listing is cleared, nothing else moves.
pub open spec fn bought_post(pre: Pallet, post: Pallet, who: AccountId, kitty_id: KittyId) -> bool {
    &&& post.kitties_map() == pre.kitties_map()
    &&& post.owners_map() == pre.owners_map().insert(kitty_id, who)
    &&& post.parents_map() == pre.parents_map()
    &&& post.on_sale_map() == pre.on_sale_map().remove(kitty_id)
    &&& post.next_kitty_id == pre.next_kitty_id
    &&& post.storage_version == pre.storage_version
}

impl Pallet {
    /// Creates a new entity for `who`: allocates the next identifier, asks
    /// the randomness collaborator for the dna, collects the creation fee
    /// through the currency collaborator (propagating its error unchanged),
    /// then stores the entity and its ownership record atomically. On any
    /// failure the store is exactly as before.
    pub fn create<C: Config>(&mut self, ext: &mut C, who: AccountId, name: [u8; 8]) -> (r: Result<
        (KittyId, Kitty),
        Error,
    >)
        requires
            old(self).migrated(),
        ensures
            final(self).migrated(),
            match r {
                Ok((kitty_id, kitty)) => old(self).create_check() is None && created_post(
                    *old(self),
                    *final(self),
                    who,
                    name,
                    kitty_id,
                    kitty,
                ),
                Err(e) => *final(self) == *old(self) && match old(self).create_check() {
                    Some(err) => e == err,
                    None => e is Currency,
                },
            },
    {
        if self.next_kitty_id == KittyId::MAX {
            return Err(Error::CapacityExhausted);
        }
        let kitty_id = self.next_kitty_id;
        let dna = ext.random_bytes(who);
        let kitty = Kitty { dna, name };
        let price = ext.kitty_price();
        let fee_account = ext.pallet_account();
        match ext.currency_transfer(who, fee_account, price) {
            Err(e) => Err(Error::Currency(e)),
            Ok(_) => {
                proof {
                    assert(!old(self).kitties_map().dom().contains(kitty_id));
                }
                self.next_kitty_id = kitty_id + 1;
                self.kitties.insert(kitty_id, StoredKitty::V2(kitty));
                self.kitty_owner.insert(kitty_id, who);
                proof {
                    self.lemma_after_new_entity(*old(self), who, kitty_id, StoredKitty::V2(kitty));
                }
                ext.deposit_event(Event::KittyCreated { who, kitty_id, kitty });
                Ok((kitty_id, kitty))
            },
        }
    }

    /// Combines two existing entities into a new one for `who`: both parents
    /// must exist, a fresh identifier must be available, and the child dna
    /// is computed byte by byte from the parents' dna under a freshly drawn
    /// selector. The child's parentage is recorded. No fee is charged.
    pub fn breed<C: Config>(
        &mut self,
        ext: &mut C,
        who: AccountId,
        kitty_id_1: KittyId,
        kitty_id_2: KittyId,
        name: [u8; 8],
    ) -> (r: Result<(KittyId, Kitty), Error>)
        requires
            old(self).migrated(),
        ensures
            final(self).migrated(),
            match r {
                Ok((kitty_id, kitty)) => old(self).breed_check(kitty_id_1, kitty_id_2) is None
                    && bred_post(
                    *old(self),
                    *final(self),
                    who,
                    kitty_id_1,
                    kitty_id_2,
                    name,
                    kitty_id,
                    kitty,
                ),
                Err(e) => *final(self) == *old(self) && Some(e) == old(self).breed_check(
                    kitty_id_1,
                    kitty_id_2,
                ),
            },
    {
        let kit1 = match self.kitties(kitty_id_1) {
            Some(k) => k,
            None => { return Err(Error::UnknownEntity) },
        };
        let kit2 = match self.kitties(kitty_id_2) {
            Some(k) => k,
            None => { return Err(Error::UnknownEntity) },
        };
        if self.next_kitty_id == KittyId::MAX {
            return Err(Error::CapacityExhausted);
        }
        let kitty_id = self.next_kitty_id;
        let selector = ext.random_bytes(who);
        let child_dna = combine_dna(&kit1.dna, &kit2.dna, &selector);
        let kitty = Kitty { dna: child_dna, name };
        proof {
            assert(!old(self).kitties_map().dom().contains(kitty_id));
            assert(stored_dna(old(self).kitties_map()[kitty_id_1]) == kit1.dna);
            assert(stored_dna(old(self).kitties_map()[kitty_id_2]) == kit2.dna);
            assert(selector@.len() == 16);
        }
        self.next_kitty_id = kitty_id + 1;
        self.kitties.insert(kitty_id, StoredKitty::V2(kitty));
        self.kitty_owner.insert(kitty_id, who);
        self.kitty_parents.insert(kitty_id, (kitty_id_1, kitty_id_2));
        proof {
            self.lemma_after_new_entity(*old(self), who, kitty_id, StoredKitty::V2(kitty));
            assert forall|id: KittyId| final(self).parents_map().dom().contains(id)
                implies final(self).kitties_map().dom().contains(id) by {
                assert(final(self).parents_map().dom() == old(self).parents_map().dom().insert(
                    kitty_id,
                ));
            }
        }
        ext.deposit_event(Event::KittyBreed { who, kitty_id, kitty });
        Ok((kitty_id, kitty))
    }

    /// Transfers an entity the caller owns to `to`. A transfer to oneself
    /// succeeds and is a no-op in effect.
    pub fn transfer<C: Config>(
        &mut self,
        ext: &mut C,
        who: AccountId,
        to: AccountId,
        kitty_id: KittyId,
    ) -> (r: Result<(), Error>)
        requires
            old(self).migrated(),
        ensures
            final(self).migrated(),
            match r {
                Ok(_) => old(self).transfer_check(who, kitty_id) is None && transferred_post(
                    *old(self),
                    *final(self),
                    to,
                    kitty_id,
                ),
                Err(e) => *final(self) == *old(self) && Some(e) == old(self).transfer_check(
                    who,
                    kitty_id,
                ),
            },
    {
        if !self.kitties.contains_key(kitty_id) {
            return Err(Error::UnknownEntity);
        }
        let current_owner = match self.owner(kitty_id) {
            Some(o) => o,
            None => vstd::pervasive::unreached(),
        };
        if current_owner != who {
            return Err(Error::NotOwner);
        }
        self.kitty_owner.insert(kitty_id, to);
        proof {
            self.lemma_after_owner_rewrite(*old(self), kitty_id);
        }
        ext.deposit_event(Event::KittyTransferred { from: who, to, kitty_id });
        Ok(())
    }

    /// Offers an entity the caller owns for sale. Listing an entity that is
    /// already listed is rejected.
    pub fn sale<C: Config>(&mut self, ext: &mut C, who: AccountId, kitty_id: KittyId) -> (r: Result<
        (),
        Error,
    >)
        requires
            old(self).migrated(),
        ensures
            final(self).migrated(),
            match r {
                Ok(_) => old(self).sale_check(who, kitty_id) is None && listed_post(
                    *old(self),
                    *final(self),
                    kitty_id,
                ),
                Err(e) => *final(self) == *old(self) && Some(e) == old(self).sale_check(
                    who,
                    kitty_id,
                ),
            },
    {
        if !self.kitties.contains_key(kitty_id) {
            return Err(Error::UnknownEntity);
        }
        let current_owner = match self.owner(kitty_id) {
            Some(o) => o,
            None => vstd::pervasive::unreached(),
        };
        if current_owner != who {
            return Err(Error::NotOwner);
        }
        if self.kitty_on_sale.contains_key(kitty_id) {
            return Err(Error::AlreadyListed);
        }
        self.kitty_on_sale.insert(kitty_id, ());
        proof {
            assert forall|id: KittyId| final(self).on_sale_map().dom().contains(id)
                implies final(self).kitties_map().dom().contains(id) by {
                assert(final(self).on_sale_map().dom() == old(self).on_sale_map().dom().insert(
                    kitty_id,
                ));
            }
        }
        ext.deposit_event(Event::KittyOnSale { who, kitty_id });
        Ok(())
    }

    /// Buys a listed entity from its current owner: the fixed price moves
    /// from the buyer to the owner through the currency collaborator (whose
    /// error is propagated unchanged, leaving the store untouched); on
    /// success ownership moves to the buyer and the listing is cleared.
    pub fn buy<C: Config>(&mut self, ext: &mut C, who: AccountId, kitty_id: KittyId) -> (r: Result<
        (),
        Error,
    >)
        requires
            old(self).migrated(),
        ensures
            final(self).migrated(),
            match r {
                Ok(_) => old(self).buy_check(who, kitty_id) is None && bought_post(
                    *old(self),
                    *final(self),
                    who,
                    kitty_id,
                ),
                Err(e) => *final(self) == *old(self) && match old(self).buy_check(who, kitty_id) {
                    Some(err) => e == err,
                    None => e is Currency,
                },
            },
    {
        if !self.kitties.contains_key(kitty_id) {
            return Err(Error::UnknownEntity);
        }
        if !self.kitty_on_sale.contains_key(kitty_id) {
            return Err(Error::NotListed);
        }
        let current_owner = match self.owner(kitty_id) {
            Some(o) => o,
            None => vstd::pervasive::unreached(),
        };
        if current_owner == who {
            return Err(Error::SelfPurchase);
        }
        let price = ext.kitty_price();
        match ext.currency_transfer(who, current_owner, price) {
            Err(e) => Err(Error::Currency(e)),
            Ok(_) => {
                self.kitty_owner.insert(kitty_id, who);
                self.kitty_on_sale.remove(kitty_id);
                proof {
                    self.lemma_after_owner_rewrite(*old(self), kitty_id);
                    assert forall|id: KittyId| final(self).on_sale_map().dom().contains(id)
                        implies final(self).kitties_map().dom().contains(id) by {}
                }
                ext.deposit_event(Event::KittyBought { who, kitty_id });
                Ok(())
            },
        }
    }

    /// After storing a fresh entity and its owner under the identifier the
    /// counter produced, the structural invariant holds again.
    proof fn lemma_after_new_entity(
        &self,
        pre: Pallet,
        who: AccountId,
        kitty_id: KittyId,
        record: StoredKitty,
    )
        requires
            pre.base_inv(),
            kitty_id == pre.next_kitty_id,
            kitty_id < KittyId::MAX,
            self.kitties.wf(),
            self.kitty_owner.wf(),
            self.kitty_parents.wf(),
            self.kitty_on_sale.wf(),
            self.kitties_map() == pre.kitties_map().insert(kitty_id, record),
            self.owners_map() == pre.owners_map().insert(kitty_id, who),
            self.on_sale_map() == pre.on_sale_map(),
            self.next_kitty_id == kitty_id + 1,
            self.storage_version == pre.storage_version,
        ensures
            self.owners_map().dom() == self.kitties_map().dom(),
            forall|id: KittyId|
                self.kitties_map().dom().contains(id) ==> id < self.next_kitty_id,
            forall|id: KittyId|
                self.on_sale_map().dom().contains(id) ==> self.kitties_map().dom().contains(id),
            pre.layouts_at(pre.storage_version) && stored_layout(record) == pre.storage_version
                ==> self.layouts_at(self.storage_version),
    {
        assert(self.owners_map().dom() =~= self.kitties_map().dom());
        assert forall|id: KittyId| self.kitties_map().dom().contains(id)
            implies id < self.next_kitty_id by {
            if id != kitty_id {
                assert(pre.kitties_map().dom().contains(id));
            }
        }
        assert forall|id: KittyId| self.on_sale_map().dom().contains(id)
            implies self.kitties_map().dom().contains(id) by {
            assert(pre.kitties_map().dom().contains(id));
        }
        if pre.layouts_at(pre.storage_version) && stored_layout(record) == pre.storage_version {
            assert forall|id: KittyId| self.kitties_map().dom().contains(id)
                implies stored_layout(self.kitties_map()[id]) == self.storage_version by {
                if id != kitty_id {
                    assert(pre.kitties_map().dom().contains(id));
                }
            }
        }
    }

    /// Rewriting the ownership record of an existing entity keeps the
    /// structural invariant.
    proof fn lemma_after_owner_rewrite(&self, pre: Pallet, kitty_id: KittyId)
        requires
            pre.base_inv(),
            pre.kitties_map().dom().contains(kitty_id),
            self.kitties_map() == pre.kitties_map(),
            exists|o: AccountId| self.owners_map() == pre.owners_map().insert(kitty_id, o),
        ensures
            self.owners_map().dom() == self.kitties_map().dom(),
    {
        assert(self.owners_map().dom() =~= self.kitties_map().dom());
    }
}

} // verus!

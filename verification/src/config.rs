use vstd::prelude::*;

use crate::types::AccountId;
use crate::types::Balance;
use crate::types::Kitty;
use crate::types::KittyId;

verus! {

/// The failure reported by the currency collaborator. The core treats it as
/// opaque and propagates it verbatim.
#[derive(Clone, Copy, PartialEq, Eq, Debug)]
pub struct CurrencyError {
    pub code: u32,
}

/// The typed failures of the ledger's operations.
#[derive(Clone, Copy, PartialEq, Eq, Debug)]
pub enum Error {
    /// The identifier space is exhausted; no further allocation is possible.
    CapacityExhausted,
    /// The referenced identifier has no entity.
    UnknownEntity,
    /// The caller does not own the referenced entity.
    NotOwner,
    /// The entity is already offered for sale.
    AlreadyListed,
    /// The entity is not offered for sale.
    NotListed,
    /// A buyer cannot buy from themself.
    SelfPurchase,
    /// The currency collaborator refused a payment; its error is passed
    /// through unchanged.
    Currency(CurrencyError),
}

/// Fire-and-forget notifications emitted after each successful mutating
/// operation.
#[derive(Clone, Copy, PartialEq, Eq, Debug)]
pub enum Event {
    KittyCreated { who: AccountId, kitty_id: KittyId, kitty: Kitty },
    KittyBreed { who: AccountId, kitty_id: KittyId, kitty: Kitty },
    KittyTransferred { from: AccountId, to: AccountId, kitty_id: KittyId },
    KittyOnSale { who: AccountId, kitty_id: KittyId },
    KittyBought { who: AccountId, kitty_id: KittyId },
}

/// The collaborators the core consumes, implemented by the embedding
/// runtime. Nothing is assumed of them: the contracts of the ledger's
/// operations hold for every implementation.
pub trait Config {
    /// Derives an opaque 16-byte value from the runtime's randomness
    /// source, the requester's identity and the current operation index.
    fn random_bytes(&mut self, requester: AccountId) -> [u8; 16];

    /// Moves currency between accounts; any error is reported to the core's
    /// caller unchanged.
    fn currency_transfer(&mut self, from: AccountId, to: AccountId, amount: Balance) -> Result<
        (),
        CurrencyError,
    >;

    /// The fixed price charged for creating an entity and paid on a
    /// marketplace purchase.
    fn kitty_price(&self) -> Balance;

    /// The account that collects creation fees.
    fn pallet_account(&self) -> AccountId;

    /// Hands a notification to the event sink.
    fn deposit_event(&mut self, event: Event);
}

} // verus!

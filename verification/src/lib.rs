//! State-transition core of a digital-collectible ledger.
//!
//! The crate models the ledger as an explicit [`pallet::Pallet`] store object:
//! a monotonic identifier allocator, an entity table of "kitty" records, an
//! ownership table, a parentage table, a marketplace listing set, and a
//! schema version. External collaborators — the randomness source, the
//! currency transfer primitive and the event sink — are reached through the
//! [`config::Config`] trait that the embedding runtime implements.

pub mod config;
pub mod id_map;
pub mod laws;
pub mod migrations;
pub mod pallet;
pub mod types;

pub use config::Config;
pub use config::CurrencyError;
pub use config::Error;
pub use config::Event;
pub use id_map::IdMap;
pub use migrations::v1_to_v2::OldKitty;
pub use pallet::Pallet;
pub use types::AccountId;
pub use types::Balance;
pub use types::Kitty;
pub use types::KittyId;
pub use types::StoredKitty;
pub use types::CURRENT_VERSION;

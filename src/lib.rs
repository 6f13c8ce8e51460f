//! A club-membership engine: a registry of fee-charging clubs, an escrow
//! account that collects dues, and a ledger of membership expiries that
//! stacks paid time onto an active membership and restarts a lapsed one.
pub mod account;
pub mod laws;
pub mod pallet;
pub mod types;

pub use account::{account_id, decode_account};
pub use pallet::{Pallet, PalletView};
pub use types::{ClubInfo, Config, Currency, DispatchError, Error, Event, ExistenceRequirement, Origin};

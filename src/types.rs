use vstd::prelude::*;

verus! {

/// Identifier of a club; allocated sequentially from zero.
pub type ClubId = u64;

/// Identity of an account.
pub type AccountId = u64;

/// An amount of the currency.
pub type Balance = u128;

/// A point in time, in the clock's unit (milliseconds).
pub type Moment = u64;

/// The record of one club.
#[derive(Clone, Copy, Debug, PartialEq, Eq, Structural)]
pub struct ClubInfo {
    pub owner: AccountId,
    pub annual_fee: Balance,
}

/// Who issues an operation: the privileged system, or an identified account.
#[derive(Clone, Copy, Debug, PartialEq, Eq, Structural)]
pub enum Origin {
    Root,
    Signed(AccountId),
}

/// Failures that the engine's own checks report.
#[derive(Clone, Copy, Debug, PartialEq, Eq, Structural)]
pub enum Error {
    /// The operation is reserved to the root origin.
    NotRoot,
    /// The creation fee could not be held from the new owner.
    InsufficientFunds,
    /// No club has the given id.
    ClubDoesNotExist,
    /// The signer does not own the club.
    NotClubOwner,
    /// A join asked for more years than the configured maximum.
    YearsExceedMax,
    /// A join asked for no years.
    YearsZero,
    /// Ownership was handed to the current owner.
    TransferToSelf,
    /// A cost, a duration, an expiry or the club counter left its integer range.
    Overflow,
}

/// Why an operation failed.
#[derive(Clone, Copy, Debug, PartialEq, Eq, Structural)]
pub enum DispatchError {
    /// The origin has the wrong kind for the operation.
    BadOrigin,
    /// One of the engine's own checks failed.
    Module(Error),
    /// The balance layer refused a movement of funds; its code is passed on unchanged.
    Currency(u32),
}

/// What a successful operation reports.
#[derive(Clone, Copy, Debug, PartialEq, Eq, Structural)]
pub enum Event {
    ClubCreated { club_id: ClubId, owner: AccountId, annual_fee: Balance },
    OwnershipTransferred { club_id: ClubId, new_owner: AccountId },
    AnnualFeeSet { club_id: ClubId, new_fee: Balance },
    MemberJoined { club_id: ClubId, member: AccountId, expiry: Moment },
}

/// Whether a transfer may take the payer below the minimum balance.
#[derive(Clone, Copy, Debug, PartialEq, Eq, Structural)]
pub enum ExistenceRequirement {
    KeepAlive,
    AllowDeath,
}

/// The constants the host configures the engine with.
#[derive(Clone, Copy, Debug, PartialEq, Eq, Structural)]
pub struct Config {
    /// Held from a new club's owner when the club is created.
    pub creation_fee: Balance,
    /// The most years one join may buy.
    pub max_years: u32,
    /// The length of one membership year, in clock units.
    pub year_duration: Moment,
}

/// The balance ledger that the host provides.
///
/// Every call either succeeds or fails with nothing changed.
pub trait Currency {
    /// Holds `amount` of `who`'s free balance, so that it cannot be spent.
    fn reserve(&mut self, who: AccountId, amount: Balance) -> Result<(), DispatchError>;

    /// Moves `amount` from `source` to `dest`, honouring `existence` for `source`.
    fn transfer(
        &mut self,
        source: AccountId,
        dest: AccountId,
        amount: Balance,
        existence: ExistenceRequirement,
    ) -> Result<(), DispatchError>;
}

} // verus!

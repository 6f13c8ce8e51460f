use std::collections::HashMap;

use vstd::prelude::*;

use crate::account::account_id;
use crate::types::{
    AccountId, Balance, ClubId, ClubInfo, Config, Currency, DispatchError, Error, Event,
    ExistenceRequirement, Moment, Origin,
};

verus! {

/// The abstract state of the engine.
pub struct PalletView {
    pub config: Config,
    /// The club with id `i` is `clubs[i]`; the next id is `clubs.len()`.
    pub clubs: Seq<ClubInfo>,
    /// `members[i]` maps each account that joined club `i` to its expiry.
    pub members: Seq<Map<AccountId, Moment>>,
}

impl PalletView {
    /// The id that the next created club receives.
    pub open spec fn next_club_id(self) -> nat {
        self.clubs.len()
    }

    /// The record of club `id`, if it exists.
    pub open spec fn club(self, id: ClubId) -> Option<ClubInfo> {
        if id < self.clubs.len() {
            Some(self.clubs[id as int])
        } else {
            None
        }
    }

    /// The expiry of `who`'s membership of club `id`, if `who` ever joined it.
    pub open spec fn expiry(self, id: ClubId, who: AccountId) -> Option<Moment> {
        if id < self.members.len() && self.members[id as int].contains_key(who) {
            Some(self.members[id as int][who])
        } else {
            None
        }
    }

    /// This state with `info` registered under the next id.
    pub open spec fn with_new_club(self, info: ClubInfo) -> PalletView {
        PalletView {
            config: self.config,
            clubs: self.clubs.push(info),
            members: self.members.push(Map::empty()),
        }
    }

    /// This state with the record of the existing club `id` replaced by `info`.
    pub open spec fn with_club(self, id: ClubId, info: ClubInfo) -> PalletView {
        PalletView { clubs: self.clubs.update(id as int, info), ..self }
    }

    /// This state with `who`'s expiry for the existing club `id` set to `expiry`.
    pub open spec fn with_expiry(self, id: ClubId, who: AccountId, expiry: Moment) -> PalletView {
        PalletView {
            members: self.members.update(id as int, self.members[id as int].insert(who, expiry)),
            ..self
        }
    }
}

/// The outcome of creating a club, once the creation fee is held.
pub open spec fn create_outcome(
    v: PalletView,
    origin: Origin,
    owner: AccountId,
    annual_fee: Balance,
) -> Result<Event, DispatchError> {
    if origin != Origin::Root {
        Err(DispatchError::BadOrigin)
    } else if v.next_club_id() >= u64::MAX {
        Err(DispatchError::Module(Error::Overflow))
    } else {
        Ok(Event::ClubCreated { club_id: v.next_club_id() as u64, owner, annual_fee })
    }
}

/// The new record of club `club_id` after a transfer of ownership, or why it fails.
pub open spec fn transfer_outcome(
    v: PalletView,
    origin: Origin,
    club_id: ClubId,
    new_owner: AccountId,
) -> Result<ClubInfo, DispatchError> {
    match origin {
        Origin::Root => Err(DispatchError::BadOrigin),
        Origin::Signed(sender) => match v.club(club_id) {
            None => Err(DispatchError::Module(Error::ClubDoesNotExist)),
            Some(club) => if sender != club.owner {
                Err(DispatchError::Module(Error::NotClubOwner))
            } else if new_owner == club.owner {
                Err(DispatchError::Module(Error::TransferToSelf))
            } else {
                Ok(ClubInfo { owner: new_owner, annual_fee: club.annual_fee })
            },
        },
    }
}

/// The new record of club `club_id` after a change of its fee, or why it fails.
pub open spec fn fee_outcome(
    v: PalletView,
    origin: Origin,
    club_id: ClubId,
    new_fee: Balance,
) -> Result<ClubInfo, DispatchError> {
    match origin {
        Origin::Root => Err(DispatchError::BadOrigin),
        Origin::Signed(sender) => match v.club(club_id) {
            None => Err(DispatchError::Module(Error::ClubDoesNotExist)),
            Some(club) => if sender != club.owner {
                Err(DispatchError::Module(Error::NotClubOwner))
            } else {
                Ok(ClubInfo { owner: club.owner, annual_fee: new_fee })
            },
        },
    }
}

/// The expiry after adding `added` to a membership whose stored expiry is
/// `existing`, at time `now`: an active membership is extended from its
/// expiry, a lapsed or absent one restarts from `now`.
pub open spec fn accrue(existing: Option<Moment>, now: Moment, added: int) -> int {
    match existing {
        Some(e) => if e > now {
            e + added
        } else {
            now + added
        },
        None => now + added,
    }
}

/// What a join settles before any funds move: the member, the cost to pay
/// into escrow and the new expiry; or why the join fails.
pub open spec fn join_terms(
    v: PalletView,
    origin: Origin,
    club_id: ClubId,
    years: u32,
    now: Moment,
) -> Result<(AccountId, Balance, Moment), DispatchError> {
    match origin {
        Origin::Root => Err(DispatchError::BadOrigin),
        Origin::Signed(member) => match v.club(club_id) {
            None => Err(DispatchError::Module(Error::ClubDoesNotExist)),
            Some(club) => {
                let cost = club.annual_fee * years;
                let added = v.config.year_duration * years;
                let expiry = accrue(v.expiry(club_id, member), now, added);
                if years > v.config.max_years {
                    Err(DispatchError::Module(Error::YearsExceedMax))
                } else if years == 0 {
                    Err(DispatchError::Module(Error::YearsZero))
                } else if cost > u128::MAX || added > u64::MAX || expiry > u64::MAX {
                    Err(DispatchError::Module(Error::Overflow))
                } else {
                    Ok((member, cost as Balance, expiry as Moment))
                }
            },
        },
    }
}

/// The club registry and membership ledger.
#[derive(Clone, Debug, PartialEq, Eq)]
pub struct Pallet {
    config: Config,
    clubs: Vec<ClubInfo>,
    members: Vec<HashMap<AccountId, Moment>>,
}

impl View for Pallet {
    type V = PalletView;

    closed spec fn view(&self) -> PalletView {
        PalletView {
            config: self.config,
            clubs: self.clubs@,
            members: self.members@.map_values(|m: HashMap<AccountId, Moment>| m@),
        }
    }
}

impl Pallet {
    /// The engine's internal invariant: one membership table per club.
    pub closed spec fn wf(&self) -> bool {
        self.members.len() == self.clubs.len()
    }

    /// An engine with no clubs; the first club created gets id 0.
    pub fn new(config: Config) -> (r: Pallet)
        ensures
            r.wf(),
            r@.config == config,
            r@.clubs == Seq::<ClubInfo>::empty(),
            r@.members == Seq::<Map<AccountId, Moment>>::empty(),
    {
        let r = Pallet { config, clubs: Vec::new(), members: Vec::new() };
        assert(r@.members =~= Seq::<Map<AccountId, Moment>>::empty());
        r
    }

    /// The constants the engine was configured with.
    pub fn config(&self) -> (r: Config)
        ensures
            r == self@.config,
    {
        self.config
    }

    /// The id that the next created club receives.
    pub fn next_club_id(&self) -> (r: ClubId)
        ensures
            r as nat == self@.next_club_id(),
    {
        self.clubs.len() as u64
    }
    /// The record of club `club_id`, if it exists.
    pub fn clubs(&self, club_id: ClubId) -> (r: Option<ClubInfo>)
        ensures
            r == self@.club(club_id),
    {
        if club_id < self.clubs.len() as u64 {
            Some(self.clubs[club_id as usize])
        } else {
            None
        }
    }

    /// The expiry of `who`'s membership of club `club_id`, if `who` ever joined it.
    pub fn members(&self, club_id: ClubId, who: AccountId) -> (r: Option<Moment>)
        ensures
            r == self@.expiry(club_id, who),
    {
        broadcast use vstd::std_specs::hash::group_hash_axioms;

        if club_id < self.members.len() as u64 {
            match self.members[club_id as usize].get(&who) {
                Some(e) => Some(*e),
                None => None,
            }
        } else {
            None
        }
    }

    /// Hands club `club_id` to `new_owner`; only its current owner may.
    pub fn transfer_ownership(&mut self, origin: Origin, club_id: ClubId, new_owner: AccountId) -> (r:
        Result<Event, DispatchError>)
        requires
            old(self).wf(),
        ensures
            final(self).wf(),
            match transfer_outcome(old(self)@, origin, club_id, new_owner) {
                Ok(info) => r == Ok::<Event, DispatchError>(
                    Event::OwnershipTransferred { club_id, new_owner },
                ) && final(self)@ == old(self)@.with_club(club_id, info),
                Err(e) => r == Err::<Event, DispatchError>(e) && *final(self) == *old(self),
            },
    {
        let sender = match origin {
            Origin::Signed(who) => who,
            Origin::Root => return Err(DispatchError::BadOrigin),
        };
        let club = match self.clubs(club_id) {
            Some(c) => c,
            None => return Err(DispatchError::Module(Error::ClubDoesNotExist)),
        };
        if sender != club.owner {
            return Err(DispatchError::Module(Error::NotClubOwner));
        }
        if new_owner == club.owner {
            return Err(DispatchError::Module(Error::TransferToSelf));
        }
        self.clubs.set(club_id as usize, ClubInfo { owner: new_owner, annual_fee: club.annual_fee });
        assert(self@.members =~= old(self)@.members);
        Ok(Event::OwnershipTransferred { club_id, new_owner })
    }

    /// Sets the annual fee of club `club_id` to `new_fee`; only its owner may.
    pub fn set_annual_fee(&mut self, origin: Origin, club_id: ClubId, new_fee: Balance) -> (r:
        Result<Event, DispatchError>)
        requires
            old(self).wf(),
        ensures
            final(self).wf(),
            match fee_outcome(old(self)@, origin, club_id, new_fee) {
                Ok(info) => r == Ok::<Event, DispatchError>(Event::AnnualFeeSet { club_id, new_fee })
                    && final(self)@ == old(self)@.with_club(club_id, info),
                Err(e) => r == Err::<Event, DispatchError>(e) && *final(self) == *old(self),
            },
    {
        let sender = match origin {
            Origin::Signed(who) => who,
            Origin::Root => return Err(DispatchError::BadOrigin),
        };
        let club = match self.clubs(club_id) {
            Some(c) => c,
            None => return Err(DispatchError::Module(Error::ClubDoesNotExist)),
        };
        if sender != club.owner {
            return Err(DispatchError::Module(Error::NotClubOwner));
        }
        self.clubs.set(club_id as usize, ClubInfo { owner: club.owner, annual_fee: new_fee });
        assert(self@.members =~= old(self)@.members);
        Ok(Event::AnnualFeeSet { club_id, new_fee })
    }
    /// Registers a club owned by `owner` that charges `annual_fee` a year.
    ///
    /// Only the root origin may create clubs. The creation fee is held from
    /// `owner`'s balance; if the ledger refuses the hold nothing changes.
    pub fn create_club<C: Currency>(
        &mut self,
        currency: &mut C,
        origin: Origin,
        owner: AccountId,
        annual_fee: Balance,
    ) -> (r: Result<Event, DispatchError>)
        requires
            old(self).wf(),
        ensures
            final(self).wf(),
            match create_outcome(old(self)@, origin, owner, annual_fee) {
                Ok(ev) => (r == Ok::<Event, DispatchError>(ev) && final(self)@
                    == old(self)@.with_new_club(ClubInfo { owner, annual_fee })) || (r
                    == Err::<Event, DispatchError>(DispatchError::Module(Error::InsufficientFunds))
                    && *final(self) == *old(self)),
                Err(e) => r == Err::<Event, DispatchError>(e) && *final(self) == *old(self)
                    && *final(currency) == *old(currency),
            },
    {
        broadcast use vstd::std_specs::hash::group_hash_axioms;

        if origin != Origin::Root {
            return Err(DispatchError::BadOrigin);
        }
        let club_id = self.next_club_id();
        if club_id == u64::MAX {
            return Err(DispatchError::Module(Error::Overflow));
        }
        match currency.reserve(owner, self.config.creation_fee) {
            Ok(()) => {},
            Err(_) => return Err(DispatchError::Module(Error::InsufficientFunds)),
        }
        self.clubs.push(ClubInfo { owner, annual_fee });
        self.members.push(HashMap::new());
        assert(self@.clubs =~= old(self)@.with_new_club(ClubInfo { owner, annual_fee }).clubs);
        assert(self@.members =~= old(self)@.with_new_club(ClubInfo { owner, annual_fee }).members);
        Ok(Event::ClubCreated { club_id, owner, annual_fee })
    }

    /// Settles a join without moving funds: the member, the cost and the new
    /// expiry, or why the join fails.
    pub fn join_terms(&self, origin: Origin, club_id: ClubId, years: u32, now: Moment) -> (r:
        Result<(AccountId, Balance, Moment), DispatchError>)
        ensures
            r == join_terms(self@, origin, club_id, years, now),
    {
        let member = match origin {
            Origin::Signed(who) => who,
            Origin::Root => return Err(DispatchError::BadOrigin),
        };
        let club = match self.clubs(club_id) {
            Some(c) => c,
            None => return Err(DispatchError::Module(Error::ClubDoesNotExist)),
        };
        if years > self.config.max_years {
            return Err(DispatchError::Module(Error::YearsExceedMax));
        }
        if years == 0 {
            return Err(DispatchError::Module(Error::YearsZero));
        }
        let cost = match club.annual_fee.checked_mul(years as u128) {
            Some(c) => c,
            None => return Err(DispatchError::Module(Error::Overflow)),
        };
        let added = match self.config.year_duration.checked_mul(years as u64) {
            Some(d) => d,
            None => return Err(DispatchError::Module(Error::Overflow)),
        };
        let start = match self.members(club_id, member) {
            Some(e) => if e > now {
                e
            } else {
                now
            },
            None => now,
        };
        match start.checked_add(added) {
            Some(expiry) => Ok((member, cost, expiry)),
            None => Err(DispatchError::Module(Error::Overflow)),
        }
    }

    /// Buys `years` years of membership of club `club_id` for the signing
    /// account, at time `now`.
    ///
    /// All checks and the new expiry are settled before the cost is moved
    /// into the escrow account, so a failure leaves the ledger and the funds
    /// as they were. A refusal by the balance layer is passed on unchanged.
    pub fn join_club<C: Currency>(
        &mut self,
        currency: &mut C,
        now: Moment,
        origin: Origin,
        club_id: ClubId,
        years: u32,
    ) -> (r: Result<Event, DispatchError>)
        requires
            old(self).wf(),
        ensures
            final(self).wf(),
            match join_terms(old(self)@, origin, club_id, years, now) {
                Ok((member, cost, expiry)) => {
                    &&& r is Ok ==> r == Ok::<Event, DispatchError>(
                        Event::MemberJoined { club_id, member, expiry },
                    ) && final(self)@ == old(self)@.with_expiry(club_id, member, expiry)
                    &&& r is Err ==> *final(self) == *old(self)
                },
                Err(e) => r == Err::<Event, DispatchError>(e) && *final(self) == *old(self)
                    && *final(currency) == *old(currency),
            },
    {
        broadcast use vstd::std_specs::hash::group_hash_axioms;

        let (member, cost, expiry) = match self.join_terms(origin, club_id, years, now) {
            Ok(t) => t,
            Err(e) => return Err(e),
        };
        let escrow = account_id();
        match currency.transfer(member, escrow, cost, ExistenceRequirement::KeepAlive) {
            Ok(()) => {},
            Err(e) => return Err(e),
        }
        let ghost before = self@;
        self.members[club_id as usize].insert(member, expiry);
        assert(self@.members =~= before.with_expiry(club_id, member, expiry).members);
        Ok(Event::MemberJoined { club_id, member, expiry })
    }
}

} // verus!

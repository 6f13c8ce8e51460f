use vstd::prelude::*;

use crate::pallet::{create_outcome, fee_outcome, join_terms, transfer_outcome, PalletView};
use crate::types::{AccountId, Balance, ClubId, ClubInfo, DispatchError, Error, Event, Moment, Origin};

verus! {

/// Creating a club registers exactly the given owner and fee under the next
/// id, advances the id counter by one and leaves every earlier club alone.
pub proof fn lemma_create_then_lookup(v: PalletView, owner: AccountId, annual_fee: Balance)
    requires
        v.next_club_id() < u64::MAX,
    ensures
        create_outcome(v, Origin::Root, owner, annual_fee) == Ok::<Event, DispatchError>(
            Event::ClubCreated { club_id: v.next_club_id() as u64, owner, annual_fee },
        ),
        v.with_new_club(ClubInfo { owner, annual_fee }).club(v.next_club_id() as u64) == Some(
            ClubInfo { owner, annual_fee },
        ),
        v.with_new_club(ClubInfo { owner, annual_fee }).next_club_id() == v.next_club_id() + 1,
        forall|id: ClubId|
            id < v.next_club_id() ==> #[trigger] v.with_new_club(ClubInfo { owner, annual_fee }).club(
                id,
            ) == v.club(id),
{
}

/// Only the owner may hand a club on, and never to itself.
pub proof fn lemma_transfer_needs_owner(
    v: PalletView,
    club_id: ClubId,
    sender: AccountId,
    new_owner: AccountId,
)
    requires
        v.club(club_id) is Some,
    ensures
        sender != v.club(club_id)->Some_0.owner ==> transfer_outcome(
            v,
            Origin::Signed(sender),
            club_id,
            new_owner,
        ) == Err::<ClubInfo, DispatchError>(DispatchError::Module(Error::NotClubOwner)),
        sender == v.club(club_id)->Some_0.owner ==> transfer_outcome(
            v,
            Origin::Signed(sender),
            club_id,
            sender,
        ) == Err::<ClubInfo, DispatchError>(DispatchError::Module(Error::TransferToSelf)),
{
}

/// A non-owner cannot change a club's fee; the owner sets it to exactly the
/// new value and changes nothing else.
pub proof fn lemma_fee_needs_owner(v: PalletView, club_id: ClubId, sender: AccountId, new_fee: Balance)
    requires
        v.club(club_id) is Some,
    ensures
        sender != v.club(club_id)->Some_0.owner ==> fee_outcome(
            v,
            Origin::Signed(sender),
            club_id,
            new_fee,
        ) == Err::<ClubInfo, DispatchError>(DispatchError::Module(Error::NotClubOwner)),
        sender == v.club(club_id)->Some_0.owner ==> {
            &&& fee_outcome(v, Origin::Signed(sender), club_id, new_fee) == Ok::<
                ClubInfo,
                DispatchError,
            >(ClubInfo { owner: sender, annual_fee: new_fee })
            &&& v.with_club(club_id, ClubInfo { owner: sender, annual_fee: new_fee }).club(club_id)
                == Some(ClubInfo { owner: sender, annual_fee: new_fee })
        },
{
}

/// A join for zero years, or for more than the configured maximum, is
/// refused before anything is paid or recorded.
pub proof fn lemma_join_years_checked(
    v: PalletView,
    member: AccountId,
    club_id: ClubId,
    years: u32,
    now: Moment,
)
    requires
        v.club(club_id) is Some,
    ensures
        years == 0 ==> join_terms(v, Origin::Signed(member), club_id, years, now) == Err::<
            (AccountId, Balance, Moment),
            DispatchError,
        >(DispatchError::Module(Error::YearsZero)),
        years > v.config.max_years ==> join_terms(v, Origin::Signed(member), club_id, years, now)
            == Err::<(AccountId, Balance, Moment), DispatchError>(
            DispatchError::Module(Error::YearsExceedMax),
        ),
{
}

/// A member with no active membership who joins for `years1` at `t0` holds
/// it until `e0 = t0 + years1 * year_duration`. Joining again for `years2` at
/// `t1` then stacks onto `e0` while the membership is active (`t1 < e0`) and
/// restarts from `t1` once it has lapsed.
pub proof fn lemma_accrual(
    v: PalletView,
    member: AccountId,
    club_id: ClubId,
    years1: u32,
    t0: Moment,
    years2: u32,
    t1: Moment,
)
    requires
        v.club(club_id) is Some,
        club_id < v.members.len(),
        v.expiry(club_id, member) is None || v.expiry(club_id, member)->Some_0 <= t0,
        0 < years1 <= v.config.max_years,
        0 < years2 <= v.config.max_years,
        v.club(club_id)->Some_0.annual_fee * years1 <= u128::MAX,
        v.club(club_id)->Some_0.annual_fee * years2 <= u128::MAX,
        t0 + years1 * v.config.year_duration + years2 * v.config.year_duration <= u64::MAX,
        t1 + years2 * v.config.year_duration <= u64::MAX,
    ensures
        ({
            let fee = v.club(club_id)->Some_0.annual_fee;
            let d = v.config.year_duration;
            let e0 = (t0 + years1 * d) as u64;
            let v1 = v.with_expiry(club_id, member, e0);
            &&& join_terms(v, Origin::Signed(member), club_id, years1, t0) == Ok::<
                (AccountId, Balance, Moment),
                DispatchError,
            >((member, (fee * years1) as u128, e0))
            &&& t1 < e0 ==> join_terms(v1, Origin::Signed(member), club_id, years2, t1) == Ok::<
                (AccountId, Balance, Moment),
                DispatchError,
            >((member, (fee * years2) as u128, (e0 + years2 * d) as u64))
            &&& t1 >= e0 ==> join_terms(v1, Origin::Signed(member), club_id, years2, t1) == Ok::<
                (AccountId, Balance, Moment),
                DispatchError,
            >((member, (fee * years2) as u128, (t1 + years2 * d) as u64))
        }),
{
    let d = v.config.year_duration;
    assert(years1 * d == d * years1) by (nonlinear_arith);
    assert(years2 * d == d * years2) by (nonlinear_arith);
    assert(0 <= years2 * d) by (nonlinear_arith);
    assert(0 <= years1 * d) by (nonlinear_arith);
}

/// Handing a club from its owner `a` to `b` and back restores the club
/// exactly as it was.
pub proof fn lemma_transfer_round_trip(v: PalletView, club_id: ClubId, b: AccountId)
    requires
        v.club(club_id) is Some,
        b != v.club(club_id)->Some_0.owner,
    ensures
        ({
            let a = v.club(club_id)->Some_0.owner;
            let there = transfer_outcome(v, Origin::Signed(a), club_id, b);
            let v1 = v.with_club(club_id, there->Ok_0);
            let back = transfer_outcome(v1, Origin::Signed(b), club_id, a);
            &&& there is Ok
            &&& back is Ok
            &&& v1.with_club(club_id, back->Ok_0) == v
        }),
{
    let a = v.club(club_id)->Some_0.owner;
    let v1 = v.with_club(club_id, transfer_outcome(v, Origin::Signed(a), club_id, b)->Ok_0);
    let back = transfer_outcome(v1, Origin::Signed(b), club_id, a);
    assert(v1.with_club(club_id, back->Ok_0).clubs =~= v.clubs);
}

} // verus!

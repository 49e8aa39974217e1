//! The bounties pallet: bounties funded from a project's DEX treasury.
//!
//! The force origin proposes a bounty; the project's admin activates it for a
//! recipient and a deadline, the recipient submits work before the deadline,
//! the admin awards it, and the payment is made from the project treasury when
//! the unlock block is initialised. A bounty may be cancelled while proposed
//! or active.
use crate::dex;
use crate::dex::types::{CurrencyBalance, CurrencyId, ProjectId};
use crate::double_map::value_or_zero;
use crate::support::{
    ensure_root, ensure_signed, signer_of, AccountId, ArithmeticError, BlockNumber,
    DispatchError, Origin,
};
use crate::weight::{sat_add, sat_mul, RuntimeDbWeight, Weight};
use std::collections::HashMap;
use vstd::prelude::*;

verus! {

broadcast use vstd::std_specs::hash::group_hash_axioms;

/// Identifier of a bounty.
pub type BountyId = u32;

/// The stage of a bounty.
#[derive(Clone, Copy, Debug, PartialEq, Eq, Structural)]
pub enum BountyStatus {
    InActive,
    Proposed,
    Active,
    Cancelled,
    Awarded,
    Submitted,
    Fulfilled,
}

/// A bounty of `value` in `currency_id`, paid from project `project_id`'s treasury.
#[derive(Clone, Debug, PartialEq, Eq)]
pub struct Bounty {
    pub currency_id: CurrencyId,
    pub value: CurrencyBalance,
    pub project_id: ProjectId,
    pub metadata: Vec<u8>,
    pub status: BountyStatus,
    /// Who may submit work, once activated.
    pub recipient: Option<AccountId>,
    /// The block before which work must be submitted, once activated.
    pub end: Option<BlockNumber>,
    /// The block at which the payment is made, once awarded.
    pub unlock: Option<BlockNumber>,
}

/// A bounty as a mathematical value.
pub struct BountyView {
    pub currency_id: CurrencyId,
    pub value: CurrencyBalance,
    pub project_id: ProjectId,
    pub metadata: Seq<u8>,
    pub status: BountyStatus,
    pub recipient: Option<AccountId>,
    pub end: Option<BlockNumber>,
    pub unlock: Option<BlockNumber>,
}

impl View for Bounty {
    type V = BountyView;

    open spec fn view(&self) -> BountyView {
        BountyView {
            currency_id: self.currency_id,
            value: self.value,
            project_id: self.project_id,
            metadata: self.metadata@,
            status: self.status,
            recipient: self.recipient,
            end: self.end,
            unlock: self.unlock,
        }
    }
}

/// The runtime constants of the bounties pallet.
#[derive(Clone, Copy, Debug)]
pub struct Config {
    /// The maximum length of a bounty's metadata.
    pub max_bounty_description: u32,
    /// The maximum length of a submission.
    pub max_bounty_submission: u32,
    /// The maximum number of payouts unlocked at one block.
    pub max_concurrent_payouts: u32,
}

/// Events of the bounties pallet.
#[derive(Clone, Copy, Debug, PartialEq, Eq)]
pub enum Event {
    BountyCreated { uid: BountyId, currency_id: CurrencyId, amount: CurrencyBalance },
    BountyActivated { bounty_id: BountyId, recipient: AccountId },
    BountyCancelled { bounty_id: BountyId },
    BountySubmitted { bounty_id: BountyId, who: AccountId },
    BountyAwarded { bounty_id: BountyId, unlock: BlockNumber },
}

/// Errors of the bounties pallet.
#[derive(Clone, Copy, Debug, PartialEq, Eq)]
pub enum Error {
    /// Insufficient Treasury Balance
    InsufficientTreasuryBalance,
    /// Project Not Found
    ProjectNotFound,
    /// Not The Project Admin
    NotTheProjectAdmin,
    /// Bounty Does Not Exist
    BountyDoesNotExist,
    /// Bounty Cannot Be Awarded
    BountyCannotBeAwarded,
    /// Inactive Bounty
    InActiveBounty,
    /// Max Concurrent Payouts Exceeded
    MaxConcurrentPayoutsExceeded,
    /// NotTheRecipient
    NotTheRecipient,
    /// Bounty Expired
    BountyExpired,
    /// Bounty Not Awarded
    BountyNotAwarded,
    /// Bounty Not Submitted
    BountyNotSubmitted,
    /// BountyCannotBeCancelled
    BountyCannotBeCancelled,
}

/// The storage of the bounties pallet as mathematical values.
pub struct BountiesView {
    pub config: Config,
    /// The number of blocks between awarding a bounty and paying it.
    pub unlock_duration: BlockNumber,
    pub bounties: Map<BountyId, BountyView>,
    /// The id that the next bounty gets.
    pub bounties_count: BountyId,
    /// The bounties paid at each block; missing reads as empty.
    pub pending_payouts: Map<BlockNumber, Seq<BountyId>>,
    /// The submitted work of each bounty.
    pub submissions: Map<BountyId, Seq<u8>>,
}

/// The payouts pending at block `n`.
pub open spec fn pending_at(v: BountiesView, n: BlockNumber) -> Seq<BountyId> {
    if v.pending_payouts.contains_key(n) {
        v.pending_payouts[n]
    } else {
        Seq::empty()
    }
}

/// A bounty's fields agree with its stage: once activated it has a recipient
/// and a deadline, once awarded an unlock block; while proposed it has none of
/// these.
pub open spec fn bounty_consistent(b: BountyView) -> bool {
    &&& (b.status == BountyStatus::Active || b.status == BountyStatus::Submitted || b.status
        == BountyStatus::Awarded) ==> b.recipient is Some && b.end is Some
    &&& b.status == BountyStatus::Awarded ==> b.unlock is Some
    &&& b.status == BountyStatus::Proposed ==> b.recipient is None && b.end is None && b.unlock
        is None
}

/// The invariant of the bounties storage.
pub open spec fn bounties_wf(v: BountiesView) -> bool {
    &&& forall|id: BountyId| #[trigger] v.bounties.contains_key(id) ==> id < v.bounties_count
    &&& forall|id: BountyId| #[trigger]
        v.bounties.contains_key(id) ==> bounty_consistent(v.bounties[id])
    &&& forall|n: BlockNumber| #[trigger]
        v.pending_payouts.contains_key(n) ==> v.pending_payouts[n].len()
            <= v.config.max_concurrent_payouts && v.pending_payouts[n].no_duplicates()
    // every pending payout is an awarded bounty that unlocks at that block
    &&& forall|n: BlockNumber, i: int|
        #![trigger v.pending_payouts[n][i]]
        v.pending_payouts.contains_key(n) && 0 <= i < v.pending_payouts[n].len() ==> {
            let id = v.pending_payouts[n][i];
            &&& v.bounties.contains_key(id)
            &&& v.bounties[id].status == BountyStatus::Awarded
            &&& v.bounties[id].unlock == Some(n)
        }
}

/// A successful call's new storage and its event, or why it was refused.
pub type Outcome = Result<(BountiesView, Option<Event>), DispatchError>;

/// A bounties error as a dispatch error.
pub open spec fn bounties_error(e: Error) -> DispatchError {
    DispatchError::Bounties(e)
}

/// `r` and the new storage `post` are those that `outcome` prescribes for a
/// call on storage `pre`; a refused call leaves the storage unchanged.
pub open spec fn outcome_matches(
    outcome: Outcome,
    pre: BountiesView,
    post: BountiesView,
    r: Result<Option<Event>, DispatchError>,
) -> bool {
    match outcome {
        Ok((s, ev)) => r == Ok::<Option<Event>, DispatchError>(ev) && post == s,
        Err(err) => r == Err::<Option<Event>, DispatchError>(err) && post == pre,
    }
}

/// Whether `who` is the admin of a project whose originator is `originator`.
pub open spec fn is_project_admin(who: AccountId, originator: Option<AccountId>) -> bool {
    originator == Some(who)
}

/// `create_bounty` on storage `pre`, where the project's treasury holds `pot`.
pub open spec fn create_bounty_spec(
    pre: BountiesView,
    origin: Origin,
    project_id: ProjectId,
    currency_id: CurrencyId,
    amount: CurrencyBalance,
    metadata: Seq<u8>,
    pot: CurrencyBalance,
) -> Outcome {
    if origin != Origin::Root {
        Err(DispatchError::BadOrigin)
    } else if !(pot > amount) {
        Err(bounties_error(Error::InsufficientTreasuryBalance))
    } else if pre.bounties_count == u32::MAX {
        Err(DispatchError::Arithmetic(ArithmeticError::Overflow))
    } else {
        let uid = pre.bounties_count;
        let bounty = BountyView {
            currency_id,
            value: amount,
            project_id,
            metadata,
            status: BountyStatus::Proposed,
            recipient: None,
            end: None,
            unlock: None,
        };
        Ok(
            (
                BountiesView {
                    bounties: pre.bounties.insert(uid, bounty),
                    bounties_count: (uid + 1) as u32,
                    ..pre
                },
                Some(Event::BountyCreated { uid, currency_id, amount }),
            ),
        )
    }
}

/// `activate_bounty` on storage `pre` at block `now`, for a bounty of a project
/// whose originator is `originator`.
pub open spec fn activate_bounty_spec(
    pre: BountiesView,
    origin: Origin,
    bounty_id: BountyId,
    recipient: AccountId,
    duration: BlockNumber,
    now: BlockNumber,
    originator: Option<AccountId>,
) -> Outcome {
    match signer_of(origin) {
        None => Err(DispatchError::BadOrigin),
        Some(who) => {
            let b = pre.bounties[bounty_id];
            if !pre.bounties.contains_key(bounty_id) {
                Err(bounties_error(Error::BountyDoesNotExist))
            } else if !is_project_admin(who, originator) {
                Err(bounties_error(Error::NotTheProjectAdmin))
            } else if b.status != BountyStatus::Proposed {
                Err(bounties_error(Error::BountyCannotBeAwarded))
            } else {
                let activated = BountyView {
                    end: Some((now + duration) as u64),
                    recipient: Some(recipient),
                    status: BountyStatus::Active,
                    ..b
                };
                Ok(
                    (
                        BountiesView { bounties: pre.bounties.insert(bounty_id, activated), ..pre },
                        Some(Event::BountyActivated { bounty_id, recipient }),
                    ),
                )
            }
        },
    }
}

/// `cancel_bounty` on storage `pre`.
pub open spec fn cancel_bounty_spec(
    pre: BountiesView,
    origin: Origin,
    bounty_id: BountyId,
    originator: Option<AccountId>,
) -> Outcome {
    match signer_of(origin) {
        None => Err(DispatchError::BadOrigin),
        Some(who) => {
            let b = pre.bounties[bounty_id];
            if !pre.bounties.contains_key(bounty_id) {
                Err(bounties_error(Error::BountyDoesNotExist))
            } else if !is_project_admin(who, originator) {
                Err(bounties_error(Error::NotTheProjectAdmin))
            } else if !(b.status == BountyStatus::Proposed || b.status == BountyStatus::Active) {
                Err(bounties_error(Error::BountyCannotBeCancelled))
            } else {
                Ok(
                    (
                        BountiesView {
                            bounties: pre.bounties.insert(
                                bounty_id,
                                BountyView { status: BountyStatus::Cancelled, ..b },
                            ),
                            ..pre
                        },
                        Some(Event::BountyCancelled { bounty_id }),
                    ),
                )
            }
        },
    }
}

/// `submit_bounty` on storage `pre` at block `now`.
pub open spec fn submit_bounty_spec(
    pre: BountiesView,
    origin: Origin,
    bounty_id: BountyId,
    submission_hash: Seq<u8>,
    now: BlockNumber,
) -> Outcome {
    match signer_of(origin) {
        None => Err(DispatchError::BadOrigin),
        Some(who) => {
            let b = pre.bounties[bounty_id];
            if !pre.bounties.contains_key(bounty_id) {
                Err(bounties_error(Error::BountyDoesNotExist))
            } else if b.end matches Some(end) && !(now < end) {
                Err(bounties_error(Error::BountyExpired))
            } else if b.status != BountyStatus::Active {
                Err(bounties_error(Error::BountyNotAwarded))
            } else if b.recipient != Some(who) {
                Err(bounties_error(Error::NotTheRecipient))
            } else {
                Ok(
                    (
                        BountiesView {
                            bounties: pre.bounties.insert(
                                bounty_id,
                                BountyView { status: BountyStatus::Submitted, ..b },
                            ),
                            submissions: pre.submissions.insert(bounty_id, submission_hash),
                            ..pre
                        },
                        Some(Event::BountySubmitted { bounty_id, who }),
                    ),
                )
            }
        },
    }
}

/// `award_bounty` on storage `pre` at block `now`.
pub open spec fn award_bounty_spec(
    pre: BountiesView,
    origin: Origin,
    bounty_id: BountyId,
    now: BlockNumber,
    originator: Option<AccountId>,
) -> Outcome {
    match signer_of(origin) {
        None => Err(DispatchError::BadOrigin),
        Some(who) => {
            let b = pre.bounties[bounty_id];
            let unlock = (now + pre.unlock_duration) as u64;
            let payouts = pending_at(pre, unlock);
            if !pre.bounties.contains_key(bounty_id) {
                Err(bounties_error(Error::BountyDoesNotExist))
            } else if !is_project_admin(who, originator) {
                Err(bounties_error(Error::NotTheProjectAdmin))
            } else if b.status != BountyStatus::Submitted {
                Err(bounties_error(Error::BountyNotSubmitted))
            } else if payouts.len() >= pre.config.max_concurrent_payouts {
                Err(bounties_error(Error::MaxConcurrentPayoutsExceeded))
            } else {
                Ok(
                    (
                        BountiesView {
                            bounties: pre.bounties.insert(
                                bounty_id,
                                BountyView { unlock: Some(unlock), status: BountyStatus::Awarded, ..b },
                            ),
                            pending_payouts: pre.pending_payouts.insert(
                                unlock,
                                payouts.push(bounty_id),
                            ),
                            ..pre
                        },
                        Some(Event::BountyAwarded { bounty_id, unlock }),
                    ),
                )
            }
        },
    }
}

/// `force_set_unlock_duration` on storage `pre`.
pub open spec fn force_set_unlock_duration_spec(
    pre: BountiesView,
    origin: Origin,
    unlock_duration: BlockNumber,
) -> Outcome {
    if origin != Origin::Root {
        Err(DispatchError::BadOrigin)
    } else {
        Ok((BountiesView { unlock_duration, ..pre }, None))
    }
}

/// `do_make_payment` on bounties storage `pre` and DEX storage `dex_pre`:
/// an awarded bounty is paid from its project's treasury to its recipient.
pub open spec fn do_make_payment_spec(
    pre: BountiesView,
    dex_pre: dex::DexView,
    bounty_id: BountyId,
) -> dex::Outcome {
    let b = pre.bounties[bounty_id];
    if !pre.bounties.contains_key(bounty_id) {
        Err(bounties_error(Error::BountyDoesNotExist))
    } else if b.status != BountyStatus::Awarded {
        Err(bounties_error(Error::BountyNotAwarded))
    } else {
        dex::do_spend_funds_spec(dex_pre, b.project_id, b.recipient->0, b.currency_id, b.value)
    }
}

/// Only the force origin creates bounties, and only when the project's
/// treasury holds more than the amount and the counter has room; a new bounty
/// is proposed, takes the previous count as its id, carries the call's
/// project, currency, amount and metadata, and leaves every other bounty as
/// it was.
pub proof fn lemma_create_bounty_proposes(
    pre: BountiesView,
    origin: Origin,
    project_id: ProjectId,
    currency_id: CurrencyId,
    amount: CurrencyBalance,
    metadata: Seq<u8>,
    pot: CurrencyBalance,
)
    ensures
        ({
            let r = create_bounty_spec(pre, origin, project_id, currency_id, amount, metadata, pot);
            &&& r is Ok <==> origin == Origin::Root && amount < pot && pre.bounties_count < u32::MAX
            &&& origin != Origin::Root ==> r is Err && r->Err_0 == DispatchError::BadOrigin
            &&& origin == Origin::Root && pot <= amount ==> r is Err && r->Err_0
                == DispatchError::Bounties(Error::InsufficientTreasuryBalance)
            &&& r is Ok ==> {
                let (post, event) = r->Ok_0;
                let uid = pre.bounties_count;
                &&& post.bounties_count == uid + 1
                &&& post.bounties.contains_key(uid)
                &&& post.bounties[uid] == BountyView {
                    currency_id,
                    value: amount,
                    project_id,
                    metadata,
                    status: BountyStatus::Proposed,
                    recipient: None,
                    end: None,
                    unlock: None,
                }
                &&& forall|id: BountyId| #[trigger]
                    pre.bounties.contains_key(id) && id != uid ==> post.bounties.contains_key(id)
                        && post.bounties[id] == pre.bounties[id]
                &&& post.pending_payouts == pre.pending_payouts
                &&& event == Some(Event::BountyCreated { uid, currency_id, amount })
            }
        }),
{
}

/// Activating a bounty succeeds exactly when the bounty exists, the signer is
/// its project's admin and the bounty is proposed; it then becomes active for
/// the given recipient with its deadline `duration` blocks after `now`, and
/// keeps what it pays.
pub proof fn lemma_activate_sets_terms(
    pre: BountiesView,
    who: AccountId,
    bounty_id: BountyId,
    recipient: AccountId,
    duration: BlockNumber,
    now: BlockNumber,
    originator: Option<AccountId>,
)
    requires
        now + duration <= u64::MAX,
    ensures
        ({
            let r = activate_bounty_spec(
                pre,
                Origin::Signed(who),
                bounty_id,
                recipient,
                duration,
                now,
                originator,
            );
            let b = pre.bounties[bounty_id];
            &&& r is Ok <==> pre.bounties.contains_key(bounty_id) && originator == Some(who)
                && b.status == BountyStatus::Proposed
            &&& !pre.bounties.contains_key(bounty_id) ==> r is Err && r->Err_0
                == DispatchError::Bounties(Error::BountyDoesNotExist)
            &&& pre.bounties.contains_key(bounty_id) && originator != Some(who) ==> r is Err
                && r->Err_0 == DispatchError::Bounties(Error::NotTheProjectAdmin)
            &&& pre.bounties.contains_key(bounty_id) && originator == Some(who) && b.status
                != BountyStatus::Proposed ==> r is Err && r->Err_0 == DispatchError::Bounties(
                Error::BountyCannotBeAwarded,
            )
            &&& r is Ok ==> {
                let (post, event) = r->Ok_0;
                let a = post.bounties[bounty_id];
                &&& post.bounties.contains_key(bounty_id)
                &&& a.status == BountyStatus::Active
                &&& a.recipient == Some(recipient)
                &&& a.end matches Some(end) && end == now + duration
                &&& a.value == b.value && a.currency_id == b.currency_id && a.project_id
                    == b.project_id && a.metadata == b.metadata && a.unlock == b.unlock
                &&& forall|id: BountyId| #[trigger]
                    pre.bounties.contains_key(id) && id != bounty_id ==> post.bounties[id]
                        == pre.bounties[id]
                &&& post.pending_payouts == pre.pending_payouts
                &&& event == Some(Event::BountyActivated { bounty_id, recipient })
            }
        }),
{
}

/// Cancelling a bounty succeeds exactly when the bounty exists, the signer is
/// its project's admin and the bounty is proposed or active; it then becomes
/// cancelled with nothing else changed.
pub proof fn lemma_cancel_bounty_only_open(
    pre: BountiesView,
    who: AccountId,
    bounty_id: BountyId,
    originator: Option<AccountId>,
)
    ensures
        ({
            let r = cancel_bounty_spec(pre, Origin::Signed(who), bounty_id, originator);
            let b = pre.bounties[bounty_id];
            &&& r is Ok <==> pre.bounties.contains_key(bounty_id) && originator == Some(who) && (
            b.status == BountyStatus::Proposed || b.status == BountyStatus::Active)
            &&& !pre.bounties.contains_key(bounty_id) ==> r is Err && r->Err_0
                == DispatchError::Bounties(Error::BountyDoesNotExist)
            &&& pre.bounties.contains_key(bounty_id) && originator != Some(who) ==> r is Err
                && r->Err_0 == DispatchError::Bounties(Error::NotTheProjectAdmin)
            &&& pre.bounties.contains_key(bounty_id) && originator == Some(who) && b.status
                != BountyStatus::Proposed && b.status != BountyStatus::Active ==> r is Err
                && r->Err_0 == DispatchError::Bounties(Error::BountyCannotBeCancelled)
            &&& r is Ok ==> {
                let (post, event) = r->Ok_0;
                &&& post.bounties.contains_key(bounty_id)
                &&& post.bounties[bounty_id] == BountyView { status: BountyStatus::Cancelled, ..b }
                &&& forall|id: BountyId| #[trigger]
                    pre.bounties.contains_key(id) && id != bounty_id ==> post.bounties[id]
                        == pre.bounties[id]
                &&& post.pending_payouts == pre.pending_payouts
                &&& post.submissions == pre.submissions
                &&& event == Some(Event::BountyCancelled { bounty_id })
            }
        }),
{
}

/// Submitting work succeeds only on an existing bounty that is active, before
/// its deadline, by its recipient, and moves it to submitted with the work
/// recorded. On a missing bounty it fails with `BountyDoesNotExist`; on a
/// bounty in any other stage, a submitted one included, it fails with
/// `BountyExpired` once the deadline has passed and with `BountyNotAwarded`
/// otherwise, so that work already under review is never replaced.
pub proof fn lemma_submit_only_active(
    pre: BountiesView,
    who: AccountId,
    bounty_id: BountyId,
    submission_hash: Seq<u8>,
    now: BlockNumber,
)
    ensures
        ({
            let r = submit_bounty_spec(pre, Origin::Signed(who), bounty_id, submission_hash, now);
            let b = pre.bounties[bounty_id];
            &&& !pre.bounties.contains_key(bounty_id) ==> r == Err::<
                (BountiesView, Option<Event>),
                DispatchError,
            >(DispatchError::Bounties(Error::BountyDoesNotExist))
            &&& pre.bounties.contains_key(bounty_id) && b.status != BountyStatus::Active ==> r
                == Err::<(BountiesView, Option<Event>), DispatchError>(
                DispatchError::Bounties(
                    if b.end matches Some(end) && end <= now {
                        Error::BountyExpired
                    } else {
                        Error::BountyNotAwarded
                    },
                ),
            )
            &&& r is Ok ==> {
                let (post, event) = r->Ok_0;
                &&& pre.bounties.contains_key(bounty_id)
                &&& b.status == BountyStatus::Active
                &&& b.recipient == Some(who)
                &&& b.end matches Some(end) ==> now < end
                &&& post.bounties.contains_key(bounty_id)
                &&& post.bounties[bounty_id].status == BountyStatus::Submitted
                &&& post.submissions.contains_key(bounty_id)
                &&& post.submissions[bounty_id] == submission_hash
                &&& event == Some(Event::BountySubmitted { bounty_id, who })
            }
        }),
{
}

/// Awarding a bounty appends it to the payouts already pending at its unlock
/// block, `now` plus the unlock duration, keeping those in their order, and
/// leaves the payouts of every other block as they were; the bounty becomes
/// awarded with that unlock block. Only a submitted bounty is awarded.
pub proof fn lemma_award_appends_payout(
    pre: BountiesView,
    origin: Origin,
    bounty_id: BountyId,
    now: BlockNumber,
    originator: Option<AccountId>,
)
    requires
        now + pre.unlock_duration <= u64::MAX,
        award_bounty_spec(pre, origin, bounty_id, now, originator) is Ok,
    ensures
        ({
            let (post, event) = award_bounty_spec(pre, origin, bounty_id, now, originator)->Ok_0;
            let unlock: BlockNumber = (now + pre.unlock_duration) as u64;
            &&& unlock == now + pre.unlock_duration
            &&& signed_by_admin(origin, originator)
            &&& pre.bounties.contains_key(bounty_id)
            &&& pre.bounties[bounty_id].status == BountyStatus::Submitted
            &&& pending_at(pre, unlock).len() < pre.config.max_concurrent_payouts
            &&& pending_at(post, unlock) == pending_at(pre, unlock).push(bounty_id)
            &&& forall|n: BlockNumber| n != unlock ==> #[trigger] pending_at(post, n) == pending_at(
                pre,
                n,
            )
            &&& post.bounties[bounty_id].status == BountyStatus::Awarded
            &&& post.bounties[bounty_id].unlock == Some(unlock)
            &&& event == Some(Event::BountyAwarded { bounty_id, unlock })
        }),
{
}

/// Paying a bounty succeeds only for an existing bounty that has been
/// awarded: it then moves the bounty's value in its currency from the DEX
/// account to its recipient, out of its project's treasury. A missing bounty
/// fails with `BountyDoesNotExist`, a bounty in any other stage with
/// `BountyNotAwarded`, and neither changes the DEX storage.
pub proof fn lemma_payment_only_awarded(
    pre: BountiesView,
    dex_pre: dex::DexView,
    bounty_id: BountyId,
)
    ensures
        ({
            let r = do_make_payment_spec(pre, dex_pre, bounty_id);
            let b = pre.bounties[bounty_id];
            &&& !pre.bounties.contains_key(bounty_id) ==> r == Err::<
                (dex::DexView, (Seq<dex::Action>, Option<dex::Event>)),
                DispatchError,
            >(DispatchError::Bounties(Error::BountyDoesNotExist))
            &&& pre.bounties.contains_key(bounty_id) && b.status != BountyStatus::Awarded ==> r
                == Err::<(dex::DexView, (Seq<dex::Action>, Option<dex::Event>)), DispatchError>(
                DispatchError::Bounties(Error::BountyNotAwarded),
            )
            &&& r is Ok ==> {
                let (dex_post, (actions, _)) = r->Ok_0;
                let key = (b.project_id as u64, b.currency_id);
                &&& pre.bounties.contains_key(bounty_id)
                &&& b.status == BountyStatus::Awarded
                &&& actions == seq![
                    dex::Action::TransferCurrency {
                        currency_id: b.currency_id,
                        from: dex_pre.config.pallet_account,
                        to: b.recipient->0,
                        amount: b.value,
                    },
                ]
                &&& value_or_zero(dex_post.treasury, key) == value_or_zero(dex_pre.treasury, key)
                    - b.value
            }
        }),
{
}

/// Whether a bounty's stage may go from `from` to `to` in one call: from
/// proposed to active, from proposed or active to cancelled, from active to
/// submitted, from submitted to awarded, or stay.
pub open spec fn status_step(from: BountyStatus, to: BountyStatus) -> bool {
    ||| from == to
    ||| from == BountyStatus::Proposed && to == BountyStatus::Active
    ||| (from == BountyStatus::Proposed || from == BountyStatus::Active) && to
        == BountyStatus::Cancelled
    ||| from == BountyStatus::Active && to == BountyStatus::Submitted
    ||| from == BountyStatus::Submitted && to == BountyStatus::Awarded
}

/// A call of the bounties pallet with the outside facts that it reads.
pub enum Call {
    CreateBounty {
        project_id: ProjectId,
        currency_id: CurrencyId,
        amount: CurrencyBalance,
        metadata: Seq<u8>,
        pot: CurrencyBalance,
    },
    ActivateBounty {
        bounty_id: BountyId,
        recipient: AccountId,
        duration: BlockNumber,
        now: BlockNumber,
        originator: Option<AccountId>,
    },
    CancelBounty { bounty_id: BountyId, originator: Option<AccountId> },
    SubmitBounty { bounty_id: BountyId, submission_hash: Seq<u8>, now: BlockNumber },
    AwardBounty { bounty_id: BountyId, now: BlockNumber, originator: Option<AccountId> },
    ForceSetUnlockDuration { unlock_duration: BlockNumber },
}

/// `call` dispatched by `origin` on storage `pre`.
pub open spec fn call_spec(pre: BountiesView, origin: Origin, call: Call) -> Outcome {
    match call {
        Call::CreateBounty { project_id, currency_id, amount, metadata, pot } => create_bounty_spec(
            pre,
            origin,
            project_id,
            currency_id,
            amount,
            metadata,
            pot,
        ),
        Call::ActivateBounty { bounty_id, recipient, duration, now, originator } =>
            activate_bounty_spec(pre, origin, bounty_id, recipient, duration, now, originator),
        Call::CancelBounty { bounty_id, originator } => cancel_bounty_spec(
            pre,
            origin,
            bounty_id,
            originator,
        ),
        Call::SubmitBounty { bounty_id, submission_hash, now } => submit_bounty_spec(
            pre,
            origin,
            bounty_id,
            submission_hash,
            now,
        ),
        Call::AwardBounty { bounty_id, now, originator } => award_bounty_spec(
            pre,
            origin,
            bounty_id,
            now,
            originator,
        ),
        Call::ForceSetUnlockDuration { unlock_duration } => force_set_unlock_duration_spec(
            pre,
            origin,
            unlock_duration,
        ),
    }
}

/// Whether `origin` is signed by the admin of a project whose originator is `originator`.
pub open spec fn signed_by_admin(origin: Origin, originator: Option<AccountId>) -> bool {
    match signer_of(origin) {
        Some(who) => is_project_admin(who, originator),
        None => false,
    }
}

/// Whether `call` by `origin` is one that may change the stage of bounty `id`:
/// the project's admin activating, cancelling or awarding it, or its recipient
/// submitting work for it.
pub open spec fn call_may_change_stage(
    pre: BountiesView,
    origin: Origin,
    call: Call,
    id: BountyId,
) -> bool {
    match call {
        Call::ActivateBounty { bounty_id, originator, .. } => bounty_id == id
            && signed_by_admin(origin, originator),
        Call::CancelBounty { bounty_id, originator } => bounty_id == id
            && signed_by_admin(origin, originator),
        Call::AwardBounty { bounty_id, originator, .. } => bounty_id == id
            && signed_by_admin(origin, originator),
        Call::SubmitBounty { bounty_id, .. } => bounty_id == id && signer_of(origin) is Some
            && signer_of(origin) == pre.bounties[id].recipient,
        _ => false,
    }
}

/// Every call keeps every bounty, moves its stage only along the lifecycle
/// (so cancelled and awarded bounties stay so, and a bounty is awarded at
/// most once), never changes what it pays or to whom once set, and starts new
/// bounties as proposed; only the project's admin or, for submitting, the
/// recipient changes a bounty's stage.
pub proof fn lemma_bounty_lifecycle(pre: BountiesView, origin: Origin, call: Call)
    requires
        bounties_wf(pre),
        call_spec(pre, origin, call) is Ok,
    ensures
        ({
            let post = (call_spec(pre, origin, call)->Ok_0).0;
            &&& forall|id: BountyId| #[trigger]
                pre.bounties.contains_key(id) ==> {
                    let (b0, b1) = (pre.bounties[id], post.bounties[id]);
                    &&& post.bounties.contains_key(id)
                    &&& status_step(b0.status, b1.status)
                    &&& b1.value == b0.value
                    &&& b1.currency_id == b0.currency_id
                    &&& b1.project_id == b0.project_id
                    &&& b0.recipient is Some && b0.status != BountyStatus::Proposed ==> b1.recipient
                        == b0.recipient
                    &&& b1.status != b0.status ==> call_may_change_stage(pre, origin, call, id)
                }
            &&& forall|id: BountyId| #[trigger]
                post.bounties.contains_key(id) && !pre.bounties.contains_key(id) ==> post.bounties[id].status
                    == BountyStatus::Proposed
        }),
{
}

/// The payouts taken at block `n` are pending at no other block, and not twice
/// at `n`: initialising blocks pays each awarded bounty at most once.
pub proof fn lemma_payouts_taken_once(pre: BountiesView, n: BlockNumber)
    requires
        bounties_wf(pre),
    ensures
        pending_at(pre, n).no_duplicates(),
        forall|i: int, m: BlockNumber, j: int|
            0 <= i < pending_at(pre, n).len() && m != n && pre.pending_payouts.contains_key(m) && 0
                <= j < pre.pending_payouts[m].len() ==> #[trigger] pre.pending_payouts[m][j]
                != #[trigger] pending_at(pre, n)[i],
{
    assert forall|i: int, m: BlockNumber, j: int|
        0 <= i < pending_at(pre, n).len() && m != n && pre.pending_payouts.contains_key(m) && 0
            <= j < pre.pending_payouts[m].len() implies #[trigger] pre.pending_payouts[m][j]
        != #[trigger] pending_at(pre, n)[i] by {
        assert(pre.pending_payouts.contains_key(n));
        let a = pre.pending_payouts[m][j];
        let b = pre.pending_payouts[n][i];
        assert(pre.bounties[a].unlock == Some(m));
        assert(pre.bounties[b].unlock == Some(n));
    }
}

/// A call together with the origin that dispatches it.
pub struct Step {
    pub origin: Origin,
    pub call: Call,
}

/// The storage after `step` on `pre`: the new storage if the call succeeds,
/// `pre` if it is refused.
pub open spec fn step_post(pre: BountiesView, step: Step) -> BountiesView {
    match call_spec(pre, step.origin, step.call) {
        Ok((post, _)) => post,
        Err(_) => pre,
    }
}

/// The storage after the calls `steps`, in order, on `pre`.
pub open spec fn run_calls(pre: BountiesView, steps: Seq<Step>) -> BountiesView
    decreases steps.len(),
{
    if steps.len() == 0 {
        pre
    } else {
        run_calls(step_post(pre, steps[0]), steps.drop_first())
    }
}

/// Every call keeps the invariant of the bounties storage.
pub proof fn lemma_call_keeps_wf(pre: BountiesView, step: Step)
    requires
        bounties_wf(pre),
    ensures
        bounties_wf(step_post(pre, step)),
{
    match call_spec(pre, step.origin, step.call) {
        Ok((post, _)) => {
            match step.call {
                Call::AwardBounty { bounty_id, now, .. } => {
                    let unlock = (now + pre.unlock_duration) as u64;
                    assert forall|n: BlockNumber, i: int|
                        #![trigger post.pending_payouts[n][i]]
                        post.pending_payouts.contains_key(n) && 0 <= i
                            < post.pending_payouts[n].len() implies {
                        let id = post.pending_payouts[n][i];
                        &&& post.bounties.contains_key(id)
                        &&& post.bounties[id].status == BountyStatus::Awarded
                        &&& post.bounties[id].unlock == Some(n)
                    } by {
                        if n == unlock && i == pending_at(pre, unlock).len() {
                        } else if n == unlock {
                            assert(pre.pending_payouts[n][i] == post.pending_payouts[n][i]);
                        } else {
                            assert(pre.pending_payouts[n][i] == post.pending_payouts[n][i]);
                        }
                    }
                    assert forall|n: BlockNumber| #[trigger]
                        post.pending_payouts.contains_key(n) implies post.pending_payouts[n].len()
                        <= post.config.max_concurrent_payouts
                        && post.pending_payouts[n].no_duplicates() by {
                        if n == unlock {
                            let old_list = pending_at(pre, unlock);
                            assert forall|i: int| 0 <= i < old_list.len() implies old_list[i]
                                != bounty_id by {
                                assert(pre.pending_payouts.contains_key(unlock));
                                assert(pre.pending_payouts[unlock][i] == old_list[i]);
                            }
                        }
                    }
                },
                _ => {},
            }
        },
        Err(_) => {},
    }
}

/// A cancelled bounty stays cancelled: it is pending at no block, no call
/// that names it succeeds, every call leaves it as it is, and paying it fails.
pub proof fn lemma_cancelled_is_final(
    pre: BountiesView,
    step: Step,
    id: BountyId,
    dex_pre: dex::DexView,
)
    requires
        bounties_wf(pre),
        pre.bounties.contains_key(id),
        pre.bounties[id].status == BountyStatus::Cancelled,
    ensures
        forall|n: BlockNumber, i: int|
            pre.pending_payouts.contains_key(n) && 0 <= i < pre.pending_payouts[n].len()
                ==> #[trigger] pre.pending_payouts[n][i] != id,
        (step.call matches Call::ActivateBounty { bounty_id, .. } && bounty_id == id) ==> call_spec(
            pre,
            step.origin,
            step.call,
        ) is Err,
        (step.call matches Call::CancelBounty { bounty_id, .. } && bounty_id == id) ==> call_spec(
            pre,
            step.origin,
            step.call,
        ) is Err,
        (step.call matches Call::SubmitBounty { bounty_id, .. } && bounty_id == id) ==> call_spec(
            pre,
            step.origin,
            step.call,
        ) is Err,
        (step.call matches Call::AwardBounty { bounty_id, .. } && bounty_id == id) ==> call_spec(
            pre,
            step.origin,
            step.call,
        ) is Err,
        step_post(pre, step).bounties.contains_key(id),
        step_post(pre, step).bounties[id] == pre.bounties[id],
        do_make_payment_spec(pre, dex_pre, id) is Err,
{
}

/// From a cancelled bounty on, whatever calls follow, the bounty stays as it
/// was, and so cancelled.
pub proof fn lemma_cancelled_stays_cancelled(pre: BountiesView, steps: Seq<Step>, id: BountyId)
    requires
        bounties_wf(pre),
        pre.bounties.contains_key(id),
        pre.bounties[id].status == BountyStatus::Cancelled,
    ensures
        bounties_wf(run_calls(pre, steps)),
        run_calls(pre, steps).bounties.contains_key(id),
        run_calls(pre, steps).bounties[id] == pre.bounties[id],
    decreases steps.len(),
{
    if steps.len() > 0 {
        let next = step_post(pre, steps[0]);
        lemma_call_keeps_wf(pre, steps[0]);
        lemma_cancelled_is_final(pre, steps[0], id, arbitrary());
        lemma_cancelled_stays_cancelled(next, steps.drop_first(), id);
    }
}

/// The weight of initialising a block that pays `k` bounties.
pub open spec fn on_initialize_weight(db: RuntimeDbWeight, k: nat) -> u64
    decreases k,
{
    let one = sat_add(sat_mul(db.read as int, 1) as int, sat_mul(db.write as int, 1) as int);
    if k == 0 {
        one
    } else {
        sat_add(on_initialize_weight(db, (k - 1) as nat) as int, one as int)
    }
}

/// The storage of the bounties pallet.
#[derive(Clone, Debug)]
pub struct Pallet {
    config: Config,
    unlock_duration: BlockNumber,
    bounties: HashMap<BountyId, Bounty>,
    bounties_count: BountyId,
    pending_payouts: HashMap<BlockNumber, Vec<BountyId>>,
    submissions: HashMap<BountyId, Vec<u8>>,
}

impl View for Pallet {
    type V = BountiesView;

    closed spec fn view(&self) -> BountiesView {
        BountiesView {
            config: self.config,
            unlock_duration: self.unlock_duration,
            bounties: self.bounties@.map_values(|b: Bounty| b@),
            bounties_count: self.bounties_count,
            pending_payouts: self.pending_payouts@.map_values(|v: Vec<BountyId>| v@),
            submissions: self.submissions@.map_values(|v: Vec<u8>| v@),
        }
    }
}

impl Pallet {
    /// The invariant of the bounties storage.
    pub open spec fn wf(&self) -> bool {
        bounties_wf(self@)
    }

    /// Empty storage under `config`.
    pub fn new(config: Config) -> (r: Pallet)
        ensures
            r.wf(),
            r@.config == config,
            r@.unlock_duration == 0,
            r@.bounties == Map::<BountyId, BountyView>::empty(),
            r@.bounties_count == 0,
            r@.pending_payouts == Map::<BlockNumber, Seq<BountyId>>::empty(),
            r@.submissions == Map::<BountyId, Seq<u8>>::empty(),
    {
        let r = Pallet {
            config,
            unlock_duration: 0,
            bounties: HashMap::new(),
            bounties_count: 0,
            pending_payouts: HashMap::new(),
            submissions: HashMap::new(),
        };
        assert(r@.bounties =~= Map::<BountyId, BountyView>::empty());
        assert(r@.pending_payouts =~= Map::<BlockNumber, Seq<BountyId>>::empty());
        assert(r@.submissions =~= Map::<BountyId, Seq<u8>>::empty());
        r
    }

    /// Propose a bounty of `amount` paid from project `project_id`'s treasury;
    /// only the force origin, and only if the treasury holds more than `amount`.
    pub fn create_bounty(
        &mut self,
        origin: Origin,
        project_id: ProjectId,
        currency_id: CurrencyId,
        amount: CurrencyBalance,
        metadata: Vec<u8>,
        dex: &dex::Pallet,
    ) -> (r: Result<Option<Event>, DispatchError>)
        requires
            old(self).wf(),
            metadata@.len() <= old(self)@.config.max_bounty_description,
        ensures
            final(self).wf(),
            outcome_matches(
                create_bounty_spec(
                    old(self)@,
                    origin,
                    project_id,
                    currency_id,
                    amount,
                    metadata@,
                    value_or_zero(dex@.treasury, (project_id as u64, currency_id)),
                ),
                old(self)@,
                final(self)@,
                r,
            ),
    {
        if let Err(e) = ensure_root(origin) {
            return Err(e);
        }
        if !Self::check_treasury_pot(dex, project_id, currency_id, amount) {
            return Err(DispatchError::Bounties(Error::InsufficientTreasuryBalance));
        }
        let uid = self.bounties_count;
        let uid2 = match uid.checked_add(1) {
            Some(n) => n,
            None => return Err(DispatchError::Arithmetic(ArithmeticError::Overflow)),
        };
        let bounty = Bounty {
            currency_id,
            value: amount,
            project_id,
            metadata,
            status: BountyStatus::Proposed,
            recipient: None,
            end: None,
            unlock: None,
        };
        let ghost bounty_v = bounty@;
        self.bounties.insert(uid, bounty);
        self.bounties_count = uid2;
        proof {
            assert(self@.bounties =~= old(self)@.bounties.insert(uid, bounty_v));
        }
        Ok(Some(Event::BountyCreated { uid, currency_id, amount }))
    }

    /// The project's admin makes a proposed bounty active for `recipient`, who
    /// may submit work until `duration` blocks after `now`.
    ///
    /// `project_originator` is the carbon-credits pallet's originator of the
    /// bounty's project (none where the project is unknown).
    pub fn activate_bounty(
        &mut self,
        origin: Origin,
        bounty_id: BountyId,
        recipient: AccountId,
        duration: BlockNumber,
        now: BlockNumber,
        project_originator: Option<AccountId>,
    ) -> (r: Result<Option<Event>, DispatchError>)
        requires
            old(self).wf(),
            signer_of(origin) matches Some(who) && is_project_admin(who, project_originator)
                && old(self)@.bounties.contains_key(bounty_id)
                && old(self)@.bounties[bounty_id].status == BountyStatus::Proposed ==> now
                + duration <= u64::MAX,
        ensures
            final(self).wf(),
            outcome_matches(
                activate_bounty_spec(
                    old(self)@,
                    origin,
                    bounty_id,
                    recipient,
                    duration,
                    now,
                    project_originator,
                ),
                old(self)@,
                final(self)@,
                r,
            ),
    {
        let who = match ensure_signed(origin) {
            Ok(w) => w,
            Err(e) => return Err(e),
        };
        let status = match self.bounties.get(&bounty_id) {
            Some(b) => b.status,
            None => return Err(DispatchError::Bounties(Error::BountyDoesNotExist)),
        };
        if !Self::check_project_admin(who, project_originator) {
            return Err(DispatchError::Bounties(Error::NotTheProjectAdmin));
        }
        if status != BountyStatus::Proposed {
            return Err(DispatchError::Bounties(Error::BountyCannotBeAwarded));
        }
        let mut bounty = self.bounties.remove(&bounty_id).unwrap();
        bounty.end = Some(now + duration);
        bounty.recipient = Some(recipient);
        bounty.status = BountyStatus::Active;
        let ghost bounty_v = bounty@;
        self.bounties.insert(bounty_id, bounty);
        proof {
            assert(self@.bounties =~= old(self)@.bounties.insert(bounty_id, bounty_v));
        }
        Ok(Some(Event::BountyActivated { bounty_id, recipient }))
    }

    /// The project's admin cancels a proposed or active bounty.
    pub fn cancel_bounty(
        &mut self,
        origin: Origin,
        bounty_id: BountyId,
        project_originator: Option<AccountId>,
    ) -> (r: Result<Option<Event>, DispatchError>)
        requires
            old(self).wf(),
        ensures
            final(self).wf(),
            outcome_matches(
                cancel_bounty_spec(old(self)@, origin, bounty_id, project_originator),
                old(self)@,
                final(self)@,
                r,
            ),
    {
        let who = match ensure_signed(origin) {
            Ok(w) => w,
            Err(e) => return Err(e),
        };
        let status = match self.bounties.get(&bounty_id) {
            Some(b) => b.status,
            None => return Err(DispatchError::Bounties(Error::BountyDoesNotExist)),
        };
        if !Self::check_project_admin(who, project_originator) {
            return Err(DispatchError::Bounties(Error::NotTheProjectAdmin));
        }
        if !(status == BountyStatus::Proposed || status == BountyStatus::Active) {
            return Err(DispatchError::Bounties(Error::BountyCannotBeCancelled));
        }
        let mut bounty = self.bounties.remove(&bounty_id).unwrap();
        bounty.status = BountyStatus::Cancelled;
        let ghost bounty_v = bounty@;
        self.bounties.insert(bounty_id, bounty);
        proof {
            assert(self@.bounties =~= old(self)@.bounties.insert(bounty_id, bounty_v));
        }
        Ok(Some(Event::BountyCancelled { bounty_id }))
    }

    /// The recipient of an active bounty submits its work before the deadline.
    pub fn submit_bounty(
        &mut self,
        origin: Origin,
        bounty_id: BountyId,
        submission_hash: Vec<u8>,
        now: BlockNumber,
    ) -> (r: Result<Option<Event>, DispatchError>)
        requires
            old(self).wf(),
            submission_hash@.len() <= old(self)@.config.max_bounty_submission,
        ensures
            final(self).wf(),
            outcome_matches(
                submit_bounty_spec(old(self)@, origin, bounty_id, submission_hash@, now),
                old(self)@,
                final(self)@,
                r,
            ),
    {
        let who = match ensure_signed(origin) {
            Ok(w) => w,
            Err(e) => return Err(e),
        };
        let b = match self.bounties.get(&bounty_id) {
            Some(b) => b,
            None => return Err(DispatchError::Bounties(Error::BountyDoesNotExist)),
        };
        if let Some(end) = b.end {
            if !(now < end) {
                return Err(DispatchError::Bounties(Error::BountyExpired));
            }
        }
        if b.status != BountyStatus::Active {
            return Err(DispatchError::Bounties(Error::BountyNotAwarded));
        }
        if b.recipient.unwrap() != who {
            return Err(DispatchError::Bounties(Error::NotTheRecipient));
        }
        let mut bounty = self.bounties.remove(&bounty_id).unwrap();
        bounty.status = BountyStatus::Submitted;
        let ghost bounty_v = bounty@;
        let ghost hash_v = submission_hash@;
        self.bounties.insert(bounty_id, bounty);
        self.submissions.insert(bounty_id, submission_hash);
        proof {
            assert(self@.bounties =~= old(self)@.bounties.insert(bounty_id, bounty_v));
            assert(self@.submissions =~= old(self)@.submissions.insert(bounty_id, hash_v));
        }
        Ok(Some(Event::BountySubmitted { bounty_id, who }))
    }

    /// The project's admin awards a submitted bounty; it is paid `unlock
    /// duration` blocks after `now`.
    pub fn award_bounty(
        &mut self,
        origin: Origin,
        bounty_id: BountyId,
        now: BlockNumber,
        project_originator: Option<AccountId>,
    ) -> (r: Result<Option<Event>, DispatchError>)
        requires
            old(self).wf(),
            signer_of(origin) matches Some(who) && is_project_admin(who, project_originator)
                && old(self)@.bounties.contains_key(bounty_id)
                && old(self)@.bounties[bounty_id].status == BountyStatus::Submitted ==> now
                + old(self)@.unlock_duration <= u64::MAX,
        ensures
            final(self).wf(),
            outcome_matches(
                award_bounty_spec(old(self)@, origin, bounty_id, now, project_originator),
                old(self)@,
                final(self)@,
                r,
            ),
    {
        let who = match ensure_signed(origin) {
            Ok(w) => w,
            Err(e) => return Err(e),
        };
        let status = match self.bounties.get(&bounty_id) {
            Some(b) => b.status,
            None => return Err(DispatchError::Bounties(Error::BountyDoesNotExist)),
        };
        if !Self::check_project_admin(who, project_originator) {
            return Err(DispatchError::Bounties(Error::NotTheProjectAdmin));
        }
        if status != BountyStatus::Submitted {
            return Err(DispatchError::Bounties(Error::BountyNotSubmitted));
        }
        let unlock = now + self.unlock_duration;
        let pending_len = match self.pending_payouts.get(&unlock) {
            Some(v) => v.len(),
            None => 0,
        };
        if pending_len >= self.config.max_concurrent_payouts as usize {
            return Err(DispatchError::Bounties(Error::MaxConcurrentPayoutsExceeded));
        }
        let mut payouts = match self.pending_payouts.remove(&unlock) {
            Some(v) => v,
            None => Vec::new(),
        };
        let ghost old_payouts = payouts@;
        assert(old_payouts == pending_at(old(self)@, unlock));
        payouts.push(bounty_id);
        let ghost new_payouts = payouts@;
        self.pending_payouts.insert(unlock, payouts);
        let mut bounty = self.bounties.remove(&bounty_id).unwrap();
        bounty.unlock = Some(unlock);
        bounty.status = BountyStatus::Awarded;
        let ghost bounty_v = bounty@;
        self.bounties.insert(bounty_id, bounty);
        proof {
            assert(self@.bounties =~= old(self)@.bounties.insert(bounty_id, bounty_v));
            assert(self@.pending_payouts =~= old(self)@.pending_payouts.insert(unlock, new_payouts));
        }
        Ok(Some(Event::BountyAwarded { bounty_id, unlock }))
    }

    /// Set the number of blocks between awarding a bounty and paying it; only
    /// the force origin.
    pub fn force_set_unlock_duration(&mut self, origin: Origin, unlock_duration: BlockNumber) -> (r:
        Result<Option<Event>, DispatchError>)
        requires
            old(self).wf(),
        ensures
            final(self).wf(),
            outcome_matches(
                force_set_unlock_duration_spec(old(self)@, origin, unlock_duration),
                old(self)@,
                final(self)@,
                r,
            ),
    {
        if let Err(e) = ensure_root(origin) {
            return Err(e);
        }
        self.unlock_duration = unlock_duration;
        Ok(None)
    }

    /// Pay awarded bounty `bounty_id` from its project's DEX treasury; the
    /// returned effects hold the currency transfer to the recipient.
    pub fn do_make_payment(&self, bounty_id: BountyId, dex: &mut dex::Pallet) -> (r: Result<
        dex::Effects,
        DispatchError,
    >)
        requires
            self.wf(),
            old(dex).wf(),
        ensures
            final(dex).wf(),
            dex::outcome_matches(
                do_make_payment_spec(self@, old(dex)@, bounty_id),
                old(dex)@,
                final(dex)@,
                r,
            ),
    {
        let bounty = match self.bounties.get(&bounty_id) {
            Some(b) => b,
            None => return Err(DispatchError::Bounties(Error::BountyDoesNotExist)),
        };
        if bounty.status != BountyStatus::Awarded {
            return Err(DispatchError::Bounties(Error::BountyNotAwarded));
        }
        dex.do_spend_funds(
            bounty.project_id,
            bounty.recipient.unwrap(),
            bounty.currency_id,
            bounty.value,
        )
    }

    /// Start block `n`: take the bounties that unlock at `n` out of the pending
    /// payouts. Returns the block's weight and those bounties, in the order in
    /// which they were awarded; each is then paid with `do_make_payment`, and a
    /// failed payment does not hold up the others.
    pub fn on_initialize(&mut self, n: BlockNumber, db_weight: RuntimeDbWeight) -> (r: (
        Weight,
        Vec<BountyId>,
    ))
        requires
            old(self).wf(),
        ensures
            final(self).wf(),
            r.1@ == pending_at(old(self)@, n),
            final(self)@ == (BountiesView {
                pending_payouts: old(self)@.pending_payouts.remove(n),
                ..old(self)@
            }),
            r.0.spec_ref_time() == on_initialize_weight(db_weight, r.1@.len()),
            r.0.spec_proof_size() == 0,
            forall|i: int|
                0 <= i < r.1@.len() ==> {
                    let id = #[trigger] r.1@[i];
                    &&& final(self)@.bounties.contains_key(id)
                    &&& final(self)@.bounties[id].status == BountyStatus::Awarded
                    &&& final(self)@.bounties[id].unlock == Some(n)
                },
    {
        let mut weight = db_weight.reads_writes(1, 1);
        let approval = match self.pending_payouts.remove(&n) {
            Some(v) => v,
            None => Vec::new(),
        };
        proof {
            assert(self@.pending_payouts =~= old(self)@.pending_payouts.remove(n));
        }
        let len = approval.len();
        let mut i: usize = 0;
        while i < len
            invariant
                len == approval@.len(),
                0 <= i <= len,
                weight.spec_ref_time() == on_initialize_weight(db_weight, i as nat),
                weight.spec_proof_size() == 0,
            decreases len - i,
        {
            weight = weight.saturating_add(db_weight.reads_writes(1, 1));
            i = i + 1;
        }
        (weight, approval)
    }

    /// The runtime constants.
    pub fn config(&self) -> (r: Config)
        ensures
            r == self@.config,
    {
        self.config
    }

    /// The number of blocks between awarding a bounty and paying it.
    pub fn get_unlock_duration(&self) -> (r: BlockNumber)
        ensures
            r == self@.unlock_duration,
    {
        self.unlock_duration
    }

    /// Bounty `bounty_id`, if it exists.
    pub fn get_bounty(&self, bounty_id: BountyId) -> (r: Option<Bounty>)
        ensures
            match r {
                Some(b) => self@.bounties.contains_key(bounty_id) && b@ == self@.bounties[bounty_id],
                None => !self@.bounties.contains_key(bounty_id),
            },
    {
        match self.bounties.get(&bounty_id) {
            Some(b) => Some(
                Bounty {
                    currency_id: b.currency_id,
                    value: b.value,
                    project_id: b.project_id,
                    metadata: b.metadata.clone(),
                    status: b.status,
                    recipient: b.recipient,
                    end: b.end,
                    unlock: b.unlock,
                },
            ),
            None => None,
        }
    }

    /// The number of bounties created so far, which is the id of the next one.
    pub fn get_bounties_count(&self) -> (r: BountyId)
        ensures
            r == self@.bounties_count,
    {
        self.bounties_count
    }

    /// The bounties paid at block `n`.
    pub fn get_pending_payouts(&self, n: BlockNumber) -> (r: Vec<BountyId>)
        ensures
            r@ == pending_at(self@, n),
    {
        match self.pending_payouts.get(&n) {
            Some(v) => v.clone(),
            None => Vec::new(),
        }
    }

    /// The submitted work of bounty `bounty_id`; empty if none.
    pub fn get_submission_hash(&self, bounty_id: BountyId) -> (r: Vec<u8>)
        ensures
            r@ == (if self@.submissions.contains_key(bounty_id) {
                self@.submissions[bounty_id]
            } else {
                Seq::<u8>::empty()
            }),
    {
        match self.submissions.get(&bounty_id) {
            Some(v) => v.clone(),
            None => Vec::new(),
        }
    }

    /// Whether the treasury of `project_id` in `currency_id` holds more than `amount`.
    pub fn check_treasury_pot(
        dex: &dex::Pallet,
        project_id: ProjectId,
        currency_id: CurrencyId,
        amount: CurrencyBalance,
    ) -> (r: bool)
        ensures
            r == (value_or_zero(dex@.treasury, (project_id as u64, currency_id)) > amount),
    {
        let balance = dex.get_pot(project_id, currency_id);
        balance > amount
    }

    /// Whether `who` is the admin of a project whose originator is
    /// `project_originator` (none where the project is unknown).
    pub fn check_project_admin(who: AccountId, project_originator: Option<AccountId>) -> (r: bool)
        ensures
            r == is_project_admin(who, project_originator),
    {
        match project_originator {
            Some(originator) => originator == who,
            None => false,
        }
    }
}

} // verus!

use vstd::prelude::*;
use crate::types::{copy_bytes, AccountId, ClaimRecord, Error, Event, EventModel, RecordModel};

verus! {

/// What a transition does to one claim: on success, the record held for the
/// claim afterwards (`None`: no record) and the event to emit; otherwise the
/// reason for the rejection, with nothing changed.
pub type OutcomeModel = Result<(Option<RecordModel>, EventModel), Error>;

/// An executable outcome, as returned by the `decide_*` functions.
pub type Outcome = Result<(Option<ClaimRecord>, Event), Error>;

pub open spec fn held(current: Option<&ClaimRecord>) -> Option<RecordModel> {
    match current {
        Some(rec) => Some(rec@),
        None => None,
    }
}

pub open spec fn outcome_view(o: Outcome) -> OutcomeModel {
    match o {
        Ok((next, ev)) => Ok(
            (
                match next {
                    Some(rec) => Some(rec@),
                    None => None,
                },
                ev@,
            ),
        ),
        Err(e) => Err(e),
    }
}

/// Registering `claim` for `sender` at height `now`: only an unclaimed key
/// can be registered, and it is recorded as `(sender, now)`.
pub open spec fn create_outcome(
    current: Option<RecordModel>,
    sender: Seq<u8>,
    claim: Seq<u8>,
    now: u64,
) -> OutcomeModel {
    match current {
        Some(_) => Err(Error::ClaimExisted),
        None => Ok((Some((sender, now)), EventModel::ClaimNew(sender, claim))),
    }
}

/// Releasing `claim` by `sender`: the claim must be held, and by `sender`;
/// the record is then dropped.
pub open spec fn remove_outcome(
    current: Option<RecordModel>,
    sender: Seq<u8>,
    claim: Seq<u8>,
) -> OutcomeModel {
    match current {
        None => Err(Error::ClaimNotExist),
        Some((owner, height)) => if owner != sender {
            Err(Error::ClaimNotOwner)
        } else {
            Ok((None, EventModel::ClaimRemove(sender, claim, height)))
        },
    }
}

/// Transferring `claim` from `sender` to `dest`: the claim must be held, and
/// by `sender`; the owner becomes `dest` and the height is kept.
pub open spec fn transact_outcome(
    current: Option<RecordModel>,
    sender: Seq<u8>,
    claim: Seq<u8>,
    dest: Seq<u8>,
) -> OutcomeModel {
    match current {
        None => Err(Error::ClaimNotExist),
        Some((owner, height)) => if owner != sender {
            Err(Error::ClaimNotOwner)
        } else {
            Ok((Some((dest, height)), EventModel::ClaimTransact(sender, claim, dest, height)))
        },
    }
}

/// Decides a registration of `claim` by `sender` at height `now`, given the
/// record currently held for `claim`.
pub fn decide_create(
    sender: &AccountId,
    claim: &Vec<u8>,
    current: Option<&ClaimRecord>,
    now: u64,
) -> (r: Outcome)
    ensures
        outcome_view(r) == create_outcome(held(current), sender@, claim@, now),
{
    match current {
        Some(_) => Err(Error::ClaimExisted),
        None => {
            let rec = ClaimRecord::new(sender.duplicate(), now);
            Ok((Some(rec), Event::ClaimNew(sender.duplicate(), copy_bytes(claim))))
        },
    }
}

/// Decides a release of `claim` by `sender`, given the record currently
/// held for `claim`.
pub fn decide_remove(sender: &AccountId, claim: &Vec<u8>, current: Option<&ClaimRecord>) -> (r:
    Outcome)
    ensures
        outcome_view(r) == remove_outcome(held(current), sender@, claim@),
{
    match current {
        None => Err(Error::ClaimNotExist),
        Some(rec) => {
            if !rec.owner.same_as(sender) {
                Err(Error::ClaimNotOwner)
            } else {
                Ok((None, Event::ClaimRemove(sender.duplicate(), copy_bytes(claim), rec.registered_at)))
            }
        },
    }
}

/// Decides a transfer of `claim` from `sender` to `dest`, given the record
/// currently held for `claim`.
pub fn decide_transact(
    sender: &AccountId,
    claim: &Vec<u8>,
    dest: &AccountId,
    current: Option<&ClaimRecord>,
) -> (r: Outcome)
    ensures
        outcome_view(r) == transact_outcome(held(current), sender@, claim@, dest@),
{
    match current {
        None => Err(Error::ClaimNotExist),
        Some(rec) => {
            if !rec.owner.same_as(sender) {
                Err(Error::ClaimNotOwner)
            } else {
                let height = rec.registered_at;
                let next = ClaimRecord::new(dest.duplicate(), height);
                let ev = Event::ClaimTransact(sender.duplicate(), copy_bytes(claim), dest.duplicate(), height);
                Ok((Some(next), ev))
            }
        },
    }
}

} // verus!

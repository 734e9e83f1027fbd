use vstd::prelude::*;

verus! {

/// Exact byte equality of two byte strings.
pub fn same_bytes(a: &Vec<u8>, b: &Vec<u8>) -> (r: bool)
    ensures
        r == (a@ == b@),
{
    let r = *a == *b;
    proof {
        if r {
            assert(a@ =~= b@);
        }
    }
    r
}

/// A fresh copy of a byte string.
pub fn copy_bytes(a: &Vec<u8>) -> (r: Vec<u8>)
    ensures
        r@ == a@,
{
    let r = a.clone();
    assert(r@ =~= a@);
    r
}

/// An account identifier, held as its encoded bytes. Two identifiers are the
/// same account exactly when their bytes are equal.
#[derive(Debug, Clone, PartialEq, Eq)]
pub struct AccountId {
    pub bytes: Vec<u8>,
}

impl View for AccountId {
    type V = Seq<u8>;

    open spec fn view(&self) -> Seq<u8> {
        self.bytes@
    }
}

impl AccountId {
    pub fn new(bytes: Vec<u8>) -> (r: AccountId)
        ensures
            r@ == bytes@,
    {
        AccountId { bytes }
    }

    /// Whether `self` and `other` name the same account.
    pub fn same_as(&self, other: &AccountId) -> (r: bool)
        ensures
            r == (self@ == other@),
    {
        same_bytes(&self.bytes, &other.bytes)
    }

    pub fn duplicate(&self) -> (r: AccountId)
        ensures
            r@ == self@,
    {
        AccountId { bytes: copy_bytes(&self.bytes) }
    }
}

/// What the registry keeps for an active claim: its current owner and the
/// height at which the claim was first registered.
#[derive(Debug, Clone, PartialEq, Eq)]
pub struct ClaimRecord {
    pub owner: AccountId,
    pub registered_at: u64,
}

/// A claim record seen as a pair (owner, height).
pub type RecordModel = (Seq<u8>, u64);

impl View for ClaimRecord {
    type V = RecordModel;

    open spec fn view(&self) -> RecordModel {
        (self.owner@, self.registered_at)
    }
}

impl ClaimRecord {
    pub fn new(owner: AccountId, registered_at: u64) -> (r: ClaimRecord)
        ensures
            r@ == (owner@, registered_at),
    {
        ClaimRecord { owner, registered_at }
    }

    pub fn duplicate(&self) -> (r: ClaimRecord)
        ensures
            r@ == self@,
    {
        ClaimRecord { owner: self.owner.duplicate(), registered_at: self.registered_at }
    }
}

/// Why a transition was rejected. Each is a deterministic function of the
/// registry's state and the transition's inputs.
#[derive(Debug, Clone, Copy, PartialEq, Eq, Structural)]
pub enum Error {
    /// `create` on a claim that is already active.
    ClaimExisted,
    /// `remove` or `transact` on a claim that is not active.
    ClaimNotExist,
    /// `remove` or `transact` by an account that does not own the claim.
    ClaimNotOwner,
}

/// The notification produced by a successful transition.
#[derive(Debug, Clone, PartialEq, Eq)]
pub enum Event {
    /// `ClaimNew(owner, claim)`: the claim was registered.
    ClaimNew(AccountId, Vec<u8>),
    /// `ClaimRemove(owner, claim, registered_at)`: the claim was released.
    ClaimRemove(AccountId, Vec<u8>, u64),
    /// `ClaimTransact(from, claim, to, registered_at)`: the claim changed hands.
    ClaimTransact(AccountId, Vec<u8>, AccountId, u64),
}

/// An event with accounts and claims seen as byte sequences.
pub enum EventModel {
    ClaimNew(Seq<u8>, Seq<u8>),
    ClaimRemove(Seq<u8>, Seq<u8>, u64),
    ClaimTransact(Seq<u8>, Seq<u8>, Seq<u8>, u64),
}

impl View for Event {
    type V = EventModel;

    open spec fn view(&self) -> EventModel {
        match self {
            Event::ClaimNew(a, c) => EventModel::ClaimNew(a@, c@),
            Event::ClaimRemove(a, c, h) => EventModel::ClaimRemove(a@, c@, *h),
            Event::ClaimTransact(a, c, b, h) => EventModel::ClaimTransact(a@, c@, b@, *h),
        }
    }
}

} // verus!

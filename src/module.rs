use vstd::prelude::*;
use crate::store::{lookup, ProofStore};
use crate::transition::{
    create_outcome, decide_create, decide_remove, decide_transact, outcome_view, remove_outcome,
    transact_outcome, Outcome, OutcomeModel,
};
use crate::types::{AccountId, ClaimRecord, Error, Event, EventModel, RecordModel};

verus! {

/// The registry's state: each active claim with its (owner, height).
pub type Registry = Map<Seq<u8>, RecordModel>;

/// Applies the outcome of a transition on `claim` to the registry `m`:
/// the new state and what the caller gets back.
pub open spec fn apply_outcome(m: Registry, claim: Seq<u8>, o: OutcomeModel) -> (
    Registry,
    Result<EventModel, Error>,
) {
    match o {
        Err(e) => (m, Err(e)),
        Ok((Some(rec), ev)) => (m.insert(claim, rec), Ok(ev)),
        Ok((None, ev)) => (m.remove(claim), Ok(ev)),
    }
}

/// `create(sender, claim)` at height `now` on the registry `m`.
pub open spec fn create_result(m: Registry, sender: Seq<u8>, claim: Seq<u8>, now: u64) -> (
    Registry,
    Result<EventModel, Error>,
) {
    apply_outcome(m, claim, create_outcome(lookup(m, claim), sender, claim, now))
}

/// `remove(sender, claim)` on the registry `m`.
pub open spec fn remove_result(m: Registry, sender: Seq<u8>, claim: Seq<u8>) -> (
    Registry,
    Result<EventModel, Error>,
) {
    apply_outcome(m, claim, remove_outcome(lookup(m, claim), sender, claim))
}

/// `transact(sender, claim, dest)` on the registry `m`.
pub open spec fn transact_result(m: Registry, sender: Seq<u8>, claim: Seq<u8>, dest: Seq<u8>) -> (
    Registry,
    Result<EventModel, Error>,
) {
    apply_outcome(m, claim, transact_outcome(lookup(m, claim), sender, claim, dest))
}

pub open spec fn result_view(r: Result<Event, Error>) -> Result<EventModel, Error> {
    match r {
        Ok(ev) => Ok(ev@),
        Err(e) => Err(e),
    }
}

/// The claim registry: the record store together with the three transitions
/// that act on it.
pub struct Module {
    records: ProofStore,
}

impl View for Module {
    type V = Registry;

    closed spec fn view(&self) -> Registry {
        self.records@
    }
}

impl Module {
    /// The underlying record store is well formed.
    pub closed spec fn wf(&self) -> bool {
        self.records.wf()
    }

    /// An empty registry.
    pub fn new() -> (r: Module)
        ensures
            r.wf(),
            r@ == Registry::empty(),
    {
        Module { records: ProofStore::new() }
    }

    /// Carries out a decided outcome on `claim`.
    fn commit(&mut self, claim: &Vec<u8>, o: Outcome) -> (r: Result<Event, Error>)
        requires
            old(self).wf(),
        ensures
            final(self).wf(),
            (final(self)@, result_view(r)) == apply_outcome(old(self)@, claim@, outcome_view(o)),
    {
        match o {
            Err(e) => Err(e),
            Ok((next, ev)) => {
                match next {
                    Some(rec) => self.records.insert(claim, rec),
                    None => self.records.remove(claim),
                }
                Ok(ev)
            },
        }
    }

    /// Registers `claim` for `sender` at height `now`. Fails with
    /// `ClaimExisted` when the claim is already active; on success the claim
    /// is held as `(sender, now)` and `ClaimNew(sender, claim)` is returned.
    pub fn create(&mut self, sender: AccountId, claim: Vec<u8>, now: u64) -> (r: Result<
        Event,
        Error,
    >)
        requires
            old(self).wf(),
        ensures
            final(self).wf(),
            (final(self)@, result_view(r)) == create_result(old(self)@, sender@, claim@, now),
    {
        let o = decide_create(&sender, &claim, self.records.get(&claim), now);
        self.commit(&claim, o)
    }

    /// Releases `claim` on behalf of `sender`. Fails with `ClaimNotExist` when
    /// the claim is not active, else with `ClaimNotOwner` when `sender` does
    /// not own it; on success the record is dropped and
    /// `ClaimRemove(sender, claim, registered_at)` is returned.
    pub fn remove(&mut self, sender: AccountId, claim: Vec<u8>) -> (r: Result<Event, Error>)
        requires
            old(self).wf(),
        ensures
            final(self).wf(),
            (final(self)@, result_view(r)) == remove_result(old(self)@, sender@, claim@),
    {
        let o = decide_remove(&sender, &claim, self.records.get(&claim));
        self.commit(&claim, o)
    }

    /// Transfers `claim` from `sender` to `dest`. Fails with `ClaimNotExist`
    /// when the claim is not active, else with `ClaimNotOwner` when `sender`
    /// does not own it; on success the owner becomes `dest`, the height is
    /// kept, and `ClaimTransact(sender, claim, dest, registered_at)` is
    /// returned. `dest` may be `sender` itself.
    pub fn transact(&mut self, sender: AccountId, claim: Vec<u8>, dest: AccountId) -> (r: Result<
        Event,
        Error,
    >)
        requires
            old(self).wf(),
        ensures
            final(self).wf(),
            (final(self)@, result_view(r)) == transact_result(old(self)@, sender@, claim@, dest@),
    {
        let o = decide_transact(&sender, &claim, &dest, self.records.get(&claim));
        self.commit(&claim, o)
    }

    /// The number of active claims.
    pub fn len(&self) -> (r: usize)
        requires
            self.wf(),
        ensures
            r == self@.len(),
    {
        self.records.len()
    }

    /// Whether `claim` is active.
    pub fn contains(&self, claim: &Vec<u8>) -> (r: bool)
        requires
            self.wf(),
        ensures
            r == self@.contains_key(claim@),
    {
        self.records.contains_key(claim)
    }

    /// A copy of the record held for `claim`, if it is active.
    pub fn proofs(&self, claim: &Vec<u8>) -> (r: Option<ClaimRecord>)
        requires
            self.wf(),
        ensures
            match r {
                Some(rec) => lookup(self@, claim@) == Some(rec@),
                None => lookup(self@, claim@) is None,
            },
    {
        match self.records.get(claim) {
            Some(rec) => Some(rec.duplicate()),
            None => None,
        }
    }
}

} // verus!

use vstd::prelude::*;
use crate::module::{create_result, remove_result, transact_result, Registry};
use crate::types::{Error, EventModel};

verus! {

/// A successful registration of `claim` by `sender` at height `now` leaves
/// the claim active and held as `(sender, now)`.
pub proof fn create_then_see(m: Registry, sender: Seq<u8>, claim: Seq<u8>, now: u64)
    ensures
        create_result(m, sender, claim, now).1 is Ok ==> {
            let after = create_result(m, sender, claim, now).0;
            &&& after.contains_key(claim)
            &&& after[claim] == (sender, now)
        },
{
}

/// Once `claim` is registered by `a`, a second registration of it by any
/// account fails with `ClaimExisted` and the record stays `(a, now)`.
pub proof fn no_double_registration(
    m: Registry,
    a: Seq<u8>,
    b: Seq<u8>,
    claim: Seq<u8>,
    now: u64,
    later: u64,
)
    requires
        create_result(m, a, claim, now).1 is Ok,
    ensures
        ({
            let m1 = create_result(m, a, claim, now).0;
            &&& create_result(m1, b, claim, later) == (m1, Err::<EventModel, Error>(Error::ClaimExisted))
            &&& m1[claim] == (a, now)
        }),
{
}

/// Only the owner can release: a release of `a`'s claim by another account
/// fails with `ClaimNotOwner` and changes nothing.
pub proof fn remove_needs_owner(m: Registry, a: Seq<u8>, b: Seq<u8>, claim: Seq<u8>)
    requires
        m.contains_key(claim),
        m[claim].0 == a,
        b != a,
    ensures
        remove_result(m, b, claim) == (m, Err::<EventModel, Error>(Error::ClaimNotOwner)),
{
}

/// Registering and then releasing a claim by the same account succeeds and
/// leaves the claim inactive.
pub proof fn remove_deletes(m: Registry, a: Seq<u8>, claim: Seq<u8>, now: u64)
    requires
        create_result(m, a, claim, now).1 is Ok,
    ensures
        ({
            let m2 = remove_result(create_result(m, a, claim, now).0, a, claim);
            &&& m2.1 is Ok
            &&& !m2.0.contains_key(claim)
        }),
{
}

/// A transfer keeps the height of the registration: after `a` registers
/// `claim` at `now` and transfers it to `b`, it is held as `(b, now)`.
pub proof fn transact_keeps_height(m: Registry, a: Seq<u8>, b: Seq<u8>, claim: Seq<u8>, now: u64)
    requires
        create_result(m, a, claim, now).1 is Ok,
    ensures
        ({
            let m2 = transact_result(create_result(m, a, claim, now).0, a, claim, b);
            &&& m2.1 is Ok
            &&& m2.0.contains_key(claim)
            &&& m2.0[claim] == (b, now)
        }),
{
}

/// Only the owner can transfer: a transfer of `a`'s claim by another account
/// fails with `ClaimNotOwner` and changes nothing.
pub proof fn transact_needs_owner(
    m: Registry,
    a: Seq<u8>,
    b: Seq<u8>,
    dest: Seq<u8>,
    claim: Seq<u8>,
)
    requires
        m.contains_key(claim),
        m[claim].0 == a,
        b != a,
    ensures
        transact_result(m, b, claim, dest) == (m, Err::<EventModel, Error>(Error::ClaimNotOwner)),
{
}

/// A release or a transfer of a claim that is not active fails with
/// `ClaimNotExist` and changes nothing.
pub proof fn absent_claim_rejected(m: Registry, sender: Seq<u8>, dest: Seq<u8>, claim: Seq<u8>)
    requires
        !m.contains_key(claim),
    ensures
        remove_result(m, sender, claim) == (m, Err::<EventModel, Error>(Error::ClaimNotExist)),
        transact_result(m, sender, claim, dest) == (m, Err::<EventModel, Error>(
            Error::ClaimNotExist,
        )),
{
}

/// After a successful release, a further release or transfer of the same
/// claim, by any account, fails with `ClaimNotExist`.
pub proof fn released_claim_rejected(
    m: Registry,
    a: Seq<u8>,
    sender: Seq<u8>,
    dest: Seq<u8>,
    claim: Seq<u8>,
)
    requires
        remove_result(m, a, claim).1 is Ok,
    ensures
        ({
            let m1 = remove_result(m, a, claim).0;
            &&& remove_result(m1, sender, claim).1 == Err::<EventModel, Error>(Error::ClaimNotExist)
            &&& transact_result(m1, sender, claim, dest).1 == Err::<EventModel, Error>(
                Error::ClaimNotExist,
            )
        }),
{
}

/// The owner may transfer a claim to itself: this succeeds, leaves the
/// registry as it was, and still reports the transfer.
pub proof fn self_transfer(m: Registry, a: Seq<u8>, claim: Seq<u8>)
    requires
        m.contains_key(claim),
        m[claim].0 == a,
    ensures
        transact_result(m, a, claim, a) == (m, Ok::<EventModel, Error>(
            EventModel::ClaimTransact(a, claim, a, m[claim].1),
        )),
{
    assert(m.insert(claim, (a, m[claim].1)) =~= m);
}

/// A rejected transition leaves the registry exactly as it was.
pub proof fn rejection_changes_nothing(
    m: Registry,
    sender: Seq<u8>,
    dest: Seq<u8>,
    claim: Seq<u8>,
    now: u64,
)
    ensures
        create_result(m, sender, claim, now).1 is Err ==> create_result(m, sender, claim, now).0
            == m,
        remove_result(m, sender, claim).1 is Err ==> remove_result(m, sender, claim).0 == m,
        transact_result(m, sender, claim, dest).1 is Err ==> transact_result(
            m,
            sender,
            claim,
            dest,
        ).0 == m,
{
}

} // verus!

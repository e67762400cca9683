//! The credential acceptance policy: a password already accepted once is
//! accepted forever after (replay consistency); a password never seen before
//! is accepted with a configured probability, by an independent draw per
//! attempt, and on acceptance is added to the shared credential store.

use vstd::prelude::*;

verus! {

/// Probabilities are configured as a numerator over this denominator: a
/// threshold of `DRAW_BOUND` accepts every first attempt, a threshold of `0`
/// accepts none.
pub const DRAW_BOUND: u32 = 1000000;

/// Relies on `fastrand::u32` with the range `0..bound`: a uniform draw from
/// that range; the range is non-empty because `bound` is positive.
#[verifier::external_body]
fn random_below(bound: u32) -> (r: u32)
    requires
        bound > 0,
    ensures
        r < bound,
{
    fastrand::u32(0..bound)
}

/// The set of previously accepted passwords: shared across connections for
/// the whole process lifetime, and monotonically growing.
pub struct CredentialStore {
    accepted: Vec<String>,
}

impl CredentialStore {
    /// The set of passwords this store holds.
    pub closed spec fn contains(self, password: Seq<char>) -> bool {
        exists|i: int| 0 <= i < self.accepted@.len() && self.accepted@[i]@ == password
    }

    /// A store holding no passwords.
    pub fn new() -> (store: CredentialStore)
        ensures
            forall|q: Seq<char>| !store.contains(q),
    {
        CredentialStore { accepted: Vec::new() }
    }

    /// Whether `password` was accepted before.
    pub fn seen(&self, password: &str) -> (found: bool)
        ensures
            found == self.contains(password@),
    {
        let owned: String = password.to_owned();
        let mut i: usize = 0;
        while i < self.accepted.len()
            invariant
                owned@ == password@,
                0 <= i <= self.accepted@.len(),
                forall|j: int| 0 <= j < i ==> self.accepted@[j]@ != password@,
            decreases self.accepted@.len() - i,
        {
            if self.accepted[i] == owned {
                return true;
            }
            i = i + 1;
        }
        false
    }

    /// Records `password` as accepted; every password already held stays
    /// held, and nothing but `password` is added.
    pub fn store(&mut self, password: &str)
        ensures
            final(self).contains(password@),
            forall|q: Seq<char>| old(self).contains(q) ==> final(self).contains(q),
            forall|q: Seq<char>|
                final(self).contains(q) ==> old(self).contains(q) || q == password@,
    {
        let owned: String = password.to_owned();
        self.accepted.push(owned);
        proof {
            let n = self.accepted@.len() - 1;
            assert(self.accepted@[n]@ == password@);
            assert forall|q: Seq<char>| old(self).contains(q) implies self.contains(q) by {
                let i = choose|i: int|
                    0 <= i < old(self).accepted@.len() && old(self).accepted@[i]@ == q;
                assert(self.accepted@[i]@ == q);
            }
        }
    }
}

/// The process-wide acceptance decision: replay-consistent over the shared
/// store, Bernoulli otherwise.
pub struct AcceptancePolicy {
    accept_threshold: u32,
    store: CredentialStore,
}

impl AcceptancePolicy {
    /// A policy is well formed when its threshold is a valid numerator over
    /// `DRAW_BOUND`.
    pub closed spec fn wf(self) -> bool {
        self.accept_threshold <= DRAW_BOUND
    }

    /// The threshold this policy was configured with.
    pub closed spec fn threshold(self) -> u32 {
        self.accept_threshold
    }

    /// The credential store this policy decides over.
    pub closed spec fn credentials(self) -> CredentialStore {
        self.store
    }

    pub fn new(accept_threshold: u32, store: CredentialStore) -> (policy: AcceptancePolicy)
        requires
            accept_threshold <= DRAW_BOUND,
        ensures
            policy.wf(),
            policy.threshold() == accept_threshold,
            policy.credentials() == store,
    {
        AcceptancePolicy { accept_threshold, store }
    }

    /// Gives the store back, for a caller that carries it into a new policy.
    pub fn into_store(self) -> (store: CredentialStore)
        ensures
            store == self.credentials(),
    {
        self.store
    }

    /// Decides one submitted password. A password already in the store is
    /// always accepted and the store does not change; an unseen password is
    /// accepted exactly when an independent uniform draw falls below the
    /// configured threshold, and on acceptance it enters the store. The
    /// store never shrinks, and never gains anything but `password`.
    pub fn decide(&mut self, password: &str) -> (accepted: bool)
        requires
            old(self).wf(),
        ensures
            final(self).wf(),
            final(self).threshold() == old(self).threshold(),
            old(self).credentials().contains(password@) ==> accepted,
            accepted ==> final(self).credentials().contains(password@),
            !accepted ==> final(self).credentials() == old(self).credentials(),
            credentials_monotonic(*old(self), *final(self)),
            forall|q: Seq<char>|
                final(self).credentials().contains(q)
                    ==> old(self).credentials().contains(q) || q == password@,
            old(self).threshold() == 0 && !old(self).credentials().contains(password@)
                ==> !accepted,
            old(self).threshold() == DRAW_BOUND ==> accepted,
    {
        if self.store.seen(password) {
            return true;
        }
        let draw = random_below(DRAW_BOUND);
        if draw < self.accept_threshold {
            self.store.store(password);
            true
        } else {
            false
        }
    }
}

/// The store only ever grows from `pre` to `post`: every password held
/// before is still held after. Every operation on a policy ensures this.
pub open spec fn credentials_monotonic(pre: AcceptancePolicy, post: AcceptancePolicy) -> bool {
    forall|q: Seq<char>| pre.credentials().contains(q) ==> post.credentials().contains(q)
}

/// The replay invariant: once a password is in the shared store, it is
/// still there after any two further stretches of decisions — made by any
/// connections — and `decide` is then bound by its contract to accept it,
/// whatever the configured probability.
pub proof fn lemma_replay_consistency(
    first: AcceptancePolicy,
    second: AcceptancePolicy,
    third: AcceptancePolicy,
    password: Seq<char>,
)
    requires
        credentials_monotonic(first, second),
        credentials_monotonic(second, third),
        first.credentials().contains(password),
    ensures
        third.credentials().contains(password),
{
}

} // verus!

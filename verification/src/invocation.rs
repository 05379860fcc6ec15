//! What an invocation knows of its surroundings (the ledger time and who
//! authorized it) and how it ends.
use crate::primitives::Address;
use vstd::prelude::*;

verus! {

/// The addresses whose authorization the invocation carries.
pub enum Authorizations {
    /// Every address has authorized the invocation.
    All,
    /// Exactly the listed addresses have authorized the invocation.
    Only(Vec<Address>),
}

impl Authorizations {
    /// Whether `a` has authorized the invocation.
    pub open spec fn authorizes(&self, a: Address) -> bool {
        match self {
            Authorizations::All => true,
            Authorizations::Only(v) => v@.contains(a),
        }
    }

    /// Whether `a` has authorized the invocation.
    pub fn check(&self, a: &Address) -> (r: bool)
        ensures
            r == self.authorizes(*a),
    {
        match self {
            Authorizations::All => true,
            Authorizations::Only(v) => {
                let mut i: usize = 0;
                while i < v.len()
                    invariant
                        0 <= i <= v@.len(),
                        self.authorizes(*a) == v@.contains(*a),
                        forall|j: int| 0 <= j < i ==> v@[j] != *a,
                    decreases v@.len() - i,
                {
                    if v[i].same_as(a) {
                        assert(v@[i as int] == *a);
                        return true;
                    }
                    i = i + 1;
                }
                false
            },
        }
    }
}

/// The context of one contract invocation.
pub struct Invocation {
    /// The ledger timestamp at which the invocation runs.
    pub timestamp: u64,
    /// Who authorized the invocation.
    pub auth: Authorizations,
}

/// Why an invocation was aborted by the host rather than answered.
#[derive(Clone, Copy, Debug, PartialEq, Eq, Structural)]
pub enum Abort {
    /// An address whose authorization was required had not given it.
    Unauthorized,
    /// A contract this one depends on failed to answer, or answered with a
    /// value of the wrong type.
    DependencyFailed,
    /// A value the operation needs from initialization is not stored.
    NotInitialized,
}

/// How an invocation ends. A rejected or aborted invocation changes nothing.
#[derive(Debug, PartialEq, Eq)]
pub enum Outcome<T, E> {
    Done(T),
    Rejected(E),
    Aborted(Abort),
}

/// The verdict of an operation together with the address that must have
/// authorized it. A verdict reached before the authorization check carries
/// no authorizer.
#[derive(Debug)]
pub struct Decision<T, E> {
    pub authorizer: Option<Address>,
    pub verdict: Result<T, E>,
}

/// How an invocation with authorizations `auth` ends on decision `d`.
pub open spec fn settled<T, E>(d: Decision<T, E>, auth: Authorizations) -> Outcome<T, E> {
    match d.authorizer {
        Some(a) if !auth.authorizes(a) => Outcome::Aborted(Abort::Unauthorized),
        _ => match d.verdict {
            Ok(t) => Outcome::Done(t),
            Err(e) => Outcome::Rejected(e),
        },
    }
}

/// Settles decision `d` against the invocation's authorizations.
pub fn settle<T, E>(d: Decision<T, E>, auth: &Authorizations) -> (r: Outcome<T, E>)
    ensures
        r == settled(d, *auth),
{
    match d.authorizer {
        Some(a) => {
            if !auth.check(&a) {
                return Outcome::Aborted(Abort::Unauthorized);
            }
        },
        None => {},
    }
    match d.verdict {
        Ok(t) => Outcome::Done(t),
        Err(e) => Outcome::Rejected(e),
    }
}

} // verus!

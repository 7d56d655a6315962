//! A composite interceptor: a shared, ordered list of interceptors that runs
//! on every request, in order, and stops at the first failure.

use vstd::prelude::*;
use std::sync::{Arc, Mutex};
use tonic::Request;
use crate::credential::{
    keeps_binary, outcome_of, APIKeyClientInterceptor, BearerTokenInterceptor, Outcome,
};
use crate::error::{ErrorKind, InterceptError};
use crate::metadata::{binary_entries, metadata_state, MetadataState};

verus! {

#[verifier::external_type_specification]
#[verifier::external_body]
#[verifier::reject_recursive_types(T)]
pub struct ExMutex<T: ?Sized>(Mutex<T>);

/// One member of a composite. The set of members is closed: the two
/// credential interceptors. A composite cannot be a member of another, since
/// it holds its list behind a mutex, and a list that held a composite could
/// hold itself, and then a call would never end.
#[derive(Clone, Debug)]
pub enum Interceptor {
    ApiKey(APIKeyClientInterceptor),
    BearerToken(BearerTokenInterceptor),
}

/// The list that composites share; its order is the order of execution.
pub type Interceptors = Arc<Mutex<Vec<Arc<Interceptor>>>>;

/// The prefix of the message of the error for a lock that cannot be taken.
pub const LOCK_ERROR_PREFIX: &'static str = "Failed to lock interceptors: ";

impl Interceptor {
    /// What the member does to the metadata `e` of a request.
    pub open spec fn apply_spec(self, e: MetadataState) -> Outcome {
        match self {
            Interceptor::ApiKey(a) => a.apply_spec(e),
            Interceptor::BearerToken(b) => b.apply_spec(e),
        }
    }

    pub fn call(&self, req: Request<()>) -> (r: Result<Request<()>, InterceptError>)
        ensures
            outcome_of(r) == self.apply_spec(metadata_state(req)),
            keeps_binary(r, req),
    {
        match self {
            Interceptor::ApiKey(a) => a.call(req),
            Interceptor::BearerToken(b) => b.call(req),
        }
    }
}

/// Runs `members` in order on the metadata `e`, each on what the one before
/// it left, and stops at the first error, which is the outcome.
pub open spec fn pipeline(members: Seq<Arc<Interceptor>>, e: MetadataState) -> Outcome
    decreases members.len(),
{
    if members.len() == 0 {
        Ok(e)
    } else {
        match pipeline(members.drop_last(), e) {
            Ok(before) => (*members.last()).apply_spec(before),
            Err(err) => Err(err),
        }
    }
}

/// Runs `members` in order on `req`, handing each the request that the one
/// before it returned, and returns the first error unchanged.
pub fn apply_all(members: &Vec<Arc<Interceptor>>, req: Request<()>) -> (r: Result<
    Request<()>,
    InterceptError,
>)
    ensures
        outcome_of(r) == pipeline(members@, metadata_state(req)),
        keeps_binary(r, req),
        members@.len() == 0 ==> r == Ok::<Request<()>, InterceptError>(req),
{
    if members.len() == 0 {
        return Ok(req);
    }
    let ghost start = metadata_state(req);
    let mut cur = req;
    let mut i: usize = 0;
    proof {
        assert(members@.subrange(0, 0).len() == 0);
    }
    while i < members.len()
        invariant
            i <= members@.len(),
            start == metadata_state(req),
            binary_entries(cur) == binary_entries(req),
            pipeline(members@.subrange(0, i as int), start) == Ok::<MetadataState, (ErrorKind, Seq<char>)>(metadata_state(cur)),
        decreases members@.len() - i,
    {
        let member: &Arc<Interceptor> = &members[i];
        proof {
            assert(members@.subrange(0, i + 1).drop_last() =~= members@.subrange(0, i as int));
            assert(members@.subrange(0, i + 1).last() == members@[i as int]);
        }
        match member.call(cur) {
            Ok(next) => {
                cur = next;
            },
            Err(e) => {
                proof {
                    assert(pipeline(members@.subrange(0, i + 1), start) == Err::<MetadataState, (ErrorKind, Seq<char>)>(e@));
                    lemma_failure_is_final(members@, start, i as int + 1);
                }
                return Err(e);
            },
        }
        i = i + 1;
    }
    proof {
        assert(members@.subrange(0, members@.len() as int) =~= members@);
    }
    Ok(cur)
}

/// Once the members before `n` have failed, so has the whole pipeline, with
/// the same error.
proof fn lemma_failure_is_final(members: Seq<Arc<Interceptor>>, e: MetadataState, n: int)
    requires
        0 <= n <= members.len(),
        pipeline(members.subrange(0, n), e) is Err,
    ensures
        pipeline(members, e) == pipeline(members.subrange(0, n), e),
    decreases members.len() - n,
{
    if n == members.len() {
        assert(members.subrange(0, n) =~= members);
    } else {
        assert(members.subrange(0, n + 1).drop_last() =~= members.subrange(0, n));
        lemma_failure_is_final(members, e, n + 1);
    }
}

/// A composite over no interceptors hands back the request as it came and
/// never fails.
pub proof fn lemma_empty_pipeline(e: MetadataState)
    ensures
        pipeline(Seq::<Arc<Interceptor>>::empty(), e) == Ok::<MetadataState, (ErrorKind, Seq<char>)>(e),
{
}

/// When the members before position `k` succeed and the member at `k`
/// fails, the composite fails with exactly that member's error: the members
/// after `k` change nothing.
pub proof fn lemma_first_failure_wins(members: Seq<Arc<Interceptor>>, e: MetadataState, k: int)
    requires
        0 <= k < members.len(),
        pipeline(members.take(k), e) is Ok,
        (*members[k]).apply_spec(pipeline(members.take(k), e)->Ok_0) is Err,
    ensures
        pipeline(members, e) == (*members[k]).apply_spec(pipeline(members.take(k), e)->Ok_0),
{
    assert(members.subrange(0, k + 1).drop_last() =~= members.take(k));
    assert(members.subrange(0, k + 1).last() == members[k]);
    lemma_failure_is_final(members, e, k + 1);
}

/// Relies on std's `Mutex::lock`: on success, a copy of the list as it stood
/// while locked (the members are shared, not cloned); on a poisoned lock, the
/// text of the `PoisonError`. What the list holds is up to its other users,
/// so nothing is stated of it.
#[verifier::external_body]
fn lock_snapshot(shared: &Mutex<Vec<Arc<Interceptor>>>) -> (r: Result<
    Vec<Arc<Interceptor>>,
    String,
>) {
    match shared.lock() {
        Ok(members) => Ok(members.clone()),
        Err(e) => Err(e.to_string()),
    }
}

/// The list that a mutex was made over.
pub uninterp spec fn made_over(m: Mutex<Vec<Arc<Interceptor>>>) -> Seq<Arc<Interceptor>>;

/// Relies on std's `Mutex::new`, which makes an unlocked mutex over the list.
#[verifier::external_body]
fn new_mutex(members: Vec<Arc<Interceptor>>) -> (r: Mutex<Vec<Arc<Interceptor>>>)
    ensures
        made_over(r) == members@,
{
    Mutex::new(members)
}

/// Runs the interceptors of a shared list, in order, on every request.
pub struct CompositeInterceptor {
    interceptors: Interceptors,
}

impl CompositeInterceptor {
    /// Creates a composite over a shared list.
    pub fn new(interceptors: Interceptors) -> (r: Self)
        ensures
            r.interceptors() == interceptors,
    {
        Self { interceptors }
    }

    pub closed spec fn interceptors(&self) -> Interceptors {
        self.interceptors
    }

    /// Locks the list just long enough to copy it (the members themselves
    /// are shared, not cloned), then runs the members of the copy in order
    /// on `req` as `apply_all` does, with the lock released. Members only read
    /// their own configuration, so this gives what a run under the lock would,
    /// without holding other callers up. A lock that cannot be taken gives an
    /// internal error and runs no member.
    pub fn call(&self, req: Request<()>) -> (r: Result<Request<()>, InterceptError>)
        ensures
            (exists|members: Seq<Arc<Interceptor>>|
                outcome_of(r) == #[trigger] pipeline(members, metadata_state(req)))
            || (r matches Err(e) && e.kind == ErrorKind::Internal
                && e.message@.len() >= LOCK_ERROR_PREFIX@.len()
                && e.message@.subrange(0, LOCK_ERROR_PREFIX@.len() as int) == LOCK_ERROR_PREFIX@),
    {
        let shared: &Mutex<Vec<Arc<Interceptor>>> = &self.interceptors;
        match lock_snapshot(shared) {
            Ok(members) => apply_all(&members, req),
            Err(reason) => {
                let mut message = String::from_str(LOCK_ERROR_PREFIX);
                message.append(reason.as_str());
                proof {
                    assert(message@.subrange(0, LOCK_ERROR_PREFIX@.len() as int) =~= LOCK_ERROR_PREFIX@);
                }
                Err(InterceptError::internal(message))
            },
        }
    }
}

/// Builds a shared list of the given interceptors, in the given order.
pub fn interceptors(members: Vec<Interceptor>) -> (r: Interceptors)
    ensures
        made_over(*r).len() == members@.len(),
        forall|i: int| 0 <= i < members@.len() ==> *#[trigger] made_over(*r)[i] == members@[i],
{
    let shared = share_members(members);
    Arc::new(new_mutex(shared))
}

/// Each interceptor behind its own shared handle, in the same order.
pub fn share_members(members: Vec<Interceptor>) -> (r: Vec<Arc<Interceptor>>)
    ensures
        r@.len() == members@.len(),
        forall|i: int| 0 <= i < r@.len() ==> *#[trigger] r@[i] == members@[i],
{
    let mut members = members;
    let ghost original = members@;
    let mut shared: Vec<Arc<Interceptor>> = Vec::new();
    let mut rest: Vec<Arc<Interceptor>> = Vec::new();
    // Take the members from the back, then restore their order.
    while members.len() > 0
        invariant
            rest@.len() + members@.len() == original.len(),
            members@ == original.subrange(0, members@.len() as int),
            forall|j: int| 0 <= j < rest@.len() ==> *#[trigger] rest@[j] == original[original.len() - 1 - j],
        decreases members@.len(),
    {
        let m = members.pop().unwrap();
        rest.push(Arc::new(m));
    }
    while rest.len() > 0
        invariant
            shared@.len() + rest@.len() == original.len(),
            forall|j: int| 0 <= j < rest@.len() ==> *#[trigger] rest@[j] == original[original.len() - 1 - j],
            forall|j: int| 0 <= j < shared@.len() ==> *#[trigger] shared@[j] == original[j],
        decreases rest@.len(),
    {
        let m = rest.pop().unwrap();
        shared.push(m);
    }
    shared
}

} // verus!

//! The factory's protocol as a state machine over its store, and what holds
//! of every run of it.
//!
//! For each requester `k`:
//!
//! ```text
//! Absent --create(k)--> Locked --confirm(k, outpost)--> Unlocked, k bound to outpost
//! ```
//!
//! The host authenticates only the immediate caller of each call. The lock is
//! therefore the whole authorisation of a confirmation: whoever confirms while
//! the lock of `k` is set becomes the outpost bound to `k`. That the caller is
//! an outpost which the factory itself provisioned is not checked.

use vstd::prelude::*;
use crate::decimal::parse_u64_spec;
use crate::factory::state::{ContractState, LockState, StoreView};

verus! {

/// One call of the factory, with the caller that the host authenticated.
pub enum Call {
    /// The factory is set up, with this state.
    Instantiate { state: ContractState },
    /// `sender` asks for an outpost for itself.
    CreateOutpost { sender: Seq<char> },
    /// `sender` confirms to be the outpost of `outpost_owner`.
    MapUserOutpost { outpost_owner: Seq<char>, sender: Seq<char> },
    /// The outpost of `outpost_owner` is to be migrated.
    MigrateOutpost { outpost_owner: Seq<char>, new_outpost_code_id: Seq<char> },
}

/// How a call ends.
pub enum Outcome {
    /// The call succeeds and leaves this store.
    Done(StoreView),
    /// The factory has not been set up.
    NotInstantiated,
    /// The requester is bound already, to this outpost.
    AlreadyCreated(Seq<char>),
    /// The lock of the named requester is not set.
    MissingLock,
    /// The named requester has no outpost.
    NoSuchOutpost,
    /// The code identifier is not a number of 64 bits in decimal digits.
    BadCodeId,
}

/// `sender` asks for an outpost: refused if it is bound already; otherwise
/// its lock is set.
pub open spec fn create_outpost(v: StoreView, sender: Seq<char>) -> Outcome {
    if v.state is None {
        Outcome::NotInstantiated
    } else if v.bindings.contains_key(sender) {
        Outcome::AlreadyCreated(v.bindings[sender])
    } else {
        Outcome::Done(StoreView { locks: v.locks.insert(sender, true), ..v })
    }
}

/// `sender` confirms for `outpost_owner`: refused unless the lock of
/// `outpost_owner` is set; otherwise the lock is used up and `outpost_owner`
/// is bound to `sender`.
pub open spec fn map_user_outpost(
    v: StoreView,
    outpost_owner: Seq<char>,
    sender: Seq<char>,
) -> Outcome {
    if v.lock_state(outpost_owner) == LockState::Locked {
        Outcome::Done(
            StoreView {
                locks: v.locks.insert(outpost_owner, false),
                bindings: v.bindings.insert(outpost_owner, sender),
                ..v
            },
        )
    } else {
        Outcome::MissingLock
    }
}

/// The outpost of `outpost_owner` is migrated: the factory remembers the new
/// code identifier.
pub open spec fn migrate_outpost(
    v: StoreView,
    outpost_owner: Seq<char>,
    new_outpost_code_id: Seq<char>,
) -> Outcome {
    if !v.bindings.contains_key(outpost_owner) {
        Outcome::NoSuchOutpost
    } else {
        match parse_u64_spec(new_outpost_code_id) {
            None => Outcome::BadCodeId,
            Some(id) => match v.state {
                None => Outcome::NotInstantiated,
                Some(s) => Outcome::Done(
                    StoreView {
                        state: Some(ContractState { storage_outpost_code_id: id, admin: s.admin }),
                        ..v
                    },
                ),
            },
        }
    }
}

/// How a call ends on a store.
pub open spec fn outcome(v: StoreView, call: Call) -> Outcome {
    match call {
        Call::Instantiate { state } => Outcome::Done(StoreView { state: Some(state), ..v }),
        Call::CreateOutpost { sender } => create_outpost(v, sender),
        Call::MapUserOutpost { outpost_owner, sender } => map_user_outpost(
            v,
            outpost_owner,
            sender,
        ),
        Call::MigrateOutpost { outpost_owner, new_outpost_code_id } => migrate_outpost(
            v,
            outpost_owner,
            new_outpost_code_id,
        ),
    }
}

/// The store after a call: what the call leaves if it succeeds, and the store
/// as it was if it fails.
pub open spec fn step(v: StoreView, call: Call) -> StoreView {
    match outcome(v, call) {
        Outcome::Done(w) => w,
        _ => v,
    }
}

/// The store after a sequence of calls.
pub open spec fn run(v: StoreView, calls: Seq<Call>) -> StoreView
    decreases calls.len(),
{
    if calls.len() == 0 {
        v
    } else {
        run(step(v, calls[0]), calls.drop_first())
    }
}

/// The call is a confirmation for `k` and it succeeds on `v`.
pub open spec fn confirms(v: StoreView, call: Call, k: Seq<char>) -> bool {
    call matches Call::MapUserOutpost { outpost_owner, .. } && outpost_owner == k && outcome(
        v,
        call,
    ) is Done
}

/// The call is a request of `k` for an outpost and it succeeds on `v`.
pub open spec fn creates(v: StoreView, call: Call, k: Seq<char>) -> bool {
    call matches Call::CreateOutpost { sender } && sender == k && outcome(v, call) is Done
}

/// How many confirmations for `k` succeed in a sequence of calls that starts
/// on `v`.
pub open spec fn confirmations(v: StoreView, calls: Seq<Call>, k: Seq<char>) -> nat
    decreases calls.len(),
{
    if calls.len() == 0 {
        0
    } else {
        let first: nat = if confirms(v, calls[0], k) {
            1
        } else {
            0
        };
        first + confirmations(step(v, calls[0]), calls.drop_first(), k)
    }
}

/// No request of `k` for an outpost succeeds in a sequence of calls that
/// starts on `v`.
pub open spec fn never_creates(v: StoreView, calls: Seq<Call>, k: Seq<char>) -> bool
    decreases calls.len(),
{
    calls.len() == 0 || (!creates(v, calls[0], k) && never_creates(
        step(v, calls[0]),
        calls.drop_first(),
        k,
    ))
}

/// The requesters that are bound are those that hold a used lock. This holds
/// of a fresh factory and of every store that calls of the factory lead to
/// from there.
pub open spec fn consistent(v: StoreView) -> bool {
    forall|k: Seq<char>|
        #![trigger v.bindings.contains_key(k)]
        #![trigger v.lock_state(k)]
        v.bindings.contains_key(k) <==> v.lock_state(k) == LockState::Unlocked
}

/// No call takes a store in which the bound requesters are those with a
/// used lock to one in which that is not so.
pub proof fn lemma_step_keeps_consistent(v: StoreView, call: Call)
    requires
        consistent(v),
    ensures
        consistent(step(v, call)),
{
    let w = step(v, call);
    assert forall|k: Seq<char>|
        #![trigger w.bindings.contains_key(k)]
        #![trigger w.lock_state(k)]
        w.bindings.contains_key(k) <==> w.lock_state(k) == LockState::Unlocked by {
        assert(v.bindings.contains_key(k) <==> v.lock_state(k) == LockState::Unlocked);
    }
}

/// Nor does any sequence of calls.
pub proof fn lemma_run_keeps_consistent(v: StoreView, calls: Seq<Call>)
    requires
        consistent(v),
    ensures
        consistent(run(v, calls)),
    decreases calls.len(),
{
    if calls.len() > 0 {
        lemma_step_keeps_consistent(v, calls[0]);
        lemma_run_keeps_consistent(step(v, calls[0]), calls.drop_first());
    }
}

/// The locks move forward only: from absent to set by a request of the
/// requester and by nothing else, from set to used by a confirmation for the
/// requester and by nothing else, and a used lock stays used.
pub proof fn lemma_lock_moves_forward(v: StoreView, call: Call, k: Seq<char>)
    requires
        consistent(v),
    ensures
        match v.lock_state(k) {
            LockState::Absent => step(v, call).lock_state(k) == if creates(v, call, k) {
                LockState::Locked
            } else {
                LockState::Absent
            },
            LockState::Locked => step(v, call).lock_state(k) == if confirms(v, call, k) {
                LockState::Unlocked
            } else {
                LockState::Locked
            },
            LockState::Unlocked => step(v, call).lock_state(k) == LockState::Unlocked,
        },
        step(v, call).binding(k) != v.binding(k) ==> confirms(v, call, k) && v.binding(k) is None,
{
    assert(v.bindings.contains_key(k) <==> v.lock_state(k) == LockState::Unlocked);
}

/// The bindings are only added to: once a requester is bound, it stays bound
/// to the same outpost, whatever is called.
pub proof fn lemma_bindings_are_kept(v: StoreView, calls: Seq<Call>, k: Seq<char>)
    requires
        consistent(v),
        v.bindings.contains_key(k),
    ensures
        run(v, calls).binding(k) == v.binding(k),
{
    assert(v.lock_state(k) == LockState::Unlocked);
    lemma_bound_stays_bound(v, calls, k);
}

/// Once `k` is bound and its lock is not set, no confirmation for `k`
/// succeeds any more, whatever is called.
pub proof fn lemma_bound_stays_bound(v: StoreView, calls: Seq<Call>, k: Seq<char>)
    requires
        v.bindings.contains_key(k),
        v.lock_state(k) != LockState::Locked,
    ensures
        confirmations(v, calls, k) == 0,
        run(v, calls).bindings.contains_key(k),
        run(v, calls).bindings[k] == v.bindings[k],
        run(v, calls).lock_state(k) == v.lock_state(k),
    decreases calls.len(),
{
    if calls.len() > 0 {
        lemma_bound_stays_bound(step(v, calls[0]), calls.drop_first(), k);
    }
}

/// In every sequence of calls, from every store, at most one confirmation
/// for a given requester succeeds.
pub proof fn lemma_at_most_one_confirmation(v: StoreView, calls: Seq<Call>, k: Seq<char>)
    ensures
        confirmations(v, calls, k) <= 1,
    decreases calls.len(),
{
    if calls.len() > 0 {
        if confirms(v, calls[0], k) {
            lemma_bound_stays_bound(step(v, calls[0]), calls.drop_first(), k);
        } else {
            lemma_at_most_one_confirmation(step(v, calls[0]), calls.drop_first(), k);
        }
    }
}

/// A second confirmation for the same requester fails with `MissingLock`,
/// whoever makes it and whatever was called in between.
pub proof fn lemma_second_confirmation_fails(
    v: StoreView,
    k: Seq<char>,
    first: Seq<char>,
    between: Seq<Call>,
    second: Seq<char>,
)
    requires
        map_user_outpost(v, k, first) is Done,
    ensures
        map_user_outpost(run(step(v, Call::MapUserOutpost { outpost_owner: k, sender: first }), between), k, second)
            == Outcome::MissingLock,
        run(step(v, Call::MapUserOutpost { outpost_owner: k, sender: first }), between).binding(k)
            == Some(first),
{
    let w = step(v, Call::MapUserOutpost { outpost_owner: k, sender: first });
    lemma_bound_stays_bound(w, between, k);
}

/// As long as no request of `k` for an outpost has succeeded, the lock of `k`
/// stays as it was unless it was set; in particular it is never set anew.
pub proof fn lemma_lock_needs_create(v: StoreView, calls: Seq<Call>, k: Seq<char>)
    requires
        v.lock_state(k) != LockState::Locked,
        never_creates(v, calls, k),
    ensures
        run(v, calls).lock_state(k) == v.lock_state(k),
    decreases calls.len(),
{
    if calls.len() > 0 {
        lemma_lock_needs_create(step(v, calls[0]), calls.drop_first(), k);
    }
}

/// A confirmation for `k` that no successful request of `k` has preceded
/// fails with `MissingLock`: on a store where `k` holds no lock, after any
/// calls among which no request of `k` succeeds.
pub proof fn lemma_confirmation_needs_create(
    v: StoreView,
    calls: Seq<Call>,
    k: Seq<char>,
    sender: Seq<char>,
)
    requires
        v.lock_state(k) == LockState::Absent,
        never_creates(v, calls, k),
    ensures
        map_user_outpost(run(v, calls), k, sender) == Outcome::MissingLock,
        step(run(v, calls), Call::MapUserOutpost { outpost_owner: k, sender }) == run(v, calls),
{
    lemma_lock_needs_create(v, calls, k);
}

/// A request of a requester that is bound already is refused with the
/// outpost it is bound to, and the store stays as it was.
pub proof fn lemma_create_when_bound(v: StoreView, k: Seq<char>)
    requires
        v.state is Some,
        v.bindings.contains_key(k),
    ensures
        create_outpost(v, k) == Outcome::AlreadyCreated(v.bindings[k]),
        step(v, Call::CreateOutpost { sender: k }) == v,
{
}

/// Whoever confirms while the lock is set is bound, whether or not the
/// factory provisioned it: the confirmation of a stranger succeeds, and the
/// outpost that was provisioned then finds the lock used.
pub proof fn lemma_first_confirmation_wins(
    v: StoreView,
    k: Seq<char>,
    stranger: Seq<char>,
    outpost: Seq<char>,
)
    requires
        v.lock_state(k) == LockState::Locked,
    ensures
        map_user_outpost(v, k, stranger) is Done,
        step(v, Call::MapUserOutpost { outpost_owner: k, sender: stranger }).binding(k) == Some(
            stranger,
        ),
        map_user_outpost(
            step(v, Call::MapUserOutpost { outpost_owner: k, sender: stranger }),
            k,
            outpost,
        ) == Outcome::MissingLock,
{
}

} // verus!

use vstd::prelude::*;

use crate::contract::{ContractError, ContractState, next_count};

verus! {

/// One call on the store, as its state sees it.
pub enum Call {
    Init { admin: Seq<u8> },
    Upgrade { caller: Seq<u8>, wasm_hash: [u8; 32] },
    Increment,
    GetCount,
    Version,
}

/// The state after one call. Only a successful `init` and `increment` write.
pub open spec fn step(s: ContractState, c: Call) -> ContractState {
    match c {
        Call::Init { admin } => s.after_init(admin),
        Call::Increment => s.after_increment(),
        _ => s,
    }
}

/// The state after the calls, in order, starting from `s`.
pub open spec fn run(s: ContractState, calls: Seq<Call>) -> ContractState
    decreases calls.len(),
{
    if calls.len() == 0 {
        s
    } else {
        step(run(s, calls.drop_last()), calls.last())
    }
}

/// How many of the calls are `increment`.
pub open spec fn increments_in(calls: Seq<Call>) -> nat
    decreases calls.len(),
{
    if calls.len() == 0 {
        0
    } else {
        increments_in(calls.drop_last()) + if calls.last() is Increment {
            1nat
        } else {
            0nat
        }
    }
}

/// How many of the calls, run from `s`, are an `init` that succeeds.
pub open spec fn init_successes(s: ContractState, calls: Seq<Call>) -> nat
    decreases calls.len(),
{
    if calls.len() == 0 {
        0
    } else {
        let before = run(s, calls.drop_last());
        init_successes(s, calls.drop_last()) + if calls.last() is Init
            && before.init_outcome() is Ok {
            1nat
        } else {
            0nat
        }
    }
}

/// Once the store has an administrator, no sequence of calls changes it.
pub proof fn lemma_admin_is_permanent(s: ContractState, calls: Seq<Call>)
    requires
        s.initialized(),
    ensures
        run(s, calls).admin == s.admin,
    decreases calls.len(),
{
    if calls.len() > 0 {
        lemma_admin_is_permanent(s, calls.drop_last());
    }
}

/// Over any sequence of calls, `init` succeeds at most once, and not at all on
/// a store that already has an administrator. Once one has succeeded, every
/// further `init` fails with `AlreadyInitialized`, whatever its argument.
pub proof fn lemma_init_at_most_once(s: ContractState, calls: Seq<Call>)
    ensures
        init_successes(s, calls) <= 1,
        s.initialized() ==> init_successes(s, calls) == 0,
        init_successes(s, calls) == 1 ==> run(s, calls).init_outcome() == Err::<
            (),
            ContractError,
        >(ContractError::AlreadyInitialized),
        run(s, calls).initialized() <==> (s.initialized() || init_successes(s, calls) == 1),
    decreases calls.len(),
{
    if calls.len() > 0 {
        lemma_init_at_most_once(s, calls.drop_last());
    }
}

/// Over any sequence of calls, the counter moves by one for each `increment`
/// and for nothing else, wrapping at `u32::MAX`. In particular a fresh store
/// counts 0 before any `increment`, and `n` after `n` of them (modulo 2^32),
/// whatever upgrades and other calls stand between them.
pub proof fn lemma_count_follows_increments(s: ContractState, calls: Seq<Call>)
    ensures
        run(s, calls).count() as int == (s.count() + increments_in(calls)) % 0x1_0000_0000,
        s == ContractState::fresh() ==> run(s, calls).count() as int == increments_in(calls)
            % 0x1_0000_0000,
    decreases calls.len(),
{
    if calls.len() > 0 {
        let prefix = calls.drop_last();
        lemma_count_follows_increments(s, prefix);
        let k = s.count() + increments_in(prefix);
        assert((k % 0x1_0000_0000 + 1) % 0x1_0000_0000 == (k + 1) % 0x1_0000_0000)
            by (nonlinear_arith)
            requires
                k >= 0,
        ;
    }
}

/// On a fresh store, the `k`-th `increment` returns `k` (modulo 2^32),
/// whatever other calls stand before it.
pub proof fn lemma_kth_increment_returns_k(calls: Seq<Call>)
    requires
        calls.len() > 0,
        calls.last() is Increment,
    ensures
        next_count(run(ContractState::fresh(), calls.drop_last()).count()) as int
            == increments_in(calls) % 0x1_0000_0000,
        run(ContractState::fresh(), calls).count() as int == increments_in(calls)
            % 0x1_0000_0000,
{
    lemma_count_follows_increments(ContractState::fresh(), calls);
    lemma_count_follows_increments(ContractState::fresh(), calls.drop_last());
}

} // verus!

use vstd::prelude::*;

use crate::accounts::{Address, ProvisionError};

verus! {

/// How long a submitted transaction is polled for, and how deep it must be.
#[derive(Clone, Copy, Debug, PartialEq, Eq, Structural)]
pub struct ConfirmPolicy {
    /// Blocks, counting its own, that must hold the transaction.
    pub confirmations: u64,
    /// Polls after which an unconfirmed transaction is given up on.
    pub max_polls: u64,
    /// Pause between two polls.
    pub poll_interval_ms: u64,
}

impl ConfirmPolicy {
    pub open spec fn wf(self) -> bool {
        self.confirmations >= 1 && self.max_polls >= 1
    }
}

/// The receipt of a mined transaction.
#[derive(Clone, Copy, Debug, PartialEq, Eq)]
pub struct Receipt {
    /// The block that holds the transaction.
    pub block: u64,
    /// False where the transaction reverted.
    pub success: bool,
    /// The contract that a creation transaction made.
    pub contract: Option<Address>,
}

/// What one poll of the endpoint saw.
#[derive(Clone, Copy, Debug, PartialEq, Eq)]
pub struct Observation {
    /// The newest block of the chain.
    pub head: u64,
    /// The receipt, once the transaction is mined.
    pub receipt: Option<Receipt>,
}

/// Where a submitted transaction stands.
#[derive(Clone, Copy, Debug, PartialEq, Eq)]
pub enum ConfirmState {
    /// Not yet settled after this many polls.
    Pending(u64),
    /// Succeeded, at the required depth.
    Confirmed(Receipt),
    /// Reverted, at the required depth.
    Rejected(Receipt),
    /// Not settled within the poll window: the outcome is unknown.
    TimedOut,
}

/// The observation shows the transaction mined under enough blocks.
pub open spec fn settled(p: ConfirmPolicy, o: Observation) -> bool {
    match o.receipt {
        Some(rec) => rec.block <= o.head && o.head - rec.block + 1 >= p.confirmations,
        None => false,
    }
}

/// The state after the poll that follows `polls` earlier ones.
pub open spec fn next_state(p: ConfirmPolicy, polls: u64, o: Observation) -> ConfirmState {
    if settled(p, o) {
        if o.receipt->0.success {
            ConfirmState::Confirmed(o.receipt->0)
        } else {
            ConfirmState::Rejected(o.receipt->0)
        }
    } else if polls as int + 1 >= p.max_polls {
        ConfirmState::TimedOut
    } else {
        ConfirmState::Pending((polls + 1) as u64)
    }
}

/// Takes one poll into account. A transaction is settled only once the
/// policy's depth is reached, and the window is never exceeded.
pub fn confirm_step(p: &ConfirmPolicy, polls: u64, o: &Observation) -> (r: ConfirmState)
    ensures
        r == next_state(*p, polls, *o),
{
    match o.receipt {
        Some(rec) => {
            if rec.block <= o.head && (p.confirmations == 0 || o.head - rec.block
                >= p.confirmations - 1) {
                if rec.success {
                    return ConfirmState::Confirmed(rec);
                } else {
                    return ConfirmState::Rejected(rec);
                }
            }
        },
        None => {},
    }
    if polls >= p.max_polls || p.max_polls - polls <= 1 {
        ConfirmState::TimedOut
    } else {
        ConfirmState::Pending(polls + 1)
    }
}

/// The state reached from `Pending(polls)` over a sequence of polls.
pub open spec fn run_polls(p: ConfirmPolicy, polls: u64, obs: Seq<Observation>) -> ConfirmState
    decreases obs.len(),
{
    if obs.len() == 0 {
        ConfirmState::Pending(polls)
    } else {
        match next_state(p, polls, obs[0]) {
            ConfirmState::Pending(n) => run_polls(p, n, obs.drop_first()),
            s => s,
        }
    }
}

/// Why a contract could not be deployed.
#[derive(Clone, Copy, Debug, PartialEq, Eq, Structural)]
pub enum DeployError {
    /// The creation transaction reverted, or made no contract.
    DeploymentFailed,
    /// The creation transaction was not confirmed within the poll window.
    DeploymentTimeout,
}

pub open spec fn deployment_result(s: ConfirmState) -> Result<Address, DeployError> {
    match s {
        ConfirmState::Confirmed(rec) => match rec.contract {
            Some(a) => Ok(a),
            None => Err(DeployError::DeploymentFailed),
        },
        ConfirmState::TimedOut => Err(DeployError::DeploymentTimeout),
        _ => Err(DeployError::DeploymentFailed),
    }
}

/// The outcome of a contract creation once its polling has ended: the new
/// contract's address, or why there is none.
pub fn deployment_outcome(s: &ConfirmState) -> (r: Result<Address, DeployError>)
    requires
        !(s is Pending),
    ensures
        r == deployment_result(*s),
{
    match s {
        ConfirmState::Confirmed(rec) => match rec.contract {
            Some(a) => Ok(a),
            None => Err(DeployError::DeploymentFailed),
        },
        ConfirmState::TimedOut => Err(DeployError::DeploymentTimeout),
        _ => Err(DeployError::DeploymentFailed),
    }
}

pub open spec fn transfer_result(s: ConfirmState) -> Result<(), ProvisionError> {
    match s {
        ConfirmState::Confirmed(_) => Ok(()),
        ConfirmState::TimedOut => Err(ProvisionError::TransferTimeout),
        _ => Err(ProvisionError::TransferFailed),
    }
}

/// The outcome of a funding transfer once its polling has ended.
pub fn transfer_outcome(s: &ConfirmState) -> (r: Result<(), ProvisionError>)
    requires
        !(s is Pending),
    ensures
        r == transfer_result(*s),
{
    match s {
        ConfirmState::Confirmed(_) => Ok(()),
        ConfirmState::TimedOut => Err(ProvisionError::TransferTimeout),
        _ => Err(ProvisionError::TransferFailed),
    }
}

proof fn lemma_unmined_from(p: ConfirmPolicy, polls: u64, obs: Seq<Observation>)
    requires
        p.wf(),
        polls < p.max_polls,
        obs.len() + polls >= p.max_polls,
        forall|k: int| 0 <= k < obs.len() ==> (#[trigger] obs[k]).receipt is None,
    ensures
        run_polls(p, polls, obs) == ConfirmState::TimedOut,
    decreases obs.len(),
{
    if polls + 1 < p.max_polls {
        assert(obs[0].receipt is None);
        let rest = obs.drop_first();
        assert forall|k: int| 0 <= k < rest.len() implies (#[trigger] rest[k]).receipt is None by {
            assert(rest[k] == obs[k + 1]);
        }
        lemma_unmined_from(p, (polls + 1) as u64, rest);
    } else {
        assert(obs[0].receipt is None);
    }
}

/// A creation transaction that is never mined within the poll window times
/// out: `DeploymentTimeout`, not `DeploymentFailed`.
pub proof fn lemma_never_mined_times_out(p: ConfirmPolicy, obs: Seq<Observation>)
    requires
        p.wf(),
        obs.len() >= p.max_polls,
        forall|k: int| 0 <= k < obs.len() ==> (#[trigger] obs[k]).receipt is None,
    ensures
        run_polls(p, 0, obs) == ConfirmState::TimedOut,
        deployment_result(run_polls(p, 0, obs)) == Err::<Address, DeployError>(
            DeployError::DeploymentTimeout,
        ),
{
    lemma_unmined_from(p, 0, obs);
}

proof fn lemma_reverted_from(p: ConfirmPolicy, polls: u64, obs: Seq<Observation>, i: int)
    requires
        p.wf(),
        0 <= i < obs.len(),
        polls + i < p.max_polls,
        forall|k: int| 0 <= k < i ==> !settled(p, #[trigger] obs[k]),
        settled(p, obs[i]),
        !obs[i].receipt->0.success,
    ensures
        run_polls(p, polls, obs) == ConfirmState::Rejected(obs[i].receipt->0),
    decreases i,
{
    if i > 0 {
        assert(!settled(p, obs[0]));
        let rest = obs.drop_first();
        assert forall|k: int| 0 <= k < i - 1 implies !settled(p, #[trigger] rest[k]) by {
            assert(rest[k] == obs[k + 1]);
        }
        assert(rest[i - 1] == obs[i]);
        lemma_reverted_from(p, (polls + 1) as u64, rest, i - 1);
    }
}

/// A creation transaction that reverts, and whose receipt reaches the
/// required depth within the poll window, fails with `DeploymentFailed`,
/// not `DeploymentTimeout`.
pub proof fn lemma_revert_fails(p: ConfirmPolicy, obs: Seq<Observation>, i: int)
    requires
        p.wf(),
        0 <= i < obs.len(),
        i < p.max_polls,
        forall|k: int| 0 <= k < i ==> !settled(p, #[trigger] obs[k]),
        settled(p, obs[i]),
        !obs[i].receipt->0.success,
    ensures
        run_polls(p, 0, obs) is Rejected,
        deployment_result(run_polls(p, 0, obs)) == Err::<Address, DeployError>(
            DeployError::DeploymentFailed,
        ),
{
    lemma_reverted_from(p, 0, obs, i);
}

} // verus!

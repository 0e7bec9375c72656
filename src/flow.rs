use vstd::prelude::*;

use crate::accounts::{
    credited, funding_of, two_pow_128, funding_transfer, Account, Address, ProvisionError, Transfer,
    FUNDING_AMOUNT,
};
use crate::confirm::{
    confirm_step, deployment_outcome, deployment_result, lemma_never_mined_times_out,
    lemma_revert_fails, next_state, run_polls, settled, transfer_outcome, transfer_result,
    ConfirmPolicy, ConfirmState, DeployError, Observation,
};

verus! {

/// What the endpoint answered to the last request of a flow.
#[derive(Clone, Copy, Debug, PartialEq, Eq)]
pub enum Reply {
    /// A transaction was accepted for inclusion.
    Accepted,
    /// A key was imported as this account.
    Imported(Address),
    /// The request failed.
    Refused,
    /// A poll of a submitted transaction saw this.
    Observed(Observation),
}

/// The state after a poll that `reply` answered. A poll that failed counts
/// as one that saw nothing: the window still closes.
pub open spec fn after_poll(p: ConfirmPolicy, polls: u64, reply: Reply) -> ConfirmState {
    match reply {
        Reply::Observed(o) => next_state(p, polls, o),
        _ => if polls as int + 1 >= p.max_polls {
            ConfirmState::TimedOut
        } else {
            ConfirmState::Pending((polls + 1) as u64)
        },
    }
}

fn poll_reply(p: &ConfirmPolicy, polls: u64, reply: &Reply) -> (r: ConfirmState)
    ensures
        r == after_poll(*p, polls, *reply),
{
    match reply {
        Reply::Observed(o) => confirm_step(p, polls, o),
        _ => if polls >= p.max_polls || p.max_polls - polls <= 1 {
            ConfirmState::TimedOut
        } else {
            ConfirmState::Pending(polls + 1)
        },
    }
}

/// Where the provisioning of a funded account stands.
#[derive(Clone, Copy, Debug, PartialEq, Eq)]
pub enum ProvisionStage {
    /// The new key was handed to the endpoint for import.
    Importing,
    /// The funding transfer to this account was submitted.
    Funding(Address),
    /// The funding transfer to this account was polled this many times.
    Confirming(Address, u64),
    Finished,
}

/// What to do next while provisioning.
#[derive(Clone, Copy, Debug, PartialEq, Eq)]
pub enum ProvisionAction {
    /// Submit this transfer.
    Send(Transfer),
    /// Wait one poll interval, then poll the transfer.
    Poll,
    /// Stop with this result.
    Finish(Result<Address, ProvisionError>),
}

pub open spec fn provision_spec(
    p: ConfirmPolicy,
    root: Account,
    stage: ProvisionStage,
    reply: Reply,
) -> (ProvisionStage, ProvisionAction) {
    match stage {
        ProvisionStage::Importing => match reply {
            Reply::Imported(a) => (
                ProvisionStage::Funding(a),
                ProvisionAction::Send(funding_of(root, a)),
            ),
            _ => (
                ProvisionStage::Finished,
                ProvisionAction::Finish(Err(ProvisionError::ImportFailed)),
            ),
        },
        ProvisionStage::Funding(a) => match reply {
            Reply::Accepted => (ProvisionStage::Confirming(a, 0), ProvisionAction::Poll),
            _ => (
                ProvisionStage::Finished,
                ProvisionAction::Finish(Err(ProvisionError::TransferFailed)),
            ),
        },
        ProvisionStage::Confirming(a, n) => match after_poll(p, n, reply) {
            ConfirmState::Pending(m) => (ProvisionStage::Confirming(a, m), ProvisionAction::Poll),
            s => (
                ProvisionStage::Finished,
                ProvisionAction::Finish(
                    match transfer_result(s) {
                        Ok(()) => Ok(a),
                        Err(e) => Err(e),
                    },
                ),
            ),
        },
        ProvisionStage::Finished => (stage, ProvisionAction::Finish(Err(ProvisionError::TransferFailed))),
    }
}

/// Takes the endpoint's reply to the last step of provisioning a funded
/// account: import the key, fund it from `root` with the funding amount, and
/// wait for the transfer to be confirmed. Each failed step ends the flow with
/// its own error, and a transfer that is not confirmed in time is told apart
/// from one that was rejected.
pub fn provision_next(
    p: &ConfirmPolicy,
    root: &Account,
    stage: ProvisionStage,
    reply: Reply,
) -> (r: (ProvisionStage, ProvisionAction))
    requires
        !(stage is Finished),
    ensures
        r == provision_spec(*p, *root, stage, reply),
{
    match stage {
        ProvisionStage::Importing => match reply {
            Reply::Imported(a) => (ProvisionStage::Funding(a), ProvisionAction::Send(funding_transfer(root, &a))),
            _ => (ProvisionStage::Finished, ProvisionAction::Finish(Err(ProvisionError::ImportFailed))),
        },
        ProvisionStage::Funding(a) => match reply {
            Reply::Accepted => (ProvisionStage::Confirming(a, 0), ProvisionAction::Poll),
            _ => (ProvisionStage::Finished, ProvisionAction::Finish(Err(ProvisionError::TransferFailed))),
        },
        ProvisionStage::Confirming(a, n) => {
            let s = poll_reply(p, n, &reply);
            match s {
                ConfirmState::Pending(m) => (ProvisionStage::Confirming(a, m), ProvisionAction::Poll),
                _ => {
                    let r = match transfer_outcome(&s) {
                        Ok(()) => Ok(a),
                        Err(e) => Err(e),
                    };
                    (ProvisionStage::Finished, ProvisionAction::Finish(r))
                },
            }
        },
        ProvisionStage::Finished => (stage, ProvisionAction::Finish(Err(ProvisionError::TransferFailed))),
    }
}

/// A provisioning flow from `stage` driven by `replies`: the stage it reaches,
/// the transfers it submitted, and its result if it finished.
pub open spec fn run_provision(
    p: ConfirmPolicy,
    root: Account,
    stage: ProvisionStage,
    replies: Seq<Reply>,
) -> (ProvisionStage, Seq<Transfer>, Option<Result<Address, ProvisionError>>)
    decreases replies.len(),
{
    if replies.len() == 0 || stage is Finished {
        (stage, Seq::empty(), None)
    } else {
        let (next, act) = provision_spec(p, root, stage, replies[0]);
        match act {
            ProvisionAction::Finish(r) => (next, Seq::empty(), Some(r)),
            ProvisionAction::Send(t) => {
                let (last, sent, r) = run_provision(p, root, next, replies.drop_first());
                (last, seq![t] + sent, r)
            },
            ProvisionAction::Poll => run_provision(p, root, next, replies.drop_first()),
        }
    }
}

proof fn lemma_confirming_sends_nothing(
    p: ConfirmPolicy,
    root: Account,
    a: Address,
    n: u64,
    replies: Seq<Reply>,
)
    ensures
        run_provision(p, root, ProvisionStage::Confirming(a, n), replies).1.len() == 0,
        run_provision(p, root, ProvisionStage::Confirming(a, n), replies).2 matches Some(Ok(b))
            ==> b == a,
    decreases replies.len(),
{
    if replies.len() > 0 {
        if let ConfirmState::Pending(m) = after_poll(p, n, replies[0]) {
            lemma_confirming_sends_nothing(p, root, a, m, replies.drop_first());
        }
    }
}

/// A provisioning that succeeds with account `a` submitted exactly one
/// transfer: the funding amount, from the root, to `a`. As the sender pays the
/// fee, `a`, empty before, then holds exactly the funding amount.
pub proof fn lemma_provision_funds_exactly(p: ConfirmPolicy, root: Account, replies: Seq<Reply>)
    ensures
        run_provision(p, root, ProvisionStage::Importing, replies).2 matches Some(Ok(a)) ==> {
            &&& run_provision(p, root, ProvisionStage::Importing, replies).1 == seq![
                funding_of(root, a),
            ]
            &&& credited(0, funding_of(root, a)) == FUNDING_AMOUNT
        },
{
    if replies.len() > 0 {
        if let Reply::Imported(a) = replies[0] {
            let rest = replies.drop_first();
            let t = funding_of(root, a);
            let from_funding = run_provision(p, root, ProvisionStage::Funding(a), rest);
            assert(run_provision(p, root, ProvisionStage::Importing, replies) == (
                from_funding.0,
                seq![t] + from_funding.1,
                from_funding.2,
            ));
            if rest.len() > 0 {
                match rest[0] {
                    Reply::Accepted => {
                        lemma_confirming_sends_nothing(p, root, a, 0, rest.drop_first());
                        assert(from_funding == run_provision(
                            p,
                            root,
                            ProvisionStage::Confirming(a, 0),
                            rest.drop_first(),
                        ));
                        assert(seq![t] + from_funding.1 =~= seq![t]);
                        assert(t.value.hi == 0);
                        assert(t.value.hi * two_pow_128() == 0);
                    },
                    _ => {
                        assert(from_funding.2 == Some(
                            Err::<Address, ProvisionError>(ProvisionError::TransferFailed),
                        ));
                    },
                }
            } else {
                assert(from_funding.2 is None);
            }
        }
    }
}

/// Where the deployment of a contract stands.
#[derive(Clone, Copy, Debug, PartialEq, Eq)]
pub enum DeployStage {
    /// The creation transaction was submitted.
    Creating,
    /// The creation transaction was polled this many times.
    Confirming(u64),
    Finished,
}

/// What to do next while deploying.
#[derive(Clone, Copy, Debug, PartialEq, Eq)]
pub enum DeployAction {
    /// Wait one poll interval, then poll the creation transaction.
    Poll,
    /// Stop with the contract's address, or why there is none.
    Finish(Result<Address, DeployError>),
}

pub open spec fn deploy_spec(p: ConfirmPolicy, stage: DeployStage, reply: Reply) -> (
    DeployStage,
    DeployAction,
) {
    match stage {
        DeployStage::Creating => match reply {
            Reply::Accepted => (DeployStage::Confirming(0), DeployAction::Poll),
            _ => (DeployStage::Finished, DeployAction::Finish(Err(DeployError::DeploymentFailed))),
        },
        DeployStage::Confirming(n) => match after_poll(p, n, reply) {
            ConfirmState::Pending(m) => (DeployStage::Confirming(m), DeployAction::Poll),
            s => (DeployStage::Finished, DeployAction::Finish(deployment_result(s))),
        },
        DeployStage::Finished => (stage, DeployAction::Finish(Err(DeployError::DeploymentFailed))),
    }
}

/// A deployment from `stage` driven by `replies`: its result, if it finished.
pub open spec fn run_deploy(p: ConfirmPolicy, stage: DeployStage, replies: Seq<Reply>) -> Option<
    Result<Address, DeployError>,
>
    decreases replies.len(),
{
    if replies.len() == 0 || stage is Finished {
        None
    } else {
        match deploy_spec(p, stage, replies[0]) {
            (_, DeployAction::Finish(r)) => Some(r),
            (next, DeployAction::Poll) => run_deploy(p, next, replies.drop_first()),
        }
    }
}

/// The replies of polls that saw `obs`, one each.
pub open spec fn observed(obs: Seq<Observation>) -> Seq<Reply> {
    obs.map_values(|o: Observation| Reply::Observed(o))
}

proof fn lemma_deploy_follows_polls(p: ConfirmPolicy, n: u64, obs: Seq<Observation>)
    requires
        !(run_polls(p, n, obs) is Pending),
    ensures
        run_deploy(p, DeployStage::Confirming(n), observed(obs)) == Some(
            deployment_result(run_polls(p, n, obs)),
        ),
    decreases obs.len(),
{
    assert(obs.len() > 0);
    let replies = observed(obs);
    assert(replies[0] == Reply::Observed(obs[0]));
    if let ConfirmState::Pending(m) = next_state(p, n, obs[0]) {
        assert(replies.drop_first() =~= observed(obs.drop_first()));
        lemma_deploy_follows_polls(p, m, obs.drop_first());
    }
}

proof fn lemma_accepted_then_polls(p: ConfirmPolicy, obs: Seq<Observation>)
    requires
        !(run_polls(p, 0, obs) is Pending),
    ensures
        run_deploy(p, DeployStage::Creating, seq![Reply::Accepted] + observed(obs)) == Some(
            deployment_result(run_polls(p, 0, obs)),
        ),
{
    let replies = seq![Reply::Accepted] + observed(obs);
    assert(replies[0] == Reply::Accepted);
    assert(replies.drop_first() =~= observed(obs));
    lemma_deploy_follows_polls(p, 0, obs);
}

/// A deployment whose creation transaction is accepted, then seen reverted at
/// the required depth within the poll window, ends in `DeploymentFailed`.
pub proof fn lemma_deploy_revert_fails(p: ConfirmPolicy, obs: Seq<Observation>, i: int)
    requires
        p.wf(),
        0 <= i < obs.len(),
        i < p.max_polls,
        forall|k: int| 0 <= k < i ==> !settled(p, #[trigger] obs[k]),
        settled(p, obs[i]),
        !obs[i].receipt->0.success,
    ensures
        run_deploy(p, DeployStage::Creating, seq![Reply::Accepted] + observed(obs)) == Some(
            Err::<Address, DeployError>(DeployError::DeploymentFailed),
        ),
{
    lemma_revert_fails(p, obs, i);
    lemma_accepted_then_polls(p, obs);
}

/// A deployment whose creation transaction is accepted but never seen mined
/// in the poll window ends in `DeploymentTimeout`, after at most the window's
/// number of polls.
pub proof fn lemma_deploy_never_mined_times_out(p: ConfirmPolicy, obs: Seq<Observation>)
    requires
        p.wf(),
        obs.len() == p.max_polls,
        forall|k: int| 0 <= k < obs.len() ==> (#[trigger] obs[k]).receipt is None,
    ensures
        run_deploy(p, DeployStage::Creating, seq![Reply::Accepted] + observed(obs)) == Some(
            Err::<Address, DeployError>(DeployError::DeploymentTimeout),
        ),
{
    lemma_never_mined_times_out(p, obs);
    lemma_accepted_then_polls(p, obs);
}

/// Takes the endpoint's reply to the last step of a deployment: submit the
/// creation transaction, then poll it until it is confirmed, reverts or the
/// window closes.
pub fn deploy_next(p: &ConfirmPolicy, stage: DeployStage, reply: Reply) -> (r: (
    DeployStage,
    DeployAction,
))
    requires
        !(stage is Finished),
    ensures
        r == deploy_spec(*p, stage, reply),
{
    match stage {
        DeployStage::Creating => match reply {
            Reply::Accepted => (DeployStage::Confirming(0), DeployAction::Poll),
            _ => (DeployStage::Finished, DeployAction::Finish(Err(DeployError::DeploymentFailed))),
        },
        DeployStage::Confirming(n) => {
            let s = poll_reply(p, n, &reply);
            match s {
                ConfirmState::Pending(m) => (DeployStage::Confirming(m), DeployAction::Poll),
                _ => (DeployStage::Finished, DeployAction::Finish(deployment_outcome(&s))),
            }
        },
        DeployStage::Finished => (stage, DeployAction::Finish(Err(DeployError::DeploymentFailed))),
    }
}

} // verus!

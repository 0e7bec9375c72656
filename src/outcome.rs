use vstd::prelude::*;

use crate::accounts::{ProvisionError, U256};
use crate::confirm::DeployError;
use crate::gate::SolcError;
use crate::keys::KeyError;
use crate::probe::{lemma_probe_listening, lemma_probe_never_listening, probe_run, ProbePolicy};

verus! {

/// A value decoded from a read-only contract call.
#[derive(Clone, Copy, Debug, PartialEq, Eq, Structural)]
pub enum CallValue {
    Uint(U256),
    Bool(bool),
}

/// What went wrong inside one test case.
#[derive(Clone, Copy, Debug, PartialEq, Eq, Structural)]
pub enum CaseError {
    Key(KeyError),
    Provision(ProvisionError),
    Deploy(DeployError),
    /// The call at this position returned another value than expected, or
    /// no value.
    CallMismatch(u64),
    /// A provisioned account does not hold the funding amount.
    WrongBalance,
    /// A request to the endpoint failed outside any flow step.
    EndpointFailed,
    /// The case stopped abruptly.
    Panicked,
}

/// A check of the case did not hold, as opposed to the harness failing.
pub open spec fn is_check_failure(e: CaseError) -> bool {
    e is CallMismatch || e is WrongBalance
}

/// `i` is the first position where the two lists differ: both agree before
/// it, and there one has ended or the two values differ.
pub open spec fn first_difference(e: Seq<CallValue>, a: Seq<CallValue>, i: int) -> bool {
    0 <= i <= e.len() && i <= a.len() && e.subrange(0, i) == a.subrange(0, i) && (i == e.len()
        || i == a.len() || e[i] != a[i]) && !(i == e.len() && i == a.len())
}

/// Compares the values that verification calls returned, in order, with the
/// values expected of them. A mismatch is reported at the first position where
/// the two lists differ.
pub fn verify_calls(expected: &Vec<CallValue>, actual: &Vec<CallValue>) -> (r: Result<
    (),
    CaseError,
>)
    ensures
        r is Ok <==> expected@ == actual@,
        r is Err ==> exists|i: int|
            #[trigger] first_difference(expected@, actual@, i) && r == Err::<(), CaseError>(
                CaseError::CallMismatch(i as u64),
            ),
{
    let mut i: usize = 0;
    while i < expected.len() && i < actual.len()
        invariant
            i <= expected@.len(),
            i <= actual@.len(),
            expected@.subrange(0, i as int) == actual@.subrange(0, i as int),
        decreases expected@.len() - i,
    {
        if expected[i] != actual[i] {
            assert(first_difference(expected@, actual@, i as int));
            return Err(CaseError::CallMismatch(i as u64));
        }
        proof {
            assert(expected@.subrange(0, i + 1) =~= expected@.subrange(0, i as int).push(
                expected@[i as int],
            ));
            assert(actual@.subrange(0, i + 1) =~= actual@.subrange(0, i as int).push(
                actual@[i as int],
            ));
        }
        i = i + 1;
    }
    if expected.len() == actual.len() {
        proof {
            assert(expected@ =~= expected@.subrange(0, i as int));
            assert(actual@ =~= actual@.subrange(0, i as int));
        }
        Ok(())
    } else {
        assert(first_difference(expected@, actual@, i as int));
        Err(CaseError::CallMismatch(i as u64))
    }
}

/// The result of one test case.
#[derive(Clone, Copy, Debug, PartialEq, Eq, Structural)]
pub enum TestOutcome {
    Passed,
    /// The case ran and a check did not hold.
    Failed(CaseError),
    /// The case could not run to its checks.
    Errored(CaseError),
}

pub open spec fn outcome_spec(r: Result<(), CaseError>) -> TestOutcome {
    match r {
        Ok(()) => TestOutcome::Passed,
        Err(e) => if is_check_failure(e) {
            TestOutcome::Failed(e)
        } else {
            TestOutcome::Errored(e)
        },
    }
}

/// Reduces a case's result to its outcome: a wrong value is a failure, any
/// other error an error of the harness.
pub fn outcome_of(r: Result<(), CaseError>) -> (o: TestOutcome)
    ensures
        o == outcome_spec(r),
{
    match r {
        Ok(()) => TestOutcome::Passed,
        Err(CaseError::CallMismatch(i)) => TestOutcome::Failed(CaseError::CallMismatch(i)),
        Err(CaseError::WrongBalance) => TestOutcome::Failed(CaseError::WrongBalance),
        Err(e) => TestOutcome::Errored(e),
    }
}

/// Why the run stopped before any test case.
#[derive(Clone, Copy, Debug, PartialEq, Eq, Structural)]
pub enum RunError {
    /// The endpoint did not come up within the probe's deadline.
    Unreachable,
    /// The compiler cannot be used.
    Compiler(SolcError),
}

pub open spec fn preconditions_result(endpoint_up: bool, compiler: Result<(), SolcError>) -> Result<
    (),
    RunError,
> {
    if !endpoint_up {
        Err(RunError::Unreachable)
    } else {
        match compiler {
            Ok(()) => Ok(()),
            Err(e) => Err(RunError::Compiler(e)),
        }
    }
}

/// Combines the two preconditions of a run: the endpoint is up and the
/// compiler passes its gate. The endpoint is checked first.
pub fn check_preconditions(endpoint_up: bool, compiler: Result<(), SolcError>) -> (r: Result<
    (),
    RunError,
>)
    ensures
        r == preconditions_result(endpoint_up, compiler),
        !endpoint_up ==> r == Err::<(), RunError>(RunError::Unreachable),
        endpoint_up && compiler is Ok ==> r == Ok::<(), RunError>(()),
        endpoint_up && compiler is Err ==> r == Err::<(), RunError>(
            RunError::Compiler(compiler->Err_0),
        ),
{
    if !endpoint_up {
        return Err(RunError::Unreachable);
    }
    match compiler {
        Ok(()) => Ok(()),
        Err(e) => Err(RunError::Compiler(e)),
    }
}

/// The positions of the cases that did not pass, in order.
pub fn failing_cases(outcomes: &Vec<TestOutcome>) -> (r: Vec<usize>)
    ensures
        forall|k: int| 0 <= k < r@.len() ==> r@[k] < outcomes@.len() && !(outcomes@[r@[k] as int] is Passed),
        forall|k: int, m: int| 0 <= k < m < r@.len() ==> r@[k] < r@[m],
        forall|i: int|
            0 <= i < outcomes@.len() && !(#[trigger] outcomes@[i] is Passed) ==> r@.contains(
                i as usize,
            ),
{
    let mut r: Vec<usize> = Vec::new();
    let mut i: usize = 0;
    while i < outcomes.len()
        invariant
            i <= outcomes@.len(),
            forall|k: int| 0 <= k < r@.len() ==> r@[k] < i && !(outcomes@[r@[k] as int] is Passed),
            forall|k: int, m: int| 0 <= k < m < r@.len() ==> r@[k] < r@[m],
            forall|j: int| 0 <= j < i && !(#[trigger] outcomes@[j] is Passed) ==> r@.contains(j as usize),
        decreases outcomes@.len() - i,
    {
        match outcomes[i] {
            TestOutcome::Passed => {},
            _ => {
                let ghost before = r@;
                r.push(i);
                proof {
                    assert forall|j: int|
                        0 <= j <= i && !(#[trigger] outcomes@[j] is Passed) implies r@.contains(
                        j as usize,
                    ) by {
                        if j < i {
                            let k = choose|k: int| 0 <= k < before.len() && before[k] == j as usize;
                            assert(r@[k] == j as usize);
                        } else {
                            assert(r@[r@.len() - 1] == j as usize);
                        }
                    }
                }
            },
        }
        i = i + 1;
    }
    r
}

pub open spec fn exit_status(preconditions: Result<(), RunError>, outcomes: Seq<TestOutcome>) -> i32 {
    if preconditions is Ok && forall|i: int| 0 <= i < outcomes.len() ==> #[trigger] outcomes[i] is Passed {
        0
    } else {
        1
    }
}

/// The process status of a run: zero exactly when the preconditions held and
/// every case passed, one otherwise.
pub fn exit_code(preconditions: Result<(), RunError>, outcomes: &Vec<TestOutcome>) -> (r: i32)
    ensures
        r == 0 <==> (preconditions is Ok && forall|i: int| 0 <= i < outcomes@.len() ==> #[trigger] outcomes@[i] is Passed),
        r == 0 || r == 1,
        r == exit_status(preconditions, outcomes@),
{
    if preconditions.is_err() {
        return 1;
    }
    let mut i: usize = 0;
    while i < outcomes.len()
        invariant
            i <= outcomes@.len(),
            forall|j: int| 0 <= j < i ==> #[trigger] outcomes@[j] is Passed,
        decreases outcomes@.len() - i,
    {
        match outcomes[i] {
            TestOutcome::Passed => {},
            _ => {
                return 1;
            },
        }
        i = i + 1;
    }
    0
}


/// A run against an endpoint that never starts listening stops before any
/// test case: the probe reports the endpoint down exactly at its deadline,
/// whatever the compiler would have said the preconditions fail with
/// `Unreachable`, and the process status is one.
pub proof fn lemma_unreachable_endpoint_aborts(
    p: ProbePolicy,
    compiler: Result<(), SolcError>,
    outcomes: Seq<TestOutcome>,
)
    requires
        p.wf(),
    ensures
        probe_run(p, None, 0) == (false, p.deadline_ms as int),
        preconditions_result(probe_run(p, None, 0).0, compiler) == Err::<(), RunError>(
            RunError::Unreachable,
        ),
        exit_status(preconditions_result(probe_run(p, None, 0).0, compiler), outcomes) == 1,
{
    lemma_probe_never_listening(p);
}

/// A run whose endpoint starts listening within the deadline gets past the
/// probe, before the deadline has fully elapsed, and then depends on the
/// compiler gate alone.
pub proof fn lemma_listening_endpoint_passes_probe(
    p: ProbePolicy,
    l: nat,
    compiler: Result<(), SolcError>,
)
    requires
        p.wf(),
        l <= p.deadline_ms,
    ensures
        probe_run(p, Some(l), 0).0,
        probe_run(p, Some(l), 0).1 <= p.deadline_ms,
        preconditions_result(probe_run(p, Some(l), 0).0, compiler) == match compiler {
            Ok(()) => Ok::<(), RunError>(()),
            Err(e) => Err(RunError::Compiler(e)),
        },
{
    lemma_probe_listening(p, l);
}

} // verus!

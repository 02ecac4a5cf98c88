//! What holds of every request, whatever the resolver and the inner
//! connector answer.

use crate::connecting::finished;
use crate::connecting::lookup_step;
use crate::connecting::Phase;
use crate::connecting::Route;
use crate::connecting::ServiceConnecting;
use crate::connector::ServiceConnector;
use crate::destination::Destination;
use crate::destination::DestinationView;
use crate::error::ServiceError;
use crate::error::ServiceErrorKind;
use crate::lookup::LookupOutcome;
use crate::lookup::SrvRecordView;
use crate::rewrite::rewritten;
use crate::text::authority_text;
use trust_dns_resolver::error::ResolveError;
use vstd::prelude::*;

verus! {

/// A destination with an explicit port goes to the inner connector as it
/// was given, with or without a resolver.
pub proof fn lemma_explicit_port_goes_direct<C, R>(
    connector: ServiceConnector<C, R>,
    target: Destination,
)
    requires
        target.port is Some,
    ensures
        connector.spec_call(target).phase == (Phase::Delegating { target, route: Route::Direct }),
{
}

/// Without a resolver every destination goes to the inner connector as it
/// was given, whether it has a port or not.
pub proof fn lemma_without_resolver_goes_direct<C, R>(
    connector: ServiceConnector<C, R>,
    target: Destination,
)
    requires
        !connector.spec_has_resolver(),
    ensures
        connector.spec_call(target).phase == (Phase::Delegating { target, route: Route::Direct }),
{
}

/// A task hands on what the inner connector answered: the connection itself
/// on success, and on failure an error that holds the connector's own.
pub proof fn lemma_finish_keeps_the_answer<T, E>(answer: Result<T, E>)
    ensures
        answer matches Ok(connection) ==> finished(answer) == Ok::<T, ServiceError<E>>(connection),
        answer matches Err(cause) ==> finished(answer) == Err::<T, ServiceError<E>>(
            ServiceError { kind: ServiceErrorKind::Inner(cause) },
        ),
{
}

/// When the resolver says that a host has no SRV records, a request for
/// that host without a port reaches the inner connector with the destination
/// that was requested, unchanged.
pub proof fn lemma_not_found_keeps_destination<C, R, E>(
    connector: ServiceConnector<C, R>,
    target: Destination,
    after: ServiceConnecting,
    result: Result<(), ServiceError<E>>,
)
    requires
        connector.spec_has_resolver(),
        target.host is Some,
        target.port is None,
        lookup_step(connector.spec_call(target), LookupOutcome::NotFound, after, result),
    ensures
        result is Ok,
        after.phase == (Phase::Delegating { target, route: Route::Fallback }),
{
}

/// When the query for a request without a port fails, the attempt ends with
/// that failure, and the task never comes to ask the inner connector.
pub proof fn lemma_failed_query_is_fatal<C, R, E>(
    connector: ServiceConnector<C, R>,
    target: Destination,
    error: ResolveError,
    after: ServiceConnecting,
    result: Result<(), ServiceError<E>>,
)
    requires
        connector.spec_has_resolver(),
        target.host is Some,
        target.port is None,
        lookup_step(connector.spec_call(target), LookupOutcome::QueryFailed(error), after, result),
    ensures
        result == Err::<(), ServiceError<E>>(
            ServiceError { kind: ServiceErrorKind::Resolve(error) },
        ),
        !(after.phase is Delegating),
{
}

/// A rewritten destination is whole: its authority is the target and the
/// port of the record, its scheme and path are those of the original.
pub proof fn lemma_rewritten_is_whole(original: DestinationView, record: SrvRecordView)
    ensures
        rewritten(original, record).authority() == Some(authority_text(record.target, record.port)),
        rewritten(original, record).scheme == original.scheme,
        rewritten(original, record).path_and_query == original.path_and_query,
{
}

/// The destination that a task delegates to after its lookup is either the
/// one that was requested, untouched, or the whole rewrite by the first
/// record. Nothing in between is ever handed on.
pub proof fn lemma_delegated_target_is_original_or_rewritten<E>(
    original: Destination,
    outcome: LookupOutcome,
    after: ServiceConnecting,
    result: Result<(), ServiceError<E>>,
)
    requires
        lookup_step(
            ServiceConnecting { phase: Phase::Preresolving { original } },
            outcome,
            after,
            result,
        ),
    ensures
        after.phase matches Phase::Delegating { target, route } ==> {
            ||| route == Route::Fallback && target == original
            ||| {
                &&& route == Route::Rewritten
                &&& outcome.chosen() matches Some(record)
                &&& target@ == rewritten(original@, record@)
            }
        },
        result is Ok <==> after.phase is Delegating,
{
}

/// The path of a request depends on the request and on whether a resolver
/// is there, and on nothing else: no call leaves a trace for the next.
pub proof fn lemma_call_keeps_no_memory<C, R>(
    first: ServiceConnector<C, R>,
    second: ServiceConnector<C, R>,
    target: Destination,
)
    requires
        first.spec_has_resolver() == second.spec_has_resolver(),
    ensures
        first.spec_call(target) == second.spec_call(target),
{
}

/// The same task taking the same outcome ends the same way every time:
/// it fails both times or neither, and where it goes on, it goes on by the
/// same route to the same destination.
pub proof fn lemma_lookup_step_is_repeatable<E>(
    before: ServiceConnecting,
    outcome: LookupOutcome,
    once: ServiceConnecting,
    once_result: Result<(), ServiceError<E>>,
    again: ServiceConnecting,
    again_result: Result<(), ServiceError<E>>,
)
    requires
        lookup_step(before, outcome, once, once_result),
        lookup_step(before, outcome, again, again_result),
    ensures
        once_result is Ok <==> again_result is Ok,
        once_result matches Err(failure) ==> again_result matches Err(other) && (failure.kind is Resolve
            <==> other.kind is Resolve) && (failure.kind is Rewrite <==> other.kind is Rewrite),
        match (once.phase, again.phase) {
            (Phase::Preresolving { original }, Phase::Preresolving { original: same }) => original
                == same,
            (
                Phase::Delegating { target, route },
                Phase::Delegating { target: same, route: same_route },
            ) => route == same_route && target@ == same@,
            _ => false,
        },
{
}

/// One task among many takes the outcome of its lookup: task `index` steps,
/// every other task stays what it was.
pub open spec fn fleet_step<E>(
    before: Seq<ServiceConnecting>,
    index: int,
    outcome: LookupOutcome,
    after: Seq<ServiceConnecting>,
    result: Result<(), ServiceError<E>>,
) -> bool {
    &&& 0 <= index < before.len()
    &&& after.len() == before.len()
    &&& lookup_step(before[index], outcome, after[index], result)
    &&& forall|other: int| 0 <= other < before.len() && other != index ==> after[other] == before[other]
}

/// Tasks do not interfere. When two different tasks take their outcomes one
/// after the other, each could have gone first: the other order leads to the
/// same tasks with the same results.
pub proof fn lemma_tasks_are_independent<E>(
    start: Seq<ServiceConnecting>,
    middle: Seq<ServiceConnecting>,
    end: Seq<ServiceConnecting>,
    first: int,
    first_outcome: LookupOutcome,
    first_result: Result<(), ServiceError<E>>,
    second: int,
    second_outcome: LookupOutcome,
    second_result: Result<(), ServiceError<E>>,
)
    requires
        first != second,
        fleet_step(start, first, first_outcome, middle, first_result),
        fleet_step(middle, second, second_outcome, end, second_result),
    ensures
        fleet_step(start, second, second_outcome, start.update(second, end[second]), second_result),
        fleet_step(
            start.update(second, end[second]),
            first,
            first_outcome,
            end,
            first_result,
        ),
{
    let swapped = start.update(second, end[second]);
    assert(middle[second] == start[second]);
    assert(end[first] == middle[first]);
    assert forall|other: int| 0 <= other < swapped.len() && other != first implies end[other]
        == swapped[other] by {
        if other != second {
            assert(end[other] == middle[other]);
            assert(middle[other] == start[other]);
        }
    }
}

} // verus!

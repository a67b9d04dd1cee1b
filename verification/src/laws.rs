//! What holds of the runtime whatever its clients, the stash and the cache
//! do: theorems about the state machine, proved over all states, events and
//! sequences of events.

use vstd::prelude::*;
use crate::api::{IssueView, ReplyView, RequestView, TransferView};
use crate::asset::AssetView;
use crate::cache::{distinct_ids, entry_of, holds, insert_entry, lemma_insert_entry_holds};
use crate::error::{ApiErrorType, Argument, ErrorKind, RequestKind, ServiceErrorDomain};
use crate::processor::conserves_amount;
use crate::runtime::{failure, step_spec, ActionView, EventView, PhaseView, RuntimeView};

verus! {

/// The state that a sequence of events leaves a runtime in.
pub open spec fn run(state: RuntimeView, events: Seq<EventView>) -> RuntimeView
    decreases events.len(),
{
    if events.len() == 0 {
        state
    } else {
        step_spec(run(state, events.drop_last()), events.last()).0
    }
}

/// The contract whose commit an event completes: the runtime was waiting for
/// the cache to be written with the asset, and the event says that it was.
pub open spec fn acknowledged(state: RuntimeView, event: EventView) -> Option<Seq<u8>> {
    match state.phase {
        PhaseView::AwaitingCache(asset) => if event is CacheWritten {
            Some(asset.id)
        } else {
            None
        },
        _ => None,
    }
}

/// The contract whose commit an event ends without success at the stash:
/// the runtime was waiting for the stash, which refused or could not be
/// heard.
pub open spec fn refused(state: RuntimeView, event: EventView) -> Option<Seq<u8>> {
    match state.phase {
        PhaseView::AwaitingStash(asset) => if event == (EventView::StashReply { failure: true })
            || event is MalformedStashReply || event is StashTransportFailed {
            Some(asset.id)
        } else {
            None
        },
        _ => None,
    }
}

/// The contracts whose commits were completed in the course of `events`.
pub open spec fn committed(state: RuntimeView, events: Seq<EventView>) -> Set<Seq<u8>>
    decreases events.len(),
{
    if events.len() == 0 {
        Set::empty()
    } else {
        let earlier = committed(state, events.drop_last());
        match acknowledged(run(state, events.drop_last()), events.last()) {
            Some(id) => earlier.insert(id),
            None => earlier,
        }
    }
}

/// Adding a record keeps the identifiers of a cache distinct.
pub proof fn lemma_insert_entry_distinct(entries: Seq<AssetView>, asset: AssetView)
    requires
        distinct_ids(entries),
    ensures
        distinct_ids(insert_entry(entries, asset)),
{
    let after = insert_entry(entries, asset);
    if !holds(entries, asset.id) {
        assert forall|i: int, j: int| 0 <= i < j < after.len() implies (#[trigger] after[i]).id != (
        #[trigger] after[j]).id by {
            if j < entries.len() {
                assert(entries[i].id != entries[j].id);
            } else {
                assert(entries[i].id != asset.id);
            }
        }
    }
}

/// No event makes a cache hold an identifier twice.
pub proof fn lemma_step_keeps_cache_distinct(state: RuntimeView, event: EventView)
    requires
        state.wf(),
    ensures
        step_spec(state, event).0.wf(),
{
    match state.phase {
        PhaseView::AwaitingCache(asset) => {
            lemma_insert_entry_distinct(state.cache, asset);
        },
        _ => {},
    }
}

/// The cache changes in one way only: the event that completes a commit adds
/// the committed asset, and the client is told of success. Every other event
/// leaves the cache as it was.
pub proof fn lemma_cache_changes_only_by_commit(state: RuntimeView, event: EventView)
    ensures
        match acknowledged(state, event) {
            Some(id) => {
                &&& state.phase matches PhaseView::AwaitingCache(asset)
                &&& asset.id == id
                &&& step_spec(state, event).0.cache == insert_entry(state.cache, asset)
                &&& step_spec(state, event).1 == ActionView::ReplyToClient(ReplyView::Success)
                &&& holds(step_spec(state, event).0.cache, id)
            },
            None => step_spec(state, event).0.cache == state.cache,
        },
{
    match state.phase {
        PhaseView::AwaitingCache(asset) => {
            lemma_insert_entry_holds(state.cache, asset, asset.id);
        },
        _ => {},
    }
}

/// Durable first: where the stash refuses a commit, or cannot be heard, the
/// cache stays as it was, the request ends, and the client receives a
/// failure that is no success of any kind. Unless the cache already held the
/// contract, it does not hold it afterwards.
pub proof fn lemma_rejected_commit_leaves_cache(state: RuntimeView, event: EventView)
    requires
        refused(state, event) is Some,
    ensures
        step_spec(state, event).0.cache == state.cache,
        step_spec(state, event).0.phase is Idle,
        (step_spec(state, event).1 matches ActionView::ReplyToClient(ReplyView::Failure(error))
            && !error.domain.spec_cache_stale()),
        event == (EventView::StashReply { failure: true }) ==> step_spec(state, event).1
            == failure(ServiceErrorDomain::Storage),
        !holds(state.cache, refused(state, event)->0) ==> !holds(
            step_spec(state, event).0.cache,
            refused(state, event)->0,
        ),
{
}

/// A commit that the stash accepted and the cache could not take in is
/// reported as such: the cache stays as it was, and the failure tells the
/// client that the cache is behind the stash.
pub proof fn lemma_failed_cache_write_is_reported(state: RuntimeView, asset: AssetView)
    requires
        state.phase == PhaseView::AwaitingCache(asset),
    ensures
        step_spec(state, EventView::CacheWriteFailed).0 == state.idle(),
        step_spec(state, EventView::CacheWriteFailed).1 == failure(ServiceErrorDomain::Cache),
        ServiceErrorDomain::Cache.spec_cache_stale(),
        ServiceErrorDomain::Cache.spec_kind() == ErrorKind::Storage,
{
}

/// Nothing reaches the stash before the processor has accepted the request,
/// and nothing reaches it twice: the runtime sends to the stash only from
/// the idle state, on an issue or an import that breaks no rule.
pub proof fn lemma_stash_is_called_only_to_commit(state: RuntimeView, event: EventView)
    requires
        step_spec(state, event).1 is SendToStash,
    ensures
        state.phase is Idle,
        (event matches EventView::Request(request) && (request is Issue
            || request is ImportAsset)),
        step_spec(state, event).0.phase is AwaitingStash,
        step_spec(state, event).0.cache == state.cache,
{
}

/// Amount conservation: a transfer is answered without a call to the stash
/// and without a change of state; it succeeds only if the outputs are
/// covered by the allocations that its inputs consume, and one whose outputs
/// exceed them is refused with an error of the contract.
pub proof fn lemma_transfer_conserves_or_fails(state: RuntimeView, transfer: TransferView)
    requires
        state.phase is Idle,
    ensures
        ({
            let event = EventView::Request(RequestView::Transfer(transfer));
            let asset = entry_of(state.cache, transfer.contract_id);
            let conserved = conserves_amount(
                asset.allocations,
                transfer.inputs,
                transfer.ours,
                transfer.theirs,
            );
            &&& step_spec(state, event).0 == state
            &&& step_spec(state, event).1 is ReplyToClient
            &&& step_spec(state, event).1 == ActionView::ReplyToClient(ReplyView::Success)
                ==> holds(state.cache, transfer.contract_id) && conserved
            &&& holds(state.cache, transfer.contract_id) && !conserved ==> (step_spec(
                state,
                event,
            ).1 matches ActionView::ReplyToClient(ReplyView::Failure(error)) && error.domain
                is Contract && error.domain.spec_kind() == ErrorKind::Contract)
            &&& !holds(state.cache, transfer.contract_id) ==> step_spec(state, event).1
                == failure(ServiceErrorDomain::Storage)
        }),
{
}

/// An issue that names a reissuance control and no bound on the supply is
/// refused as the client's error whatever else it holds: the state stays as
/// it was and nothing is sent to the stash.
pub proof fn lemma_inflatable_issue_needs_supply(state: RuntimeView, issue: IssueView)
    requires
        state.phase is Idle,
        issue.inflatable is Some,
        issue.supply is None,
    ensures
        ({
            let missed = ServiceErrorDomain::Api(
                ApiErrorType::MissedArgument {
                    request: RequestKind::Issue,
                    argument: Argument::Supply,
                },
            );
            &&& step_spec(state, EventView::Request(RequestView::Issue(issue))) == (
                state,
                failure(missed),
            )
            &&& missed.spec_kind() == ErrorKind::Client
        }),
{
}

/// A sync has the cache written out as it stands, asks nothing of the stash,
/// and is answered with the bytes that came of it, in the configured format.
/// The cache stays as it was throughout.
pub proof fn lemma_sync_shows_the_cache(state: RuntimeView, data: Seq<u8>)
    requires
        state.phase is Idle,
    ensures
        ({
            let asked = step_spec(state, EventView::Request(RequestView::Sync));
            let answered = step_spec(asked.0, EventView::Exported(data));
            &&& asked.1 == ActionView::Export(state.config.format, state.cache)
            &&& asked.0.cache == state.cache
            &&& answered.0 == state
            &&& answered.1 == ActionView::ReplyToClient(
                ReplyView::Sync { format: state.config.format, data },
            )
        }),
{
}

/// Sequential consistency: after any sequence of events the cache holds a
/// contract exactly if it held it at the start or the commit of the contract
/// was completed, with success told to the client, in the course of the
/// sequence. So a sync, which writes out the cache, shows every commit that
/// a client has seen succeed, and none that the stash refused.
pub proof fn lemma_cache_holds_exactly_the_commits(
    state: RuntimeView,
    events: Seq<EventView>,
    id: Seq<u8>,
)
    ensures
        holds(run(state, events).cache, id) <==> (holds(state.cache, id) || committed(
            state,
            events,
        ).contains(id)),
    decreases events.len(),
{
    if events.len() > 0 {
        let earlier = events.drop_last();
        let before = run(state, earlier);
        lemma_cache_holds_exactly_the_commits(state, earlier, id);
        lemma_cache_changes_only_by_commit(before, events.last());
        match before.phase {
            PhaseView::AwaitingCache(asset) => {
                lemma_insert_entry_holds(before.cache, asset, id);
            },
            _ => {},
        }
    }
}

/// A commit whose stash step failed is none of the completed commits: the
/// event that ends it adds nothing to them and leaves the cache as it was.
pub proof fn lemma_refused_commit_is_not_committed(
    state: RuntimeView,
    events: Seq<EventView>,
    event: EventView,
)
    requires
        refused(run(state, events), event) is Some,
    ensures
        committed(state, events.push(event)) == committed(state, events),
        run(state, events.push(event)).cache == run(state, events).cache,
{
    assert(events.push(event).drop_last() =~= events);
}

/// What the cache holds, it goes on holding, in the same place.
pub proof fn lemma_cache_only_grows(state: RuntimeView, events: Seq<EventView>)
    ensures
        state.cache.is_prefix_of(run(state, events).cache),
    decreases events.len(),
{
    if events.len() > 0 {
        let before = run(state, events.drop_last());
        lemma_cache_only_grows(state, events.drop_last());
        lemma_cache_changes_only_by_commit(before, events.last());
    }
}

/// Every sequence of events leaves a cache that holds no identifier twice.
pub proof fn lemma_run_keeps_cache_distinct(state: RuntimeView, events: Seq<EventView>)
    requires
        state.wf(),
    ensures
        run(state, events).wf(),
    decreases events.len(),
{
    if events.len() > 0 {
        lemma_run_keeps_cache_distinct(state, events.drop_last());
        lemma_step_keeps_cache_distinct(run(state, events.drop_last()), events.last());
    }
}

} // verus!

//! The runtime: the state machine that takes a client's request through the
//! processor, the stash and the cache to a reply.
//!
//! The runtime does no input or output. Its caller receives and sends, and
//! tells the runtime what happened as an [`Event`]; the runtime answers with
//! the [`Action`] to perform next. A genesis reaches the cache only after the
//! stash has accepted it and the cache has been written.

use vstd::prelude::*;
use crate::api::{
    issue_structure_of, Issue, IssueView, Reply, ReplyView, Request, RequestView, StashReply,
    StashRequest, SyncFormat, TransferApi, TransferView,
};
use crate::asset::{
    asset_of, copy_list, copy_optional_text, copy_text, genesis_error, Asset, AssetView, Genesis,
    GenesisView,
};
use crate::cache::{asset_views, distinct_ids, entry_of, holds, insert_entry, Cache};
use crate::error::{
    ApiErrorType, Argument, BootstrapError, RequestKind, RuntimeError, ServiceError,
    ServiceErrorDomain,
};
use crate::processor::{genesis_for, transfer_error, Processor};
use crate::types::{DataFormat, IssueStructure, Network};

verus! {

/// What the runtime is configured with.
#[derive(Clone, Copy, Debug, PartialEq, Eq)]
pub struct Config {
    /// The ledger that issued assets are anchored to.
    pub network: Network,
    /// The format in which the cache is exported.
    pub format: DataFormat,
}

/// Where the runtime stands in the handling of a request.
#[derive(Clone, Debug, PartialEq, Eq)]
pub enum Phase {
    /// No request is in flight.
    Idle,
    /// The genesis of the asset was sent to the stash, which has yet to reply.
    AwaitingStash(Asset),
    /// The stash holds the genesis of the asset; the cache is being written.
    AwaitingCache(Asset),
    /// The records of the cache are being written out for a client.
    AwaitingExport,
    /// The channel to the clients has failed.
    Halted,
}

/// A phase as a mathematical value.
pub enum PhaseView {
    Idle,
    AwaitingStash(AssetView),
    AwaitingCache(AssetView),
    AwaitingExport,
    Halted,
}

impl View for Phase {
    type V = PhaseView;

    open spec fn view(&self) -> PhaseView {
        match *self {
            Phase::Idle => PhaseView::Idle,
            Phase::AwaitingStash(asset) => PhaseView::AwaitingStash(asset@),
            Phase::AwaitingCache(asset) => PhaseView::AwaitingCache(asset@),
            Phase::AwaitingExport => PhaseView::AwaitingExport,
            Phase::Halted => PhaseView::Halted,
        }
    }
}

/// What the caller reports to the runtime.
#[derive(Clone, Debug, PartialEq, Eq)]
pub enum Event {
    /// A client sent a request.
    Request(Request),
    /// A client sent bytes that are no request.
    MalformedRequest,
    /// Receiving from the clients, or replying to one, failed.
    ClientTransportFailed,
    /// The stash replied.
    StashReply(StashReply),
    /// The stash sent bytes that are no reply.
    MalformedStashReply,
    /// Sending to the stash, or receiving from it, failed.
    StashTransportFailed,
    /// The cache was written.
    CacheWritten,
    /// Writing the cache failed.
    CacheWriteFailed,
    /// The records were written out: these are the bytes.
    Exported(Vec<u8>),
    /// The records could not be written out in the format.
    ExportFailed,
}

/// An event as a mathematical value.
pub enum EventView {
    Request(RequestView),
    MalformedRequest,
    ClientTransportFailed,
    StashReply { failure: bool },
    MalformedStashReply,
    StashTransportFailed,
    CacheWritten,
    CacheWriteFailed,
    Exported(Seq<u8>),
    ExportFailed,
}

impl View for Event {
    type V = EventView;

    open spec fn view(&self) -> EventView {
        match *self {
            Event::Request(request) => EventView::Request(request@),
            Event::MalformedRequest => EventView::MalformedRequest,
            Event::ClientTransportFailed => EventView::ClientTransportFailed,
            Event::StashReply(reply) => EventView::StashReply { failure: reply.spec_is_failure() },
            Event::MalformedStashReply => EventView::MalformedStashReply,
            Event::StashTransportFailed => EventView::StashTransportFailed,
            Event::CacheWritten => EventView::CacheWritten,
            Event::CacheWriteFailed => EventView::CacheWriteFailed,
            Event::Exported(data) => EventView::Exported(data@),
            Event::ExportFailed => EventView::ExportFailed,
        }
    }
}

/// What the caller is to do next.
#[derive(Clone, Debug, PartialEq, Eq)]
pub enum Action {
    /// Send the reply to the client, then receive the next request.
    ReplyToClient(Reply),
    /// Send the request to the stash, then report its reply.
    SendToStash(StashRequest),
    /// Write these records out as the cache, then report how that went.
    WriteCache(Vec<Asset>),
    /// Write these records out in the format, then report the bytes.
    Export(DataFormat, Vec<Asset>),
    /// End the server loop with the error.
    Terminate(RuntimeError),
    /// The event came out of turn: go on as before.
    Ignore,
}

/// An action as a mathematical value.
pub enum ActionView {
    ReplyToClient(ReplyView),
    SendToStash(GenesisView),
    WriteCache(Seq<AssetView>),
    Export(DataFormat, Seq<AssetView>),
    Terminate(RuntimeError),
    Ignore,
}

impl View for Action {
    type V = ActionView;

    open spec fn view(&self) -> ActionView {
        match *self {
            Action::ReplyToClient(reply) => ActionView::ReplyToClient(reply@),
            Action::SendToStash(StashRequest::AddGenesis(genesis)) => ActionView::SendToStash(
                genesis@,
            ),
            Action::WriteCache(assets) => ActionView::WriteCache(asset_views(assets@)),
            Action::Export(format, assets) => ActionView::Export(format, asset_views(assets@)),
            Action::Terminate(error) => ActionView::Terminate(error),
            Action::Ignore => ActionView::Ignore,
        }
    }
}

/// The state of a runtime as a mathematical value.
pub struct RuntimeView {
    pub config: Config,
    /// The records of the cache, oldest first.
    pub cache: Seq<AssetView>,
    pub phase: PhaseView,
}

impl RuntimeView {
    /// The state that every runtime is in: its cache holds no identifier twice.
    pub open spec fn wf(self) -> bool {
        distinct_ids(self.cache)
    }

    /// The same state with no request in flight.
    pub open spec fn idle(self) -> RuntimeView {
        RuntimeView { phase: PhaseView::Idle, ..self }
    }
}

/// The reply that reports an error of a handler.
pub open spec fn failure(domain: ServiceErrorDomain) -> ActionView {
    ActionView::ReplyToClient(ReplyView::Failure(ServiceError::spec_contract(domain)))
}

/// What an issue request comes to: the asset and its genesis, ready to be
/// committed, or the error that ends the request. A request that names a
/// reissuance control and no supply is refused before anything is computed.
pub open spec fn issue_outcome(config: Config, issue: IssueView) -> Result<
    (AssetView, GenesisView),
    ServiceErrorDomain,
> {
    match issue_structure_of(issue) {
        None => Err(
            ServiceErrorDomain::Api(
                ApiErrorType::MissedArgument {
                    request: RequestKind::Issue,
                    argument: Argument::Supply,
                },
            ),
        ),
        Some(structure) => {
            let genesis = genesis_for(
                config.network,
                issue.ticker,
                issue.title,
                issue.description,
                structure,
                issue.allocate,
                issue.precision,
                issue.dust_limit,
            );
            import_outcome(genesis)
        },
    }
}

/// What the import of a genesis comes to: the asset that the record creates,
/// ready to be committed with it, or the rule that the record breaks.
pub open spec fn import_outcome(genesis: GenesisView) -> Result<
    (AssetView, GenesisView),
    ServiceErrorDomain,
> {
    match genesis_error(genesis) {
        Some(rule) => Err(ServiceErrorDomain::Contract(rule)),
        None => Ok((asset_of(genesis), genesis)),
    }
}

/// What a transfer request comes to: nothing, or the error that ends it. An
/// asset that the cache does not hold is a storage error.
pub open spec fn transfer_outcome(cache: Seq<AssetView>, transfer: TransferView) -> Result<
    (),
    ServiceErrorDomain,
> {
    if !holds(cache, transfer.contract_id) {
        Err(ServiceErrorDomain::Storage)
    } else {
        match transfer_error(
            entry_of(cache, transfer.contract_id).allocations,
            transfer.inputs,
            transfer.ours,
            transfer.theirs,
        ) {
            Some(rule) => Err(ServiceErrorDomain::Contract(rule)),
            None => Ok(()),
        }
    }
}

/// The first step of the commit: the genesis goes to the stash, and the
/// asset waits for the stash's reply. An error instead ends the request.
pub open spec fn begin_commit(
    state: RuntimeView,
    outcome: Result<(AssetView, GenesisView), ServiceErrorDomain>,
) -> (RuntimeView, ActionView) {
    match outcome {
        Ok((asset, genesis)) => (
            RuntimeView { phase: PhaseView::AwaitingStash(asset), ..state },
            ActionView::SendToStash(genesis),
        ),
        Err(error) => (state, failure(error)),
    }
}

/// What an idle runtime does with a request.
pub open spec fn dispatch(state: RuntimeView, request: RequestView) -> (RuntimeView, ActionView) {
    match request {
        RequestView::Issue(issue) => begin_commit(state, issue_outcome(state.config, issue)),
        RequestView::Transfer(transfer) => (
            state,
            match transfer_outcome(state.cache, transfer) {
                Ok(_) => ActionView::ReplyToClient(ReplyView::Success),
                Err(error) => failure(error),
            },
        ),
        RequestView::ImportAsset(genesis) => begin_commit(state, import_outcome(genesis)),
        RequestView::Sync => (
            RuntimeView { phase: PhaseView::AwaitingExport, ..state },
            ActionView::Export(state.config.format, state.cache),
        ),
    }
}

/// What a runtime that waits for the stash does with an event.
pub open spec fn after_stash(state: RuntimeView, asset: AssetView, event: EventView) -> (
    RuntimeView,
    ActionView,
) {
    match event {
        EventView::StashReply { failure: refused } => if refused {
            (state.idle(), failure(ServiceErrorDomain::Storage))
        } else {
            (
                RuntimeView { phase: PhaseView::AwaitingCache(asset), ..state },
                ActionView::WriteCache(insert_entry(state.cache, asset)),
            )
        },
        EventView::MalformedStashReply => (state.idle(), failure(ServiceErrorDomain::Encoding)),
        EventView::StashTransportFailed => (state.idle(), failure(ServiceErrorDomain::Transport)),
        _ => (state, ActionView::Ignore),
    }
}

/// What a runtime that waits for the cache to be written does with an event.
pub open spec fn after_cache(state: RuntimeView, asset: AssetView, event: EventView) -> (
    RuntimeView,
    ActionView,
) {
    match event {
        EventView::CacheWritten => (
            RuntimeView {
                cache: insert_entry(state.cache, asset),
                phase: PhaseView::Idle,
                ..state
            },
            ActionView::ReplyToClient(ReplyView::Success),
        ),
        EventView::CacheWriteFailed => (state.idle(), failure(ServiceErrorDomain::Cache)),
        _ => (state, ActionView::Ignore),
    }
}

/// What a runtime that waits for the export of its cache does with an event.
pub open spec fn after_export(state: RuntimeView, event: EventView) -> (RuntimeView, ActionView) {
    match event {
        EventView::Exported(data) => (
            state.idle(),
            ActionView::ReplyToClient(ReplyView::Sync { format: state.config.format, data }),
        ),
        EventView::ExportFailed => (state.idle(), failure(ServiceErrorDomain::Export)),
        _ => (state, ActionView::Ignore),
    }
}

/// The state machine: the state after an event, and the action that the
/// event calls for.
pub open spec fn step_spec(state: RuntimeView, event: EventView) -> (RuntimeView, ActionView) {
    if state.phase is Halted {
        (state, ActionView::Terminate(RuntimeError::Transport))
    } else if event is ClientTransportFailed {
        (
            RuntimeView { phase: PhaseView::Halted, ..state },
            ActionView::Terminate(RuntimeError::Transport),
        )
    } else {
        match state.phase {
            PhaseView::Idle => match event {
                EventView::Request(request) => dispatch(state, request),
                EventView::MalformedRequest => (
                    state,
                    ActionView::ReplyToClient(ReplyView::Failure(ServiceError::spec_from_rpc())),
                ),
                _ => (state, ActionView::Ignore),
            },
            PhaseView::AwaitingStash(asset) => after_stash(state, asset, event),
            PhaseView::AwaitingCache(asset) => after_cache(state, asset, event),
            PhaseView::AwaitingExport => after_export(state, event),
            PhaseView::Halted => (state, ActionView::Terminate(RuntimeError::Transport)),
        }
    }
}

/// The runtime of the fungible contract.
#[derive(Debug)]
pub struct Runtime {
    /// The configuration that the runtime was started with.
    config: Config,
    /// The cache of assets that clients read.
    cacher: Cache,
    /// The business logic of the contract.
    processor: Processor,
    /// Where the request in flight stands.
    phase: Phase,
}

impl View for Runtime {
    type V = RuntimeView;

    closed spec fn view(&self) -> RuntimeView {
        RuntimeView { config: self.config, cache: self.cacher@, phase: self.phase@ }
    }
}

impl Runtime {
    /// Starts a runtime on the records that the cache was last written with.
    /// Fails exactly when two of the records share an identifier.
    pub fn init(config: Config, stored: Vec<Asset>) -> (out: Result<Runtime, BootstrapError>)
        ensures
            match out {
                Ok(runtime) => distinct_ids(asset_views(stored@)) && runtime@ == (RuntimeView {
                    config,
                    cache: asset_views(stored@),
                    phase: PhaseView::Idle,
                }),
                Err(error) => !distinct_ids(asset_views(stored@)) && error
                    == BootstrapError::DuplicateAsset,
            },
    {
        let mut cacher = Cache::new();
        let ghost all = asset_views(stored@);
        let mut i: usize = 0;
        while i < stored.len()
            invariant
                i <= stored.len(),
                all == asset_views(stored@),
                cacher@ == all.take(i as int),
                distinct_ids(cacher@),
            decreases stored.len() - i,
        {
            let copy = stored[i].duplicate();
            let ghost before = cacher@;
            let added = cacher.add_asset(copy);
            if !added {
                proof {
                    let j = choose|j: int| 0 <= j < before.len() && (#[trigger] before[j]).id
                        == copy@.id;
                    assert(all[j] == before[j]);
                    assert(all[i as int] == copy@);
                }
                return Err(BootstrapError::DuplicateAsset);
            }
            i += 1;
            assert(cacher@ =~= all.take(i as int));
        }
        assert(all.take(i as int) =~= all);
        Ok(Runtime { config, cacher, processor: Processor::new(), phase: Phase::Idle })
    }

    /// The configuration.
    pub fn config(&self) -> (config: Config)
        ensures
            config == self@.config,
    {
        self.config
    }

    /// The cache, to read.
    pub fn cache(&self) -> (cache: &Cache)
        ensures
            cache@ == self@.cache,
            self@.wf(),
    {
        self.cacher.known_distinct();
        &self.cacher
    }

    /// Where the request in flight stands.
    pub fn phase(&self) -> (phase: &Phase)
        ensures
            phase@ == self@.phase,
    {
        &self.phase
    }

    /// Whether the runtime waits for a request.
    pub fn is_idle(&self) -> (idle: bool)
        ensures
            idle == (self@.phase is Idle),
    {
        match self.phase {
            Phase::Idle => true,
            _ => false,
        }
    }

    /// Takes the event in: moves to the next state and says what to do.
    pub fn step(&mut self, event: Event) -> (action: Action)
        ensures
            (final(self)@, action@) == step_spec(old(self)@, event@),
            final(self)@.wf(),
    {
        self.cacher.known_distinct();
        let mut phase = Phase::Idle;
        core::mem::swap(&mut self.phase, &mut phase);
        match phase {
            Phase::Halted => {
                self.phase = Phase::Halted;
                Action::Terminate(RuntimeError::Transport)
            },
            Phase::Idle => match event {
                Event::ClientTransportFailed => {
                    self.phase = Phase::Halted;
                    Action::Terminate(RuntimeError::Transport)
                },
                Event::Request(request) => self.rpc_process(Ok(request)),
                Event::MalformedRequest => self.rpc_process(Err(ServiceError::from_rpc())),
                _ => Action::Ignore,
            },
            Phase::AwaitingStash(asset) => match event {
                Event::ClientTransportFailed => {
                    self.phase = Phase::Halted;
                    Action::Terminate(RuntimeError::Transport)
                },
                Event::StashReply(reply) => self.stash_replied(asset, Ok(reply)),
                Event::MalformedStashReply => self.stash_replied(
                    asset,
                    Err(ServiceErrorDomain::Encoding),
                ),
                Event::StashTransportFailed => self.stash_replied(
                    asset,
                    Err(ServiceErrorDomain::Transport),
                ),
                _ => {
                    self.phase = Phase::AwaitingStash(asset);
                    Action::Ignore
                },
            },
            Phase::AwaitingCache(asset) => match event {
                Event::ClientTransportFailed => {
                    self.phase = Phase::Halted;
                    Action::Terminate(RuntimeError::Transport)
                },
                Event::CacheWritten => self.cache_written(asset, true),
                Event::CacheWriteFailed => self.cache_written(asset, false),
                _ => {
                    self.phase = Phase::AwaitingCache(asset);
                    Action::Ignore
                },
            },
            Phase::AwaitingExport => match event {
                Event::ClientTransportFailed => {
                    self.phase = Phase::Halted;
                    Action::Terminate(RuntimeError::Transport)
                },
                Event::Exported(data) => self.exported(Ok(data)),
                Event::ExportFailed => self.exported(Err(ServiceErrorDomain::Export)),
                _ => {
                    self.phase = Phase::AwaitingExport;
                    Action::Ignore
                },
            },
        }
    }

    /// Handles what arrived on the request channel while the runtime was
    /// idle: a request goes to its handler, and an error of the handler, or
    /// of the decoding, becomes a failure reply.
    fn rpc_process(&mut self, message: Result<Request, ServiceError>) -> (action: Action)
        requires
            old(self)@.phase is Idle,
            old(self)@.wf(),
        ensures
            final(self)@.wf(),
            match message {
                Ok(request) => (final(self)@, action@) == dispatch(old(self)@, request@),
                Err(error) => final(self)@ == old(self)@ && action@ == ActionView::ReplyToClient(
                    ReplyView::Failure(error),
                ),
            },
    {
        let request = match message {
            Ok(request) => request,
            Err(error) => {
                return Action::ReplyToClient(Reply::Failure(error));
            },
        };
        let handled = match request {
            Request::Issue(issue) => self.rpc_issue(&issue),
            Request::Transfer(transfer) => self.rpc_transfer(&transfer),
            Request::ImportAsset(genesis) => self.rpc_import_asset(&genesis),
            Request::Sync => self.rpc_sync(),
        };
        match handled {
            Ok(action) => action,
            Err(error) => Action::ReplyToClient(Reply::Failure(ServiceError::contract(error))),
        }
    }

    /// Handles an issue request: refuses an inflatable asset without a bound
    /// on its supply, has the processor build the asset and its genesis, and
    /// begins their commit.
    fn rpc_issue(&mut self, issue: &Issue) -> (out: Result<Action, ServiceErrorDomain>)
        requires
            old(self)@.phase is Idle,
        ensures
            final(self)@.cache == old(self)@.cache,
            match issue_outcome(old(self)@.config, issue@) {
                Ok((asset, genesis)) => {
                    &&& out matches Ok(action)
                    &&& action@ == ActionView::SendToStash(genesis)
                    &&& final(self)@ == (RuntimeView {
                        phase: PhaseView::AwaitingStash(asset),
                        ..old(self)@
                    })
                },
                Err(error) => {
                    &&& out matches Err(reported)
                    &&& reported == error
                    &&& final(self)@ == old(self)@
                },
            },
    {
        let issue_structure = match issue.inflatable {
            None => IssueStructure::SingleIssue,
            Some(seal_spec) => match issue.supply {
                None => {
                    return Err(
                        ServiceErrorDomain::Api(
                            ApiErrorType::MissedArgument {
                                request: RequestKind::Issue,
                                argument: Argument::Supply,
                            },
                        ),
                    );
                },
                Some(max_supply) => IssueStructure::MultipleIssues {
                    max_supply,
                    reissue_control: seal_spec,
                },
            },
        };
        let issued = self.processor.issue(
            self.config.network,
            copy_text(&issue.ticker),
            copy_text(&issue.title),
            copy_optional_text(&issue.description),
            issue_structure,
            copy_list(&issue.allocate),
            issue.precision,
            issue.dust_limit,
        );
        match issued {
            Ok((asset, genesis)) => Ok(self.import_asset(asset, genesis)),
            Err(error) => Err(error),
        }
    }

    /// Handles a transfer request: looks the asset up in the cache and has
    /// the processor compute the transfer on a copy of it. Neither the cache
    /// nor the stash is touched.
    fn rpc_transfer(&mut self, transfer: &TransferApi) -> (out: Result<Action, ServiceErrorDomain>)
        requires
            old(self)@.phase is Idle,
        ensures
            final(self)@ == old(self)@,
            match transfer_outcome(old(self)@.cache, transfer@) {
                Ok(_) => out matches Ok(action) && action@ == ActionView::ReplyToClient(
                    ReplyView::Success,
                ),
                Err(error) => out matches Err(reported) && reported == error,
            },
    {
        let mut asset = match self.cacher.asset(&transfer.contract_id) {
            Ok(found) => found.duplicate(),
            Err(error) => {
                return Err(error);
            },
        };
        let mut psbt = transfer.psbt.duplicate();
        let transferred = self.processor.transfer(
            &mut asset,
            &mut psbt,
            copy_list(&transfer.inputs),
            copy_list(&transfer.ours),
            copy_list(&transfer.theirs),
        );
        match transferred {
            Ok(_consignment) => Ok(Action::ReplyToClient(Reply::Success)),
            Err(error) => Err(error),
        }
    }

    /// Handles a sync request: has the records of the cache written out in
    /// the configured format. Nothing is asked of the stash.
    fn rpc_sync(&mut self) -> (out: Result<Action, ServiceErrorDomain>)
        requires
            old(self)@.phase is Idle,
        ensures
            final(self)@ == (RuntimeView { phase: PhaseView::AwaitingExport, ..old(self)@ }),
            out matches Ok(action) && action@ == ActionView::Export(
                old(self)@.config.format,
                old(self)@.cache,
            ),
    {
        let assets = self.cacher.export();
        self.phase = Phase::AwaitingExport;
        Ok(Action::Export(self.config.format, assets))
    }

    /// Ends a sync once the records were written out, or could not be: the
    /// client receives the bytes with their format, or the failure.
    fn exported(&mut self, data: Result<Vec<u8>, ServiceErrorDomain>) -> (action: Action)
        requires
            old(self)@.phase is Idle,
        ensures
            final(self)@ == old(self)@,
            match data {
                Ok(bytes) => action@ == ActionView::ReplyToClient(
                    ReplyView::Sync { format: old(self)@.config.format, data: bytes@ },
                ),
                Err(error) => action@ == failure(error),
            },
    {
        match data {
            Ok(bytes) => Action::ReplyToClient(
                Reply::Sync(SyncFormat { format: self.config.format, data: bytes }),
            ),
            Err(error) => Action::ReplyToClient(Reply::Failure(ServiceError::contract(error))),
        }
    }

    /// Handles the import of a genesis: rebuilds the asset from the record
    /// and begins their commit.
    fn rpc_import_asset(&mut self, genesis: &Genesis) -> (out: Result<Action, ServiceErrorDomain>)
        requires
            old(self)@.phase is Idle,
        ensures
            final(self)@.cache == old(self)@.cache,
            match import_outcome(genesis@) {
                Ok((asset, record)) => {
                    &&& out matches Ok(action)
                    &&& action@ == ActionView::SendToStash(record)
                    &&& final(self)@ == (RuntimeView {
                        phase: PhaseView::AwaitingStash(asset),
                        ..old(self)@
                    })
                },
                Err(error) => {
                    &&& out matches Err(reported)
                    &&& reported == error
                    &&& final(self)@ == old(self)@
                },
            },
    {
        match Asset::try_from_genesis(genesis) {
            Ok(asset) => Ok(self.import_asset(asset, genesis.duplicate())),
            Err(error) => Err(error),
        }
    }

    /// Begins the commit of an asset and its genesis: the genesis is to go
    /// to the stash, and the asset waits outside the cache for the reply.
    fn import_asset(&mut self, asset: Asset, genesis: Genesis) -> (action: Action)
        ensures
            action@ == ActionView::SendToStash(genesis@),
            final(self)@ == (RuntimeView {
                phase: PhaseView::AwaitingStash(asset@),
                ..old(self)@
            }),
    {
        self.phase = Phase::AwaitingStash(asset);
        Action::SendToStash(StashRequest::AddGenesis(genesis))
    }

    /// Goes on with the commit of `asset` once the stash has answered, or
    /// could not be heard. A failure reply, and every error, ends the request
    /// with the cache as it was; any other reply has the cache written with
    /// the asset in it.
    fn stash_replied(&mut self, asset: Asset, reply: Result<StashReply, ServiceErrorDomain>) -> (action:
        Action)
        requires
            old(self)@.phase is Idle,
            old(self)@.wf(),
        ensures
            final(self)@.cache == old(self)@.cache,
            match reply {
                Ok(answer) => if answer.spec_is_failure() {
                    final(self)@ == old(self)@ && action@ == failure(ServiceErrorDomain::Storage)
                } else {
                    &&& final(self)@ == (RuntimeView {
                        phase: PhaseView::AwaitingCache(asset@),
                        ..old(self)@
                    })
                    &&& action@ == ActionView::WriteCache(insert_entry(old(self)@.cache, asset@))
                },
                Err(error) => final(self)@ == old(self)@ && action@ == failure(error),
            },
    {
        let answer = match reply {
            Ok(answer) => answer,
            Err(error) => {
                return Action::ReplyToClient(Reply::Failure(ServiceError::contract(error)));
            },
        };
        if answer.is_failure() {
            return Action::ReplyToClient(
                Reply::Failure(ServiceError::contract(ServiceErrorDomain::Storage)),
            );
        }
        let mut assets = self.cacher.export();
        if !self.cacher.has_asset(&asset.id) {
            let copy = asset.duplicate();
            let ghost before = assets@;
            assets.push(copy);
            assert(asset_views(assets@) =~= asset_views(before).push(asset@));
        }
        self.phase = Phase::AwaitingCache(asset);
        Action::WriteCache(assets)
    }

    /// Ends the commit of `asset` once the cache was written, or could not
    /// be: the asset enters the cache and the client hears of success, or the
    /// cache stays as it was and the client hears that it is behind the stash.
    fn cache_written(&mut self, asset: Asset, written: bool) -> (action: Action)
        requires
            old(self)@.phase is Idle,
            old(self)@.wf(),
        ensures
            final(self)@.wf(),
            if written {
                &&& final(self)@ == (RuntimeView {
                    cache: insert_entry(old(self)@.cache, asset@),
                    ..old(self)@
                })
                &&& action@ == ActionView::ReplyToClient(ReplyView::Success)
            } else {
                final(self)@ == old(self)@ && action@ == failure(ServiceErrorDomain::Cache)
            },
    {
        if written {
            let _ = self.cacher.add_asset(asset);
            Action::ReplyToClient(Reply::Success)
        } else {
            Action::ReplyToClient(Reply::Failure(ServiceError::contract(ServiceErrorDomain::Cache)))
        }
    }
}

} // verus!

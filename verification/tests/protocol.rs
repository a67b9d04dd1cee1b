use fungible_runtime::api::{Issue, Reply, Request, StashReply, StashRequest, SyncFormat, TransferApi};
use fungible_runtime::asset::{Asset, Genesis};
use fungible_runtime::digest::Hash32;
use fungible_runtime::error::{
    ApiErrorType, Argument, BootstrapError, ContractError, RequestKind, RuntimeError,
    ServiceError, ServiceErrorDomain, ServiceErrorSource,
};
use fungible_runtime::processor::Psbt;
use fungible_runtime::runtime::{Action, Config, Event, Phase, Runtime};
use fungible_runtime::types::{
    Allocation, DataFormat, IssueStructure, Network, OutPoint,
};

fn outpoint(n: u8, vout: u32) -> OutPoint {
    OutPoint::new(Hash32::from_bytes([n; 32]), vout)
}

fn config() -> Config {
    Config { network: Network::Testnet, format: DataFormat::Json }
}

fn started() -> Runtime {
    Runtime::init(config(), vec![]).unwrap()
}

fn issue_of(ticker: &str) -> Issue {
    Issue {
        ticker: ticker.to_string(),
        title: format!("{} token", ticker),
        description: None,
        supply: None,
        inflatable: None,
        precision: 2,
        dust_limit: None,
        allocate: vec![Allocation::new(outpoint(1, 0), 1000)],
    }
}

fn genesis_of(issue: &Issue, structure: IssueStructure) -> Genesis {
    Genesis {
        network: Network::Testnet,
        ticker: issue.ticker.clone(),
        title: issue.title.clone(),
        description: issue.description.clone(),
        precision: issue.precision,
        issue_structure: structure,
        allocations: issue.allocate.clone(),
        dust_limit: issue.dust_limit,
    }
}

fn failure(domain: ServiceErrorDomain) -> Action {
    Action::ReplyToClient(Reply::Failure(ServiceError {
        domain,
        service: ServiceErrorSource::FungibleContract,
    }))
}

fn synced(runtime: &mut Runtime) -> Vec<Asset> {
    let assets = match runtime.step(Event::Request(Request::Sync)) {
        Action::Export(format, assets) => {
            assert_eq!(format, DataFormat::Json);
            assets
        }
        other => panic!("no export: {:?}", other),
    };
    assert_eq!(runtime.phase(), &Phase::AwaitingExport);
    let data = vec![assets.len() as u8, 0xaa];
    let reply = runtime.step(Event::Exported(data.clone()));
    assert_eq!(
        reply,
        Action::ReplyToClient(Reply::Sync(SyncFormat { format: DataFormat::Json, data }))
    );
    assert!(runtime.is_idle());
    assets
}

/// Drives the events through the runtime and counts what went to the stash.
fn drive(runtime: &mut Runtime, events: Vec<Event>) -> (Vec<Action>, usize) {
    let mut actions = Vec::new();
    let mut sent = 0;
    for event in events {
        let action = runtime.step(event);
        if matches!(action, Action::SendToStash(_)) {
            sent += 1;
        }
        actions.push(action);
    }
    (actions, sent)
}

fn commit(runtime: &mut Runtime, request: Request) {
    let (actions, sent) = drive(
        runtime,
        vec![Event::Request(request), Event::StashReply(StashReply::Success), Event::CacheWritten],
    );
    assert_eq!(sent, 1);
    assert_eq!(actions[2], Action::ReplyToClient(Reply::Success));
}

#[test]
fn issue_of_a_fixed_supply_is_committed_and_shows_in_sync() {
    let mut runtime = started();
    let issue = issue_of("USDX");
    let genesis = genesis_of(&issue, IssueStructure::SingleIssue);
    let asset = Asset::try_from_genesis(&genesis).unwrap();

    let sent = runtime.step(Event::Request(Request::Issue(issue)));
    assert_eq!(sent, Action::SendToStash(StashRequest::AddGenesis(genesis)));
    assert_eq!(runtime.phase(), &Phase::AwaitingStash(asset.duplicate()));
    assert_eq!(runtime.cache().len(), 0);

    let write = runtime.step(Event::StashReply(StashReply::Success));
    assert_eq!(write, Action::WriteCache(vec![asset.duplicate()]));
    assert_eq!(runtime.phase(), &Phase::AwaitingCache(asset.duplicate()));
    assert_eq!(runtime.cache().len(), 0);

    let reply = runtime.step(Event::CacheWritten);
    assert_eq!(reply, Action::ReplyToClient(Reply::Success));
    assert!(runtime.is_idle());

    let assets = synced(&mut runtime);
    assert_eq!(assets.len(), 1);
    assert_eq!(assets[0].ticker, "USDX");
    assert_eq!(assets[0].issue_structure, IssueStructure::SingleIssue);
    assert_eq!(assets[0], asset);
}

#[test]
fn inflatable_issue_without_supply_is_refused_at_once() {
    let mut runtime = started();
    let mut issue = issue_of("INF");
    issue.inflatable = Some(outpoint(9, 1));
    issue.supply = None;
    let (actions, sent) = drive(&mut runtime, vec![Event::Request(Request::Issue(issue))]);
    assert_eq!(sent, 0);
    assert_eq!(
        actions[0],
        failure(ServiceErrorDomain::Api(ApiErrorType::MissedArgument {
            request: RequestKind::Issue,
            argument: Argument::Supply,
        }))
    );
    assert!(runtime.is_idle());
    assert!(synced(&mut runtime).is_empty());
}

#[test]
fn inflatable_issue_without_supply_is_refused_whatever_else_it_holds() {
    let mut runtime = started();
    let mut issue = issue_of("INF");
    issue.inflatable = Some(outpoint(9, 1));
    issue.allocate =
        vec![Allocation::new(outpoint(1, 0), u64::MAX), Allocation::new(outpoint(1, 1), 1)];
    let action = runtime.step(Event::Request(Request::Issue(issue)));
    assert_eq!(
        action,
        failure(ServiceErrorDomain::Api(ApiErrorType::MissedArgument {
            request: RequestKind::Issue,
            argument: Argument::Supply,
        }))
    );
}

#[test]
fn inflatable_issue_with_supply_is_bounded_by_it() {
    let mut runtime = started();
    let mut issue = issue_of("INF");
    issue.inflatable = Some(outpoint(9, 1));
    issue.supply = Some(5000);
    let structure =
        IssueStructure::MultipleIssues { max_supply: 5000, reissue_control: outpoint(9, 1) };
    let genesis = genesis_of(&issue, structure);
    let action = runtime.step(Event::Request(Request::Issue(issue.clone())));
    assert_eq!(action, Action::SendToStash(StashRequest::AddGenesis(genesis)));

    let mut runtime = started();
    issue.supply = Some(999);
    let action = runtime.step(Event::Request(Request::Issue(issue)));
    assert_eq!(action, failure(ServiceErrorDomain::Contract(ContractError::SupplyAboveBound)));
    assert!(runtime.is_idle());
}

#[test]
fn supply_of_a_fixed_issue_is_not_read() {
    let mut runtime = started();
    let mut issue = issue_of("USDX");
    issue.supply = Some(1);
    let genesis = genesis_of(&issue, IssueStructure::SingleIssue);
    let action = runtime.step(Event::Request(Request::Issue(issue)));
    assert_eq!(action, Action::SendToStash(StashRequest::AddGenesis(genesis)));
}

#[test]
fn transfer_of_an_unknown_contract_is_a_storage_error() {
    let mut runtime = started();
    let transfer = TransferApi {
        psbt: Psbt { unsigned_tx: vec![], commitments: vec![] },
        contract_id: Hash32::from_bytes([42; 32]),
        inputs: vec![outpoint(1, 0)],
        ours: vec![],
        theirs: vec![],
    };
    let (actions, sent) = drive(&mut runtime, vec![Event::Request(Request::Transfer(transfer))]);
    assert_eq!(sent, 0);
    assert_eq!(actions[0], failure(ServiceErrorDomain::Storage));
    assert!(runtime.is_idle());
}

#[test]
fn transfer_answers_without_the_stash_and_leaves_the_cache() {
    let mut runtime = started();
    let issue = issue_of("USDX");
    let id = genesis_of(&issue, IssueStructure::SingleIssue).contract_id();
    commit(&mut runtime, Request::Issue(issue));
    let before = synced(&mut runtime);

    let transfer = TransferApi {
        psbt: Psbt { unsigned_tx: vec![1], commitments: vec![] },
        contract_id: id,
        inputs: vec![outpoint(1, 0)],
        ours: vec![Allocation::new(outpoint(2, 0), 400)],
        theirs: vec![],
    };
    let (actions, sent) =
        drive(&mut runtime, vec![Event::Request(Request::Transfer(transfer.clone()))]);
    assert_eq!(sent, 0);
    assert_eq!(actions[0], Action::ReplyToClient(Reply::Success));
    assert_eq!(synced(&mut runtime), before);

    let mut greedy = transfer.clone();
    greedy.ours = vec![Allocation::new(outpoint(2, 0), 1001)];
    let (actions, sent) = drive(&mut runtime, vec![Event::Request(Request::Transfer(greedy))]);
    assert_eq!(sent, 0);
    assert_eq!(actions[0], failure(ServiceErrorDomain::Contract(ContractError::AmountNotConserved)));

    let mut stranger = transfer;
    stranger.inputs = vec![outpoint(7, 7)];
    let (actions, sent) = drive(&mut runtime, vec![Event::Request(Request::Transfer(stranger))]);
    assert_eq!(sent, 0);
    assert_eq!(actions[0], failure(ServiceErrorDomain::Contract(ContractError::UnknownInput)));
    assert_eq!(synced(&mut runtime), before);
}

#[test]
fn refusal_of_the_stash_leaves_the_cache_untouched() {
    let mut runtime = started();
    let issue = issue_of("USDX");
    let id = genesis_of(&issue, IssueStructure::SingleIssue).contract_id();
    let (actions, sent) = drive(
        &mut runtime,
        vec![
            Event::Request(Request::Issue(issue)),
            Event::StashReply(StashReply::Failure("disk full".to_string())),
        ],
    );
    assert_eq!(sent, 1);
    assert_eq!(actions[1], failure(ServiceErrorDomain::Storage));
    assert!(runtime.is_idle());
    assert!(!runtime.cache().has_asset(&id));
    assert_eq!(runtime.cache().asset(&id), Err(ServiceErrorDomain::Storage));
    assert!(synced(&mut runtime).is_empty());
}

#[test]
fn only_a_failure_reply_of_the_stash_aborts() {
    let mut runtime = started();
    let issue = issue_of("USDX");
    let (actions, _) = drive(
        &mut runtime,
        vec![Event::Request(Request::Issue(issue)), Event::StashReply(StashReply::Sync)],
    );
    assert!(matches!(actions[1], Action::WriteCache(_)));
}

#[test]
fn unreadable_stash_reply_ends_the_request() {
    let mut runtime = started();
    let (actions, _) = drive(
        &mut runtime,
        vec![Event::Request(Request::Issue(issue_of("USDX"))), Event::MalformedStashReply],
    );
    assert_eq!(actions[1], failure(ServiceErrorDomain::Encoding));
    assert!(runtime.is_idle());
    assert_eq!(runtime.cache().len(), 0);
}

#[test]
fn unreachable_stash_ends_the_request_and_not_the_loop() {
    let mut runtime = started();
    let (actions, _) = drive(
        &mut runtime,
        vec![Event::Request(Request::Issue(issue_of("USDX"))), Event::StashTransportFailed],
    );
    assert_eq!(actions[1], failure(ServiceErrorDomain::Transport));
    assert!(runtime.is_idle());
    assert_eq!(runtime.cache().len(), 0);
    assert!(synced(&mut runtime).is_empty());
}

#[test]
fn failed_cache_write_is_reported_as_stale_cache() {
    let mut runtime = started();
    let issue = issue_of("USDX");
    let id = genesis_of(&issue, IssueStructure::SingleIssue).contract_id();
    let (actions, sent) = drive(
        &mut runtime,
        vec![
            Event::Request(Request::Issue(issue)),
            Event::StashReply(StashReply::Success),
            Event::CacheWriteFailed,
        ],
    );
    assert_eq!(sent, 1);
    assert_eq!(actions[2], failure(ServiceErrorDomain::Cache));
    assert!(ServiceErrorDomain::Cache.cache_stale());
    assert!(runtime.is_idle());
    assert!(!runtime.cache().has_asset(&id));
}

#[test]
fn retried_issue_is_committed_once() {
    let mut runtime = started();
    commit(&mut runtime, Request::Issue(issue_of("USDX")));
    let once = synced(&mut runtime);
    let (actions, sent) = drive(
        &mut runtime,
        vec![
            Event::Request(Request::Issue(issue_of("USDX"))),
            Event::StashReply(StashReply::Success),
            Event::CacheWritten,
        ],
    );
    assert_eq!(sent, 1);
    assert_eq!(actions[1], Action::WriteCache(once.clone()));
    assert_eq!(actions[2], Action::ReplyToClient(Reply::Success));
    assert_eq!(synced(&mut runtime), once);
}

#[test]
fn import_rebuilds_the_asset_from_the_genesis() {
    let mut runtime = started();
    let genesis = genesis_of(&issue_of("GOLD"), IssueStructure::SingleIssue);
    let asset = Asset::try_from_genesis(&genesis).unwrap();
    let action = runtime.step(Event::Request(Request::ImportAsset(genesis.duplicate())));
    assert_eq!(action, Action::SendToStash(StashRequest::AddGenesis(genesis)));
    assert_eq!(runtime.step(Event::StashReply(StashReply::Success)), Action::WriteCache(vec![asset.duplicate()]));
    assert_eq!(runtime.step(Event::CacheWritten), Action::ReplyToClient(Reply::Success));
    assert_eq!(runtime.cache().asset(&asset.id), Ok(&asset));
}

#[test]
fn import_of_a_broken_genesis_never_reaches_the_stash() {
    let mut runtime = started();
    let mut genesis = genesis_of(&issue_of("GOLD"), IssueStructure::SingleIssue);
    genesis.allocations.push(Allocation::new(outpoint(2, 0), u64::MAX));
    let (actions, sent) = drive(&mut runtime, vec![Event::Request(Request::ImportAsset(genesis))]);
    assert_eq!(sent, 0);
    assert_eq!(actions[0], failure(ServiceErrorDomain::Contract(ContractError::SupplyOverflow)));
}

#[test]
fn sync_shows_commits_in_their_order() {
    let mut runtime = started();
    commit(&mut runtime, Request::Issue(issue_of("BBB")));
    commit(&mut runtime, Request::Issue(issue_of("AAA")));
    let (_, _) = drive(
        &mut runtime,
        vec![
            Event::Request(Request::Issue(issue_of("CCC"))),
            Event::StashReply(StashReply::Failure("no".to_string())),
        ],
    );
    let tickers: Vec<String> = synced(&mut runtime).into_iter().map(|a| a.ticker).collect();
    assert_eq!(tickers, vec!["BBB".to_string(), "AAA".to_string()]);
}

#[test]
fn malformed_request_is_answered_and_the_loop_goes_on() {
    let mut runtime = started();
    let action = runtime.step(Event::MalformedRequest);
    assert_eq!(
        action,
        Action::ReplyToClient(Reply::Failure(ServiceError {
            domain: ServiceErrorDomain::Api(ApiErrorType::MalformedRequest),
            service: ServiceErrorSource::Stash,
        }))
    );
    assert_eq!(action, Action::ReplyToClient(Reply::Failure(ServiceError::from_rpc())));
    assert!(runtime.is_idle());
    commit(&mut runtime, Request::Issue(issue_of("USDX")));
}

#[test]
fn failure_of_the_client_channel_ends_the_loop() {
    let mut runtime = started();
    assert_eq!(
        runtime.step(Event::ClientTransportFailed),
        Action::Terminate(RuntimeError::Transport)
    );
    assert_eq!(runtime.phase(), &Phase::Halted);
    assert_eq!(
        runtime.step(Event::Request(Request::Sync)),
        Action::Terminate(RuntimeError::Transport)
    );
    assert_eq!(runtime.phase(), &Phase::Halted);
}

#[test]
fn failure_of_the_client_channel_during_a_commit_leaves_the_cache() {
    let mut runtime = started();
    let (actions, _) = drive(
        &mut runtime,
        vec![
            Event::Request(Request::Issue(issue_of("USDX"))),
            Event::StashReply(StashReply::Success),
            Event::ClientTransportFailed,
            Event::CacheWritten,
        ],
    );
    assert_eq!(actions[2], Action::Terminate(RuntimeError::Transport));
    assert_eq!(actions[3], Action::Terminate(RuntimeError::Transport));
    assert_eq!(runtime.cache().len(), 0);
}

#[test]
fn events_out_of_turn_are_ignored() {
    let mut runtime = started();
    for event in [
        Event::StashReply(StashReply::Success),
        Event::MalformedStashReply,
        Event::StashTransportFailed,
        Event::CacheWritten,
        Event::CacheWriteFailed,
        Event::Exported(vec![1]),
        Event::ExportFailed,
    ] {
        assert_eq!(runtime.step(event), Action::Ignore);
        assert!(runtime.is_idle());
    }
    runtime.step(Event::Request(Request::Issue(issue_of("USDX"))));
    let waiting = runtime.phase().clone();
    for event in [
        Event::Request(Request::Sync),
        Event::MalformedRequest,
        Event::CacheWritten,
        Event::CacheWriteFailed,
        Event::Exported(vec![]),
        Event::ExportFailed,
    ] {
        assert_eq!(runtime.step(event), Action::Ignore);
        assert_eq!(runtime.phase(), &waiting);
    }
    runtime.step(Event::StashReply(StashReply::Success));
    let writing = runtime.phase().clone();
    for event in [
        Event::Request(Request::Sync),
        Event::MalformedRequest,
        Event::StashReply(StashReply::Failure("late".to_string())),
        Event::MalformedStashReply,
        Event::StashTransportFailed,
        Event::Exported(vec![]),
        Event::ExportFailed,
    ] {
        assert_eq!(runtime.step(event), Action::Ignore);
        assert_eq!(runtime.phase(), &writing);
    }
    assert_eq!(runtime.cache().len(), 0);
}

#[test]
fn events_out_of_turn_are_ignored_during_an_export() {
    let mut runtime = started();
    runtime.step(Event::Request(Request::Sync));
    for event in [
        Event::Request(Request::Sync),
        Event::MalformedRequest,
        Event::StashReply(StashReply::Success),
        Event::MalformedStashReply,
        Event::StashTransportFailed,
        Event::CacheWritten,
        Event::CacheWriteFailed,
    ] {
        assert_eq!(runtime.step(event), Action::Ignore);
        assert_eq!(runtime.phase(), &Phase::AwaitingExport);
    }
    assert_eq!(
        runtime.step(Event::ClientTransportFailed),
        Action::Terminate(RuntimeError::Transport)
    );
    assert_eq!(runtime.phase(), &Phase::Halted);
}

#[test]
fn sync_asks_nothing_of_the_stash() {
    let mut runtime = started();
    commit(&mut runtime, Request::Issue(issue_of("USDX")));
    let (actions, sent) = drive(
        &mut runtime,
        vec![Event::Request(Request::Sync), Event::Exported(vec![1, 2, 3])],
    );
    assert_eq!(sent, 0);
    assert!(matches!(&actions[0], Action::Export(DataFormat::Json, assets) if assets.len() == 1));
    assert_eq!(
        actions[1],
        Action::ReplyToClient(Reply::Sync(SyncFormat {
            format: DataFormat::Json,
            data: vec![1, 2, 3]
        }))
    );
}

#[test]
fn failed_export_is_reported_and_the_loop_goes_on() {
    let mut runtime = started();
    commit(&mut runtime, Request::Issue(issue_of("USDX")));
    let (actions, _) =
        drive(&mut runtime, vec![Event::Request(Request::Sync), Event::ExportFailed]);
    assert_eq!(actions[1], failure(ServiceErrorDomain::Export));
    assert!(runtime.is_idle());
    assert_eq!(synced(&mut runtime).len(), 1);
}

#[test]
fn export_uses_the_configured_format() {
    let yaml = Config { network: Network::Mainnet, format: DataFormat::Yaml };
    let mut runtime = Runtime::init(yaml, vec![]).unwrap();
    assert_eq!(
        runtime.step(Event::Request(Request::Sync)),
        Action::Export(DataFormat::Yaml, vec![])
    );
    assert_eq!(
        runtime.step(Event::Exported(vec![])),
        Action::ReplyToClient(Reply::Sync(SyncFormat { format: DataFormat::Yaml, data: vec![] }))
    );
}

#[test]
fn init_takes_over_the_stored_records() {
    let a = Asset::try_from_genesis(&genesis_of(&issue_of("AAA"), IssueStructure::SingleIssue))
        .unwrap();
    let b = Asset::try_from_genesis(&genesis_of(&issue_of("BBB"), IssueStructure::SingleIssue))
        .unwrap();
    let mut runtime = Runtime::init(config(), vec![a.duplicate(), b.duplicate()]).unwrap();
    assert_eq!(runtime.config(), config());
    assert!(runtime.is_idle());
    assert_eq!(synced(&mut runtime), vec![a, b]);
}

#[test]
fn init_refuses_two_records_under_one_identifier() {
    let a = Asset::try_from_genesis(&genesis_of(&issue_of("AAA"), IssueStructure::SingleIssue))
        .unwrap();
    let b = Asset::try_from_genesis(&genesis_of(&issue_of("BBB"), IssueStructure::SingleIssue))
        .unwrap();
    let out = Runtime::init(config(), vec![a.duplicate(), b, a]);
    assert_eq!(out.err(), Some(BootstrapError::DuplicateAsset));
}

#[test]
fn stash_reply_is_a_failure_only_as_failure() {
    assert!(StashReply::Failure(String::new()).is_failure());
    assert!(!StashReply::Success.is_failure());
    assert!(!StashReply::Sync.is_failure());
}

use fungible_runtime::asset::{Asset, Genesis};
use fungible_runtime::cache::Cache;
use fungible_runtime::digest::Hash32;
use fungible_runtime::encoding::{put_allocation, put_optional_u64, put_outpoint, put_text};
use fungible_runtime::error::{
    ApiErrorType, Argument, ContractError, ErrorKind, RequestKind, ServiceError,
    ServiceErrorDomain,
};
use fungible_runtime::types::{
    sum_amounts, Allocation, IssueStructure, Network, OutPoint,
};

fn hex(bytes: &[u8]) -> String {
    let mut out = String::new();
    for b in bytes {
        out.push_str(&format!("{:02x}", b));
    }
    out
}

fn seal(n: u8, vout: u32) -> OutPoint {
    OutPoint::new(Hash32::from_bytes([n; 32]), vout)
}

fn genesis(ticker: &str, allocations: Vec<Allocation>, structure: IssueStructure) -> Genesis {
    Genesis {
        network: Network::Testnet,
        ticker: ticker.to_string(),
        title: format!("{} token", ticker),
        description: None,
        precision: 2,
        issue_structure: structure,
        allocations,
        dust_limit: None,
    }
}

#[test]
fn digest_of_empty_input_is_the_known_sha256() {
    let digest = Hash32::digest(&[]);
    assert_eq!(
        hex(&digest.bytes),
        "e3b0c44298fc1c149afbf4c8996fb92427ae41e4649b934ca495991b7852b855"
    );
}

#[test]
fn digest_of_abc_is_the_known_sha256() {
    let digest = Hash32::digest(b"abc");
    assert_eq!(
        hex(&digest.bytes),
        "ba7816bf8f01cfea414140de5dae2223b00361a396177a9cb410ff61f20015ad"
    );
}

#[test]
fn digest_differs_from_its_input() {
    let input = [7u8; 32];
    let digest = Hash32::digest(&input);
    assert_ne!(digest.bytes, input);
    assert_eq!(digest, Hash32::digest(&input));
}

#[test]
fn same_compares_all_bytes() {
    let a = Hash32::from_bytes([1; 32]);
    let mut other = [1u8; 32];
    assert!(a.same(&Hash32::from_bytes(other)));
    other[31] = 2;
    assert!(!a.same(&Hash32::from_bytes(other)));
    other[31] = 1;
    other[0] = 0;
    assert!(!a.same(&Hash32::from_bytes(other)));
}

#[test]
fn outpoints_compare_by_transaction_and_index() {
    assert!(seal(1, 0).same(&seal(1, 0)));
    assert!(!seal(1, 0).same(&seal(1, 1)));
    assert!(!seal(1, 0).same(&seal(2, 0)));
}

#[test]
fn text_is_written_with_its_length_first() {
    let mut out = vec![9u8];
    put_text(&mut out, &"USDX".to_string());
    assert_eq!(out, vec![9, 4, 0, 0, 0, 0, 0, 0, 0, b'U', b'S', b'D', b'X']);
}

#[test]
fn text_length_counts_bytes_not_characters() {
    let mut out = Vec::new();
    put_text(&mut out, &"é".to_string());
    assert_eq!(out, vec![2, 0, 0, 0, 0, 0, 0, 0, 0xc3, 0xa9]);
}

#[test]
fn optional_amount_is_tagged() {
    let mut out = Vec::new();
    put_optional_u64(&mut out, None);
    put_optional_u64(&mut out, Some(0x0102));
    assert_eq!(out, vec![0, 1, 2, 1, 0, 0, 0, 0, 0, 0]);
}

#[test]
fn outpoint_is_transaction_then_index() {
    let mut out = Vec::new();
    put_outpoint(&mut out, &seal(5, 0x01020304));
    let mut expected = vec![5u8; 32];
    expected.extend_from_slice(&[4, 3, 2, 1]);
    assert_eq!(out, expected);
}

#[test]
fn allocation_is_seal_then_amount() {
    let mut out = Vec::new();
    put_allocation(&mut out, &Allocation::new(seal(5, 1), 300));
    let mut expected = vec![5u8; 32];
    expected.extend_from_slice(&[1, 0, 0, 0]);
    expected.extend_from_slice(&[0x2c, 1, 0, 0, 0, 0, 0, 0]);
    assert_eq!(out, expected);
}

#[test]
fn genesis_commitment_has_every_field_in_its_place() {
    let record = Genesis {
        network: Network::Regtest(Hash32::from_bytes([6; 32])),
        ticker: "AB".to_string(),
        title: "C".to_string(),
        description: Some("d".to_string()),
        precision: 8,
        issue_structure: IssueStructure::MultipleIssues {
            max_supply: 1000,
            reissue_control: seal(3, 7),
        },
        allocations: vec![Allocation::new(seal(4, 1), 600)],
        dust_limit: Some(5),
    };
    let mut expected: Vec<u8> = vec![2];
    expected.extend_from_slice(&[6u8; 32]);
    expected.extend_from_slice(&[2, 0, 0, 0, 0, 0, 0, 0, b'A', b'B']);
    expected.extend_from_slice(&[1, 0, 0, 0, 0, 0, 0, 0, b'C']);
    expected.extend_from_slice(&[1, 1, 0, 0, 0, 0, 0, 0, 0, b'd']);
    expected.push(8);
    expected.push(1);
    expected.extend_from_slice(&[0xe8, 3, 0, 0, 0, 0, 0, 0]);
    expected.extend_from_slice(&[3u8; 32]);
    expected.extend_from_slice(&[7, 0, 0, 0]);
    expected.extend_from_slice(&[1, 5, 0, 0, 0, 0, 0, 0, 0]);
    expected.extend_from_slice(&[1, 0, 0, 0, 0, 0, 0, 0]);
    expected.extend_from_slice(&[4u8; 32]);
    expected.extend_from_slice(&[1, 0, 0, 0]);
    expected.extend_from_slice(&[0x58, 2, 0, 0, 0, 0, 0, 0]);
    assert_eq!(record.commitment(), expected);
    assert_eq!(record.contract_id(), Hash32::digest(&expected));
}

#[test]
fn contract_id_depends_on_the_record() {
    let a = genesis("USDX", vec![], IssueStructure::SingleIssue);
    let b = genesis("USDY", vec![], IssueStructure::SingleIssue);
    assert_ne!(a.contract_id(), b.contract_id());
    assert_eq!(a.contract_id(), a.duplicate().contract_id());
}

#[test]
fn sum_of_amounts_does_not_wrap() {
    let allocations =
        vec![Allocation::new(seal(1, 0), u64::MAX), Allocation::new(seal(1, 1), u64::MAX)];
    assert_eq!(sum_amounts(&allocations), 2 * (u64::MAX as u128));
    assert_eq!(sum_amounts(&Vec::new()), 0);
}

#[test]
fn asset_takes_over_the_genesis() {
    let record = genesis(
        "USDX",
        vec![Allocation::new(seal(1, 0), 100), Allocation::new(seal(1, 1), 250)],
        IssueStructure::SingleIssue,
    );
    let asset = Asset::try_from_genesis(&record).unwrap();
    assert_eq!(asset.id, record.contract_id());
    assert_eq!(asset.ticker, "USDX");
    assert_eq!(asset.title, "USDX token");
    assert_eq!(asset.description, None);
    assert_eq!(asset.precision, 2);
    assert_eq!(asset.supply, 350);
    assert_eq!(asset.network, Network::Testnet);
    assert_eq!(asset.issue_structure, IssueStructure::SingleIssue);
    assert_eq!(asset.allocations, record.allocations);
    assert_eq!(asset.duplicate(), asset);
}

#[test]
fn genesis_whose_supply_overflows_is_refused() {
    let record = genesis(
        "BIG",
        vec![Allocation::new(seal(1, 0), u64::MAX), Allocation::new(seal(1, 1), 1)],
        IssueStructure::SingleIssue,
    );
    assert_eq!(
        Asset::try_from_genesis(&record),
        Err(ServiceErrorDomain::Contract(ContractError::SupplyOverflow))
    );
}

#[test]
fn genesis_with_the_largest_supply_is_accepted() {
    let record =
        genesis("MAX", vec![Allocation::new(seal(1, 0), u64::MAX)], IssueStructure::SingleIssue);
    assert_eq!(Asset::try_from_genesis(&record).unwrap().supply, u64::MAX);
}

#[test]
fn genesis_above_its_bound_is_refused() {
    let structure = IssueStructure::MultipleIssues { max_supply: 99, reissue_control: seal(9, 0) };
    let record = genesis("INF", vec![Allocation::new(seal(1, 0), 100)], structure);
    assert_eq!(
        Asset::try_from_genesis(&record),
        Err(ServiceErrorDomain::Contract(ContractError::SupplyAboveBound))
    );
    let exact = genesis("INF", vec![Allocation::new(seal(1, 0), 99)], structure);
    assert_eq!(Asset::try_from_genesis(&exact).unwrap().supply, 99);
}

#[test]
fn add_asset_twice_is_the_same_as_once() {
    let asset =
        Asset::try_from_genesis(&genesis("USDX", vec![], IssueStructure::SingleIssue)).unwrap();
    let mut cache = Cache::new();
    assert!(cache.add_asset(asset.duplicate()));
    let once = cache.export();
    assert!(!cache.add_asset(asset.duplicate()));
    assert_eq!(cache.export(), once);
    assert_eq!(cache.len(), 1);
}

#[test]
fn add_asset_keeps_the_first_record_under_an_identifier() {
    let asset =
        Asset::try_from_genesis(&genesis("USDX", vec![], IssueStructure::SingleIssue)).unwrap();
    let mut changed = asset.duplicate();
    changed.title = "another".to_string();
    let mut cache = Cache::new();
    assert!(cache.add_asset(asset.duplicate()));
    assert!(!cache.add_asset(changed));
    assert_eq!(cache.asset(&asset.id), Ok(&asset));
}

#[test]
fn lookup_of_an_unknown_identifier_is_a_storage_error() {
    let cache = Cache::new();
    let id = Hash32::from_bytes([0; 32]);
    assert_eq!(cache.asset(&id), Err(ServiceErrorDomain::Storage));
    assert!(!cache.has_asset(&id));
}

#[test]
fn export_keeps_the_order_of_arrival() {
    let a = Asset::try_from_genesis(&genesis("AAA", vec![], IssueStructure::SingleIssue)).unwrap();
    let b = Asset::try_from_genesis(&genesis("BBB", vec![], IssueStructure::SingleIssue)).unwrap();
    let mut cache = Cache::new();
    assert_eq!(cache.export(), Vec::<Asset>::new());
    cache.add_asset(b.duplicate());
    cache.add_asset(a.duplicate());
    assert_eq!(cache.export(), vec![b.duplicate(), a.duplicate()]);
    assert_eq!(cache.asset(&a.id), Ok(&a));
    assert!(cache.has_asset(&b.id));
}

#[test]
fn errors_fall_into_four_kinds() {
    let missed = ServiceErrorDomain::Api(ApiErrorType::MissedArgument {
        request: RequestKind::Issue,
        argument: Argument::Supply,
    });
    assert_eq!(missed.kind(), ErrorKind::Client);
    assert_eq!(ServiceErrorDomain::Api(ApiErrorType::MalformedRequest).kind(), ErrorKind::Client);
    assert_eq!(
        ServiceErrorDomain::Contract(ContractError::AmountNotConserved).kind(),
        ErrorKind::Contract
    );
    assert_eq!(ServiceErrorDomain::Storage.kind(), ErrorKind::Storage);
    assert_eq!(ServiceErrorDomain::Cache.kind(), ErrorKind::Storage);
    assert_eq!(ServiceErrorDomain::Export.kind(), ErrorKind::Storage);
    assert!(!ServiceErrorDomain::Export.cache_stale());
    assert_eq!(ServiceErrorDomain::Transport.kind(), ErrorKind::Transport);
    assert_eq!(ServiceErrorDomain::Encoding.kind(), ErrorKind::Transport);
    assert!(ServiceErrorDomain::Cache.cache_stale());
    assert!(!ServiceErrorDomain::Storage.cache_stale());
    assert!(!missed.cache_stale());
}

#[test]
fn network_decides_the_contract_id() {
    let mut a = genesis("USDX", vec![], IssueStructure::SingleIssue);
    let mut b = a.duplicate();
    a.network = Network::Regtest(Hash32::from_bytes([1; 32]));
    b.network = Network::SignetCustom(Hash32::from_bytes([1; 32]));
    assert_ne!(a.contract_id(), b.contract_id());
    assert_eq!(a.commitment()[0], 2);
    assert_eq!(b.commitment()[0], 4);
    b.network = Network::LiquidV1;
    assert_eq!(b.commitment()[0], 5);
    b.network = Network::Signet;
    assert_eq!(b.commitment()[0], 3);
    b.network = Network::Mainnet;
    assert_eq!(b.commitment()[0], 0);
    b.network = Network::Testnet;
    assert_eq!(b.commitment()[0], 1);
}

#[test]
fn missing_supply_is_named_in_the_message() {
    let missed = ServiceErrorDomain::Api(ApiErrorType::MissedArgument {
        request: RequestKind::Issue,
        argument: Argument::Supply,
    });
    assert_eq!(missed.message(), "request Issue lacks the argument supply");
    assert_eq!(
        ServiceError::contract(missed).message(),
        "fungible: request Issue lacks the argument supply"
    );
}

#[test]
fn every_error_has_its_message() {
    assert_eq!(ServiceError::from_rpc().message(), "stash: malformed request");
    assert_eq!(
        ServiceErrorDomain::Contract(ContractError::SupplyOverflow).message(),
        "contract rule broken: the allocations exceed 64 bits"
    );
    assert_eq!(
        ServiceErrorDomain::Contract(ContractError::SupplyAboveBound).message(),
        "contract rule broken: the allocations exceed the supply"
    );
    assert_eq!(
        ServiceErrorDomain::Contract(ContractError::UnknownInput).message(),
        "contract rule broken: an input holds no allocation of the asset"
    );
    assert_eq!(
        ServiceErrorDomain::Contract(ContractError::AmountNotConserved).message(),
        "contract rule broken: the outputs exceed the inputs"
    );
    assert_eq!(ServiceErrorDomain::Storage.message(), "storage error");
    assert_eq!(ServiceErrorDomain::Cache.message(), "the cache is behind the stash");
    assert_eq!(ServiceErrorDomain::Export.message(), "the cache cannot be exported");
    assert_eq!(ServiceErrorDomain::Transport.message(), "the stash cannot be reached");
    assert_eq!(ServiceErrorDomain::Encoding.message(), "the reply of the stash cannot be read");
    assert_eq!(RequestKind::Transfer.name(), "Transfer");
    assert_eq!(RequestKind::ImportAsset.name(), "ImportAsset");
    assert_eq!(RequestKind::Sync.name(), "Sync");
}

//! The genesis record of an asset contract and the asset record that the
//! cache keeps for it.

use vstd::prelude::*;
use crate::digest::{sha256_digest, Hash32};
use crate::encoding::{
    allocations_bytes, issue_structure_bytes, network_bytes, optional_text_bytes,
    optional_u64_bytes, put_allocations, put_issue_structure, put_network, put_optional_text,
    put_optional_u64, put_text, put_u8, text_bytes, text_fits,
};
use crate::error::{ContractError, ServiceErrorDomain};
use crate::types::{sum_amounts, total_amount, Allocation, ContractId, IssueStructure, Network};

verus! {

/// The characters of an optional text.
pub open spec fn optional_text_view(text: Option<String>) -> Option<Seq<char>> {
    match text {
        None => None,
        Some(t) => Some(t@),
    }
}

/// A copy of a text.
pub fn copy_text(text: &String) -> (out: String)
    ensures
        out@ == text@,
{
    text.clone()
}

/// A copy of an optional text.
pub fn copy_optional_text(text: &Option<String>) -> (out: Option<String>)
    ensures
        optional_text_view(out) == optional_text_view(*text),
{
    match text {
        None => None,
        Some(t) => Some(t.clone()),
    }
}

/// A copy of a list of plain values.
pub fn copy_list<T: Copy>(items: &Vec<T>) -> (out: Vec<T>)
    ensures
        out@ == items@,
{
    let mut out: Vec<T> = Vec::new();
    let mut i: usize = 0;
    while i < items.len()
        invariant
            i <= items.len(),
            out@ == items@.take(i as int),
        decreases items.len() - i,
    {
        out.push(items[i]);
        i += 1;
        assert(out@ =~= items@.take(i as int));
    }
    assert(items@.take(i as int) =~= items@);
    out
}

/// The record that creates an asset: what the asset is called, how it is
/// divided, how its supply comes into being and who holds it at the start.
#[derive(Clone, Debug, PartialEq, Eq)]
pub struct Genesis {
    pub network: Network,
    pub ticker: String,
    pub title: String,
    pub description: Option<String>,
    pub precision: u8,
    pub issue_structure: IssueStructure,
    pub allocations: Vec<Allocation>,
    pub dust_limit: Option<u64>,
}

/// A genesis record as a mathematical value.
pub struct GenesisView {
    pub network: Network,
    pub ticker: Seq<char>,
    pub title: Seq<char>,
    pub description: Option<Seq<char>>,
    pub precision: u8,
    pub issue_structure: IssueStructure,
    pub allocations: Seq<Allocation>,
    pub dust_limit: Option<u64>,
}

impl View for Genesis {
    type V = GenesisView;

    open spec fn view(&self) -> GenesisView {
        GenesisView {
            network: self.network,
            ticker: self.ticker@,
            title: self.title@,
            description: optional_text_view(self.description),
            precision: self.precision,
            issue_structure: self.issue_structure,
            allocations: self.allocations@,
            dust_limit: self.dust_limit,
        }
    }
}

/// Whether the lengths in a genesis record can be written in 64 bits, as
/// they can in every record that a machine holds.
pub open spec fn genesis_fits(genesis: GenesisView) -> bool {
    &&& text_fits(genesis.ticker)
    &&& text_fits(genesis.title)
    &&& (genesis.description matches Some(text) ==> text_fits(text))
    &&& genesis.allocations.len() <= u64::MAX
}

/// The bytes that a genesis record is committed to.
pub open spec fn genesis_bytes(genesis: GenesisView) -> Seq<u8> {
    network_bytes(genesis.network) + text_bytes(genesis.ticker) + text_bytes(genesis.title)
        + optional_text_bytes(genesis.description) + seq![genesis.precision]
        + issue_structure_bytes(genesis.issue_structure) + optional_u64_bytes(genesis.dust_limit)
        + allocations_bytes(genesis.allocations)
}

/// The identifier of the contract that a genesis record creates: the digest
/// of the bytes that the record is committed to.
pub open spec fn contract_id_of(genesis: GenesisView) -> Seq<u8> {
    sha256_digest(genesis_bytes(genesis))
}

/// The rule that a genesis record breaks, if it breaks one: its allocations
/// must add up to an amount of 64 bits, and to no more than the bound of an
/// inflatable asset.
pub open spec fn genesis_error(genesis: GenesisView) -> Option<ContractError> {
    let issued = total_amount(genesis.allocations);
    if issued > u64::MAX {
        Some(ContractError::SupplyOverflow)
    } else {
        match genesis.issue_structure {
            IssueStructure::SingleIssue => None,
            IssueStructure::MultipleIssues { max_supply, .. } => if issued > max_supply {
                Some(ContractError::SupplyAboveBound)
            } else {
                None
            },
        }
    }
}

impl Genesis {
    /// The bytes that the record is committed to.
    pub fn commitment(&self) -> (out: Vec<u8>)
        ensures
            out@ == genesis_bytes(self@),
            genesis_fits(self@),
    {
        let mut out: Vec<u8> = Vec::new();
        put_network(&mut out, &self.network);
        put_text(&mut out, &self.ticker);
        put_text(&mut out, &self.title);
        put_optional_text(&mut out, &self.description);
        put_u8(&mut out, self.precision);
        put_issue_structure(&mut out, &self.issue_structure);
        put_optional_u64(&mut out, self.dust_limit);
        put_allocations(&mut out, &self.allocations);
        assert(out@ =~= genesis_bytes(self@));
        out
    }

    /// The identifier of the contract that the record creates.
    pub fn contract_id(&self) -> (id: ContractId)
        ensures
            id@ == contract_id_of(self@),
    {
        let bytes = self.commitment();
        Hash32::digest(bytes.as_slice())
    }

    /// A copy of the record.
    pub fn duplicate(&self) -> (out: Genesis)
        ensures
            out@ == self@,
    {
        Genesis {
            network: self.network,
            ticker: copy_text(&self.ticker),
            title: copy_text(&self.title),
            description: copy_optional_text(&self.description),
            precision: self.precision,
            issue_structure: self.issue_structure,
            allocations: copy_list(&self.allocations),
            dust_limit: self.dust_limit,
        }
    }
}

/// An asset as the cache shows it to clients.
#[derive(Clone, Debug, PartialEq, Eq)]
pub struct Asset {
    pub id: ContractId,
    pub network: Network,
    pub ticker: String,
    pub title: String,
    pub description: Option<String>,
    pub precision: u8,
    /// The amount issued by the genesis.
    pub supply: u64,
    pub issue_structure: IssueStructure,
    pub dust_limit: Option<u64>,
    /// The allocations whose seals are known.
    pub allocations: Vec<Allocation>,
}

/// An asset record as a mathematical value.
pub struct AssetView {
    pub id: Seq<u8>,
    pub network: Network,
    pub ticker: Seq<char>,
    pub title: Seq<char>,
    pub description: Option<Seq<char>>,
    pub precision: u8,
    pub supply: u64,
    pub issue_structure: IssueStructure,
    pub dust_limit: Option<u64>,
    pub allocations: Seq<Allocation>,
}

impl View for Asset {
    type V = AssetView;

    open spec fn view(&self) -> AssetView {
        AssetView {
            id: self.id@,
            network: self.network,
            ticker: self.ticker@,
            title: self.title@,
            description: optional_text_view(self.description),
            precision: self.precision,
            supply: self.supply,
            issue_structure: self.issue_structure,
            dust_limit: self.dust_limit,
            allocations: self.allocations@,
        }
    }
}

/// The asset that a genesis record creates.
pub open spec fn asset_of(genesis: GenesisView) -> AssetView {
    AssetView {
        id: contract_id_of(genesis),
        network: genesis.network,
        ticker: genesis.ticker,
        title: genesis.title,
        description: genesis.description,
        precision: genesis.precision,
        supply: total_amount(genesis.allocations) as u64,
        issue_structure: genesis.issue_structure,
        dust_limit: genesis.dust_limit,
        allocations: genesis.allocations,
    }
}

impl Asset {
    /// Rebuilds the asset from its genesis record alone. Fails exactly when
    /// the record breaks a rule, with that rule as the error.
    pub fn try_from_genesis(genesis: &Genesis) -> (out: Result<Asset, ServiceErrorDomain>)
        ensures
            match genesis_error(genesis@) {
                None => out matches Ok(asset) && asset@ == asset_of(genesis@),
                Some(rule) => out matches Err(error) && error == ServiceErrorDomain::Contract(
                    rule,
                ),
            },
    {
        let issued = sum_amounts(&genesis.allocations);
        if issued > u64::MAX as u128 {
            return Err(ServiceErrorDomain::Contract(ContractError::SupplyOverflow));
        }
        match genesis.issue_structure {
            IssueStructure::SingleIssue => {},
            IssueStructure::MultipleIssues { max_supply, .. } => {
                if issued > max_supply as u128 {
                    return Err(ServiceErrorDomain::Contract(ContractError::SupplyAboveBound));
                }
            },
        }
        Ok(
            Asset {
                id: genesis.contract_id(),
                network: genesis.network,
                ticker: copy_text(&genesis.ticker),
                title: copy_text(&genesis.title),
                description: copy_optional_text(&genesis.description),
                precision: genesis.precision,
                supply: issued as u64,
                issue_structure: genesis.issue_structure,
                dust_limit: genesis.dust_limit,
                allocations: copy_list(&genesis.allocations),
            },
        )
    }

    /// A copy of the record.
    pub fn duplicate(&self) -> (out: Asset)
        ensures
            out@ == self@,
    {
        Asset {
            id: self.id,
            network: self.network,
            ticker: copy_text(&self.ticker),
            title: copy_text(&self.title),
            description: copy_optional_text(&self.description),
            precision: self.precision,
            supply: self.supply,
            issue_structure: self.issue_structure,
            dust_limit: self.dust_limit,
            allocations: copy_list(&self.allocations),
        }
    }
}

} // verus!

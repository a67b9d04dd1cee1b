//! The messages that the runtime exchanges with its clients and with the
//! stash, as values. Turning them into bytes and back is left to the caller.

use vstd::prelude::*;
use crate::asset::{optional_text_view, Genesis, GenesisView};
use crate::error::ServiceError;
use crate::processor::Psbt;
use crate::types::{
    Allocation, ConcealedAllocation, ContractId, DataFormat, IssueStructure, OutPoint,
};

verus! {

/// A request to issue a new asset.
#[derive(Clone, Debug, PartialEq, Eq)]
pub struct Issue {
    pub ticker: String,
    pub title: String,
    pub description: Option<String>,
    /// The bound on the supply of an inflatable asset.
    pub supply: Option<u64>,
    /// The seal that controls reissuance, for an inflatable asset.
    pub inflatable: Option<OutPoint>,
    pub precision: u8,
    pub dust_limit: Option<u64>,
    pub allocate: Vec<Allocation>,
}

/// An issue request as a mathematical value.
pub struct IssueView {
    pub ticker: Seq<char>,
    pub title: Seq<char>,
    pub description: Option<Seq<char>>,
    pub supply: Option<u64>,
    pub inflatable: Option<OutPoint>,
    pub precision: u8,
    pub dust_limit: Option<u64>,
    pub allocate: Seq<Allocation>,
}

impl View for Issue {
    type V = IssueView;

    open spec fn view(&self) -> IssueView {
        IssueView {
            ticker: self.ticker@,
            title: self.title@,
            description: optional_text_view(self.description),
            supply: self.supply,
            inflatable: self.inflatable,
            precision: self.precision,
            dust_limit: self.dust_limit,
            allocate: self.allocate@,
        }
    }
}

/// The issue structure that a request asks for, or nothing where the request
/// names a reissuance control and no bound on the supply.
pub open spec fn issue_structure_of(issue: IssueView) -> Option<IssueStructure> {
    match issue.inflatable {
        None => Some(IssueStructure::SingleIssue),
        Some(reissue_control) => match issue.supply {
            None => None,
            Some(max_supply) => Some(IssueStructure::MultipleIssues { max_supply, reissue_control }),
        },
    }
}

/// A request to transfer amounts of an asset.
#[derive(Clone, Debug, PartialEq, Eq)]
pub struct TransferApi {
    pub psbt: Psbt,
    pub contract_id: ContractId,
    pub inputs: Vec<OutPoint>,
    pub ours: Vec<Allocation>,
    pub theirs: Vec<ConcealedAllocation>,
}

/// A transfer request as a mathematical value. The transaction skeleton has
/// no part in what the runtime replies, and is left out.
pub struct TransferView {
    pub contract_id: Seq<u8>,
    pub inputs: Seq<OutPoint>,
    pub ours: Seq<Allocation>,
    pub theirs: Seq<ConcealedAllocation>,
}

impl View for TransferApi {
    type V = TransferView;

    open spec fn view(&self) -> TransferView {
        TransferView {
            contract_id: self.contract_id@,
            inputs: self.inputs@,
            ours: self.ours@,
            theirs: self.theirs@,
        }
    }
}

/// A request of a client.
#[derive(Clone, Debug, PartialEq, Eq)]
pub enum Request {
    Issue(Issue),
    Transfer(TransferApi),
    ImportAsset(Genesis),
    Sync,
}

/// A client's request as a mathematical value.
pub enum RequestView {
    Issue(IssueView),
    Transfer(TransferView),
    ImportAsset(GenesisView),
    Sync,
}

impl View for Request {
    type V = RequestView;

    open spec fn view(&self) -> RequestView {
        match *self {
            Request::Issue(issue) => RequestView::Issue(issue@),
            Request::Transfer(transfer) => RequestView::Transfer(transfer@),
            Request::ImportAsset(genesis) => RequestView::ImportAsset(genesis@),
            Request::Sync => RequestView::Sync,
        }
    }
}

/// The contents of the cache as a client receives them: the bytes, and the
/// format that they are written in.
#[derive(Clone, Debug, PartialEq, Eq)]
pub struct SyncFormat {
    pub format: DataFormat,
    pub data: Vec<u8>,
}

/// The reply to a client.
#[derive(Clone, Debug, PartialEq, Eq)]
pub enum Reply {
    Success,
    Failure(ServiceError),
    Sync(SyncFormat),
}

/// A reply as a mathematical value.
pub enum ReplyView {
    Success,
    Failure(ServiceError),
    Sync { format: DataFormat, data: Seq<u8> },
}

impl View for Reply {
    type V = ReplyView;

    open spec fn view(&self) -> ReplyView {
        match *self {
            Reply::Success => ReplyView::Success,
            Reply::Failure(error) => ReplyView::Failure(error),
            Reply::Sync(sync) => ReplyView::Sync { format: sync.format, data: sync.data@ },
        }
    }
}

/// A request of the runtime to the stash.
#[derive(Clone, Debug, PartialEq, Eq)]
pub enum StashRequest {
    AddGenesis(Genesis),
}

/// The reply of the stash to a request of the runtime. Of a failure the
/// runtime reads that it is one; the message is the stash's own.
#[derive(Clone, Debug, PartialEq, Eq)]
pub enum StashReply {
    Success,
    Failure(String),
    Sync,
}

impl StashReply {
    /// Whether the stash refused.
    pub open spec fn spec_is_failure(&self) -> bool {
        *self is Failure
    }

    #[verifier::when_used_as_spec(spec_is_failure)]
    pub fn is_failure(&self) -> (failure: bool)
        ensures
            failure == self.spec_is_failure(),
    {
        match self {
            StashReply::Failure(_) => true,
            _ => false,
        }
    }
}

} // verus!

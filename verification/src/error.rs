//! The errors that a handler can end in, and how a client is to read them:
//! whether the request was at fault, whether a contract rule was broken, and
//! whether the stash already holds what the cache does not.

use vstd::prelude::*;
use vstd::string::StringExecFns;

verus! {

/// The request that an error speaks of.
#[derive(Clone, Copy, Debug, PartialEq, Eq, Structural)]
pub enum RequestKind {
    Issue,
    Transfer,
    ImportAsset,
    Sync,
}

/// The argument that a request lacks.
#[derive(Clone, Copy, Debug, PartialEq, Eq, Structural)]
pub enum Argument {
    Supply,
}

impl RequestKind {
    pub open spec fn spec_name(self) -> Seq<char> {
        match self {
            RequestKind::Issue => "Issue"@,
            RequestKind::Transfer => "Transfer"@,
            RequestKind::ImportAsset => "ImportAsset"@,
            RequestKind::Sync => "Sync"@,
        }
    }

    /// The name of the request.
    pub fn name(self) -> (name: String)
        ensures
            name@ == self.spec_name(),
    {
        match self {
            RequestKind::Issue => String::from_str("Issue"),
            RequestKind::Transfer => String::from_str("Transfer"),
            RequestKind::ImportAsset => String::from_str("ImportAsset"),
            RequestKind::Sync => String::from_str("Sync"),
        }
    }
}

impl Argument {
    pub open spec fn spec_name(self) -> Seq<char> {
        match self {
            Argument::Supply => "supply"@,
        }
    }

    /// The name of the argument.
    pub fn name(self) -> (name: String)
        ensures
            name@ == self.spec_name(),
    {
        match self {
            Argument::Supply => String::from_str("supply"),
        }
    }
}

/// What was wrong with a request as the client sent it.
#[derive(Clone, Copy, Debug, PartialEq, Eq, Structural)]
pub enum ApiErrorType {
    /// The bytes received were no request.
    MalformedRequest,
    /// The request lacks an argument that its other arguments call for.
    MissedArgument { request: RequestKind, argument: Argument },
}

/// A rule of the asset contract that a request would break.
#[derive(Clone, Copy, Debug, PartialEq, Eq, Structural)]
pub enum ContractError {
    /// The allocations of a genesis add up to more than 64 bits hold.
    SupplyOverflow,
    /// The allocations of a genesis add up to more than the declared bound.
    SupplyAboveBound,
    /// An input of a transfer is no allocation of the asset.
    UnknownInput,
    /// A transfer hands out more than its inputs hold.
    AmountNotConserved,
}

impl ContractError {
    pub open spec fn spec_message(self) -> Seq<char> {
        match self {
            ContractError::SupplyOverflow => "the allocations exceed 64 bits"@,
            ContractError::SupplyAboveBound => "the allocations exceed the supply"@,
            ContractError::UnknownInput => "an input holds no allocation of the asset"@,
            ContractError::AmountNotConserved => "the outputs exceed the inputs"@,
        }
    }

    /// The rule in words.
    pub fn message(self) -> (text: String)
        ensures
            text@ == self.spec_message(),
    {
        match self {
            ContractError::SupplyOverflow => String::from_str("the allocations exceed 64 bits"),
            ContractError::SupplyAboveBound => String::from_str(
                "the allocations exceed the supply",
            ),
            ContractError::UnknownInput => String::from_str(
                "an input holds no allocation of the asset",
            ),
            ContractError::AmountNotConserved => String::from_str("the outputs exceed the inputs"),
        }
    }
}

/// Where an error arose.
#[derive(Clone, Copy, Debug, PartialEq, Eq, Structural)]
pub enum ServiceErrorDomain {
    /// The client's request was malformed or incomplete.
    Api(ApiErrorType),
    /// The processor found a contract rule broken.
    Contract(ContractError),
    /// The stash rejected a commit, or holds no record under the identifier.
    Storage,
    /// The stash accepted a commit, and writing the cache failed after it.
    Cache,
    /// The cache could not be written out in the configured format.
    Export,
    /// The channel to the stash failed.
    Transport,
    /// The reply of the stash was no reply.
    Encoding,
}

/// The four kinds of error that a client or operator tells apart.
#[derive(Clone, Copy, Debug, PartialEq, Eq, Structural)]
pub enum ErrorKind {
    Client,
    Contract,
    Storage,
    Transport,
}

impl ServiceErrorDomain {
    pub open spec fn spec_kind(self) -> ErrorKind {
        match self {
            ServiceErrorDomain::Api(_) => ErrorKind::Client,
            ServiceErrorDomain::Contract(_) => ErrorKind::Contract,
            ServiceErrorDomain::Storage => ErrorKind::Storage,
            ServiceErrorDomain::Cache => ErrorKind::Storage,
            ServiceErrorDomain::Export => ErrorKind::Storage,
            ServiceErrorDomain::Transport => ErrorKind::Transport,
            ServiceErrorDomain::Encoding => ErrorKind::Transport,
        }
    }

    /// The kind of the error.
    #[verifier::when_used_as_spec(spec_kind)]
    pub fn kind(self) -> (kind: ErrorKind)
        ensures
            kind == self.spec_kind(),
    {
        match self {
            ServiceErrorDomain::Api(_) => ErrorKind::Client,
            ServiceErrorDomain::Contract(_) => ErrorKind::Contract,
            ServiceErrorDomain::Storage => ErrorKind::Storage,
            ServiceErrorDomain::Cache => ErrorKind::Storage,
            ServiceErrorDomain::Export => ErrorKind::Storage,
            ServiceErrorDomain::Transport => ErrorKind::Transport,
            ServiceErrorDomain::Encoding => ErrorKind::Transport,
        }
    }

    pub open spec fn spec_message(self) -> Seq<char> {
        match self {
            ServiceErrorDomain::Api(ApiErrorType::MalformedRequest) => "malformed request"@,
            ServiceErrorDomain::Api(ApiErrorType::MissedArgument { request, argument }) =>
                "request "@ + request.spec_name() + " lacks the argument "@ + argument.spec_name(),
            ServiceErrorDomain::Contract(rule) => "contract rule broken: "@ + rule.spec_message(),
            ServiceErrorDomain::Storage => "storage error"@,
            ServiceErrorDomain::Cache => "the cache is behind the stash"@,
            ServiceErrorDomain::Export => "the cache cannot be exported"@,
            ServiceErrorDomain::Transport => "the stash cannot be reached"@,
            ServiceErrorDomain::Encoding => "the reply of the stash cannot be read"@,
        }
    }

    /// The error in words, as a failure reply carries it.
    pub fn message(self) -> (text: String)
        ensures
            text@ == self.spec_message(),
    {
        match self {
            ServiceErrorDomain::Api(ApiErrorType::MalformedRequest) => String::from_str(
                "malformed request",
            ),
            ServiceErrorDomain::Api(ApiErrorType::MissedArgument { request, argument }) => {
                let request_name = request.name();
                let argument_name = argument.name();
                String::from_str("request ").concat(request_name.as_str()).concat(
                    " lacks the argument ",
                ).concat(argument_name.as_str())
            },
            ServiceErrorDomain::Contract(rule) => {
                let rule_text = rule.message();
                String::from_str("contract rule broken: ").concat(rule_text.as_str())
            },
            ServiceErrorDomain::Storage => String::from_str("storage error"),
            ServiceErrorDomain::Cache => String::from_str("the cache is behind the stash"),
            ServiceErrorDomain::Export => String::from_str("the cache cannot be exported"),
            ServiceErrorDomain::Transport => String::from_str("the stash cannot be reached"),
            ServiceErrorDomain::Encoding => String::from_str(
                "the reply of the stash cannot be read",
            ),
        }
    }

    /// Whether the error leaves the stash ahead of the cache: the genesis is
    /// recorded upstream and the cache does not show it.
    pub open spec fn spec_cache_stale(self) -> bool {
        self == ServiceErrorDomain::Cache
    }

    #[verifier::when_used_as_spec(spec_cache_stale)]
    pub fn cache_stale(self) -> (stale: bool)
        ensures
            stale == self.spec_cache_stale(),
    {
        match self {
            ServiceErrorDomain::Cache => true,
            _ => false,
        }
    }
}

/// The service that reports an error.
#[derive(Clone, Copy, Debug, PartialEq, Eq, Structural)]
pub enum ServiceErrorSource {
    /// The runtime of the fungible contract.
    FungibleContract,
    /// The stash, or the channel that requests arrive on.
    Stash,
}

impl ServiceErrorSource {
    pub open spec fn spec_name(self) -> Seq<char> {
        match self {
            ServiceErrorSource::FungibleContract => "fungible"@,
            ServiceErrorSource::Stash => "stash"@,
        }
    }

    /// The name of the service.
    pub fn name(self) -> (name: String)
        ensures
            name@ == self.spec_name(),
    {
        match self {
            ServiceErrorSource::FungibleContract => String::from_str("fungible"),
            ServiceErrorSource::Stash => String::from_str("stash"),
        }
    }
}

/// An error as a client receives it.
#[derive(Clone, Copy, Debug, PartialEq, Eq, Structural)]
pub struct ServiceError {
    pub domain: ServiceErrorDomain,
    pub service: ServiceErrorSource,
}

impl ServiceError {
    /// An error of a handler of the fungible contract.
    pub open spec fn spec_contract(domain: ServiceErrorDomain) -> ServiceError {
        ServiceError { domain, service: ServiceErrorSource::FungibleContract }
    }

    #[verifier::when_used_as_spec(spec_contract)]
    pub fn contract(domain: ServiceErrorDomain) -> (error: ServiceError)
        ensures
            error == Self::spec_contract(domain),
    {
        ServiceError { domain, service: ServiceErrorSource::FungibleContract }
    }

    pub open spec fn spec_message(self) -> Seq<char> {
        self.service.spec_name() + ": "@ + self.domain.spec_message()
    }

    /// The message of a failure reply: the service, then the error in words.
    pub fn message(self) -> (text: String)
        ensures
            text@ == self.spec_message(),
    {
        let domain_text = self.domain.message();
        self.service.name().concat(": ").concat(domain_text.as_str())
    }

    /// The error for bytes on the request channel that decode to no request.
    pub open spec fn spec_from_rpc() -> ServiceError {
        ServiceError {
            domain: ServiceErrorDomain::Api(ApiErrorType::MalformedRequest),
            service: ServiceErrorSource::Stash,
        }
    }

    #[verifier::when_used_as_spec(spec_from_rpc)]
    pub fn from_rpc() -> (error: ServiceError)
        ensures
            error == Self::spec_from_rpc(),
    {
        ServiceError {
            domain: ServiceErrorDomain::Api(ApiErrorType::MalformedRequest),
            service: ServiceErrorSource::Stash,
        }
    }
}

/// Why the runtime cannot start.
#[derive(Clone, Copy, Debug, PartialEq, Eq, Structural)]
pub enum BootstrapError {
    /// The stored cache holds two records under one identifier.
    DuplicateAsset,
}

/// Why the server loop ends.
#[derive(Clone, Copy, Debug, PartialEq, Eq, Structural)]
pub enum RuntimeError {
    /// The channel on which requests arrive and replies leave has failed.
    Transport,
}

} // verus!

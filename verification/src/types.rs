//! Plain values shared by the asset records, the requests and the processor:
//! networks, export formats, transaction outputs and the amounts bound to them.

use vstd::prelude::*;
use crate::digest::Hash32;

verus! {

/// Identifier of an asset contract: the digest of its genesis record.
pub type ContractId = Hash32;

/// The ledger that a contract is anchored to. A private network is told
/// from others by the hash of its first block.
#[derive(Clone, Copy, Debug, PartialEq, Eq)]
pub enum Network {
    Mainnet,
    Testnet,
    Regtest(Hash32),
    Signet,
    SignetCustom(Hash32),
    LiquidV1,
}

/// Serialization format in which the cache is exported to clients.
#[derive(Clone, Copy, Debug, PartialEq, Eq, Structural)]
pub enum DataFormat {
    Yaml,
    Json,
    Toml,
}

/// A transaction output: the seal that an allocation is bound to.
#[derive(Clone, Copy, Debug, PartialEq, Eq, Hash)]
pub struct OutPoint {
    pub txid: Hash32,
    pub vout: u32,
}

impl OutPoint {
    pub fn new(txid: Hash32, vout: u32) -> (out: OutPoint)
        ensures
            out == (OutPoint { txid, vout }),
    {
        OutPoint { txid, vout }
    }

    /// Field-wise comparison.
    pub fn same(&self, other: &OutPoint) -> (eq: bool)
        ensures
            eq == (*self == *other),
    {
        self.vout == other.vout && self.txid.same(&other.txid)
    }
}

/// An amount of the asset bound to a known transaction output.
#[derive(Clone, Copy, Debug, PartialEq, Eq, Hash)]
pub struct Allocation {
    pub seal: OutPoint,
    pub amount: u64,
}

impl Allocation {
    pub fn new(seal: OutPoint, amount: u64) -> (out: Allocation)
        ensures
            out == (Allocation { seal, amount }),
    {
        Allocation { seal, amount }
    }
}

/// An amount bound to an output that only its receiver can name: the library
/// sees the digest that conceals the seal, never the seal.
#[derive(Clone, Copy, Debug, PartialEq, Eq, Hash)]
pub struct ConcealedAllocation {
    pub seal_hash: Hash32,
    pub amount: u64,
}

impl ConcealedAllocation {
    pub fn new(seal_hash: Hash32, amount: u64) -> (out: ConcealedAllocation)
        ensures
            out == (ConcealedAllocation { seal_hash, amount }),
    {
        ConcealedAllocation { seal_hash, amount }
    }
}

/// How the supply of an asset comes into being.
#[derive(Clone, Copy, Debug, PartialEq, Eq)]
pub enum IssueStructure {
    /// Fixed supply, created by the genesis alone.
    SingleIssue,
    /// Supply that may grow up to `max_supply` under the control of the
    /// owner of `reissue_control`.
    MultipleIssues { max_supply: u64, reissue_control: OutPoint },
}

/// Sum of the amounts of known allocations.
pub open spec fn total_amount(allocations: Seq<Allocation>) -> nat
    decreases allocations.len(),
{
    if allocations.len() == 0 {
        0
    } else {
        total_amount(allocations.drop_last()) + allocations.last().amount as nat
    }
}

/// Sum of the amounts of concealed allocations.
pub open spec fn total_concealed(allocations: Seq<ConcealedAllocation>) -> nat
    decreases allocations.len(),
{
    if allocations.len() == 0 {
        0
    } else {
        total_concealed(allocations.drop_last()) + allocations.last().amount as nat
    }
}

/// Adds up the amounts of `allocations`. The sum of at most `usize::MAX`
/// amounts of 64 bits always fits in 128 bits.
pub fn sum_amounts(allocations: &Vec<Allocation>) -> (sum: u128)
    ensures
        sum == total_amount(allocations@),
{
    let mut sum: u128 = 0;
    let mut i: usize = 0;
    while i < allocations.len()
        invariant
            i <= allocations.len(),
            sum == total_amount(allocations@.take(i as int)),
            sum <= i * 0xffff_ffff_ffff_ffff,
        decreases allocations.len() - i,
    {
        proof {
            let next = allocations@.take(i + 1);
            assert(next.drop_last() =~= allocations@.take(i as int));
            assert(next.last() == allocations@[i as int]);
            assert((i + 1) * 0xffff_ffff_ffff_ffff == i * 0xffff_ffff_ffff_ffff
                + 0xffff_ffff_ffff_ffff) by (nonlinear_arith);
            assert(i * 0xffff_ffff_ffff_ffff <= 0xffff_ffff_ffff_ffff * 0xffff_ffff_ffff_ffff)
                by (nonlinear_arith)
                requires
                    i <= 0xffff_ffff_ffff_ffff,
            ;
        }
        sum = sum + allocations[i].amount as u128;
        i += 1;
    }
    proof {
        assert(allocations@.take(i as int) =~= allocations@);
    }
    sum
}

/// Adds up the amounts of concealed `allocations`.
pub fn sum_concealed(allocations: &Vec<ConcealedAllocation>) -> (sum: u128)
    ensures
        sum == total_concealed(allocations@),
{
    let mut sum: u128 = 0;
    let mut i: usize = 0;
    while i < allocations.len()
        invariant
            i <= allocations.len(),
            sum == total_concealed(allocations@.take(i as int)),
            sum <= i * 0xffff_ffff_ffff_ffff,
        decreases allocations.len() - i,
    {
        proof {
            let next = allocations@.take(i + 1);
            assert(next.drop_last() =~= allocations@.take(i as int));
            assert(next.last() == allocations@[i as int]);
            assert((i + 1) * 0xffff_ffff_ffff_ffff == i * 0xffff_ffff_ffff_ffff
                + 0xffff_ffff_ffff_ffff) by (nonlinear_arith);
            assert(i * 0xffff_ffff_ffff_ffff <= 0xffff_ffff_ffff_ffff * 0xffff_ffff_ffff_ffff)
                by (nonlinear_arith)
                requires
                    i <= 0xffff_ffff_ffff_ffff,
            ;
        }
        sum = sum + allocations[i].amount as u128;
        i += 1;
    }
    proof {
        assert(allocations@.take(i as int) =~= allocations@);
    }
    sum
}

} // verus!

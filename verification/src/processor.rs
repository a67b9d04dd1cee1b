//! The contract processor: what an issue or a transfer does to an asset,
//! computed from values alone. It sends nothing and stores nothing.

use vstd::prelude::*;
use crate::asset::{
    asset_of, copy_list, genesis_error, Asset, AssetView, Genesis, GenesisView,
    optional_text_view,
};
use crate::digest::{sha256_digest, Hash32};
use crate::encoding::{
    allocations_bytes, concealed_list_bytes, outpoints_bytes, put_allocations,
    put_concealed_list, put_hash, put_outpoints,
};
use crate::error::{ContractError, ServiceErrorDomain};
use crate::types::{
    sum_amounts, sum_concealed, total_amount, total_concealed, Allocation, ConcealedAllocation,
    ContractId, IssueStructure, Network, OutPoint,
};

verus! {

/// A partially signed transaction: the skeleton that a transfer is anchored
/// to, and the commitments to state transitions that it carries so far.
#[derive(Clone, Debug, PartialEq, Eq)]
pub struct Psbt {
    pub unsigned_tx: Vec<u8>,
    pub commitments: Vec<Hash32>,
}

impl Psbt {
    /// A copy of the transaction.
    pub fn duplicate(&self) -> (out: Psbt)
        ensures
            out.unsigned_tx@ == self.unsigned_tx@,
            out.commitments@ == self.commitments@,
    {
        Psbt {
            unsigned_tx: copy_list(&self.unsigned_tx),
            commitments: copy_list(&self.commitments),
        }
    }
}

/// A state transition of an asset: the allocations it consumes and those it
/// creates.
#[derive(Clone, Debug, PartialEq, Eq)]
pub struct Transition {
    pub contract_id: ContractId,
    pub inputs: Vec<OutPoint>,
    pub ours: Vec<Allocation>,
    pub theirs: Vec<ConcealedAllocation>,
}

/// A state transition as a mathematical value.
pub struct TransitionView {
    pub contract_id: Seq<u8>,
    pub inputs: Seq<OutPoint>,
    pub ours: Seq<Allocation>,
    pub theirs: Seq<ConcealedAllocation>,
}

impl View for Transition {
    type V = TransitionView;

    open spec fn view(&self) -> TransitionView {
        TransitionView {
            contract_id: self.contract_id@,
            inputs: self.inputs@,
            ours: self.ours@,
            theirs: self.theirs@,
        }
    }
}

/// Whether a state transition names its contract by 32 bytes and the
/// lengths in it can be written in 64 bits, as every transition does that a
/// machine holds.
pub open spec fn transition_fits(transition: TransitionView) -> bool {
    &&& transition.contract_id.len() == 32
    &&& transition.inputs.len() <= u64::MAX
    &&& transition.ours.len() <= u64::MAX
    &&& transition.theirs.len() <= u64::MAX
}

/// The bytes that a state transition is committed to.
pub open spec fn transition_bytes(transition: TransitionView) -> Seq<u8> {
    transition.contract_id + outpoints_bytes(transition.inputs) + allocations_bytes(
        transition.ours,
    ) + concealed_list_bytes(transition.theirs)
}

/// The commitment to a state transition: the digest of its bytes.
pub open spec fn transition_id_of(transition: TransitionView) -> Seq<u8> {
    sha256_digest(transition_bytes(transition))
}

impl Transition {
    /// The bytes that the transition is committed to.
    pub fn commitment(&self) -> (out: Vec<u8>)
        ensures
            out@ == transition_bytes(self@),
            transition_fits(self@),
    {
        let mut out: Vec<u8> = Vec::new();
        put_hash(&mut out, &self.contract_id);
        put_outpoints(&mut out, &self.inputs);
        put_allocations(&mut out, &self.ours);
        put_concealed_list(&mut out, &self.theirs);
        assert(out@ =~= transition_bytes(self@));
        out
    }

    /// The commitment to the transition.
    pub fn transition_id(&self) -> (id: Hash32)
        ensures
            id@ == transition_id_of(self@),
    {
        let bytes = self.commitment();
        Hash32::digest(bytes.as_slice())
    }
}

/// What a transfer hands to the counterparty: the transition and the
/// commitment that anchors it.
#[derive(Clone, Debug, PartialEq, Eq)]
pub struct Consignment {
    pub contract_id: ContractId,
    pub transition: Transition,
    pub transition_id: Hash32,
}

/// Whether `seal` carries an allocation of the asset.
pub open spec fn seal_allocated(allocations: Seq<Allocation>, seal: OutPoint) -> bool {
    exists|i: int| 0 <= i < allocations.len() && (#[trigger] allocations[i]).seal == seal
}

/// Whether every input carries an allocation of the asset.
pub open spec fn inputs_known(allocations: Seq<Allocation>, inputs: Seq<OutPoint>) -> bool {
    forall|i: int| 0 <= i < inputs.len() ==> seal_allocated(allocations, #[trigger] inputs[i])
}

/// The test for an allocation that `inputs` consume.
pub open spec fn spent_by(inputs: Seq<OutPoint>) -> spec_fn(Allocation) -> bool {
    |allocation: Allocation| inputs.contains(allocation.seal)
}

/// The test for an allocation that `inputs` leave alone.
pub open spec fn kept_by(inputs: Seq<OutPoint>) -> spec_fn(Allocation) -> bool {
    |allocation: Allocation| !inputs.contains(allocation.seal)
}

/// The allocations that `inputs` consume, each of them once.
pub open spec fn consumed(allocations: Seq<Allocation>, inputs: Seq<OutPoint>) -> Seq<
    Allocation,
> {
    allocations.filter(spent_by(inputs))
}

/// The allocations that `inputs` leave alone.
pub open spec fn remaining(allocations: Seq<Allocation>, inputs: Seq<OutPoint>) -> Seq<
    Allocation,
> {
    allocations.filter(kept_by(inputs))
}

/// Whether a transfer hands out no more than its inputs hold.
pub open spec fn conserves_amount(
    allocations: Seq<Allocation>,
    inputs: Seq<OutPoint>,
    ours: Seq<Allocation>,
    theirs: Seq<ConcealedAllocation>,
) -> bool {
    total_amount(ours) + total_concealed(theirs) <= total_amount(consumed(allocations, inputs))
}

/// The rule that a transfer breaks, if it breaks one: every input must carry
/// an allocation of the asset, and the outputs must not exceed the inputs.
pub open spec fn transfer_error(
    allocations: Seq<Allocation>,
    inputs: Seq<OutPoint>,
    ours: Seq<Allocation>,
    theirs: Seq<ConcealedAllocation>,
) -> Option<ContractError> {
    if !inputs_known(allocations, inputs) {
        Some(ContractError::UnknownInput)
    } else if !conserves_amount(allocations, inputs, ours, theirs) {
        Some(ContractError::AmountNotConserved)
    } else {
        None
    }
}

/// The asset after a transfer: the consumed allocations are gone, ours have
/// joined the known ones, and nothing else has changed.
pub open spec fn asset_after_transfer(
    asset: AssetView,
    inputs: Seq<OutPoint>,
    ours: Seq<Allocation>,
) -> AssetView {
    AssetView { allocations: remaining(asset.allocations, inputs) + ours, ..asset }
}

/// The genesis record that the arguments of an issue describe.
pub open spec fn genesis_for(
    network: Network,
    ticker: Seq<char>,
    title: Seq<char>,
    description: Option<Seq<char>>,
    issue_structure: IssueStructure,
    allocations: Seq<Allocation>,
    precision: u8,
    dust_limit: Option<u64>,
) -> GenesisView {
    GenesisView {
        network,
        ticker,
        title,
        description,
        precision,
        issue_structure,
        allocations,
        dust_limit,
    }
}

/// Whether `list` names `seal`.
pub fn contains_outpoint(list: &Vec<OutPoint>, seal: &OutPoint) -> (found: bool)
    ensures
        found == list@.contains(*seal),
{
    let mut i: usize = 0;
    while i < list.len()
        invariant
            i <= list.len(),
            forall|j: int| 0 <= j < i ==> list@[j] != *seal,
        decreases list.len() - i,
    {
        if list[i].same(seal) {
            return true;
        }
        i += 1;
    }
    false
}

/// Whether `seal` carries one of `allocations`.
pub fn is_allocated(allocations: &Vec<Allocation>, seal: &OutPoint) -> (found: bool)
    ensures
        found == seal_allocated(allocations@, *seal),
{
    let mut i: usize = 0;
    while i < allocations.len()
        invariant
            i <= allocations.len(),
            forall|j: int| 0 <= j < i ==> (#[trigger] allocations@[j]).seal != *seal,
        decreases allocations.len() - i,
    {
        if allocations[i].seal.same(seal) {
            return true;
        }
        i += 1;
    }
    false
}

/// Whether every one of `inputs` carries one of `allocations`.
pub fn all_inputs_known(allocations: &Vec<Allocation>, inputs: &Vec<OutPoint>) -> (known: bool)
    ensures
        known == inputs_known(allocations@, inputs@),
{
    let mut i: usize = 0;
    while i < inputs.len()
        invariant
            i <= inputs.len(),
            forall|j: int| 0 <= j < i ==> seal_allocated(allocations@, #[trigger] inputs@[j]),
        decreases inputs.len() - i,
    {
        if !is_allocated(allocations, &inputs[i]) {
            return false;
        }
        i += 1;
    }
    true
}

/// Splits `allocations` into those that `inputs` leave alone, which are
/// returned in their order, and those that they consume, whose amounts are
/// added up.
pub fn split_allocations(allocations: &Vec<Allocation>, inputs: &Vec<OutPoint>) -> (out: (
    Vec<Allocation>,
    u128,
))
    ensures
        out.0@ == remaining(allocations@, inputs@),
        out.1 == total_amount(consumed(allocations@, inputs@)),
{
    let mut kept: Vec<Allocation> = Vec::new();
    let mut spent: u128 = 0;
    let mut i: usize = 0;
    proof {
        reveal(Seq::filter);
        assert(allocations@.take(0) =~= Seq::<Allocation>::empty());
    }
    while i < allocations.len()
        invariant
            i <= allocations.len(),
            kept@ == remaining(allocations@.take(i as int), inputs@),
            spent == total_amount(consumed(allocations@.take(i as int), inputs@)),
            consumed(allocations@.take(i as int), inputs@).len() <= i,
            spent <= i * 0xffff_ffff_ffff_ffff,
        decreases allocations.len() - i,
    {
        let allocation = allocations[i];
        let is_spent = contains_outpoint(inputs, &allocation.seal);
        proof {
            reveal(Seq::filter);
            let next = allocations@.take(i + 1);
            assert(next.drop_last() =~= allocations@.take(i as int));
            assert(next.last() == allocation);
            let before = consumed(allocations@.take(i as int), inputs@);
            if is_spent {
                assert(consumed(next, inputs@) == before.push(allocation));
                assert(before.push(allocation).drop_last() =~= before);
                assert(remaining(next, inputs@) == remaining(next.drop_last(), inputs@));
            } else {
                assert(consumed(next, inputs@) == before);
                assert(remaining(next, inputs@) == remaining(next.drop_last(), inputs@).push(
                    allocation,
                ));
            }
            assert((i + 1) * 0xffff_ffff_ffff_ffff == i * 0xffff_ffff_ffff_ffff
                + 0xffff_ffff_ffff_ffff) by (nonlinear_arith);
            assert(i * 0xffff_ffff_ffff_ffff <= 0xffff_ffff_ffff_ffff * 0xffff_ffff_ffff_ffff)
                by (nonlinear_arith)
                requires
                    i <= 0xffff_ffff_ffff_ffff,
            ;
        }
        if is_spent {
            spent = spent + allocation.amount as u128;
        } else {
            kept.push(allocation);
        }
        i += 1;
    }
    proof {
        assert(allocations@.take(i as int) =~= allocations@);
    }
    (kept, spent)
}

/// Appends the items of `tail` to `head`.
pub fn append_list<T: Copy>(head: &mut Vec<T>, tail: &Vec<T>)
    ensures
        final(head)@ == old(head)@ + tail@,
{
    let mut i: usize = 0;
    while i < tail.len()
        invariant
            i <= tail.len(),
            head@ == old(head)@ + tail@.take(i as int),
        decreases tail.len() - i,
    {
        head.push(tail[i]);
        i += 1;
        assert(head@ =~= old(head)@ + tail@.take(i as int));
    }
    assert(tail@.take(i as int) =~= tail@);
}

/// The contract processor.
#[derive(Clone, Copy, Debug, PartialEq, Eq, Structural)]
pub struct Processor {}

impl Processor {
    pub fn new() -> (processor: Processor) {
        Processor {  }
    }

    /// Builds the genesis record that the arguments describe and the asset
    /// that it creates. Fails exactly when the record breaks a rule, with
    /// that rule as the error.
    pub fn issue(
        &self,
        network: Network,
        ticker: String,
        title: String,
        description: Option<String>,
        issue_structure: IssueStructure,
        allocations: Vec<Allocation>,
        precision: u8,
        dust_limit: Option<u64>,
    ) -> (out: Result<(Asset, Genesis), ServiceErrorDomain>)
        ensures
            ({
                let genesis = genesis_for(
                    network,
                    ticker@,
                    title@,
                    optional_text_view(description),
                    issue_structure,
                    allocations@,
                    precision,
                    dust_limit,
                );
                match genesis_error(genesis) {
                    None => out matches Ok(pair) && pair.1@ == genesis && pair.0@ == asset_of(
                        genesis,
                    ),
                    Some(rule) => out matches Err(error) && error
                        == ServiceErrorDomain::Contract(rule),
                }
            }),
    {
        let genesis = Genesis {
            network,
            ticker,
            title,
            description,
            precision,
            issue_structure,
            allocations,
            dust_limit,
        };
        match Asset::try_from_genesis(&genesis) {
            Ok(asset) => Ok((asset, genesis)),
            Err(error) => Err(error),
        }
    }

    /// Moves amounts of `asset` from the allocations under `inputs` to `ours`
    /// and `theirs`, and anchors the transition in `psbt`.
    ///
    /// Fails, and changes nothing, exactly when an input carries no
    /// allocation of the asset or the outputs exceed what the inputs hold.
    /// Otherwise the consumed allocations leave the asset, `ours` join it,
    /// `psbt` gains the commitment to the transition, and the consignment
    /// for the counterparty is returned.
    pub fn transfer(
        &self,
        asset: &mut Asset,
        psbt: &mut Psbt,
        inputs: Vec<OutPoint>,
        ours: Vec<Allocation>,
        theirs: Vec<ConcealedAllocation>,
    ) -> (out: Result<Consignment, ServiceErrorDomain>)
        ensures
            final(psbt).unsigned_tx@ == old(psbt).unsigned_tx@,
            match transfer_error(old(asset)@.allocations, inputs@, ours@, theirs@) {
                None => {
                    &&& out matches Ok(consignment)
                    &&& consignment.contract_id@ == old(asset)@.id
                    &&& consignment.transition@ == (TransitionView {
                        contract_id: old(asset)@.id,
                        inputs: inputs@,
                        ours: ours@,
                        theirs: theirs@,
                    })
                    &&& consignment.transition_id@ == transition_id_of(consignment.transition@)
                    &&& final(asset)@ == asset_after_transfer(old(asset)@, inputs@, ours@)
                    &&& final(psbt).commitments@ == old(psbt).commitments@.push(
                        consignment.transition_id,
                    )
                },
                Some(rule) => {
                    &&& out matches Err(error)
                    &&& error == ServiceErrorDomain::Contract(rule)
                    &&& final(asset)@ == old(asset)@
                    &&& final(psbt).commitments@ == old(psbt).commitments@
                },
            },
    {
        if !all_inputs_known(&asset.allocations, &inputs) {
            return Err(ServiceErrorDomain::Contract(ContractError::UnknownInput));
        }
        let (kept, spent) = split_allocations(&asset.allocations, &inputs);
        let to_us = sum_amounts(&ours);
        let to_them = sum_concealed(&theirs);
        if to_us > spent || to_them > spent - to_us {
            return Err(ServiceErrorDomain::Contract(ContractError::AmountNotConserved));
        }
        let mut allocations = kept;
        append_list(&mut allocations, &ours);
        let transition = Transition { contract_id: asset.id, inputs, ours, theirs };
        let transition_id = transition.transition_id();
        asset.allocations = allocations;
        psbt.commitments.push(transition_id);
        Ok(Consignment { contract_id: asset.id, transition, transition_id })
    }
}

/// A transfer that the processor accepts hands out no more than its inputs
/// hold, and one that hands out more is refused as a breach of the contract.
pub proof fn lemma_transfer_conserves_amount(
    allocations: Seq<Allocation>,
    inputs: Seq<OutPoint>,
    ours: Seq<Allocation>,
    theirs: Seq<ConcealedAllocation>,
)
    ensures
        transfer_error(allocations, inputs, ours, theirs) is None ==> total_amount(ours)
            + total_concealed(theirs) <= total_amount(consumed(allocations, inputs)),
        total_amount(ours) + total_concealed(theirs) > total_amount(
            consumed(allocations, inputs),
        ) ==> transfer_error(allocations, inputs, ours, theirs) is Some,
{
}

} // verus!

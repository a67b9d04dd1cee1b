//! The canonical byte strings that records are committed to. A record's
//! identifier is the digest of these bytes, so the layout is part of the
//! library's interface: every field has a fixed place, integers are
//! little-endian, and every variable-length part is preceded by its length.

use vstd::prelude::*;
use vstd::bytes::{spec_u32_to_le_bytes, spec_u64_to_le_bytes, u32_to_le_bytes, u64_to_le_bytes};
use vstd::utf8::encode_utf8;
use crate::digest::Hash32;
use crate::types::{Allocation, ConcealedAllocation, IssueStructure, Network, OutPoint};

verus! {

/// Whether the length of a text's encoding can be written in 64 bits, as it
/// can for every text that a machine holds.
pub open spec fn text_fits(text: Seq<char>) -> bool {
    encode_utf8(text).len() <= u64::MAX
}

/// A text: the length of its UTF-8 encoding in bytes, then the encoding.
pub open spec fn text_bytes(text: Seq<char>) -> Seq<u8> {
    let utf8 = encode_utf8(text);
    spec_u64_to_le_bytes(utf8.len() as u64) + utf8
}

/// An optional text: a byte that says whether it is present, then the text.
pub open spec fn optional_text_bytes(text: Option<Seq<char>>) -> Seq<u8> {
    match text {
        None => seq![0u8],
        Some(t) => seq![1u8] + text_bytes(t),
    }
}

/// An optional amount: a byte that says whether it is present, then the amount.
pub open spec fn optional_u64_bytes(value: Option<u64>) -> Seq<u8> {
    match value {
        None => seq![0u8],
        Some(v) => seq![1u8] + spec_u64_to_le_bytes(v),
    }
}

/// A network: a tag, then the hash of the first block of a private network.
pub open spec fn network_bytes(network: Network) -> Seq<u8> {
    match network {
        Network::Mainnet => seq![0u8],
        Network::Testnet => seq![1u8],
        Network::Regtest(genesis_hash) => seq![2u8] + genesis_hash@,
        Network::Signet => seq![3u8],
        Network::SignetCustom(genesis_hash) => seq![4u8] + genesis_hash@,
        Network::LiquidV1 => seq![5u8],
    }
}

/// A transaction output: the 32 bytes of the transaction id, then the index.
pub open spec fn outpoint_bytes(outpoint: OutPoint) -> Seq<u8> {
    outpoint.txid@ + spec_u32_to_le_bytes(outpoint.vout)
}

/// An allocation: its seal, then its amount.
pub open spec fn allocation_bytes(allocation: Allocation) -> Seq<u8> {
    outpoint_bytes(allocation.seal) + spec_u64_to_le_bytes(allocation.amount)
}

/// A concealed allocation: the digest of its seal, then its amount.
pub open spec fn concealed_bytes(allocation: ConcealedAllocation) -> Seq<u8> {
    allocation.seal_hash@ + spec_u64_to_le_bytes(allocation.amount)
}

/// The issue structure: a tag, then the bound and the control seal of an
/// inflatable asset.
pub open spec fn issue_structure_bytes(structure: IssueStructure) -> Seq<u8> {
    match structure {
        IssueStructure::SingleIssue => seq![0u8],
        IssueStructure::MultipleIssues { max_supply, reissue_control } => seq![1u8]
            + spec_u64_to_le_bytes(max_supply) + outpoint_bytes(reissue_control),
    }
}

/// The items of a list, one after the other, each as `item` writes it.
pub open spec fn items_bytes<T>(items: Seq<T>, item: spec_fn(T) -> Seq<u8>) -> Seq<u8>
    decreases items.len(),
{
    if items.len() == 0 {
        seq![]
    } else {
        items_bytes(items.drop_last(), item) + item(items.last())
    }
}

/// A list: the number of its items, then each of them.
pub open spec fn list_bytes<T>(items: Seq<T>, item: spec_fn(T) -> Seq<u8>) -> Seq<u8> {
    spec_u64_to_le_bytes(items.len() as u64) + items_bytes(items, item)
}

/// A list of transaction outputs: their number, then each of them.
pub open spec fn outpoints_bytes(items: Seq<OutPoint>) -> Seq<u8> {
    list_bytes(items, |outpoint: OutPoint| outpoint_bytes(outpoint))
}

/// A list of allocations: their number, then each of them.
pub open spec fn allocations_bytes(items: Seq<Allocation>) -> Seq<u8> {
    list_bytes(items, |allocation: Allocation| allocation_bytes(allocation))
}

/// A list of concealed allocations: their number, then each of them.
pub open spec fn concealed_list_bytes(items: Seq<ConcealedAllocation>) -> Seq<u8> {
    list_bytes(items, |allocation: ConcealedAllocation| concealed_bytes(allocation))
}

/// Appends one byte.
pub fn put_u8(out: &mut Vec<u8>, value: u8)
    ensures
        final(out)@ == old(out)@ + seq![value],
{
    out.push(value);
    assert(out@ =~= old(out)@ + seq![value]);
}

/// Appends the bytes of `src` as they are.
pub fn put_raw(out: &mut Vec<u8>, src: &[u8])
    ensures
        final(out)@ == old(out)@ + src@,
{
    let mut i: usize = 0;
    while i < src.len()
        invariant
            i <= src.len(),
            out@ == old(out)@ + src@.take(i as int),
        decreases src.len() - i,
    {
        out.push(src[i]);
        i += 1;
        assert(out@ =~= old(out)@ + src@.take(i as int));
    }
    assert(src@.take(i as int) =~= src@);
}

/// Appends a 32-bit integer, little-endian.
pub fn put_u32(out: &mut Vec<u8>, value: u32)
    ensures
        final(out)@ == old(out)@ + spec_u32_to_le_bytes(value),
{
    let bytes = u32_to_le_bytes(value);
    put_raw(out, bytes.as_slice());
}

/// Appends a 64-bit integer, little-endian.
pub fn put_u64(out: &mut Vec<u8>, value: u64)
    ensures
        final(out)@ == old(out)@ + spec_u64_to_le_bytes(value),
{
    let bytes = u64_to_le_bytes(value);
    put_raw(out, bytes.as_slice());
}

/// Appends a 32-byte value.
pub fn put_hash(out: &mut Vec<u8>, value: &Hash32)
    ensures
        final(out)@ == old(out)@ + value@,
        value@.len() == 32,
{
    put_raw(out, value.bytes.as_slice());
}

/// Appends a network.
pub fn put_network(out: &mut Vec<u8>, network: &Network)
    ensures
        final(out)@ == old(out)@ + network_bytes(*network),
{
    match network {
        Network::Mainnet => {
            put_u8(out, 0u8);
        },
        Network::Testnet => {
            put_u8(out, 1u8);
        },
        Network::Regtest(genesis_hash) => {
            put_u8(out, 2u8);
            put_hash(out, genesis_hash);
            assert(out@ =~= old(out)@ + network_bytes(*network));
        },
        Network::Signet => {
            put_u8(out, 3u8);
        },
        Network::SignetCustom(genesis_hash) => {
            put_u8(out, 4u8);
            put_hash(out, genesis_hash);
            assert(out@ =~= old(out)@ + network_bytes(*network));
        },
        Network::LiquidV1 => {
            put_u8(out, 5u8);
        },
    }
}

/// Appends a text.
pub fn put_text(out: &mut Vec<u8>, text: &String)
    ensures
        final(out)@ == old(out)@ + text_bytes(text@),
        text_fits(text@),
{
    let utf8 = text.as_str().as_bytes();
    put_u64(out, utf8.len() as u64);
    put_raw(out, utf8);
    assert(out@ =~= old(out)@ + text_bytes(text@));
}

/// Appends an optional text.
pub fn put_optional_text(out: &mut Vec<u8>, text: &Option<String>)
    ensures
        final(out)@ == old(out)@ + optional_text_bytes(
            match *text {
                None => None,
                Some(t) => Some(t@),
            },
        ),
        *text matches Some(t) ==> text_fits(t@),
{
    match text {
        None => {
            put_u8(out, 0u8);
        },
        Some(t) => {
            put_u8(out, 1u8);
            put_text(out, t);
            assert(out@ =~= old(out)@ + (seq![1u8] + text_bytes(t@)));
        },
    }
}

/// Appends an optional amount.
pub fn put_optional_u64(out: &mut Vec<u8>, value: Option<u64>)
    ensures
        final(out)@ == old(out)@ + optional_u64_bytes(value),
{
    match value {
        None => {
            put_u8(out, 0u8);
        },
        Some(v) => {
            put_u8(out, 1u8);
            put_u64(out, v);
            assert(out@ =~= old(out)@ + (seq![1u8] + spec_u64_to_le_bytes(v)));
        },
    }
}

/// Appends a transaction output.
pub fn put_outpoint(out: &mut Vec<u8>, outpoint: &OutPoint)
    ensures
        final(out)@ == old(out)@ + outpoint_bytes(*outpoint),
{
    put_hash(out, &outpoint.txid);
    put_u32(out, outpoint.vout);
    assert(out@ =~= old(out)@ + outpoint_bytes(*outpoint));
}

/// Appends an allocation.
pub fn put_allocation(out: &mut Vec<u8>, allocation: &Allocation)
    ensures
        final(out)@ == old(out)@ + allocation_bytes(*allocation),
{
    put_outpoint(out, &allocation.seal);
    put_u64(out, allocation.amount);
    assert(out@ =~= old(out)@ + allocation_bytes(*allocation));
}

/// Appends a concealed allocation.
pub fn put_concealed(out: &mut Vec<u8>, allocation: &ConcealedAllocation)
    ensures
        final(out)@ == old(out)@ + concealed_bytes(*allocation),
{
    put_hash(out, &allocation.seal_hash);
    put_u64(out, allocation.amount);
    assert(out@ =~= old(out)@ + concealed_bytes(*allocation));
}

/// Appends an issue structure.
pub fn put_issue_structure(out: &mut Vec<u8>, structure: &IssueStructure)
    ensures
        final(out)@ == old(out)@ + issue_structure_bytes(*structure),
{
    match structure {
        IssueStructure::SingleIssue => {
            put_u8(out, 0u8);
        },
        IssueStructure::MultipleIssues { max_supply, reissue_control } => {
            put_u8(out, 1u8);
            put_u64(out, *max_supply);
            put_outpoint(out, reissue_control);
            assert(out@ =~= old(out)@ + issue_structure_bytes(*structure));
        },
    }
}

/// Appends a list of transaction outputs.
pub fn put_outpoints(out: &mut Vec<u8>, items: &Vec<OutPoint>)
    ensures
        final(out)@ == old(out)@ + outpoints_bytes(items@),
        items@.len() <= u64::MAX,
{
    put_u64(out, items.len() as u64);
    let ghost head = out@;
    let mut i: usize = 0;
    while i < items.len()
        invariant
            i <= items.len(),
            out@ == head + items_bytes(
                items@.take(i as int),
                |outpoint: OutPoint| outpoint_bytes(outpoint),
            ),
        decreases items.len() - i,
    {
        put_outpoint(out, &items[i]);
        proof {
            let next = items@.take(i + 1);
            assert(next.drop_last() =~= items@.take(i as int));
            assert(next.last() == items@[i as int]);
            assert(out@ =~= head + items_bytes(next, |outpoint: OutPoint| outpoint_bytes(outpoint)));
        }
        i += 1;
    }
    assert(items@.take(i as int) =~= items@);
    assert(out@ =~= old(out)@ + outpoints_bytes(items@));
}

/// Appends a list of allocations.
pub fn put_allocations(out: &mut Vec<u8>, items: &Vec<Allocation>)
    ensures
        final(out)@ == old(out)@ + allocations_bytes(items@),
        items@.len() <= u64::MAX,
{
    put_u64(out, items.len() as u64);
    let ghost head = out@;
    let mut i: usize = 0;
    while i < items.len()
        invariant
            i <= items.len(),
            out@ == head + items_bytes(
                items@.take(i as int),
                |allocation: Allocation| allocation_bytes(allocation),
            ),
        decreases items.len() - i,
    {
        put_allocation(out, &items[i]);
        proof {
            let next = items@.take(i + 1);
            assert(next.drop_last() =~= items@.take(i as int));
            assert(next.last() == items@[i as int]);
            assert(out@ =~= head + items_bytes(
                next,
                |allocation: Allocation| allocation_bytes(allocation),
            ));
        }
        i += 1;
    }
    assert(items@.take(i as int) =~= items@);
    assert(out@ =~= old(out)@ + allocations_bytes(items@));
}

/// Appends a list of concealed allocations.
pub fn put_concealed_list(out: &mut Vec<u8>, items: &Vec<ConcealedAllocation>)
    ensures
        final(out)@ == old(out)@ + concealed_list_bytes(items@),
        items@.len() <= u64::MAX,
{
    put_u64(out, items.len() as u64);
    let ghost head = out@;
    let mut i: usize = 0;
    while i < items.len()
        invariant
            i <= items.len(),
            out@ == head + items_bytes(
                items@.take(i as int),
                |allocation: ConcealedAllocation| concealed_bytes(allocation),
            ),
        decreases items.len() - i,
    {
        put_concealed(out, &items[i]);
        proof {
            let next = items@.take(i + 1);
            assert(next.drop_last() =~= items@.take(i as int));
            assert(next.last() == items@[i as int]);
            assert(out@ =~= head + items_bytes(
                next,
                |allocation: ConcealedAllocation| concealed_bytes(allocation),
            ));
        }
        i += 1;
    }
    assert(items@.take(i as int) =~= items@);
    assert(out@ =~= old(out)@ + concealed_list_bytes(items@));
}

} // verus!

//! The commitment bytes tell records apart: two genesis records, or two
//! state transitions, with the same bytes are the same record. Identifiers
//! can therefore collide only where the digest does.

use vstd::prelude::*;
use vstd::bytes::{
    lemma_auto_spec_u32_to_from_le_bytes, lemma_auto_spec_u64_to_from_le_bytes,
    spec_u32_to_le_bytes, spec_u64_to_le_bytes,
};
use vstd::utf8::{encode_utf8, encode_utf8_decode_utf8};
use crate::asset::{genesis_bytes, genesis_fits, GenesisView};
use crate::digest::Hash32;
use crate::encoding::{
    allocation_bytes, allocations_bytes, concealed_bytes, concealed_list_bytes,
    issue_structure_bytes, items_bytes, list_bytes, network_bytes, optional_text_bytes,
    optional_u64_bytes, outpoint_bytes, outpoints_bytes, text_bytes, text_fits,
};
use crate::processor::{transition_bytes, transition_fits, TransitionView};
use crate::types::{Allocation, ConcealedAllocation, IssueStructure, Network, OutPoint};

verus! {

/// Two byte strings that agree, and whose first parts are equally long,
/// agree in both parts.
pub proof fn lemma_split(a1: Seq<u8>, r1: Seq<u8>, a2: Seq<u8>, r2: Seq<u8>)
    requires
        a1 + r1 == a2 + r2,
        a1.len() == a2.len(),
    ensures
        a1 == a2,
        r1 == r2,
{
    let whole = a1 + r1;
    let n = a1.len() as int;
    assert(a1 =~= whole.subrange(0, n));
    assert(a2 =~= (a2 + r2).subrange(0, n));
    assert(r1 =~= whole.subrange(n, whole.len() as int));
    assert(r2 =~= (a2 + r2).subrange(n, whole.len() as int));
}

proof fn lemma_u64_prefix(x1: u64, r1: Seq<u8>, x2: u64, r2: Seq<u8>)
    requires
        spec_u64_to_le_bytes(x1) + r1 == spec_u64_to_le_bytes(x2) + r2,
    ensures
        x1 == x2,
        r1 == r2,
{
    lemma_auto_spec_u64_to_from_le_bytes();
    lemma_split(spec_u64_to_le_bytes(x1), r1, spec_u64_to_le_bytes(x2), r2);
}

proof fn lemma_u32_prefix(x1: u32, r1: Seq<u8>, x2: u32, r2: Seq<u8>)
    requires
        spec_u32_to_le_bytes(x1) + r1 == spec_u32_to_le_bytes(x2) + r2,
    ensures
        x1 == x2,
        r1 == r2,
{
    lemma_auto_spec_u32_to_from_le_bytes();
    lemma_split(spec_u32_to_le_bytes(x1), r1, spec_u32_to_le_bytes(x2), r2);
}

proof fn lemma_byte_prefix(b1: u8, r1: Seq<u8>, b2: u8, r2: Seq<u8>)
    requires
        seq![b1] + r1 == seq![b2] + r2,
    ensures
        b1 == b2,
        r1 == r2,
{
    assert((seq![b1] + r1)[0] == b1);
    assert((seq![b2] + r2)[0] == b2);
    lemma_split(seq![b1], r1, seq![b2], r2);
}

proof fn lemma_hash_prefix(h1: Hash32, r1: Seq<u8>, h2: Hash32, r2: Seq<u8>)
    requires
        h1@ + r1 == h2@ + r2,
    ensures
        h1 == h2,
        r1 == r2,
{
    broadcast use vstd::array::group_array_axioms;

    lemma_split(h1@, r1, h2@, r2);
    Hash32::lemma_view_injective(h1, h2);
}

proof fn lemma_text_prefix(t1: Seq<char>, r1: Seq<u8>, t2: Seq<char>, r2: Seq<u8>)
    requires
        text_fits(t1),
        text_fits(t2),
        text_bytes(t1) + r1 == text_bytes(t2) + r2,
    ensures
        t1 == t2,
        r1 == r2,
{
    let u1 = encode_utf8(t1);
    let u2 = encode_utf8(t2);
    assert(text_bytes(t1) + r1 =~= spec_u64_to_le_bytes(u1.len() as u64) + (u1 + r1));
    assert(text_bytes(t2) + r2 =~= spec_u64_to_le_bytes(u2.len() as u64) + (u2 + r2));
    lemma_u64_prefix(u1.len() as u64, u1 + r1, u2.len() as u64, u2 + r2);
    lemma_split(u1, r1, u2, r2);
    encode_utf8_decode_utf8(t1);
    encode_utf8_decode_utf8(t2);
}

proof fn lemma_optional_text_prefix(
    t1: Option<Seq<char>>,
    r1: Seq<u8>,
    t2: Option<Seq<char>>,
    r2: Seq<u8>,
)
    requires
        t1 matches Some(text) ==> text_fits(text),
        t2 matches Some(text) ==> text_fits(text),
        optional_text_bytes(t1) + r1 == optional_text_bytes(t2) + r2,
    ensures
        t1 == t2,
        r1 == r2,
{
    let tag1: u8 = if t1 is Some { 1 } else { 0 };
    let tag2: u8 = if t2 is Some { 1 } else { 0 };
    let rest1 = match t1 {
        Some(text) => text_bytes(text) + r1,
        None => r1,
    };
    let rest2 = match t2 {
        Some(text) => text_bytes(text) + r2,
        None => r2,
    };
    assert(optional_text_bytes(t1) + r1 =~= seq![tag1] + rest1);
    assert(optional_text_bytes(t2) + r2 =~= seq![tag2] + rest2);
    lemma_byte_prefix(tag1, rest1, tag2, rest2);
    if t1 is Some {
        lemma_text_prefix(t1->0, r1, t2->0, r2);
    }
}

proof fn lemma_optional_u64_prefix(v1: Option<u64>, r1: Seq<u8>, v2: Option<u64>, r2: Seq<u8>)
    requires
        optional_u64_bytes(v1) + r1 == optional_u64_bytes(v2) + r2,
    ensures
        v1 == v2,
        r1 == r2,
{
    let tag1: u8 = if v1 is Some { 1 } else { 0 };
    let tag2: u8 = if v2 is Some { 1 } else { 0 };
    let rest1 = match v1 {
        Some(v) => spec_u64_to_le_bytes(v) + r1,
        None => r1,
    };
    let rest2 = match v2 {
        Some(v) => spec_u64_to_le_bytes(v) + r2,
        None => r2,
    };
    assert(optional_u64_bytes(v1) + r1 =~= seq![tag1] + rest1);
    assert(optional_u64_bytes(v2) + r2 =~= seq![tag2] + rest2);
    lemma_byte_prefix(tag1, rest1, tag2, rest2);
    if v1 is Some {
        lemma_u64_prefix(v1->0, r1, v2->0, r2);
    }
}

proof fn lemma_outpoint_prefix(o1: OutPoint, r1: Seq<u8>, o2: OutPoint, r2: Seq<u8>)
    requires
        outpoint_bytes(o1) + r1 == outpoint_bytes(o2) + r2,
    ensures
        o1 == o2,
        r1 == r2,
{
    assert(outpoint_bytes(o1) + r1 =~= o1.txid@ + (spec_u32_to_le_bytes(o1.vout) + r1));
    assert(outpoint_bytes(o2) + r2 =~= o2.txid@ + (spec_u32_to_le_bytes(o2.vout) + r2));
    lemma_hash_prefix(
        o1.txid,
        spec_u32_to_le_bytes(o1.vout) + r1,
        o2.txid,
        spec_u32_to_le_bytes(o2.vout) + r2,
    );
    lemma_u32_prefix(o1.vout, r1, o2.vout, r2);
}

proof fn lemma_allocation_prefix(a1: Allocation, r1: Seq<u8>, a2: Allocation, r2: Seq<u8>)
    requires
        allocation_bytes(a1) + r1 == allocation_bytes(a2) + r2,
    ensures
        a1 == a2,
        r1 == r2,
{
    assert(allocation_bytes(a1) + r1 =~= outpoint_bytes(a1.seal) + (spec_u64_to_le_bytes(
        a1.amount,
    ) + r1));
    assert(allocation_bytes(a2) + r2 =~= outpoint_bytes(a2.seal) + (spec_u64_to_le_bytes(
        a2.amount,
    ) + r2));
    lemma_outpoint_prefix(
        a1.seal,
        spec_u64_to_le_bytes(a1.amount) + r1,
        a2.seal,
        spec_u64_to_le_bytes(a2.amount) + r2,
    );
    lemma_u64_prefix(a1.amount, r1, a2.amount, r2);
}

proof fn lemma_concealed_prefix(
    a1: ConcealedAllocation,
    r1: Seq<u8>,
    a2: ConcealedAllocation,
    r2: Seq<u8>,
)
    requires
        concealed_bytes(a1) + r1 == concealed_bytes(a2) + r2,
    ensures
        a1 == a2,
        r1 == r2,
{
    assert(concealed_bytes(a1) + r1 =~= a1.seal_hash@ + (spec_u64_to_le_bytes(a1.amount) + r1));
    assert(concealed_bytes(a2) + r2 =~= a2.seal_hash@ + (spec_u64_to_le_bytes(a2.amount) + r2));
    lemma_hash_prefix(
        a1.seal_hash,
        spec_u64_to_le_bytes(a1.amount) + r1,
        a2.seal_hash,
        spec_u64_to_le_bytes(a2.amount) + r2,
    );
    lemma_u64_prefix(a1.amount, r1, a2.amount, r2);
}

proof fn lemma_network_prefix(n1: Network, r1: Seq<u8>, n2: Network, r2: Seq<u8>)
    requires
        network_bytes(n1) + r1 == network_bytes(n2) + r2,
    ensures
        n1 == n2,
        r1 == r2,
{
    let tag1 = network_bytes(n1)[0];
    let tag2 = network_bytes(n2)[0];
    let rest1 = match n1 {
        Network::Regtest(hash) => hash@ + r1,
        Network::SignetCustom(hash) => hash@ + r1,
        _ => r1,
    };
    let rest2 = match n2 {
        Network::Regtest(hash) => hash@ + r2,
        Network::SignetCustom(hash) => hash@ + r2,
        _ => r2,
    };
    assert(network_bytes(n1) + r1 =~= seq![tag1] + rest1);
    assert(network_bytes(n2) + r2 =~= seq![tag2] + rest2);
    lemma_byte_prefix(tag1, rest1, tag2, rest2);
    match n1 {
        Network::Regtest(hash) => {
            lemma_hash_prefix(hash, r1, n2->Regtest_0, r2);
        },
        Network::SignetCustom(hash) => {
            lemma_hash_prefix(hash, r1, n2->SignetCustom_0, r2);
        },
        _ => {},
    }
}

proof fn lemma_issue_structure_prefix(
    s1: IssueStructure,
    r1: Seq<u8>,
    s2: IssueStructure,
    r2: Seq<u8>,
)
    requires
        issue_structure_bytes(s1) + r1 == issue_structure_bytes(s2) + r2,
    ensures
        s1 == s2,
        r1 == r2,
{
    let tag1: u8 = if s1 is MultipleIssues { 1 } else { 0 };
    let tag2: u8 = if s2 is MultipleIssues { 1 } else { 0 };
    let rest1 = match s1 {
        IssueStructure::SingleIssue => r1,
        IssueStructure::MultipleIssues { max_supply, reissue_control } => spec_u64_to_le_bytes(
            max_supply,
        ) + (outpoint_bytes(reissue_control) + r1),
    };
    let rest2 = match s2 {
        IssueStructure::SingleIssue => r2,
        IssueStructure::MultipleIssues { max_supply, reissue_control } => spec_u64_to_le_bytes(
            max_supply,
        ) + (outpoint_bytes(reissue_control) + r2),
    };
    assert(issue_structure_bytes(s1) + r1 =~= seq![tag1] + rest1);
    assert(issue_structure_bytes(s2) + r2 =~= seq![tag2] + rest2);
    lemma_byte_prefix(tag1, rest1, tag2, rest2);
    match s1 {
        IssueStructure::SingleIssue => {},
        IssueStructure::MultipleIssues { max_supply, reissue_control } => {
            lemma_u64_prefix(
                max_supply,
                outpoint_bytes(reissue_control) + r1,
                s2->max_supply,
                outpoint_bytes(s2->reissue_control) + r2,
            );
            lemma_outpoint_prefix(reissue_control, r1, s2->reissue_control, r2);
        },
    }
}

/// Whether `item` writes every value in `size` bytes and no two values alike.
pub open spec fn fixed_and_injective<T>(item: spec_fn(T) -> Seq<u8>, size: nat) -> bool {
    &&& forall|x: T| (#[trigger] item(x)).len() == size
    &&& forall|x: T, y: T| #[trigger] item(x) == #[trigger] item(y) ==> x == y
}

proof fn lemma_items_len<T>(items: Seq<T>, item: spec_fn(T) -> Seq<u8>, size: nat)
    requires
        fixed_and_injective(item, size),
    ensures
        items_bytes(items, item).len() == items.len() * size,
    decreases items.len(),
{
    if items.len() > 0 {
        lemma_items_len(items.drop_last(), item, size);
        assert(items.len() * size == items.drop_last().len() * size + size)
            by (nonlinear_arith)
            requires
                items.drop_last().len() == items.len() - 1,
        ;
    }
}

proof fn lemma_items_injective<T>(
    s1: Seq<T>,
    s2: Seq<T>,
    item: spec_fn(T) -> Seq<u8>,
    size: nat,
)
    requires
        fixed_and_injective(item, size),
        s1.len() == s2.len(),
        items_bytes(s1, item) == items_bytes(s2, item),
    ensures
        s1 == s2,
    decreases s1.len(),
{
    if s1.len() > 0 {
        lemma_items_len(s1.drop_last(), item, size);
        lemma_items_len(s2.drop_last(), item, size);
        lemma_split(
            items_bytes(s1.drop_last(), item),
            item(s1.last()),
            items_bytes(s2.drop_last(), item),
            item(s2.last()),
        );
        lemma_items_injective(s1.drop_last(), s2.drop_last(), item, size);
        assert(s1 =~= s1.drop_last().push(s1.last()));
        assert(s2 =~= s2.drop_last().push(s2.last()));
    } else {
        assert(s1 =~= s2);
    }
}

proof fn lemma_list_prefix<T>(
    s1: Seq<T>,
    r1: Seq<u8>,
    s2: Seq<T>,
    r2: Seq<u8>,
    item: spec_fn(T) -> Seq<u8>,
    size: nat,
)
    requires
        fixed_and_injective(item, size),
        s1.len() <= u64::MAX,
        s2.len() <= u64::MAX,
        list_bytes(s1, item) + r1 == list_bytes(s2, item) + r2,
    ensures
        s1 == s2,
        r1 == r2,
{
    let b1 = items_bytes(s1, item);
    let b2 = items_bytes(s2, item);
    assert(list_bytes(s1, item) + r1 =~= spec_u64_to_le_bytes(s1.len() as u64) + (b1 + r1));
    assert(list_bytes(s2, item) + r2 =~= spec_u64_to_le_bytes(s2.len() as u64) + (b2 + r2));
    lemma_u64_prefix(s1.len() as u64, b1 + r1, s2.len() as u64, b2 + r2);
    lemma_items_len(s1, item, size);
    lemma_items_len(s2, item, size);
    lemma_split(b1, r1, b2, r2);
    lemma_items_injective(s1, s2, item, size);
}

proof fn lemma_outpoint_item()
    ensures
        fixed_and_injective(|outpoint: OutPoint| outpoint_bytes(outpoint), 36),
{
    broadcast use vstd::array::group_array_axioms;

    lemma_auto_spec_u32_to_from_le_bytes();
    let item = |outpoint: OutPoint| outpoint_bytes(outpoint);
    assert forall|x: OutPoint, y: OutPoint| #[trigger] item(x) == #[trigger] item(y) implies x
        == y by {
        assert(outpoint_bytes(x) + Seq::<u8>::empty() =~= outpoint_bytes(x));
        assert(outpoint_bytes(y) + Seq::<u8>::empty() =~= outpoint_bytes(y));
        lemma_outpoint_prefix(x, Seq::empty(), y, Seq::empty());
    }
}

proof fn lemma_allocation_item()
    ensures
        fixed_and_injective(|allocation: Allocation| allocation_bytes(allocation), 44),
{
    broadcast use vstd::array::group_array_axioms;

    lemma_auto_spec_u32_to_from_le_bytes();
    lemma_auto_spec_u64_to_from_le_bytes();
    let item = |allocation: Allocation| allocation_bytes(allocation);
    assert forall|x: Allocation, y: Allocation| #[trigger] item(x) == #[trigger] item(
        y,
    ) implies x == y by {
        assert(allocation_bytes(x) + Seq::<u8>::empty() =~= allocation_bytes(x));
        assert(allocation_bytes(y) + Seq::<u8>::empty() =~= allocation_bytes(y));
        lemma_allocation_prefix(x, Seq::empty(), y, Seq::empty());
    }
}

proof fn lemma_concealed_item()
    ensures
        fixed_and_injective(|allocation: ConcealedAllocation| concealed_bytes(allocation), 40),
{
    broadcast use vstd::array::group_array_axioms;

    lemma_auto_spec_u64_to_from_le_bytes();
    let item = |allocation: ConcealedAllocation| concealed_bytes(allocation);
    assert forall|x: ConcealedAllocation, y: ConcealedAllocation| #[trigger] item(x)
        == #[trigger] item(y) implies x == y by {
        assert(concealed_bytes(x) + Seq::<u8>::empty() =~= concealed_bytes(x));
        assert(concealed_bytes(y) + Seq::<u8>::empty() =~= concealed_bytes(y));
        lemma_concealed_prefix(x, Seq::empty(), y, Seq::empty());
    }
}

proof fn lemma_regroup(a: Seq<u8>, b: Seq<u8>, c: Seq<u8>)
    ensures
        (a + b) + c == a + (b + c),
{
    assert((a + b) + c =~= a + (b + c));
}

/// What follows the network in the bytes of a genesis record.
spec fn after_network(g: GenesisView) -> Seq<u8> {
    text_bytes(g.ticker) + after_ticker(g)
}

spec fn after_ticker(g: GenesisView) -> Seq<u8> {
    text_bytes(g.title) + after_title(g)
}

spec fn after_title(g: GenesisView) -> Seq<u8> {
    optional_text_bytes(g.description) + after_description(g)
}

spec fn after_description(g: GenesisView) -> Seq<u8> {
    seq![g.precision] + after_precision(g)
}

spec fn after_precision(g: GenesisView) -> Seq<u8> {
    issue_structure_bytes(g.issue_structure) + after_structure(g)
}

spec fn after_structure(g: GenesisView) -> Seq<u8> {
    optional_u64_bytes(g.dust_limit) + allocations_bytes(g.allocations)
}

proof fn lemma_genesis_bytes_in_turn(g: GenesisView)
    ensures
        genesis_bytes(g) == network_bytes(g.network) + after_network(g),
{
    let n = network_bytes(g.network);
    let t = text_bytes(g.ticker);
    let i = text_bytes(g.title);
    let d = optional_text_bytes(g.description);
    let p = seq![g.precision];
    let s = issue_structure_bytes(g.issue_structure);
    let u = optional_u64_bytes(g.dust_limit);
    let a = allocations_bytes(g.allocations);
    lemma_regroup(n + t + i + d + p + s, u, a);
    lemma_regroup(n + t + i + d + p, s, u + a);
    lemma_regroup(n + t + i + d, p, s + (u + a));
    lemma_regroup(n + t + i, d, p + (s + (u + a)));
    lemma_regroup(n + t, i, d + (p + (s + (u + a))));
    lemma_regroup(n, t, i + (d + (p + (s + (u + a)))));
}

/// Two genesis records that are committed to the same bytes are the same
/// record.
pub proof fn lemma_genesis_bytes_injective(a: GenesisView, b: GenesisView)
    requires
        genesis_fits(a),
        genesis_fits(b),
        genesis_bytes(a) == genesis_bytes(b),
    ensures
        a == b,
{
    lemma_genesis_bytes_in_turn(a);
    lemma_genesis_bytes_in_turn(b);
    lemma_network_prefix(a.network, after_network(a), b.network, after_network(b));
    lemma_text_prefix(a.ticker, after_ticker(a), b.ticker, after_ticker(b));
    lemma_text_prefix(a.title, after_title(a), b.title, after_title(b));
    lemma_optional_text_prefix(
        a.description,
        after_description(a),
        b.description,
        after_description(b),
    );
    lemma_byte_prefix(a.precision, after_precision(a), b.precision, after_precision(b));
    lemma_issue_structure_prefix(
        a.issue_structure,
        after_structure(a),
        b.issue_structure,
        after_structure(b),
    );
    lemma_optional_u64_prefix(
        a.dust_limit,
        allocations_bytes(a.allocations),
        b.dust_limit,
        allocations_bytes(b.allocations),
    );
    lemma_list_end(a.allocations, b.allocations);
}

proof fn lemma_list_end(s1: Seq<Allocation>, s2: Seq<Allocation>)
    requires
        s1.len() <= u64::MAX,
        s2.len() <= u64::MAX,
        allocations_bytes(s1) == allocations_bytes(s2),
    ensures
        s1 == s2,
{
    lemma_allocation_item();
    assert(allocations_bytes(s1) + Seq::<u8>::empty() =~= allocations_bytes(s1));
    assert(allocations_bytes(s2) + Seq::<u8>::empty() =~= allocations_bytes(s2));
    lemma_list_prefix(
        s1,
        Seq::empty(),
        s2,
        Seq::empty(),
        |allocation: Allocation| allocation_bytes(allocation),
        44,
    );
}

proof fn lemma_concealed_list_end(s1: Seq<ConcealedAllocation>, s2: Seq<ConcealedAllocation>)
    requires
        s1.len() <= u64::MAX,
        s2.len() <= u64::MAX,
        concealed_list_bytes(s1) == concealed_list_bytes(s2),
    ensures
        s1 == s2,
{
    lemma_concealed_item();
    assert(concealed_list_bytes(s1) + Seq::<u8>::empty() =~= concealed_list_bytes(s1));
    assert(concealed_list_bytes(s2) + Seq::<u8>::empty() =~= concealed_list_bytes(s2));
    lemma_list_prefix(
        s1,
        Seq::empty(),
        s2,
        Seq::empty(),
        |allocation: ConcealedAllocation| concealed_bytes(allocation),
        40,
    );
}

/// Two state transitions that are committed to the same bytes are the same
/// transition.
pub proof fn lemma_transition_bytes_injective(a: TransitionView, b: TransitionView)
    requires
        transition_fits(a),
        transition_fits(b),
        transition_bytes(a) == transition_bytes(b),
    ensures
        a == b,
{
    let tail3a = concealed_list_bytes(a.theirs);
    let tail3b = concealed_list_bytes(b.theirs);
    let tail2a = allocations_bytes(a.ours) + tail3a;
    let tail2b = allocations_bytes(b.ours) + tail3b;
    let tail1a = outpoints_bytes(a.inputs) + tail2a;
    let tail1b = outpoints_bytes(b.inputs) + tail2b;
    lemma_regroup(a.contract_id + outpoints_bytes(a.inputs), allocations_bytes(a.ours), tail3a);
    lemma_regroup(a.contract_id, outpoints_bytes(a.inputs), tail2a);
    lemma_regroup(b.contract_id + outpoints_bytes(b.inputs), allocations_bytes(b.ours), tail3b);
    lemma_regroup(b.contract_id, outpoints_bytes(b.inputs), tail2b);
    lemma_split(a.contract_id, tail1a, b.contract_id, tail1b);
    lemma_outpoint_item();
    lemma_list_prefix(
        a.inputs,
        tail2a,
        b.inputs,
        tail2b,
        |outpoint: OutPoint| outpoint_bytes(outpoint),
        36,
    );
    lemma_allocation_item();
    lemma_list_prefix(
        a.ours,
        tail3a,
        b.ours,
        tail3b,
        |allocation: Allocation| allocation_bytes(allocation),
        44,
    );
    lemma_concealed_list_end(a.theirs, b.theirs);
}

} // verus!

use vstd::prelude::*;
use vstd::seq_lib::{lemma_multiset_commutative, to_multiset_remove};
use crate::context::{ObjectContextView, TransferView};
use crate::deriver::{
    candidates_of, is_soulbound, lemma_transfer_derived_concat, nft_v2_events, transfer_derived,
};
use crate::identity::{identity_lt, lemma_identity_trichotomy, same_identity};
use crate::merge::{
    ambiguous, conflicting, covered, drawn, is_merge_of, is_winner, later_writer, latest, outranks,
    strictly_sorted, wins,
};
use crate::model::{
    CurrentTokenOwnershipV2View, OwnershipCandidateView, Timestamp, TokenOwnershipV2View,
    lemma_same_values_same_writing,
};

verus! {

/// Two sequences with the same elements, each as often in one as in the
/// other, hold the same candidates.
proof fn lemma_same_drawn(
    first: Seq<OwnershipCandidateView>,
    second: Seq<OwnershipCandidateView>,
    x: OwnershipCandidateView,
)
    requires
        first.to_multiset() == second.to_multiset(),
    ensures
        drawn(x, first, first.len() as int) == drawn(x, second, second.len() as int),
{
    first.to_multiset_ensures();
    second.to_multiset_ensures();
    assert(first.contains(x) <==> first.to_multiset().count(x) > 0);
    assert(second.contains(x) <==> second.to_multiset().count(x) > 0);
    if first.contains(x) {
        let i = choose|i: int| 0 <= i < first.len() && first[i] == x;
        assert(first[i] == x);
        let j = choose|j: int| 0 <= j < second.len() && second[j] == x;
        assert(second[j] == x);
    }
    if drawn(x, first, first.len() as int) {
        let i = choose|i: int| 0 <= i < first.len() && #[trigger] first[i] == x;
        assert(first.contains(x));
    }
    if drawn(x, second, second.len() as int) {
        let i = choose|i: int| 0 <= i < second.len() && #[trigger] second[i] == x;
        assert(second.contains(x));
    }
}

/// A winner among the candidates is a winner among them in any order.
proof fn lemma_winner_in_any_order(
    first: Seq<OwnershipCandidateView>,
    second: Seq<OwnershipCandidateView>,
    x: OwnershipCandidateView,
)
    requires
        first.to_multiset() == second.to_multiset(),
        is_winner(x, first),
    ensures
        is_winner(x, second),
{
    lemma_same_drawn(first, second, x);
    assert forall|j: int|
        0 <= j < second.len() && same_identity(
            (#[trigger] second[j]).current,
            x.current,
        ) implies !outranks(second[j], x) by {
        assert(drawn(second[j], second, second.len() as int));
        lemma_same_drawn(first, second, second[j]);
        let k = choose|k: int| 0 <= k < first.len() && #[trigger] first[k] == second[j];
        assert(first[k] == second[j]);
    }
}

/// A latest writer among the candidates is a latest writer among them in
/// any order.
proof fn lemma_latest_in_any_order(
    first: Seq<OwnershipCandidateView>,
    second: Seq<OwnershipCandidateView>,
    x: OwnershipCandidateView,
)
    requires
        first.to_multiset() == second.to_multiset(),
        latest(x, first),
    ensures
        latest(x, second),
{
    lemma_same_drawn(first, second, x);
    assert forall|j: int|
        0 <= j < second.len() && same_identity(
            (#[trigger] second[j]).current,
            x.current,
        ) implies !later_writer(second[j], x) by {
        assert(drawn(second[j], second, second.len() as int));
        lemma_same_drawn(first, second, second[j]);
        let k = choose|k: int| 0 <= k < first.len() && #[trigger] first[k] == second[j];
        assert(first[k] == second[j]);
    }
}

/// Whether the candidates of a batch are consistent does not depend on the
/// order in which they arrive.
pub proof fn lemma_ambiguity_order_independent(
    first: Seq<OwnershipCandidateView>,
    second: Seq<OwnershipCandidateView>,
)
    requires
        first.to_multiset() == second.to_multiset(),
    ensures
        ambiguous(first) == ambiguous(second),
{
    if ambiguous(first) {
        let (a, b) = choose|a: OwnershipCandidateView, b: OwnershipCandidateView|
            conflicting(a, b, first);
        lemma_latest_in_any_order(first, second, a);
        lemma_latest_in_any_order(first, second, b);
        assert(conflicting(a, b, second));
    }
    if ambiguous(second) {
        let (a, b) = choose|a: OwnershipCandidateView, b: OwnershipCandidateView|
            conflicting(a, b, second);
        lemma_latest_in_any_order(second, first, a);
        lemma_latest_in_any_order(second, first, b);
        assert(conflicting(a, b, first));
    }
}

/// A winner is a latest writer.
proof fn lemma_winner_is_latest(candidates: Seq<OwnershipCandidateView>, x: OwnershipCandidateView)
    requires
        is_winner(x, candidates),
    ensures
        latest(x, candidates),
{
}

/// Two winners of one identity among consistent candidates are the same
/// record.
proof fn lemma_one_winner(
    candidates: Seq<OwnershipCandidateView>,
    a: OwnershipCandidateView,
    b: OwnershipCandidateView,
)
    requires
        !ambiguous(candidates),
        is_winner(a, candidates),
        is_winner(b, candidates),
        same_identity(a.current, b.current),
    ensures
        a.current == b.current,
{
    lemma_winner_is_latest(candidates, a);
    lemma_winner_is_latest(candidates, b);
    assert(!conflicting(a, b, candidates));
    lemma_identity_trichotomy(a.current, b.current);
    let n = candidates.len() as int;
    let ka = choose|k: int| 0 <= k < n && #[trigger] candidates[k] == a;
    let kb = choose|k: int| 0 <= k < n && #[trigger] candidates[k] == b;
    assert(!outranks(candidates[ka], b));
    assert(!outranks(candidates[kb], a));
    lemma_same_values_same_writing(a.current, b.current);
}

/// Every record of a merge of consistent candidates occurs in any merge of
/// the same candidates in another order.
proof fn lemma_merged_record_in_other(
    first: Seq<OwnershipCandidateView>,
    second: Seq<OwnershipCandidateView>,
    merged_first: Seq<CurrentTokenOwnershipV2View>,
    merged_second: Seq<CurrentTokenOwnershipV2View>,
    i: int,
)
    requires
        first.to_multiset() == second.to_multiset(),
        !ambiguous(first),
        is_merge_of(merged_first, first),
        is_merge_of(merged_second, second),
        0 <= i < merged_first.len(),
    ensures
        merged_second.contains(merged_first[i]),
{
    assert(wins(merged_first[i], first));
    let a = choose|c: OwnershipCandidateView| is_winner(c, first) && c.current == merged_first[i];
    lemma_same_drawn(first, second, a);
    let k = choose|k: int| 0 <= k < second.len() && #[trigger] second[k] == a;
    assert(covered(second[k].current, merged_second));
    let w = choose|w: int|
        0 <= w < merged_second.len() && same_identity(#[trigger] merged_second[w], a.current);
    assert(wins(merged_second[w], second));
    let b = choose|c: OwnershipCandidateView| is_winner(c, second) && c.current == merged_second[w];
    lemma_winner_in_any_order(second, first, b);
    lemma_identity_trichotomy(b.current, a.current);
    lemma_one_winner(first, a, b);
    assert(merged_second[w] == merged_first[i]);
}

/// Two sequences in strict order that hold the same records are equal.
proof fn lemma_sorted_equal(
    one: Seq<CurrentTokenOwnershipV2View>,
    other: Seq<CurrentTokenOwnershipV2View>,
)
    requires
        strictly_sorted(one),
        strictly_sorted(other),
        forall|i: int| 0 <= i < one.len() ==> other.contains(#[trigger] one[i]),
        forall|i: int| 0 <= i < other.len() ==> one.contains(#[trigger] other[i]),
    ensures
        one == other,
    decreases one.len(),
{
    if one.len() == 0 {
        if other.len() > 0 {
            assert(one.contains(other[0]));
        }
        assert(one =~= other);
    } else {
        assert(other.contains(one[0]));
        let p = choose|p: int| 0 <= p < other.len() && other[p] == one[0];
        assert(one.contains(other[0]));
        let q = choose|q: int| 0 <= q < one.len() && one[q] == other[0];
        lemma_identity_trichotomy(one[0], one[0]);
        if p > 0 {
            assert(identity_lt(other[0], other[p]));
            if q > 0 {
                assert(identity_lt(one[0], one[q]));
                lemma_identity_trichotomy(one[0], one[q]);
            }
        }
        assert(p == 0);
        let one_rest = one.drop_first();
        let other_rest = other.drop_first();
        assert forall|i: int, j: int| 0 <= i < j < one_rest.len() implies identity_lt(
            #[trigger] one_rest[i],
            #[trigger] one_rest[j],
        ) by {
            assert(identity_lt(one[i + 1], one[j + 1]));
        }
        assert forall|i: int, j: int| 0 <= i < j < other_rest.len() implies identity_lt(
            #[trigger] other_rest[i],
            #[trigger] other_rest[j],
        ) by {
            assert(identity_lt(other[i + 1], other[j + 1]));
        }
        assert forall|i: int| 0 <= i < one_rest.len() implies other_rest.contains(
            #[trigger] one_rest[i],
        ) by {
            assert(other.contains(one[i + 1]));
            let m = choose|m: int| 0 <= m < other.len() && other[m] == one[i + 1];
            if m == 0 {
                assert(identity_lt(one[0], one[i + 1]));
            }
            assert(other_rest[m - 1] == one_rest[i]);
        }
        assert forall|i: int| 0 <= i < other_rest.len() implies one_rest.contains(
            #[trigger] other_rest[i],
        ) by {
            assert(one.contains(other[i + 1]));
            let m = choose|m: int| 0 <= m < one.len() && one[m] == other[i + 1];
            if m == 0 {
                assert(identity_lt(other[0], other[i + 1]));
            }
            assert(one_rest[m - 1] == other_rest[i]);
        }
        lemma_sorted_equal(one_rest, other_rest);
        assert(one =~= seq![one[0]] + one_rest);
        assert(other =~= seq![other[0]] + other_rest);
    }
}

/// Merging does not depend on the order in which the candidates arrive:
/// consistent candidates have one merge only, whatever their order.
pub proof fn lemma_merge_order_independent(
    first: Seq<OwnershipCandidateView>,
    second: Seq<OwnershipCandidateView>,
    merged_first: Seq<CurrentTokenOwnershipV2View>,
    merged_second: Seq<CurrentTokenOwnershipV2View>,
)
    requires
        first.to_multiset() == second.to_multiset(),
        !ambiguous(first),
        is_merge_of(merged_first, first),
        is_merge_of(merged_second, second),
    ensures
        merged_first == merged_second,
{
    lemma_ambiguity_order_independent(first, second);
    assert forall|i: int| 0 <= i < merged_first.len() implies merged_second.contains(
        #[trigger] merged_first[i],
    ) by {
        lemma_merged_record_in_other(first, second, merged_first, merged_second, i);
    }
    assert forall|i: int| 0 <= i < merged_second.len() implies merged_first.contains(
        #[trigger] merged_second[i],
    ) by {
        lemma_merged_record_in_other(second, first, merged_second, merged_first, i);
    }
    lemma_sorted_equal(merged_first, merged_second);
}

/// Merging the same batch again gives the same records in the same order.
pub proof fn lemma_merge_again_is_identical(
    candidates: Seq<OwnershipCandidateView>,
    merged_once: Seq<CurrentTokenOwnershipV2View>,
    merged_again: Seq<CurrentTokenOwnershipV2View>,
)
    requires
        !ambiguous(candidates),
        is_merge_of(merged_once, candidates),
        is_merge_of(merged_again, candidates),
    ensures
        merged_once == merged_again,
{
    lemma_merge_order_independent(candidates, candidates, merged_once, merged_again);
}

/// What is made of a sequence piece by piece holds the same elements, each
/// as often, whatever the order of the sequence.
proof fn lemma_permutation_through<A, B>(
    made: spec_fn(Seq<A>) -> Seq<B>,
    first: Seq<A>,
    second: Seq<A>,
)
    requires
        forall|a: Seq<A>, b: Seq<A>| #[trigger] made(a + b) == made(a) + made(b),
        first.to_multiset() == second.to_multiset(),
    ensures
        made(first).to_multiset() == made(second).to_multiset(),
    decreases first.len(),
{
    first.to_multiset_ensures();
    second.to_multiset_ensures();
    if first.len() == 0 {
        assert(second.len() == 0);
        assert(first =~= second);
    } else {
        let last = first.len() - 1;
        let x = first[last];
        let single = seq![x];
        let rest = first.drop_last();
        assert(rest =~= first.remove(last));
        to_multiset_remove(first, last);
        assert(first.contains(x));
        assert(first.to_multiset().count(x) > 0);
        assert(second.contains(x) <==> second.to_multiset().count(x) > 0);
        let j = choose|j: int| 0 <= j < second.len() && second[j] == x;
        let before = second.subrange(0, j);
        let after = second.subrange(j + 1, second.len() as int);
        to_multiset_remove(second, j);
        assert(second.remove(j) =~= before + after);
        assert(second =~= (before + single) + after);
        assert(first =~= rest + single);
        lemma_permutation_through(made, rest, before + after);
        assert(made(rest + single) == made(rest) + made(single));
        assert(made((before + single) + after) == made(before + single) + made(after));
        assert(made(before + single) == made(before) + made(single));
        assert(made(before + after) == made(before) + made(after));
        lemma_multiset_commutative(made(rest), made(single));
        lemma_multiset_commutative(made(before) + made(single), made(after));
        lemma_multiset_commutative(made(before), made(single));
        lemma_multiset_commutative(made(before), made(after));
        assert(made(first).to_multiset() =~= made(second).to_multiset());
    }
}

/// The events of the transfers depend on the object only through its
/// soulbound flag.
proof fn lemma_transfer_derived_same_flags(
    version: i64,
    token_data_id: Seq<char>,
    timestamp: Timestamp,
    one: ObjectContextView,
    other: ObjectContextView,
    transfers: Seq<TransferView>,
)
    requires
        is_soulbound(one) == is_soulbound(other),
    ensures
        transfer_derived(version, token_data_id, timestamp, one, transfers) == transfer_derived(
            version,
            token_data_id,
            timestamp,
            other,
            transfers,
        ),
    decreases transfers.len(),
{
    if transfers.len() > 0 {
        lemma_transfer_derived_same_flags(
            version,
            token_data_id,
            timestamp,
            one,
            other,
            transfers.drop_last(),
        );
    }
}

/// The order of the transfers of an object does not matter to what it
/// proposes: two objects that differ only in the order of their transfers
/// give the same events and the same candidates, each as often, with the
/// same first event.
pub proof fn lemma_transfer_order_permutes_candidates(
    version: i64,
    change_index: i64,
    token_data_id: Seq<char>,
    timestamp: Timestamp,
    one: ObjectContextView,
    other: ObjectContextView,
)
    requires
        one.owner == other.owner,
        one.allow_ungated_transfer == other.allow_ungated_transfer,
        one.untransferable == other.untransferable,
        one.transfer_events.to_multiset() == other.transfer_events.to_multiset(),
    ensures
        nft_v2_events(version, change_index, token_data_id, timestamp, one)[0] == nft_v2_events(
            version,
            change_index,
            token_data_id,
            timestamp,
            other,
        )[0],
        nft_v2_events(version, change_index, token_data_id, timestamp, one).to_multiset()
            == nft_v2_events(version, change_index, token_data_id, timestamp, other).to_multiset(),
        candidates_of(
            nft_v2_events(version, change_index, token_data_id, timestamp, one),
        ).to_multiset() == candidates_of(
            nft_v2_events(version, change_index, token_data_id, timestamp, other),
        ).to_multiset(),
{
    let derived = |t: Seq<TransferView>|
        transfer_derived(version, token_data_id, timestamp, one, t);
    assert forall|a: Seq<TransferView>, b: Seq<TransferView>| #[trigger] derived(a + b) == derived(
        a,
    ) + derived(b) by {
        lemma_transfer_derived_concat(version, token_data_id, timestamp, one, a, b);
    }
    lemma_permutation_through(derived, one.transfer_events, other.transfer_events);
    lemma_transfer_derived_same_flags(
        version,
        token_data_id,
        timestamp,
        one,
        other,
        other.transfer_events,
    );
    let events_one = nft_v2_events(version, change_index, token_data_id, timestamp, one);
    let events_other = nft_v2_events(version, change_index, token_data_id, timestamp, other);
    let head = seq![events_one[0]];
    assert(events_one =~= head + derived(one.transfer_events));
    assert(events_other =~= head + derived(other.transfer_events));
    lemma_multiset_commutative(head, derived(one.transfer_events));
    lemma_multiset_commutative(head, derived(other.transfer_events));
    let beside = |e: Seq<TokenOwnershipV2View>| candidates_of(e);
    assert forall|a: Seq<TokenOwnershipV2View>, b: Seq<TokenOwnershipV2View>| #[trigger] beside(
        a + b,
    ) == beside(a) + beside(b) by {
        assert(candidates_of(a + b) =~= candidates_of(a) + candidates_of(b));
    }
    lemma_permutation_through(beside, events_one, events_other);
}

/// The order of the transfers of an object does not matter to the merged
/// records: what is merged from the candidates of the one order is what is
/// merged from those of the other.
pub proof fn lemma_transfer_order_does_not_matter(
    version: i64,
    change_index: i64,
    token_data_id: Seq<char>,
    timestamp: Timestamp,
    one: ObjectContextView,
    other: ObjectContextView,
    merged_one: Seq<CurrentTokenOwnershipV2View>,
    merged_other: Seq<CurrentTokenOwnershipV2View>,
)
    requires
        one.owner == other.owner,
        one.allow_ungated_transfer == other.allow_ungated_transfer,
        one.untransferable == other.untransferable,
        one.transfer_events.to_multiset() == other.transfer_events.to_multiset(),
        !ambiguous(
            candidates_of(nft_v2_events(version, change_index, token_data_id, timestamp, one)),
        ),
        is_merge_of(
            merged_one,
            candidates_of(nft_v2_events(version, change_index, token_data_id, timestamp, one)),
        ),
        is_merge_of(
            merged_other,
            candidates_of(nft_v2_events(version, change_index, token_data_id, timestamp, other)),
        ),
    ensures
        merged_one == merged_other,
{
    lemma_transfer_order_permutes_candidates(
        version,
        change_index,
        token_data_id,
        timestamp,
        one,
        other,
    );
    lemma_merge_order_independent(
        candidates_of(nft_v2_events(version, change_index, token_data_id, timestamp, one)),
        candidates_of(nft_v2_events(version, change_index, token_data_id, timestamp, other)),
        merged_one,
        merged_other,
    );
}

} // verus!

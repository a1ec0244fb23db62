use vstd::prelude::*;
use crate::deriver::candidate_views;
use crate::identity::{
    IdentityOrder, identity_lt, lemma_identity_order, lemma_identity_trichotomy, same_identity,
};
use crate::model::{
    CurrentTokenOwnershipV2, CurrentTokenOwnershipV2View, OwnershipCandidate,
    OwnershipCandidateView, lemma_same_values_equivalence, same_values,
};

verus! {

/// The candidates of one batch do not determine a winner.
#[derive(Clone, Copy, Debug, PartialEq, Eq, Structural)]
pub enum MergeError {
    /// Two latest writers of one identity differ in a value.
    InconsistentCandidates,
}

/// The size of a change index, whatever its sign.
pub open spec fn magnitude(index: i64) -> int {
    if index < 0 {
        -(index as int)
    } else {
        index as int
    }
}

/// `a` is the later writer: of the higher transaction version, or of the
/// same version and the larger change index by magnitude.
pub open spec fn later_writer(a: OwnershipCandidateView, b: OwnershipCandidateView) -> bool {
    a.current.last_transaction_version > b.current.last_transaction_version || (
    a.current.last_transaction_version == b.current.last_transaction_version && magnitude(
        a.write_set_change_index,
    ) > magnitude(b.write_set_change_index))
}

/// `a` writes its decimals with fewer fractional digits: the property
/// version, or with the same there, the amount.
pub open spec fn plainer(a: CurrentTokenOwnershipV2View, b: CurrentTokenOwnershipV2View) -> bool {
    a.property_version_v1.scale < b.property_version_v1.scale || (a.property_version_v1.scale
        == b.property_version_v1.scale && a.amount.scale < b.amount.scale)
}

/// `a` is to be kept before `b`: it is the later writer, or neither is and
/// `a` is the plainer of the two.
pub open spec fn outranks(a: OwnershipCandidateView, b: OwnershipCandidateView) -> bool {
    later_writer(a, b) || (!later_writer(b, a) && plainer(a.current, b.current))
}

/// None of the candidates of the identity of `c` is a later writer.
pub open spec fn latest(c: OwnershipCandidateView, candidates: Seq<OwnershipCandidateView>) -> bool {
    drawn(c, candidates, candidates.len() as int) && forall|j: int|
        0 <= j < candidates.len() && same_identity((#[trigger] candidates[j]).current, c.current)
            ==> !later_writer(candidates[j], c)
}

/// None of the first `n` candidates of the same identity outranks `c`.
pub open spec fn unbeaten(
    c: OwnershipCandidateView,
    candidates: Seq<OwnershipCandidateView>,
    n: int,
) -> bool {
    forall|j: int|
        0 <= j < n && same_identity((#[trigger] candidates[j]).current, c.current) ==> !outranks(
            candidates[j],
            c,
        )
}

/// `c` is one of the first `n` candidates.
pub open spec fn drawn(
    c: OwnershipCandidateView,
    candidates: Seq<OwnershipCandidateView>,
    n: int,
) -> bool {
    exists|k: int| 0 <= k < n && #[trigger] candidates[k] == c
}

/// `c` is a candidate that no candidate of its identity outranks: a latest
/// writer, and the plainest among the latest.
pub open spec fn is_winner(c: OwnershipCandidateView, candidates: Seq<OwnershipCandidateView>) -> bool {
    drawn(c, candidates, candidates.len() as int) && unbeaten(c, candidates, candidates.len() as int)
}

/// Two latest writers of one identity that differ in a value.
pub open spec fn conflicting(
    a: OwnershipCandidateView,
    b: OwnershipCandidateView,
    candidates: Seq<OwnershipCandidateView>,
) -> bool {
    latest(a, candidates) && latest(b, candidates) && same_identity(a.current, b.current)
        && !same_values(a.current, b.current)
}

/// Some identity has two latest writers that differ in a value: the
/// candidates are not consistent, and no record may be picked for it.
pub open spec fn ambiguous(candidates: Seq<OwnershipCandidateView>) -> bool {
    exists|a: OwnershipCandidateView, b: OwnershipCandidateView| conflicting(a, b, candidates)
}

/// Each record comes before the next in the order of identities.
pub open spec fn strictly_sorted(records: Seq<CurrentTokenOwnershipV2View>) -> bool {
    forall|i: int, j: int|
        0 <= i < j < records.len() ==> identity_lt(#[trigger] records[i], #[trigger] records[j])
}

/// `x` is the record of a winner.
pub open spec fn wins(x: CurrentTokenOwnershipV2View, candidates: Seq<OwnershipCandidateView>) -> bool {
    exists|c: OwnershipCandidateView| is_winner(c, candidates) && c.current == x
}

/// Some record has the identity of `x`.
pub open spec fn covered(x: CurrentTokenOwnershipV2View, records: Seq<CurrentTokenOwnershipV2View>) -> bool {
    exists|i: int| 0 <= i < records.len() && same_identity(#[trigger] records[i], x)
}

/// `records` is a merge of `candidates`: sorted by identity, each the record
/// of a winner, and with a record for the identity of every candidate.
pub open spec fn is_merge_of(
    records: Seq<CurrentTokenOwnershipV2View>,
    candidates: Seq<OwnershipCandidateView>,
) -> bool {
    &&& strictly_sorted(records)
    &&& forall|i: int| 0 <= i < records.len() ==> wins(#[trigger] records[i], candidates)
    &&& forall|k: int|
        0 <= k < candidates.len() ==> covered((#[trigger] candidates[k]).current, records)
}

/// The records of a sequence of candidates.
pub open spec fn currents(leaders: Seq<OwnershipCandidateView>) -> Seq<CurrentTokenOwnershipV2View> {
    Seq::new(leaders.len(), |i: int| leaders[i].current)
}

/// The records of a vector of current ownerships.
pub open spec fn current_views(s: Seq<CurrentTokenOwnershipV2>) -> Seq<CurrentTokenOwnershipV2View> {
    Seq::new(s.len(), |i: int| s[i]@)
}

/// `leaders` holds, in the order of identities, a winner among the first
/// `n` candidates for each identity that occurs among them.
#[verifier::opaque]
pub open spec fn leads(
    leaders: Seq<OwnershipCandidateView>,
    candidates: Seq<OwnershipCandidateView>,
    n: int,
) -> bool {
    &&& strictly_sorted(currents(leaders))
    &&& forall|i: int|
        0 <= i < leaders.len() ==> drawn(#[trigger] leaders[i], candidates, n) && unbeaten(
            leaders[i],
            candidates,
            n,
        )
    &&& forall|k: int|
        0 <= k < n ==> covered((#[trigger] candidates[k]).current, currents(leaders))
}

/// In a sorted sequence no two records have the same identity.
proof fn lemma_sorted_distinct(records: Seq<CurrentTokenOwnershipV2View>, i: int, j: int)
    requires
        strictly_sorted(records),
        0 <= i < records.len(),
        0 <= j < records.len(),
        same_identity(records[i], records[j]),
    ensures
        i == j,
{
    lemma_identity_trichotomy(records[i], records[j]);
}

/// A candidate of the identity of a leader that does not outrank it leaves
/// the leaders as they are.
proof fn lemma_keep(
    leaders: Seq<OwnershipCandidateView>,
    candidates: Seq<OwnershipCandidateView>,
    n: int,
    p: int,
)
    requires
        leads(leaders, candidates, n),
        0 <= n < candidates.len(),
        0 <= p < leaders.len(),
        same_identity(leaders[p].current, candidates[n].current),
        !outranks(candidates[n], leaders[p]),
    ensures
        leads(leaders, candidates, n + 1),
{
    reveal(leads);
    let c = candidates[n];
    let cs = currents(leaders);
    assert forall|i: int| 0 <= i < leaders.len() implies drawn(
        #[trigger] leaders[i],
        candidates,
        n + 1,
    ) && unbeaten(leaders[i], candidates, n + 1) by {
        assert(drawn(leaders[i], candidates, n));
        let k = choose|k: int| 0 <= k < n && #[trigger] candidates[k] == leaders[i];
        assert(candidates[k] == leaders[i]);
        assert(unbeaten(leaders[i], candidates, n));
        if same_identity(c.current, leaders[i].current) {
            lemma_identity_trichotomy(c.current, leaders[i].current);
            lemma_identity_order(leaders[p].current, c.current, leaders[i].current);
            assert(cs[p] == leaders[p].current);
            assert(cs[i] == leaders[i].current);
            lemma_sorted_distinct(cs, p, i);
        }
    }
    assert forall|k: int| 0 <= k < n + 1 implies covered(
        (#[trigger] candidates[k]).current,
        cs,
    ) by {
        if k == n {
            assert(same_identity(cs[p], c.current));
        }
    }
}

/// A candidate that outranks the leader of its identity takes its place.
proof fn lemma_replace(
    leaders: Seq<OwnershipCandidateView>,
    candidates: Seq<OwnershipCandidateView>,
    n: int,
    p: int,
)
    requires
        leads(leaders, candidates, n),
        0 <= n < candidates.len(),
        0 <= p < leaders.len(),
        same_identity(leaders[p].current, candidates[n].current),
        outranks(candidates[n], leaders[p]),
    ensures
        leads(leaders.update(p, candidates[n]), candidates, n + 1),
{
    reveal(leads);
    let c = candidates[n];
    let after = leaders.update(p, c);
    let cs = currents(leaders);
    let cs2 = currents(after);
    assert forall|i: int, j: int| 0 <= i < j < cs2.len() implies identity_lt(
        #[trigger] cs2[i],
        #[trigger] cs2[j],
    ) by {
        assert(identity_lt(cs[i], cs[j]));
        lemma_identity_trichotomy(cs[p], c.current);
        lemma_identity_order(cs[i], cs[p], c.current);
        lemma_identity_order(c.current, cs[p], cs[j]);
    }
    assert forall|i: int| 0 <= i < after.len() implies drawn(
        #[trigger] after[i],
        candidates,
        n + 1,
    ) && unbeaten(after[i], candidates, n + 1) by {
        if i == p {
            assert(candidates[n] == after[i]);
            assert forall|j: int|
                0 <= j < n + 1 && same_identity(
                    (#[trigger] candidates[j]).current,
                    c.current,
                ) implies !outranks(candidates[j], c) by {
                if j < n {
                    lemma_identity_trichotomy(leaders[p].current, c.current);
                    lemma_identity_order(candidates[j].current, c.current, leaders[p].current);
                    assert(unbeaten(leaders[p], candidates, n));
                }
            }
        } else {
            assert(drawn(leaders[i], candidates, n));
            let k = choose|k: int| 0 <= k < n && #[trigger] candidates[k] == leaders[i];
            assert(candidates[k] == after[i]);
            assert(unbeaten(leaders[i], candidates, n));
            if same_identity(c.current, leaders[i].current) {
                lemma_identity_order(leaders[p].current, c.current, leaders[i].current);
                assert(cs[p] == leaders[p].current);
                assert(cs[i] == leaders[i].current);
                lemma_sorted_distinct(cs, p, i);
            }
        }
    }
    assert forall|k: int| 0 <= k < n + 1 implies covered(
        (#[trigger] candidates[k]).current,
        cs2,
    ) by {
        if k == n {
            lemma_identity_trichotomy(c.current, c.current);
            assert(same_identity(cs2[p], c.current));
        } else {
            assert(covered(candidates[k].current, cs));
            let i = choose|i: int| 0 <= i < cs.len() && same_identity(#[trigger] cs[i], candidates[k].current);
            if i == p {
                lemma_identity_trichotomy(cs[p], c.current);
                lemma_identity_order(c.current, cs[p], candidates[k].current);
                assert(same_identity(cs2[p], candidates[k].current));
            } else {
                assert(same_identity(cs2[i], candidates[k].current));
            }
        }
    }
}

/// A record that stands between its neighbours in the order can be put
/// between them, and no record of the sequence has its identity.
proof fn lemma_insert_sorted(
    records: Seq<CurrentTokenOwnershipV2View>,
    x: CurrentTokenOwnershipV2View,
    p: int,
)
    requires
        strictly_sorted(records),
        0 <= p <= records.len(),
        forall|i: int| 0 <= i < p ==> identity_lt(#[trigger] records[i], x),
        p < records.len() ==> identity_lt(x, records[p]),
    ensures
        strictly_sorted(records.insert(p, x)),
        forall|i: int| 0 <= i < records.len() ==> !same_identity(#[trigger] records[i], x),
{
    assert forall|i: int| p <= i < records.len() implies identity_lt(x, #[trigger] records[i]) by {
        if i > p {
            assert(identity_lt(records[p], records[i]));
            lemma_identity_order(x, records[p], records[i]);
        }
    }
    assert forall|i: int| 0 <= i < records.len() implies !same_identity(
        #[trigger] records[i],
        x,
    ) by {
        lemma_identity_trichotomy(records[i], x);
    }
    let after = records.insert(p, x);
    assert forall|i: int, j: int| 0 <= i < j < after.len() implies identity_lt(
        #[trigger] after[i],
        #[trigger] after[j],
    ) by {
        if j < p {
            assert(identity_lt(records[i], records[j]));
        } else if j == p {
            assert(identity_lt(records[i], x));
        } else if i < p {
            assert(identity_lt(records[i], records[j - 1]));
        } else if i == p {
            assert(identity_lt(x, records[j - 1]));
        } else {
            assert(identity_lt(records[i - 1], records[j - 1]));
        }
    }
}

/// A candidate whose identity no leader has becomes a leader, at the place
/// that keeps the order.
proof fn lemma_insert(
    leaders: Seq<OwnershipCandidateView>,
    candidates: Seq<OwnershipCandidateView>,
    n: int,
    p: int,
)
    requires
        leads(leaders, candidates, n),
        0 <= n < candidates.len(),
        0 <= p <= leaders.len(),
        forall|i: int| 0 <= i < p ==> identity_lt(#[trigger] currents(leaders)[i], candidates[n].current),
        p < leaders.len() ==> identity_lt(candidates[n].current, leaders[p].current),
    ensures
        leads(leaders.insert(p, candidates[n]), candidates, n + 1),
{
    reveal(leads);
    let c = candidates[n];
    let after = leaders.insert(p, c);
    let cs = currents(leaders);
    let cs2 = currents(after);
    assert(p < leaders.len() ==> cs[p] == leaders[p].current);
    lemma_insert_sorted(cs, c.current, p);
    assert(cs2 =~= cs.insert(p, c.current));
    lemma_insert_drawn(leaders, candidates, n, p);
    assert forall|k: int| 0 <= k < n + 1 implies covered(
        (#[trigger] candidates[k]).current,
        cs2,
    ) by {
        if k == n {
            lemma_identity_trichotomy(c.current, c.current);
            assert(same_identity(cs2[p], c.current));
        } else {
            assert(covered(candidates[k].current, cs));
            let i = choose|i: int| 0 <= i < cs.len() && same_identity(#[trigger] cs[i], candidates[k].current);
            if i < p {
                assert(same_identity(cs2[i], candidates[k].current));
            } else {
                assert(cs2[i + 1] == cs[i]);
                assert(same_identity(cs2[i + 1], candidates[k].current));
            }
        }
    }
}

/// After a candidate of a new identity is put among the leaders, each
/// leader is still drawn from the candidates and unbeaten among them.
proof fn lemma_insert_drawn(
    leaders: Seq<OwnershipCandidateView>,
    candidates: Seq<OwnershipCandidateView>,
    n: int,
    p: int,
)
    requires
        leads(leaders, candidates, n),
        0 <= n < candidates.len(),
        0 <= p <= leaders.len(),
        forall|i: int|
            0 <= i < leaders.len() ==> !same_identity(
                #[trigger] currents(leaders)[i],
                candidates[n].current,
            ),
    ensures
        forall|i: int|
            0 <= i < leaders.len() + 1 ==> drawn(
                #[trigger] leaders.insert(p, candidates[n])[i],
                candidates,
                n + 1,
            ) && unbeaten(leaders.insert(p, candidates[n])[i], candidates, n + 1),
{
    reveal(leads);
    let c = candidates[n];
    let after = leaders.insert(p, c);
    let cs = currents(leaders);
    assert forall|i: int| 0 <= i < leaders.len() + 1 implies drawn(
        #[trigger] after[i],
        candidates,
        n + 1,
    ) && unbeaten(after[i], candidates, n + 1) by {
        if i == p {
            assert(candidates[n] == after[i]);
            assert forall|j: int|
                0 <= j < n + 1 && same_identity(
                    (#[trigger] candidates[j]).current,
                    c.current,
                ) implies !outranks(candidates[j], c) by {
                if j < n {
                    assert(covered(candidates[j].current, cs));
                    let w = choose|w: int| 0 <= w < cs.len() && same_identity(#[trigger] cs[w], candidates[j].current);
                    lemma_identity_order(cs[w], candidates[j].current, c.current);
                }
            }
        } else {
            let o = if i < p { i } else { i - 1 };
            assert(after[i] == leaders[o]);
            assert(drawn(leaders[o], candidates, n));
            let k = choose|k: int| 0 <= k < n && #[trigger] candidates[k] == leaders[o];
            assert(candidates[k] == after[i]);
            assert(unbeaten(leaders[o], candidates, n));
            assert(cs[o] == leaders[o].current);
            lemma_identity_trichotomy(leaders[o].current, c.current);
        }
    }
}

/// Every one of the first `k` candidates that is as late a writer as its
/// leader holds the leader's values.
#[verifier::opaque]
pub open spec fn settled(
    leaders: Seq<OwnershipCandidateView>,
    candidates: Seq<OwnershipCandidateView>,
    k: int,
) -> bool {
    forall|j: int, i: int|
        0 <= j < k && 0 <= i < leaders.len() && same_identity(
            (#[trigger] leaders[i]).current,
            (#[trigger] candidates[j]).current,
        ) && !later_writer(leaders[i], candidates[j]) ==> same_values(
            candidates[j].current,
            leaders[i].current,
        )
}

/// A leader is a latest writer.
proof fn lemma_leader_is_latest(
    leaders: Seq<OwnershipCandidateView>,
    candidates: Seq<OwnershipCandidateView>,
    p: int,
)
    requires
        leads(leaders, candidates, candidates.len() as int),
        0 <= p < leaders.len(),
    ensures
        latest(leaders[p], candidates),
        is_winner(leaders[p], candidates),
{
    reveal(leads);
    assert(unbeaten(leaders[p], candidates, candidates.len() as int));
}

/// A candidate that is as late a writer as the leader of its identity and
/// differs from it in a value makes the candidates ambiguous.
proof fn lemma_conflict_found(
    leaders: Seq<OwnershipCandidateView>,
    candidates: Seq<OwnershipCandidateView>,
    p: int,
    k: int,
)
    requires
        leads(leaders, candidates, candidates.len() as int),
        0 <= p < leaders.len(),
        0 <= k < candidates.len(),
        same_identity(leaders[p].current, candidates[k].current),
        !later_writer(leaders[p], candidates[k]),
        !same_values(leaders[p].current, candidates[k].current),
    ensures
        ambiguous(candidates),
{
    lemma_leader_is_latest(leaders, candidates, p);
    let a = leaders[p];
    let b = candidates[k];
    let n = candidates.len() as int;
    assert(candidates[k] == b);
    assert forall|j: int|
        0 <= j < n && same_identity(
            (#[trigger] candidates[j]).current,
            b.current,
        ) implies !later_writer(candidates[j], b) by {
        lemma_identity_trichotomy(a.current, b.current);
        lemma_identity_order(candidates[j].current, b.current, a.current);
    }
    assert(conflicting(a, b, candidates));
}

/// Where every candidate is settled, no identity has two latest writers
/// that differ in a value.
proof fn lemma_settled_not_ambiguous(
    leaders: Seq<OwnershipCandidateView>,
    candidates: Seq<OwnershipCandidateView>,
)
    requires
        leads(leaders, candidates, candidates.len() as int),
        settled(leaders, candidates, candidates.len() as int),
    ensures
        !ambiguous(candidates),
{
    reveal(leads);
    reveal(settled);
    let n = candidates.len() as int;
    let cs = currents(leaders);
    assert forall|a: OwnershipCandidateView, b: OwnershipCandidateView| !conflicting(
        a,
        b,
        candidates,
    ) by {
        if conflicting(a, b, candidates) {
            let ka = choose|k: int| 0 <= k < n && #[trigger] candidates[k] == a;
            let kb = choose|k: int| 0 <= k < n && #[trigger] candidates[k] == b;
            assert(covered(candidates[ka].current, cs));
            let w = choose|w: int| 0 <= w < cs.len() && same_identity(#[trigger] cs[w], a.current);
            assert(cs[w] == leaders[w].current);
            assert(drawn(leaders[w], candidates, n));
            let m = choose|m: int| 0 <= m < n && #[trigger] candidates[m] == leaders[w];
            lemma_identity_trichotomy(leaders[w].current, a.current);
            lemma_identity_order(leaders[w].current, a.current, b.current);
            lemma_identity_trichotomy(leaders[w].current, b.current);
            assert(!later_writer(candidates[m], a));
            assert(!later_writer(candidates[m], b));
            assert(same_values(candidates[ka].current, leaders[w].current));
            assert(same_values(candidates[kb].current, leaders[w].current));
            lemma_same_values_equivalence(b.current, leaders[w].current, a.current);
            lemma_same_values_equivalence(a.current, leaders[w].current, b.current);
        }
    }
}

/// The records of the leaders of all candidates are a merge of them.
proof fn lemma_leaders_merge(
    leaders: Seq<OwnershipCandidateView>,
    candidates: Seq<OwnershipCandidateView>,
)
    requires
        leads(leaders, candidates, candidates.len() as int),
    ensures
        is_merge_of(currents(leaders), candidates),
{
    reveal(leads);
    let cs = currents(leaders);
    assert forall|i: int| 0 <= i < cs.len() implies wins(#[trigger] cs[i], candidates) by {
        assert(is_winner(leaders[i], candidates));
        assert(leaders[i].current == cs[i]);
    }
}

/// The size of a change index, whatever its sign.
fn magnitude_of(index: i64) -> (r: u64)
    ensures
        r == magnitude(index),
{
    if index >= 0 {
        index as u64
    } else if index == i64::MIN {
        9223372036854775808u64
    } else {
        (-index) as u64
    }
}

impl OwnershipCandidate {
    /// Whether `self` is the later writer of the two.
    pub fn is_later_than(&self, other: &OwnershipCandidate) -> (r: bool)
        ensures
            r == later_writer(self@, other@),
    {
        self.current.last_transaction_version > other.current.last_transaction_version || (
        self.current.last_transaction_version == other.current.last_transaction_version
            && magnitude_of(self.write_set_change_index) > magnitude_of(
            other.write_set_change_index,
        ))
    }

    /// Whether `self` is to be kept before `other`: as the later writer, or
    /// where neither is later, as the one that writes its decimals plainer.
    pub fn takes_place_of(&self, other: &OwnershipCandidate) -> (r: bool)
        ensures
            r == outranks(self@, other@),
    {
        if self.is_later_than(other) {
            true
        } else if other.is_later_than(self) {
            false
        } else {
            self.current.property_version_v1.scale < other.current.property_version_v1.scale || (
            self.current.property_version_v1.scale == other.current.property_version_v1.scale
                && self.current.amount.scale < other.current.amount.scale)
        }
    }
}

/// No candidate holds a negative amount.
pub open spec fn amounts_non_negative(candidates: Seq<OwnershipCandidateView>) -> bool {
    forall|k: int|
        0 <= k < candidates.len() ==> (#[trigger] candidates[k]).current.amount.non_negative()
}

/// No merged record holds a negative amount where no candidate does.
pub proof fn lemma_merged_amounts_non_negative(
    records: Seq<CurrentTokenOwnershipV2View>,
    candidates: Seq<OwnershipCandidateView>,
)
    requires
        is_merge_of(records, candidates),
        amounts_non_negative(candidates),
    ensures
        forall|i: int| 0 <= i < records.len() ==> (#[trigger] records[i]).amount.non_negative(),
{
    assert forall|i: int| 0 <= i < records.len() implies (#[trigger] records[i]).amount.non_negative() by {
        assert(wins(records[i], candidates));
        let c = choose|c: OwnershipCandidateView| is_winner(c, candidates) && c.current == records[i];
        let m = choose|m: int| 0 <= m < candidates.len() && #[trigger] candidates[m] == c;
        assert(candidates[m].current.amount.non_negative());
    }
}

/// Nothing leads no candidates.
proof fn lemma_leads_start(candidates: Seq<OwnershipCandidateView>)
    ensures
        leads(Seq::empty(), candidates, 0),
{
    reveal(leads);
    assert(currents(Seq::<OwnershipCandidateView>::empty()).len() == 0);
}

/// The leaders are in strict order, and each of the candidates that they
/// lead has a leader of its identity.
proof fn lemma_leads_covered(
    leaders: Seq<OwnershipCandidateView>,
    candidates: Seq<OwnershipCandidateView>,
    n: int,
    k: int,
)
    requires
        leads(leaders, candidates, n),
        0 <= k < n,
    ensures
        strictly_sorted(currents(leaders)),
        covered(candidates[k].current, currents(leaders)),
{
    reveal(leads);
}

/// Where a sorted sequence holds a record of the identity of `x`, it holds
/// it at the first place whose record does not come before `x`.
proof fn lemma_place_of_covered(
    records: Seq<CurrentTokenOwnershipV2View>,
    x: CurrentTokenOwnershipV2View,
    p: int,
)
    requires
        strictly_sorted(records),
        covered(x, records),
        0 <= p <= records.len(),
        forall|i: int| 0 <= i < p ==> identity_lt(#[trigger] records[i], x),
        p < records.len() ==> !identity_lt(records[p], x),
    ensures
        p < records.len(),
        same_identity(records[p], x),
{
    let w = choose|w: int| 0 <= w < records.len() && same_identity(#[trigger] records[w], x);
    lemma_identity_trichotomy(records[w], x);
    if w < p {
        assert(identity_lt(records[w], x));
    } else if w > p {
        assert(identity_lt(records[p], records[w]));
        lemma_identity_trichotomy(records[p], x);
        lemma_identity_order(records[p], records[w], x);
    }
}

/// Nothing is to settle before the first candidate.
proof fn lemma_settled_start(
    leaders: Seq<OwnershipCandidateView>,
    candidates: Seq<OwnershipCandidateView>,
)
    ensures
        settled(leaders, candidates, 0),
{
    reveal(settled);
}

/// A candidate that its leader outranks, or whose record is the leader's,
/// is settled.
proof fn lemma_settled_next(
    leaders: Seq<OwnershipCandidateView>,
    candidates: Seq<OwnershipCandidateView>,
    k: int,
    p: int,
)
    requires
        leads(leaders, candidates, candidates.len() as int),
        settled(leaders, candidates, k),
        0 <= k < candidates.len(),
        0 <= p < leaders.len(),
        same_identity(leaders[p].current, candidates[k].current),
        later_writer(leaders[p], candidates[k]) || same_values(
            candidates[k].current,
            leaders[p].current,
        ),
    ensures
        settled(leaders, candidates, k + 1),
{
    reveal(leads);
    reveal(settled);
    let cs = currents(leaders);
    assert forall|j: int, i: int|
        0 <= j < k + 1 && 0 <= i < leaders.len() && same_identity(
            (#[trigger] leaders[i]).current,
            (#[trigger] candidates[j]).current,
        ) && !later_writer(leaders[i], candidates[j]) implies same_values(
        candidates[j].current,
        leaders[i].current,
    ) by {
        if j == k {
            assert(cs[i] == leaders[i].current);
            assert(cs[p] == leaders[p].current);
            lemma_identity_trichotomy(cs[p], candidates[k].current);
            lemma_identity_order(cs[i], candidates[k].current, cs[p]);
            lemma_sorted_distinct(cs, i, p);
        }
    }
}

/// The first place among the leaders whose identity does not come before
/// that of `candidate`, and how the leader there stands to it.
fn find_place(leaders: &Vec<OwnershipCandidate>, candidate: &OwnershipCandidate) -> (r: (
    usize,
    IdentityOrder,
))
    ensures
        0 <= r.0 <= leaders@.len(),
        forall|i: int|
            0 <= i < r.0 ==> identity_lt(
                #[trigger] currents(candidate_views(leaders@))[i],
                candidate@.current,
            ),
        r.0 < leaders@.len() ==> !identity_lt(leaders@[r.0 as int]@.current, candidate@.current),
        r.0 < leaders@.len() ==> (r.1 == IdentityOrder::Same <==> same_identity(
            leaders@[r.0 as int]@.current,
            candidate@.current,
        )),
        r.0 < leaders@.len() && r.1 != IdentityOrder::Same ==> identity_lt(
            candidate@.current,
            leaders@[r.0 as int]@.current,
        ),
{
    let ghost cs = currents(candidate_views(leaders@));
    let mut p: usize = 0;
    let mut order = IdentityOrder::Before;
    while p < leaders.len() && order == IdentityOrder::Before
        invariant
            0 <= p <= leaders@.len(),
            cs == currents(candidate_views(leaders@)),
            forall|i: int| 0 <= i < p ==> identity_lt(#[trigger] cs[i], candidate@.current),
            order != IdentityOrder::Before ==> p < leaders@.len() && !identity_lt(
                leaders@[p as int]@.current,
                candidate@.current,
            ) && (order == IdentityOrder::Same <==> same_identity(
                leaders@[p as int]@.current,
                candidate@.current,
            )) && (order == IdentityOrder::After <==> identity_lt(
                candidate@.current,
                leaders@[p as int]@.current,
            )),
        decreases leaders@.len() - p + (if order == IdentityOrder::Before { 1int } else { 0int }),
    {
        assert(cs[p as int] == leaders@[p as int]@.current);
        order = leaders[p].current.identity_order(&candidate.current);
        if order == IdentityOrder::Before {
            p = p + 1;
        }
    }
    (p, order)
}

/// For each identity the leader among the candidates, in the order of
/// identities.
fn leaders_of(candidates: &Vec<OwnershipCandidate>) -> (leaders: Vec<OwnershipCandidate>)
    ensures
        leads(
            candidate_views(leaders@),
            candidate_views(candidates@),
            candidates@.len() as int,
        ),
{
    let ghost cands = candidate_views(candidates@);
    let mut leaders: Vec<OwnershipCandidate> = Vec::new();
    let mut n: usize = 0;
    proof {
        assert(candidate_views(leaders@) =~= Seq::empty());
        lemma_leads_start(cands);
    }
    while n < candidates.len()
        invariant
            0 <= n <= candidates@.len(),
            cands == candidate_views(candidates@),
            leads(candidate_views(leaders@), cands, n as int),
        decreases candidates@.len() - n,
    {
        let candidate = &candidates[n];
        let ghost before = candidate_views(leaders@);
        assert(cands[n as int] == candidate@);
        let (p, order) = find_place(&leaders, candidate);
        assert(p < leaders@.len() ==> before[p as int] == leaders@[p as int]@);
        if p < leaders.len() && order == IdentityOrder::Same {
            if candidate.takes_place_of(&leaders[p]) {
                proof {
                    lemma_replace(before, cands, n as int, p as int);
                }
                leaders.set(p, candidate.clone());
                assert(candidate_views(leaders@) =~= before.update(p as int, cands[n as int]));
            } else {
                proof {
                    lemma_keep(before, cands, n as int, p as int);
                }
            }
        } else {
            proof {
                lemma_insert(before, cands, n as int, p as int);
            }
            leaders.insert(p, candidate.clone());
            assert(candidate_views(leaders@) =~= before.insert(p as int, cands[n as int]));
        }
        n = n + 1;
    }
    leaders
}

/// Reduces the candidates of one batch to one record for each identity: the
/// candidate of the highest transaction version, and among those of the
/// largest change index by magnitude. Where several such candidates hold
/// the same values, the one that writes its decimals plainest is kept. The
/// records come out in the order of identities.
///
/// Fails exactly where two candidates of one identity share the highest
/// version and magnitude and differ in a value.
pub fn merge_current_ownerships(candidates: &Vec<OwnershipCandidate>) -> (r: Result<
    Vec<CurrentTokenOwnershipV2>,
    MergeError,
>)
    ensures
        r.is_err() <==> ambiguous(candidate_views(candidates@)),
        r.is_err() ==> r.unwrap_err() == MergeError::InconsistentCandidates,
        r.is_ok() ==> is_merge_of(current_views(r.unwrap()@), candidate_views(candidates@)),
        r.is_ok() && amounts_non_negative(candidate_views(candidates@)) ==> forall|i: int|
            0 <= i < r.unwrap()@.len() ==> (#[trigger] r.unwrap()@[i]).amount.non_negative(),
{
    let ghost cands = candidate_views(candidates@);
    let leaders = leaders_of(candidates);
    let ghost lv = candidate_views(leaders@);
    let ghost cs = currents(lv);
    let mut k: usize = 0;
    proof {
        lemma_settled_start(lv, cands);
    }
    while k < candidates.len()
        invariant
            0 <= k <= candidates@.len(),
            cands == candidate_views(candidates@),
            lv == candidate_views(leaders@),
            cs == currents(lv),
            leads(lv, cands, cands.len() as int),
            settled(lv, cands, k as int),
        decreases candidates@.len() - k,
    {
        let candidate = &candidates[k];
        assert(cands[k as int] == candidate@);
        let (p, order) = find_place(&leaders, candidate);
        proof {
            lemma_leads_covered(lv, cands, cands.len() as int, k as int);
            assert(p < leaders@.len() ==> cs[p as int] == leaders@[p as int]@.current);
            lemma_place_of_covered(cs, candidate@.current, p as int);
        }
        assert(lv[p as int] == leaders@[p as int]@);
        if !leaders[p].is_later_than(candidate) && !leaders[p].current.same_record(
            &candidate.current,
        ) {
            proof {
                lemma_conflict_found(lv, cands, p as int, k as int);
            }
            return Err(MergeError::InconsistentCandidates);
        }
        proof {
            lemma_same_values_equivalence(lv[p as int].current, cands[k as int].current, lv[p as int].current);
            lemma_settled_next(lv, cands, k as int, p as int);
        }
        k = k + 1;
    }
    proof {
        lemma_settled_not_ambiguous(lv, cands);
        lemma_leaders_merge(lv, cands);
    }
    let mut records: Vec<CurrentTokenOwnershipV2> = Vec::new();
    let mut i: usize = 0;
    while i < leaders.len()
        invariant
            0 <= i <= leaders@.len(),
            lv == candidate_views(leaders@),
            cs == currents(lv),
            current_views(records@) == cs.take(i as int),
        decreases leaders@.len() - i,
    {
        let ghost before = current_views(records@);
        let record = leaders[i].current.clone();
        assert(record@ == cs[i as int]);
        records.push(record);
        assert(current_views(records@) =~= before.push(cs[i as int]));
        assert(cs.take(i as int + 1) =~= cs.take(i as int).push(cs[i as int]));
        i = i + 1;
    }
    proof {
        assert(cs.take(leaders@.len() as int) =~= cs);
        if amounts_non_negative(cands) {
            lemma_merged_amounts_non_negative(cs, cands);
            assert forall|i: int| 0 <= i < records@.len() implies (
            #[trigger] records@[i]).amount.non_negative() by {
                assert(current_views(records@)[i] == records@[i]@);
            }
        }
    }
    Ok(records)
}

} // verus!

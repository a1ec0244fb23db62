use vstd::prelude::*;
use crate::address::{standardize_address, standardized};
use crate::context::{
    Decoded, ObjectAggregatedDataMapping, ObjectContextView, TableHandleToOwner,
    TableMetadataForToken, TokenDataV2, TokenV1AggregatedEvents, TokenV1AggregatedEventsMapping,
    TransferView, deposit_owner, entry, handle_entries, handle_get, object_entries, object_get,
    transfer_view, v1_event_entries, v1_events_get, withdraw_owner,
};
use crate::decimal::{Decimal, ensure_not_negative};
use crate::model::{
    OwnershipCandidate, OwnershipCandidateView, Timestamp, TokenOwnershipV2, TokenOwnershipV2View,
    TokenStandard, V1_TOKEN_STORE_TABLE_TYPE, candidate_of, clone_opt, opt_text,
};

verus! {

/// Why a state change gave no ownership records.
#[derive(Clone, Copy, Debug, PartialEq, Eq, Structural)]
pub enum OwnershipError {
    /// Token data was seen for an asset whose object core the batch lacks.
    MissingObjectCore,
    /// The payload claimed a known type and did not decode as one.
    DecodeFailure,
    /// A transfer has an event index whose negation is no `i64`.
    EventIndexOutOfRange,
}

/// The texts of a sequence of events.
pub open spec fn event_views(s: Seq<TokenOwnershipV2>) -> Seq<TokenOwnershipV2View> {
    Seq::new(s.len(), |i: int| s[i]@)
}

/// The contents of a sequence of candidates.
pub open spec fn candidate_views(s: Seq<OwnershipCandidate>) -> Seq<OwnershipCandidateView> {
    Seq::new(s.len(), |i: int| s[i]@)
}

/// The candidates that stand beside a sequence of events, one for each.
pub open spec fn candidates_of(events: Seq<TokenOwnershipV2View>) -> Seq<OwnershipCandidateView> {
    Seq::new(events.len(), |i: int| candidate_of(events[i]))
}

/// An ownership event of a modern asset: stored under its own id, with
/// property version zero and none of the legacy fields.
pub open spec fn v2_event(
    version: i64,
    change_index: i64,
    token_data_id: Seq<char>,
    owner: Seq<char>,
    amount: Decimal,
    soulbound: Option<bool>,
    fungible: Option<bool>,
    non_transferrable: Option<bool>,
    timestamp: Timestamp,
) -> TokenOwnershipV2View {
    TokenOwnershipV2View {
        transaction_version: version,
        write_set_change_index: change_index,
        token_data_id: token_data_id,
        property_version_v1: Decimal::spec_zero(),
        owner_address: Some(owner),
        storage_id: token_data_id,
        amount: amount,
        table_type_v1: None,
        token_properties_mutated_v1: None,
        is_soulbound_v2: soulbound,
        token_standard: TokenStandard::V2,
        is_fungible_v2: fungible,
        transaction_timestamp: timestamp,
        non_transferrable_by_owner: non_transferrable,
    }
}

/// Builds the event `v2_event` and the candidate beside it.
pub(crate) fn make_v2_pair(
    version: i64,
    change_index: i64,
    token_data_id: &String,
    owner: &String,
    amount: Decimal,
    soulbound: Option<bool>,
    fungible: Option<bool>,
    non_transferrable: Option<bool>,
    timestamp: Timestamp,
) -> (r: (TokenOwnershipV2, OwnershipCandidate))
    ensures
        r.0@ == v2_event(
            version,
            change_index,
            token_data_id@,
            owner@,
            amount,
            soulbound,
            fungible,
            non_transferrable,
            timestamp,
        ),
        r.1@ == candidate_of(r.0@),
{
    let event = TokenOwnershipV2 {
        transaction_version: version,
        write_set_change_index: change_index,
        token_data_id: token_data_id.clone(),
        property_version_v1: Decimal::zero(),
        owner_address: Some(owner.clone()),
        storage_id: token_data_id.clone(),
        amount,
        table_type_v1: None,
        token_properties_mutated_v1: None,
        is_soulbound_v2: soulbound,
        token_standard: TokenStandard::V2,
        is_fungible_v2: fungible,
        transaction_timestamp: timestamp,
        non_transferrable_by_owner: non_transferrable,
    };
    let candidate = event.candidate().unwrap();
    (event, candidate)
}

/// An object counts as soulbound when it carries the untransferable marker
/// or when only its administrator may transfer it.
pub open spec fn is_soulbound(ctx: ObjectContextView) -> bool {
    ctx.untransferable || !ctx.allow_ungated_transfer
}

/// The event for the current owner of a modern asset: amount one.
pub open spec fn current_owner_event(
    version: i64,
    change_index: i64,
    token_data_id: Seq<char>,
    timestamp: Timestamp,
    ctx: ObjectContextView,
) -> TokenOwnershipV2View {
    v2_event(
        version,
        change_index,
        token_data_id,
        ctx.owner,
        Decimal::spec_one(),
        Some(is_soulbound(ctx)),
        None,
        Some(!ctx.allow_ungated_transfer),
        timestamp,
    )
}

/// The event for the sender of a transfer: amount zero, and as change index
/// the negated event index.
pub open spec fn previous_owner_event(
    version: i64,
    token_data_id: Seq<char>,
    timestamp: Timestamp,
    ctx: ObjectContextView,
    transfer: TransferView,
) -> TokenOwnershipV2View {
    v2_event(
        version,
        (-transfer.event_index) as i64,
        token_data_id,
        transfer.from,
        Decimal::spec_zero(),
        Some(is_soulbound(ctx)),
        None,
        Some(is_soulbound(ctx)),
        timestamp,
    )
}

/// The events that a run of transfers gives, in the order of the transfers:
/// one for each transfer between two different addresses, none for a
/// transfer of an address to itself.
pub open spec fn transfer_derived(
    version: i64,
    token_data_id: Seq<char>,
    timestamp: Timestamp,
    ctx: ObjectContextView,
    transfers: Seq<TransferView>,
) -> Seq<TokenOwnershipV2View>
    decreases transfers.len(),
{
    if transfers.len() == 0 {
        Seq::empty()
    } else {
        let before = transfer_derived(version, token_data_id, timestamp, ctx, transfers.drop_last());
        if transfers.last().from == transfers.last().to {
            before
        } else {
            before.push(
                previous_owner_event(version, token_data_id, timestamp, ctx, transfers.last()),
            )
        }
    }
}

/// All events of a modern asset in one transaction: first the one for the
/// current owner, then those derived from its transfers.
pub open spec fn nft_v2_events(
    version: i64,
    change_index: i64,
    token_data_id: Seq<char>,
    timestamp: Timestamp,
    ctx: ObjectContextView,
) -> Seq<TokenOwnershipV2View> {
    seq![current_owner_event(version, change_index, token_data_id, timestamp, ctx)]
        + transfer_derived(version, token_data_id, timestamp, ctx, ctx.transfer_events)
}

/// The events of two runs of transfers, one after the other, are the events
/// of the first run followed by those of the second.
pub proof fn lemma_transfer_derived_concat(
    version: i64,
    token_data_id: Seq<char>,
    timestamp: Timestamp,
    ctx: ObjectContextView,
    first: Seq<TransferView>,
    second: Seq<TransferView>,
)
    ensures
        transfer_derived(version, token_data_id, timestamp, ctx, first + second)
            == transfer_derived(version, token_data_id, timestamp, ctx, first) + transfer_derived(
            version,
            token_data_id,
            timestamp,
            ctx,
            second,
        ),
    decreases second.len(),
{
    let whole = first + second;
    if second.len() == 0 {
        assert(whole =~= first);
        assert(transfer_derived(version, token_data_id, timestamp, ctx, first) + Seq::empty()
            =~= transfer_derived(version, token_data_id, timestamp, ctx, first));
    } else {
        assert(whole.drop_last() =~= first + second.drop_last());
        assert(whole.last() == second.last());
        lemma_transfer_derived_concat(
            version,
            token_data_id,
            timestamp,
            ctx,
            first,
            second.drop_last(),
        );
        let a = transfer_derived(version, token_data_id, timestamp, ctx, first);
        let b = transfer_derived(version, token_data_id, timestamp, ctx, second.drop_last());
        if second.last().from != second.last().to {
            let e = previous_owner_event(version, token_data_id, timestamp, ctx, second.last());
            assert((a + b).push(e) =~= a + b.push(e));
        }
    }
}

/// A transfer of an address to itself gives no event: with it or without it
/// in their midst, the transfers give the same events.
pub proof fn lemma_self_transfer_suppressed(
    version: i64,
    token_data_id: Seq<char>,
    timestamp: Timestamp,
    ctx: ObjectContextView,
    before: Seq<TransferView>,
    transfer: TransferView,
    after: Seq<TransferView>,
)
    requires
        transfer.from == transfer.to,
    ensures
        transfer_derived(
            version,
            token_data_id,
            timestamp,
            ctx,
            before + seq![transfer] + after,
        ) == transfer_derived(version, token_data_id, timestamp, ctx, before + after),
{
    let single = seq![transfer];
    assert(single.drop_last() =~= Seq::<TransferView>::empty());
    assert(single.last() == transfer);
    assert(transfer_derived(version, token_data_id, timestamp, ctx, single)
        =~= Seq::<TokenOwnershipV2View>::empty()) by {
        reveal_with_fuel(transfer_derived, 2);
    }
    lemma_transfer_derived_concat(version, token_data_id, timestamp, ctx, before, single);
    lemma_transfer_derived_concat(version, token_data_id, timestamp, ctx, before + single, after);
    lemma_transfer_derived_concat(version, token_data_id, timestamp, ctx, before, after);
    assert(transfer_derived(version, token_data_id, timestamp, ctx, before) + Seq::empty()
        =~= transfer_derived(version, token_data_id, timestamp, ctx, before));
}

/// Change indices do not collide: where the event indices of the transfers
/// are zero or more, every event derived from a transfer has a change index
/// of zero or less, and so differs from every positive change index, which
/// is what a genuine state change has.
pub proof fn lemma_change_indices_disjoint(
    version: i64,
    token_data_id: Seq<char>,
    timestamp: Timestamp,
    ctx: ObjectContextView,
    transfers: Seq<TransferView>,
    genuine: i64,
)
    requires
        forall|i: int| 0 <= i < transfers.len() ==> (#[trigger] transfers[i]).event_index >= 0,
        genuine > 0,
    ensures
        forall|j: int|
            0 <= j < transfer_derived(version, token_data_id, timestamp, ctx, transfers).len() ==> (
            #[trigger] transfer_derived(
                version,
                token_data_id,
                timestamp,
                ctx,
                transfers,
            )[j]).write_set_change_index <= 0 && transfer_derived(
                version,
                token_data_id,
                timestamp,
                ctx,
                transfers,
            )[j].write_set_change_index != genuine,
    decreases transfers.len(),
{
    if transfers.len() > 0 {
        lemma_change_indices_disjoint(
            version,
            token_data_id,
            timestamp,
            ctx,
            transfers.drop_last(),
            genuine,
        );
        assert(transfers.last().event_index >= 0);
    }
}

/// The transfers between two different addresses, in their order.
pub open spec fn kept_transfers(transfers: Seq<TransferView>) -> Seq<TransferView>
    decreases transfers.len(),
{
    if transfers.len() == 0 {
        Seq::empty()
    } else if transfers.last().from == transfers.last().to {
        kept_transfers(transfers.drop_last())
    } else {
        kept_transfers(transfers.drop_last()).push(transfers.last())
    }
}

/// The transfers give one event for each transfer between two different
/// addresses and none for any other: the event of the sender of that
/// transfer, in the order of the transfers.
pub proof fn lemma_transfer_derived_by_transfer(
    version: i64,
    token_data_id: Seq<char>,
    timestamp: Timestamp,
    ctx: ObjectContextView,
    transfers: Seq<TransferView>,
)
    ensures
        transfer_derived(version, token_data_id, timestamp, ctx, transfers).len() == kept_transfers(
            transfers,
        ).len(),
        forall|k: int|
            0 <= k < kept_transfers(transfers).len() ==> (#[trigger] kept_transfers(
                transfers,
            )[k]).from != kept_transfers(transfers)[k].to && transfer_derived(
                version,
                token_data_id,
                timestamp,
                ctx,
                transfers,
            )[k] == previous_owner_event(
                version,
                token_data_id,
                timestamp,
                ctx,
                kept_transfers(transfers)[k],
            ),
    decreases transfers.len(),
{
    if transfers.len() > 0 {
        lemma_transfer_derived_by_transfer(
            version,
            token_data_id,
            timestamp,
            ctx,
            transfers.drop_last(),
        );
    }
}

/// The events of a modern asset, one by one: first the event of the current
/// owner, with amount one and the change index of the state change; then,
/// for each transfer between two different addresses, the event of its
/// sender, with amount zero and, where the event index can be negated, the
/// negated event index as change index.
pub proof fn lemma_events_one_by_one(
    version: i64,
    change_index: i64,
    token_data_id: Seq<char>,
    timestamp: Timestamp,
    ctx: ObjectContextView,
)
    ensures
        nft_v2_events(version, change_index, token_data_id, timestamp, ctx).len() == 1
            + kept_transfers(ctx.transfer_events).len(),
        nft_v2_events(version, change_index, token_data_id, timestamp, ctx)[0]
            == current_owner_event(version, change_index, token_data_id, timestamp, ctx),
        ({
            let event = nft_v2_events(version, change_index, token_data_id, timestamp, ctx)[0];
            &&& event.write_set_change_index == change_index
            &&& event.owner_address == Some(ctx.owner)
            &&& event.amount == Decimal::spec_one()
            &&& event.is_soulbound_v2 == Some(ctx.untransferable || !ctx.allow_ungated_transfer)
            &&& event.non_transferrable_by_owner == Some(!ctx.allow_ungated_transfer)
            &&& candidate_of(event).current.owner_address == ctx.owner
            &&& candidate_of(event).current.amount == Decimal::spec_one()
            &&& candidate_of(event).current.last_transaction_version == version
        }),
        forall|k: int|
            0 <= k < kept_transfers(ctx.transfer_events).len() ==> {
                let transfer = #[trigger] kept_transfers(ctx.transfer_events)[k];
                let event = nft_v2_events(version, change_index, token_data_id, timestamp, ctx)[k
                    + 1];
                &&& event == previous_owner_event(version, token_data_id, timestamp, ctx, transfer)
                &&& event.owner_address == Some(transfer.from)
                &&& event.amount == Decimal::spec_zero()
                &&& event.is_soulbound_v2 == Some(is_soulbound(ctx))
                &&& event.non_transferrable_by_owner == Some(is_soulbound(ctx))
                &&& transfer.event_index > i64::MIN ==> event.write_set_change_index
                    == -transfer.event_index
            },
{
    lemma_transfer_derived_by_transfer(
        version,
        token_data_id,
        timestamp,
        ctx,
        ctx.transfer_events,
    );
}

/// The event index of every transfer between two different addresses can
/// be negated within `i64`.
pub open spec fn negatable_indices(ctx: ObjectContextView) -> bool {
    forall|i: int|
        0 <= i < ctx.transfer_events.len() && (#[trigger] ctx.transfer_events[i]).from
            != ctx.transfer_events[i].to ==> ctx.transfer_events[i].event_index > i64::MIN
}

impl TokenOwnershipV2 {
    /// The ownership events of a modern asset and, beside each, the
    /// candidate for the current-ownership table.
    ///
    /// Fails where the batch holds no object data for the asset, and where
    /// the index of a transfer that counts cannot be negated.
    pub fn get_nft_v2_from_token_data(
        token_data: &TokenDataV2,
        object_metadatas: &ObjectAggregatedDataMapping,
    ) -> (r: Result<(Vec<TokenOwnershipV2>, Vec<OwnershipCandidate>), OwnershipError>)
        ensures
            !object_entries(*object_metadatas).contains_key(token_data.token_data_id@) ==> r.is_err()
                && r.unwrap_err() == OwnershipError::MissingObjectCore,
            object_entries(*object_metadatas).contains_key(token_data.token_data_id@)
                && !negatable_indices(object_entries(*object_metadatas)[token_data.token_data_id@]@)
                ==> r.is_err() && r.unwrap_err() == OwnershipError::EventIndexOutOfRange,
            object_entries(*object_metadatas).contains_key(token_data.token_data_id@)
                && negatable_indices(object_entries(*object_metadatas)[token_data.token_data_id@]@)
                ==> r.is_ok() && event_views(r.unwrap().0@) == nft_v2_events(
                token_data.transaction_version,
                token_data.write_set_change_index,
                token_data.token_data_id@,
                token_data.transaction_timestamp,
                object_entries(*object_metadatas)[token_data.token_data_id@]@,
            ) && candidate_views(r.unwrap().1@) == candidates_of(event_views(r.unwrap().0@)),
            r.is_ok() ==> r.unwrap().1@.len() == r.unwrap().0@.len(),
            r.is_ok() ==> forall|i: int|
                0 <= i < r.unwrap().1@.len() ==> (#[trigger] r.unwrap().1@[i]).current.amount.non_negative(),
    {
        let object_data = match object_get(object_metadatas, &token_data.token_data_id) {
            Some(data) => data,
            None => {
                return Err(OwnershipError::MissingObjectCore);
            },
        };
        let ghost ctx = object_data@;
        let soulbound = if object_data.untransferable {
            true
        } else {
            !object_data.object_core.allow_ungated_transfer
        };
        let non_transferrable = !object_data.object_core.allow_ungated_transfer;
        let mut ownerships: Vec<TokenOwnershipV2> = Vec::new();
        let mut candidates: Vec<OwnershipCandidate> = Vec::new();
        let (event, candidate) = make_v2_pair(
            token_data.transaction_version,
            token_data.write_set_change_index,
            &token_data.token_data_id,
            &object_data.object_core.owner,
            Decimal::one(),
            Some(soulbound),
            None,
            Some(non_transferrable),
            token_data.transaction_timestamp,
        );
        ownerships.push(event);
        candidates.push(candidate);
        let n = object_data.transfer_events.len();
        let mut i: usize = 0;
        proof {
            assert(ctx.transfer_events.take(0) =~= Seq::empty());
            assert(event_views(ownerships@) =~= seq![
                current_owner_event(
                    token_data.transaction_version,
                    token_data.write_set_change_index,
                    token_data.token_data_id@,
                    token_data.transaction_timestamp,
                    ctx,
                ),
            ] + transfer_derived(
                token_data.transaction_version,
                token_data.token_data_id@,
                token_data.transaction_timestamp,
                ctx,
                ctx.transfer_events.take(0),
            ));
            assert(candidate_views(candidates@) =~= candidates_of(event_views(ownerships@)));
        }
        while i < n
            invariant
                0 <= i <= n,
                n == object_data.transfer_events@.len(),
                object_entries(*object_metadatas).contains_key(token_data.token_data_id@),
                *object_data == object_entries(*object_metadatas)[token_data.token_data_id@],
                ctx == object_data@,
                soulbound == is_soulbound(ctx),
                forall|k: int|
                    0 <= k < i && (#[trigger] ctx.transfer_events[k]).from
                        != ctx.transfer_events[k].to ==> ctx.transfer_events[k].event_index
                        > i64::MIN,
                event_views(ownerships@) == seq![
                    current_owner_event(
                        token_data.transaction_version,
                        token_data.write_set_change_index,
                        token_data.token_data_id@,
                        token_data.transaction_timestamp,
                        ctx,
                    ),
                ] + transfer_derived(
                    token_data.transaction_version,
                    token_data.token_data_id@,
                    token_data.transaction_timestamp,
                    ctx,
                    ctx.transfer_events.take(i as int),
                ),
                candidate_views(candidates@) == candidates_of(event_views(ownerships@)),
                candidates@.len() == ownerships@.len(),
                forall|k: int|
                    0 <= k < candidates@.len() ==> (#[trigger] candidates@[k]).current.amount.non_negative(),
            decreases n - i,
        {
            let transfer = &object_data.transfer_events[i];
            let ghost before = ctx.transfer_events.take(i as int);
            let ghost upto = ctx.transfer_events.take(i as int + 1);
            proof {
                assert(upto.drop_last() =~= before);
                assert(upto.last() == transfer_view(*transfer));
                assert(ctx.transfer_events[i as int] == transfer_view(*transfer));
            }
            if transfer.1.to != transfer.1.from {
                if transfer.0 == i64::MIN {
                    return Err(OwnershipError::EventIndexOutOfRange);
                }
                let ghost old_events = event_views(ownerships@);
                let ghost old_candidates = candidate_views(candidates@);
                let (event, candidate) = make_v2_pair(
                    token_data.transaction_version,
                    -transfer.0,
                    &token_data.token_data_id,
                    &transfer.1.from,
                    Decimal::zero(),
                    Some(soulbound),
                    None,
                    Some(soulbound),
                    token_data.transaction_timestamp,
                );
                ownerships.push(event);
                candidates.push(candidate);
                proof {
                    assert(event_views(ownerships@) =~= old_events.push(event@));
                    assert(candidate_views(candidates@) =~= old_candidates.push(candidate@));
                    assert(candidate_views(candidates@) =~= candidates_of(event_views(ownerships@)));
                }
            }
            i = i + 1;
        }
        proof {
            assert(ctx.transfer_events.take(n as int) =~= ctx.transfer_events);
        }
        Ok((ownerships, candidates))
    }
}

/// An ownership event of a legacy asset, stored under a table handle.
pub open spec fn v1_event(
    version: i64,
    change_index: i64,
    token_data_id: Seq<char>,
    property_version: Decimal,
    owner: Seq<char>,
    table_handle: Seq<char>,
    amount: Decimal,
    properties: Option<Seq<char>>,
    timestamp: Timestamp,
) -> TokenOwnershipV2View {
    TokenOwnershipV2View {
        transaction_version: version,
        write_set_change_index: change_index,
        token_data_id: token_data_id,
        property_version_v1: property_version,
        owner_address: Some(owner),
        storage_id: table_handle,
        amount: amount,
        table_type_v1: Some(V1_TOKEN_STORE_TABLE_TYPE@),
        token_properties_mutated_v1: properties,
        is_soulbound_v2: None,
        token_standard: TokenStandard::V1,
        is_fungible_v2: None,
        transaction_timestamp: timestamp,
        non_transferrable_by_owner: None,
    }
}

/// Builds the event `v1_event` and the candidate beside it.
fn make_v1_pair(
    version: i64,
    change_index: i64,
    token_data_id: &String,
    property_version: Decimal,
    owner: String,
    table_handle: &String,
    amount: Decimal,
    properties: Option<String>,
    timestamp: Timestamp,
) -> (r: (TokenOwnershipV2, Option<OwnershipCandidate>))
    ensures
        r.0@ == v1_event(
            version,
            change_index,
            token_data_id@,
            property_version,
            owner@,
            table_handle@,
            amount,
            opt_text(properties),
            timestamp,
        ),
        r.1.is_some(),
        r.1.unwrap()@ == candidate_of(r.0@),
{
    let event = TokenOwnershipV2 {
        transaction_version: version,
        write_set_change_index: change_index,
        token_data_id: token_data_id.clone(),
        property_version_v1: property_version,
        owner_address: Some(owner.clone()),
        storage_id: table_handle.clone(),
        amount,
        table_type_v1: Some(V1_TOKEN_STORE_TABLE_TYPE.to_string()),
        token_properties_mutated_v1: properties,
        is_soulbound_v2: None,
        token_standard: TokenStandard::V1,
        is_fungible_v2: None,
        transaction_timestamp: timestamp,
        non_transferrable_by_owner: None,
    };
    let candidate = event.candidate();
    (event, candidate)
}

/// First tier: the owner that the handle index records, accepted only where
/// the handle is recorded as a legacy token store.
pub open spec fn indexed_owner(found: Option<TableMetadataForToken>) -> Option<Seq<char>> {
    match found {
        Some(metadata) => if metadata.table_type@ == V1_TOKEN_STORE_TABLE_TYPE@ {
            Some(metadata.owner_address@)
        } else {
            None
        },
        None => None,
    }
}

/// Second tier of a write: the receiver of the latest deposit.
pub open spec fn last_deposit_owner(found: Option<TokenV1AggregatedEvents>) -> Option<Seq<char>> {
    match found {
        Some(events) => if events.deposit_module_events@.len() > 0 {
            deposit_owner(events.deposit_module_events@.last())
        } else {
            None
        },
        None => None,
    }
}

/// Second tier of a delete: the sender of the earliest withdrawal.
pub open spec fn first_withdraw_owner(found: Option<TokenV1AggregatedEvents>) -> Option<Seq<char>> {
    match found {
        Some(events) => if events.withdraw_module_events@.len() > 0 {
            withdraw_owner(events.withdraw_module_events@.first())
        } else {
            None
        },
        None => None,
    }
}

/// The first of two tiers that names an owner.
pub open spec fn first_of(first: Option<Seq<char>>, second: Option<Seq<char>>) -> Option<
    Seq<char>,
> {
    match first {
        Some(owner) => Some(owner),
        None => second,
    }
}

/// The owner that the handle index gives for `table_handle`.
pub fn owner_from_index(table_handle_to_owner: &TableHandleToOwner, table_handle: &String) -> (r:
    Option<String>)
    ensures
        opt_text(r) == indexed_owner(entry(handle_entries(*table_handle_to_owner), table_handle@)),
{
    match handle_get(table_handle_to_owner, table_handle) {
        Some(metadata) => {
            if metadata.table_type == V1_TOKEN_STORE_TABLE_TYPE.to_string() {
                Some(metadata.owner_address.clone())
            } else {
                None
            }
        },
        None => None,
    }
}

/// The receiver of the latest deposit recorded for `token_data_id`.
pub fn owner_from_last_deposit(
    token_v1_aggregated_events: &TokenV1AggregatedEventsMapping,
    token_data_id: &String,
) -> (r: Option<String>)
    ensures
        opt_text(r) == last_deposit_owner(
            entry(v1_event_entries(*token_v1_aggregated_events), token_data_id@),
        ),
{
    match v1_events_get(token_v1_aggregated_events, token_data_id) {
        Some(events) => {
            let n = events.deposit_module_events.len();
            if n > 0 {
                clone_opt(&events.deposit_module_events[n - 1].to_address)
            } else {
                None
            }
        },
        None => None,
    }
}

/// The sender of the earliest withdrawal recorded for `token_data_id`.
pub fn owner_from_first_withdraw(
    token_v1_aggregated_events: &TokenV1AggregatedEventsMapping,
    token_data_id: &String,
) -> (r: Option<String>)
    ensures
        opt_text(r) == first_withdraw_owner(
            entry(v1_event_entries(*token_v1_aggregated_events), token_data_id@),
        ),
{
    match v1_events_get(token_v1_aggregated_events, token_data_id) {
        Some(events) => {
            if events.withdraw_module_events.len() > 0 {
                clone_opt(&events.withdraw_module_events[0].from_address)
            } else {
                None
            }
        },
        None => None,
    }
}

/// What a write of a legacy table item gives: for a token record whose owner
/// one of the two tiers names, the event with the record's amount, raised to
/// zero where it is negative; nothing otherwise.
pub open spec fn v1_write_event(
    decoded: Decoded,
    table_handle: Seq<char>,
    version: i64,
    change_index: i64,
    timestamp: Timestamp,
    index: Map<Seq<char>, TableMetadataForToken>,
    events: Map<Seq<char>, TokenV1AggregatedEvents>,
) -> Option<TokenOwnershipV2View> {
    match decoded {
        Decoded::LegacyTokenRecord(token) => match first_of(
            indexed_owner(entry(index, table_handle)),
            last_deposit_owner(entry(events, token.id.token_data_id@)),
        ) {
            Some(owner) => Some(
                v1_event(
                    version,
                    change_index,
                    token.id.token_data_id@,
                    token.id.property_version,
                    owner,
                    table_handle,
                    ensure_not_negative(token.amount),
                    Some(token.token_properties@),
                    timestamp,
                ),
            ),
            None => None,
        },
        _ => None,
    }
}

/// What a delete of a legacy table item gives: for a token identity whose
/// owner one of the two tiers names, the event with amount zero and no
/// properties; nothing otherwise.
pub open spec fn v1_delete_event(
    decoded: Decoded,
    table_handle: Seq<char>,
    version: i64,
    change_index: i64,
    timestamp: Timestamp,
    index: Map<Seq<char>, TableMetadataForToken>,
    events: Map<Seq<char>, TokenV1AggregatedEvents>,
) -> Option<TokenOwnershipV2View> {
    match decoded {
        Decoded::LegacyTokenIdentity(id) => match first_of(
            indexed_owner(entry(index, table_handle)),
            first_withdraw_owner(entry(events, id.token_data_id@)),
        ) {
            Some(owner) => Some(
                v1_event(
                    version,
                    change_index,
                    id.token_data_id@,
                    id.property_version,
                    owner,
                    table_handle,
                    Decimal::spec_zero(),
                    None,
                    timestamp,
                ),
            ),
            None => None,
        },
        _ => None,
    }
}

/// The result holds the expected event with its candidate, or nothing where
/// nothing is expected.
pub open spec fn holds_event(
    r: Option<(TokenOwnershipV2, Option<OwnershipCandidate>)>,
    expected: Option<TokenOwnershipV2View>,
) -> bool {
    match expected {
        Some(event) => r.is_some() && r.unwrap().0@ == event && r.unwrap().1.is_some()
            && r.unwrap().1.unwrap()@ == candidate_of(event),
        None => r.is_none(),
    }
}

impl TokenOwnershipV2 {
    /// The ownership event of a written legacy table item, stored under the
    /// standard form of `table_handle`.
    ///
    /// Fails exactly where the payload was malformed. A record that is no
    /// token, or whose owner neither tier names, gives nothing.
    pub fn get_v1_from_write_table_item(
        decoded: &Decoded,
        table_handle: &String,
        txn_version: i64,
        write_set_change_index: i64,
        txn_timestamp: Timestamp,
        table_handle_to_owner: &TableHandleToOwner,
        token_v1_aggregated_events: &TokenV1AggregatedEventsMapping,
    ) -> (r: Result<Option<(TokenOwnershipV2, Option<OwnershipCandidate>)>, OwnershipError>)
        ensures
            r.is_err() <==> *decoded == Decoded::Malformed,
            r.is_err() ==> r.unwrap_err() == OwnershipError::DecodeFailure,
            r.is_ok() ==> holds_event(
                r.unwrap(),
                v1_write_event(
                    *decoded,
                    standardized(table_handle@),
                    txn_version,
                    write_set_change_index,
                    txn_timestamp,
                    handle_entries(*table_handle_to_owner),
                    v1_event_entries(*token_v1_aggregated_events),
                ),
            ),
            r.is_ok() && r.unwrap().is_some() ==> r.unwrap().unwrap().1.unwrap().current.amount.non_negative(),
    {
        let token = match decoded {
            Decoded::Malformed => {
                return Err(OwnershipError::DecodeFailure);
            },
            Decoded::LegacyTokenRecord(token) => token,
            _ => {
                return Ok(None);
            },
        };
        let table_handle = standardize_address(table_handle.as_str());
        let amount = ensure_not_negative(token.amount);
        let owner_address = match owner_from_index(table_handle_to_owner, &table_handle) {
            Some(owner) => Some(owner),
            None => owner_from_last_deposit(token_v1_aggregated_events, &token.id.token_data_id),
        };
        let owner_address = match owner_address {
            Some(owner) => owner,
            None => {
                return Ok(None);
            },
        };
        Ok(
            Some(
                make_v1_pair(
                    txn_version,
                    write_set_change_index,
                    &token.id.token_data_id,
                    token.id.property_version,
                    owner_address,
                    &table_handle,
                    amount,
                    Some(token.token_properties.clone()),
                    txn_timestamp,
                ),
            ),
        )
    }

    /// The ownership event of a deleted legacy table item, stored under the
    /// standard form of `table_handle`.
    ///
    /// Fails exactly where the key was malformed. A key that is no token
    /// identity, or whose owner neither tier names, gives nothing.
    pub fn get_v1_from_delete_table_item(
        decoded: &Decoded,
        table_handle: &String,
        txn_version: i64,
        write_set_change_index: i64,
        txn_timestamp: Timestamp,
        table_handle_to_owner: &TableHandleToOwner,
        token_v1_aggregated_events: &TokenV1AggregatedEventsMapping,
    ) -> (r: Result<Option<(TokenOwnershipV2, Option<OwnershipCandidate>)>, OwnershipError>)
        ensures
            r.is_err() <==> *decoded == Decoded::Malformed,
            r.is_err() ==> r.unwrap_err() == OwnershipError::DecodeFailure,
            r.is_ok() ==> holds_event(
                r.unwrap(),
                v1_delete_event(
                    *decoded,
                    standardized(table_handle@),
                    txn_version,
                    write_set_change_index,
                    txn_timestamp,
                    handle_entries(*table_handle_to_owner),
                    v1_event_entries(*token_v1_aggregated_events),
                ),
            ),
            r.is_ok() && r.unwrap().is_some() ==> r.unwrap().unwrap().1.unwrap().current.amount.non_negative(),
    {
        let token_id = match decoded {
            Decoded::Malformed => {
                return Err(OwnershipError::DecodeFailure);
            },
            Decoded::LegacyTokenIdentity(id) => id,
            _ => {
                return Ok(None);
            },
        };
        let table_handle = standardize_address(table_handle.as_str());
        let owner_address = match owner_from_index(table_handle_to_owner, &table_handle) {
            Some(owner) => Some(owner),
            None => owner_from_first_withdraw(token_v1_aggregated_events, &token_id.token_data_id),
        };
        let owner_address = match owner_address {
            Some(owner) => owner,
            None => {
                return Ok(None);
            },
        };
        Ok(
            Some(
                make_v1_pair(
                    txn_version,
                    write_set_change_index,
                    &token_id.token_data_id,
                    token_id.property_version,
                    owner_address,
                    &table_handle,
                    Decimal::zero(),
                    None,
                    txn_timestamp,
                ),
            ),
        )
    }
}

} // verus!

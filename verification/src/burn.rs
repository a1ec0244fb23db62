use vstd::prelude::*;
use crate::address::{standardize_address, standardized};
use crate::context::{
    Burn, Decoded, ObjectAggregatedData, ObjectAggregatedDataMapping, PriorNFTOwnership,
    TokenV2Burned, burn_entries, burn_get, entry, object_entries, object_get, prior_entries,
    prior_get,
};
use crate::decimal::Decimal;
use crate::deriver::{OwnershipError, make_v2_pair, v2_event};
use crate::lookup::{lemma_lookup_stops_at_first_answer, lookup_run};
use crate::model::{
    DEFAULT_OWNER_ADDRESS, NFTOwnershipV2, OwnershipCandidate, Timestamp, TokenOwnershipV2,
    TokenOwnershipV2View, NFTOwnershipV2View, candidate_of,
};

verus! {

/// The previous owner of a burned asset, by the first tier that names one:
/// the burn marker, the batch's ownership cache, the answer of the store,
/// and at last the placeholder for an unknown owner.
pub open spec fn burn_previous_owner(
    burn: Burn,
    cached: Option<NFTOwnershipV2>,
    store_answer: Option<NFTOwnershipV2>,
) -> Seq<char> {
    match burn.previous_owner {
        Some(owner) => owner@,
        None => match cached {
            Some(nft) => nft.owner_address@,
            None => match store_answer {
                Some(nft) => nft.owner_address@,
                None => DEFAULT_OWNER_ADDRESS@,
            },
        },
    }
}

/// The tiers in their order: the owner that the marker names comes before
/// all others; without one, the owner in the cache; without that, the
/// store's answer; and only without any of them the placeholder.
pub proof fn lemma_previous_owner_by_tier(
    burn: Burn,
    cached: Option<NFTOwnershipV2>,
    store_answer: Option<NFTOwnershipV2>,
)
    ensures
        burn.previous_owner.is_some() ==> burn_previous_owner(burn, cached, store_answer)
            == burn.previous_owner.unwrap()@,
        burn.previous_owner.is_none() && cached.is_some() ==> burn_previous_owner(
            burn,
            cached,
            store_answer,
        ) == cached.unwrap().owner_address@,
        burn.previous_owner.is_none() && cached.is_none() && store_answer.is_some()
            ==> burn_previous_owner(burn, cached, store_answer)
            == store_answer.unwrap().owner_address@,
        burn.previous_owner.is_none() && cached.is_none() && store_answer.is_none()
            ==> burn_previous_owner(burn, cached, store_answer) == DEFAULT_OWNER_ADDRESS@,
{
}

/// A store that answers within the allowed attempts names the previous
/// owner where marker and cache do not: however many attempts failed before
/// it, the lookup ends with that answer after one attempt more than failed,
/// and the owner is the one it names, not the placeholder.
pub proof fn lemma_store_answer_after_failures(
    burn: Burn,
    store_answer: NFTOwnershipV2,
    outcomes: Seq<Option<NFTOwnershipV2View>>,
    first: u32,
    query_retries: u32,
    query_retry_delay_ms: u64,
)
    requires
        burn.previous_owner.is_none(),
        first < query_retries,
        first < outcomes.len(),
        outcomes[first as int] == Some(store_answer@),
        forall|i: int| 0 <= i < first ==> outcomes[i].is_none(),
    ensures
        lookup_run(outcomes, 0, query_retries, query_retry_delay_ms) == (
            Some(store_answer@),
            first + 1,
        ),
        burn_previous_owner(burn, None, Some(store_answer)) == store_answer@.owner_address,
{
    lemma_lookup_stops_at_first_answer(outcomes, 0, first, query_retries, query_retry_delay_ms);
}

/// The store has to be asked only for a burned asset whose marker names no
/// previous owner and which the cache does not hold.
pub open spec fn store_lookup_needed(burn: Option<Burn>, cached: Option<NFTOwnershipV2>) -> bool {
    match burn {
        Some(marker) => marker.previous_owner.is_none() && cached.is_none(),
        None => false,
    }
}

/// What the deletion of a modern asset gives: for a burned asset the event
/// with amount zero for its previous owner, with the ownership flags
/// unknown; nothing for an asset that was not burned.
pub open spec fn burned_event(
    burn: Option<Burn>,
    cached: Option<NFTOwnershipV2>,
    store_answer: Option<NFTOwnershipV2>,
    version: i64,
    change_index: i64,
    token_address: Seq<char>,
    timestamp: Timestamp,
) -> Option<TokenOwnershipV2View> {
    match burn {
        Some(marker) => Some(
            v2_event(
                version,
                change_index,
                token_address,
                burn_previous_owner(marker, cached, store_answer),
                Decimal::spec_zero(),
                None,
                None,
                None,
                timestamp,
            ),
        ),
        None => None,
    }
}

/// Whether the batch holds object data for the asset that carries the
/// untransferable marker.
pub open spec fn marked_untransferable(metadata: Option<ObjectAggregatedData>) -> bool {
    match metadata {
        Some(data) => data.untransferable,
        None => false,
    }
}

/// What a write to the resource of a modern asset gives where the asset was
/// burned: with the object core still there, the event with amount zero for
/// the core's owner, not fungible, not transferable by the owner where the
/// core gates transfers, and soulbound where it gates them or the asset
/// carries the untransferable marker; without the core, the same as for a
/// deletion. A malformed payload is an error, not an event.
pub open spec fn burned_write_event(
    decoded: Decoded,
    burn: Option<Burn>,
    metadata: Option<ObjectAggregatedData>,
    cached: Option<NFTOwnershipV2>,
    store_answer: Option<NFTOwnershipV2>,
    version: i64,
    change_index: i64,
    token_address: Seq<char>,
    timestamp: Timestamp,
) -> Option<TokenOwnershipV2View> {
    if burn.is_none() {
        None
    } else {
        match decoded {
            Decoded::ObjectCoreRecord(core) => Some(
                v2_event(
                    version,
                    change_index,
                    token_address,
                    core.owner@,
                    Decimal::spec_zero(),
                    Some(marked_untransferable(metadata) || !core.allow_ungated_transfer),
                    Some(false),
                    Some(!core.allow_ungated_transfer),
                    timestamp,
                ),
            ),
            _ => burned_event(
                burn,
                cached,
                store_answer,
                version,
                change_index,
                token_address,
                timestamp,
            ),
        }
    }
}

/// The result holds the expected event with its candidate, or nothing where
/// nothing is expected.
pub open spec fn holds_burn(
    r: Option<(TokenOwnershipV2, OwnershipCandidate)>,
    expected: Option<TokenOwnershipV2View>,
) -> bool {
    match expected {
        Some(event) => r.is_some() && r.unwrap().0@ == event && r.unwrap().1@ == candidate_of(
            event,
        ),
        None => r.is_none(),
    }
}

impl TokenOwnershipV2 {
    /// Whether the previous owner of the asset at `token_address` can only
    /// come from the store: the asset was burned, its marker names no
    /// previous owner, and the cache does not hold it. The asset is looked up
    /// under its standard address.
    pub fn needs_store_lookup(
        token_address: &String,
        prior_nft_ownership: &PriorNFTOwnership,
        tokens_burned: &TokenV2Burned,
    ) -> (r: bool)
        ensures
            r == store_lookup_needed(
                entry(burn_entries(*tokens_burned), standardized(token_address@)),
                entry(prior_entries(*prior_nft_ownership), standardized(token_address@)),
            ),
    {
        let token_data_id = standardize_address(token_address.as_str());
        match burn_get(tokens_burned, &token_data_id) {
            Some(marker) => marker.previous_owner.is_none() && prior_get(
                prior_nft_ownership,
                &token_data_id,
            ).is_none(),
            None => false,
        }
    }

    /// The burn of a modern asset whose object core is still written.
    ///
    /// `token_address` is the address of the written resource; the asset is
    /// looked up and recorded under its standard form. `store_answer` is what
    /// the store gave for the asset, or `None` where it was not asked or gave
    /// nothing; it is read only where `needs_store_lookup` holds. Fails
    /// exactly where the asset was burned and the payload was malformed.
    pub fn get_burned_nft_v2_from_write_resource(
        token_address: &String,
        decoded: &Decoded,
        txn_version: i64,
        write_set_change_index: i64,
        txn_timestamp: Timestamp,
        prior_nft_ownership: &PriorNFTOwnership,
        tokens_burned: &TokenV2Burned,
        object_metadatas: &ObjectAggregatedDataMapping,
        store_answer: &Option<NFTOwnershipV2>,
    ) -> (r: Result<Option<(TokenOwnershipV2, OwnershipCandidate)>, OwnershipError>)
        ensures
            r.is_err() <==> burn_entries(*tokens_burned).contains_key(standardized(token_address@))
                && *decoded == Decoded::Malformed,
            r.is_err() ==> r.unwrap_err() == OwnershipError::DecodeFailure,
            r.is_ok() ==> holds_burn(
                r.unwrap(),
                burned_write_event(
                    *decoded,
                    entry(burn_entries(*tokens_burned), standardized(token_address@)),
                    entry(object_entries(*object_metadatas), standardized(token_address@)),
                    entry(prior_entries(*prior_nft_ownership), standardized(token_address@)),
                    *store_answer,
                    txn_version,
                    write_set_change_index,
                    standardized(token_address@),
                    txn_timestamp,
                ),
            ),
            r.is_ok() && r.unwrap().is_some() ==> r.unwrap().unwrap().1.current.amount.non_negative(),
    {
        let token_data_id = standardize_address(token_address.as_str());
        if burn_get(tokens_burned, &token_data_id).is_none() {
            return Ok(None);
        }
        match decoded {
            Decoded::Malformed => Err(OwnershipError::DecodeFailure),
            Decoded::ObjectCoreRecord(core) => {
                let marked = match object_get(object_metadatas, &token_data_id) {
                    Some(data) => data.untransferable,
                    None => false,
                };
                let soulbound = marked || !core.allow_ungated_transfer;
                let non_transferrable = !core.allow_ungated_transfer;
                Ok(
                    Some(
                        make_v2_pair(
                            txn_version,
                            write_set_change_index,
                            &token_data_id,
                            &core.owner,
                            Decimal::zero(),
                            Some(soulbound),
                            Some(false),
                            Some(non_transferrable),
                            txn_timestamp,
                        ),
                    ),
                )
            },
            _ => Ok(
                Self::get_burned_nft_v2_helper(
                    &token_data_id,
                    txn_version,
                    write_set_change_index,
                    txn_timestamp,
                    prior_nft_ownership,
                    tokens_burned,
                    store_answer,
                ),
            ),
        }
    }

    /// The burn of a modern asset whose object core was deleted.
    ///
    /// `token_address` is the address of the deleted resource; the asset is
    /// looked up and recorded under its standard form. `store_answer` is what
    /// the store gave for the asset, or `None` where it was not asked or gave
    /// nothing; it is read only where `needs_store_lookup` holds.
    pub fn get_burned_nft_v2_from_delete_resource(
        token_address: &String,
        txn_version: i64,
        write_set_change_index: i64,
        txn_timestamp: Timestamp,
        prior_nft_ownership: &PriorNFTOwnership,
        tokens_burned: &TokenV2Burned,
        store_answer: &Option<NFTOwnershipV2>,
    ) -> (r: Option<(TokenOwnershipV2, OwnershipCandidate)>)
        ensures
            holds_burn(
                r,
                burned_event(
                    entry(burn_entries(*tokens_burned), standardized(token_address@)),
                    entry(prior_entries(*prior_nft_ownership), standardized(token_address@)),
                    *store_answer,
                    txn_version,
                    write_set_change_index,
                    standardized(token_address@),
                    txn_timestamp,
                ),
            ),
            r.is_some() ==> r.unwrap().1.current.amount.non_negative(),
    {
        let token_data_id = standardize_address(token_address.as_str());
        Self::get_burned_nft_v2_helper(
            &token_data_id,
            txn_version,
            write_set_change_index,
            txn_timestamp,
            prior_nft_ownership,
            tokens_burned,
            store_answer,
        )
    }

    /// The burn of the asset with the standard address `token_address`.
    fn get_burned_nft_v2_helper(
        token_address: &String,
        txn_version: i64,
        write_set_change_index: i64,
        txn_timestamp: Timestamp,
        prior_nft_ownership: &PriorNFTOwnership,
        tokens_burned: &TokenV2Burned,
        store_answer: &Option<NFTOwnershipV2>,
    ) -> (r: Option<(TokenOwnershipV2, OwnershipCandidate)>)
        ensures
            holds_burn(
                r,
                burned_event(
                    entry(burn_entries(*tokens_burned), token_address@),
                    entry(prior_entries(*prior_nft_ownership), token_address@),
                    *store_answer,
                    txn_version,
                    write_set_change_index,
                    token_address@,
                    txn_timestamp,
                ),
            ),
            r.is_some() ==> r.unwrap().1.current.amount.non_negative(),
    {
        let burn_event = match burn_get(tokens_burned, token_address) {
            Some(marker) => marker,
            None => {
                return None;
            },
        };
        let previous_owner = match &burn_event.previous_owner {
            Some(owner) => owner.clone(),
            None => match prior_get(prior_nft_ownership, token_address) {
                Some(nft) => nft.owner_address.clone(),
                None => match store_answer {
                    Some(nft) => nft.owner_address.clone(),
                    None => DEFAULT_OWNER_ADDRESS.to_string(),
                },
            },
        };
        Some(
            make_v2_pair(
                txn_version,
                write_set_change_index,
                token_address,
                &previous_owner,
                Decimal::zero(),
                None,
                None,
                None,
                txn_timestamp,
            ),
        )
    }
}

} // verus!

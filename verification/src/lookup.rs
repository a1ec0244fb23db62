use vstd::prelude::*;
use crate::decimal::Decimal;
use crate::model::{NFTOwnershipV2, NFTOwnershipV2View, Timestamp, TokenStandard};

verus! {

/// A row of the current-ownership store, as a point lookup returns it.
#[derive(Debug)]
pub struct CurrentTokenOwnershipV2Query {
    pub token_data_id: String,
    pub property_version_v1: Decimal,
    pub owner_address: String,
    pub storage_id: String,
    pub amount: Decimal,
    pub table_type_v1: Option<String>,
    pub token_properties_mutated_v1: Option<String>,
    pub is_soulbound_v2: Option<bool>,
    pub token_standard: TokenStandard,
    pub is_fungible_v2: Option<bool>,
    pub last_transaction_version: i64,
    pub last_transaction_timestamp: Timestamp,
    pub inserted_at: Timestamp,
    pub non_transferrable_by_owner: Option<bool>,
}

/// What to do next in a lookup that is retried.
#[derive(Debug)]
pub enum LookupStep {
    /// Ask the store once more, after waiting `delay_ms` milliseconds.
    Attempt { delay_ms: u64 },
    /// The store answered: the lookup is over.
    Found(NFTOwnershipV2),
    /// Every attempt that was allowed has failed: the lookup is over.
    GiveUp,
}

/// A `LookupStep`, with the strings of its answer as texts.
pub enum LookupStepView {
    Attempt { delay_ms: u64 },
    Found(NFTOwnershipV2View),
    GiveUp,
}

impl View for LookupStep {
    type V = LookupStepView;

    open spec fn view(&self) -> LookupStepView {
        match *self {
            LookupStep::Attempt { delay_ms } => LookupStepView::Attempt { delay_ms },
            LookupStep::Found(nft) => LookupStepView::Found(nft@),
            LookupStep::GiveUp => LookupStepView::GiveUp,
        }
    }
}

/// The part of a store row that the ownership cache keeps.
pub open spec fn owned_nft(row: CurrentTokenOwnershipV2Query) -> NFTOwnershipV2View {
    NFTOwnershipV2View {
        token_data_id: row.token_data_id@,
        owner_address: row.owner_address@,
        is_soulbound: row.is_soulbound_v2,
    }
}

/// The next step of a lookup after `tried` attempts, the latest of which
/// gave `answer`: an answer ends the lookup; without one the store is asked
/// again while attempts are left, at once the first time and after the
/// delay from then on.
pub open spec fn next_step(
    tried: u32,
    answer: Option<NFTOwnershipV2View>,
    query_retries: u32,
    query_retry_delay_ms: u64,
) -> LookupStepView {
    match answer {
        Some(nft) => LookupStepView::Found(nft),
        None => if tried < query_retries {
            LookupStepView::Attempt {
                delay_ms: if tried == 0 {
                    0
                } else {
                    query_retry_delay_ms
                },
            }
        } else {
            LookupStepView::GiveUp
        },
    }
}

/// A whole lookup against a store whose attempt number `i + 1` gives
/// `outcomes[i]`, taken up after `tried` failed attempts: the answer, if
/// any, and the number of attempts made in all.
pub open spec fn lookup_run(
    outcomes: Seq<Option<NFTOwnershipV2View>>,
    tried: u32,
    query_retries: u32,
    query_retry_delay_ms: u64,
) -> (Option<NFTOwnershipV2View>, int)
    decreases query_retries - tried,
{
    if tried >= outcomes.len() {
        (None, tried as int)
    } else {
        match next_step(tried, None, query_retries, query_retry_delay_ms) {
            LookupStepView::Attempt { delay_ms } => match next_step(
                (tried + 1) as u32,
                outcomes[tried as int],
                query_retries,
                query_retry_delay_ms,
            ) {
                LookupStepView::Found(nft) => (Some(nft), tried + 1),
                _ => lookup_run(
                    outcomes,
                    (tried + 1) as u32,
                    query_retries,
                    query_retry_delay_ms,
                ),
            },
            _ => (None, tried as int),
        }
    }
}

/// The view of an optional answer.
pub open spec fn answer_view(answer: Option<&NFTOwnershipV2>) -> Option<NFTOwnershipV2View> {
    match answer {
        Some(nft) => Some(nft@),
        None => None,
    }
}

impl CurrentTokenOwnershipV2Query {
    /// The part of the row that the ownership cache keeps: asset, owner and
    /// soulbound flag.
    pub fn to_owned_nft(&self) -> (r: NFTOwnershipV2)
        ensures
            r@ == owned_nft(*self),
    {
        NFTOwnershipV2 {
            token_data_id: self.token_data_id.clone(),
            owner_address: self.owner_address.clone(),
            is_soulbound: self.is_soulbound_v2,
        }
    }

    /// Decides the next step of the lookup of the latest owner of an asset.
    ///
    /// `tried` counts the attempts made so far and `answer` is what the
    /// latest of them gave, as far as the lookup reads a row; `None` where
    /// the attempt failed or none was made yet.
    pub fn get_latest_owned_nft_by_token_data_id(
        tried: u32,
        answer: Option<&NFTOwnershipV2>,
        query_retries: u32,
        query_retry_delay_ms: u64,
    ) -> (r: LookupStep)
        ensures
            r@ == next_step(tried, answer_view(answer), query_retries, query_retry_delay_ms),
    {
        match answer {
            Some(nft) => LookupStep::Found(nft.clone()),
            None => {
                if tried < query_retries {
                    LookupStep::Attempt {
                        delay_ms: if tried == 0 {
                            0
                        } else {
                            query_retry_delay_ms
                        },
                    }
                } else {
                    LookupStep::GiveUp
                }
            },
        }
    }
}

/// A lookup stops at the first attempt that succeeds: where attempt
/// `first + 1` is within the allowed number and is the first to give an
/// answer, the lookup returns that answer after exactly `first + 1` attempts.
pub proof fn lemma_lookup_stops_at_first_answer(
    outcomes: Seq<Option<NFTOwnershipV2View>>,
    tried: u32,
    first: u32,
    query_retries: u32,
    query_retry_delay_ms: u64,
)
    requires
        tried <= first < query_retries,
        first < outcomes.len(),
        outcomes[first as int].is_some(),
        forall|i: int| tried <= i < first ==> outcomes[i].is_none(),
    ensures
        lookup_run(outcomes, tried, query_retries, query_retry_delay_ms) == (
            Some(outcomes[first as int].unwrap()),
            first + 1,
        ),
    decreases first - tried,
{
    if tried < first {
        lemma_lookup_stops_at_first_answer(
            outcomes,
            (tried + 1) as u32,
            first,
            query_retries,
            query_retry_delay_ms,
        );
    }
}

/// A lookup whose every allowed attempt fails gives no answer after exactly
/// `query_retries` attempts.
pub proof fn lemma_lookup_gives_up_after_all_attempts(
    outcomes: Seq<Option<NFTOwnershipV2View>>,
    tried: u32,
    query_retries: u32,
    query_retry_delay_ms: u64,
)
    requires
        tried <= query_retries <= outcomes.len(),
        forall|i: int| tried <= i < query_retries ==> outcomes[i].is_none(),
    ensures
        lookup_run(outcomes, tried, query_retries, query_retry_delay_ms) == (
            None::<NFTOwnershipV2View>,
            query_retries as int,
        ),
    decreases query_retries - tried,
{
    if tried < query_retries {
        lemma_lookup_gives_up_after_all_attempts(
            outcomes,
            (tried + 1) as u32,
            query_retries,
            query_retry_delay_ms,
        );
    }
}

} // verus!

use vstd::prelude::*;
use ahash::AHashMap;
use crate::decimal::Decimal;
use crate::model::{NFTOwnershipV2, Timestamp, opt_text};

verus! {

/// `ahash::AHashMap`, a hash map. Its contents are spoken of through the
/// names and lookups below.
#[verifier::external_type_specification]
#[verifier::external_body]
#[verifier::reject_recursive_types(K)]
#[verifier::reject_recursive_types(V)]
#[verifier::reject_recursive_types(S)]
pub struct ExAHashMap<K, V, S>(AHashMap<K, V, S>);

/// `ahash::RandomState`, the hasher state that an `AHashMap` takes by
/// default. Nothing is said of it.
#[verifier::external_type_specification]
#[verifier::external_body]
pub struct ExRandomState(ahash::RandomState);

/// The token-data record of a modern asset, as far as ownership reads it.
#[derive(Debug)]
pub struct TokenDataV2 {
    pub transaction_version: i64,
    pub write_set_change_index: i64,
    pub token_data_id: String,
    pub transaction_timestamp: Timestamp,
}

/// Owner and transfer gate of an object. The owner is an address in
/// standard form, as are all addresses in the records of this file.
#[derive(Debug)]
pub struct ObjectCore {
    pub owner: String,
    pub allow_ungated_transfer: bool,
}

/// One transfer of an object between two addresses.
#[derive(Debug)]
pub struct TransferEvent {
    pub from: String,
    pub to: String,
}

/// What one batch knows of an object: its core, whether it carries the
/// untransferable marker, and its transfers, each with its event index.
#[derive(Debug)]
pub struct ObjectAggregatedData {
    pub object_core: ObjectCore,
    pub untransferable: bool,
    pub transfer_events: Vec<(i64, TransferEvent)>,
}

/// A burn marker, with the previous owner where the burn event names one.
#[derive(Debug)]
pub struct Burn {
    pub previous_owner: Option<String>,
}

/// Owner and table type recorded for a storage handle.
#[derive(Debug)]
pub struct TableMetadataForToken {
    pub owner_address: String,
    pub table_type: String,
}

/// A deposit of a legacy token.
#[derive(Debug)]
pub struct TokenDepositModuleEvent {
    pub to_address: Option<String>,
}

/// A withdrawal of a legacy token.
#[derive(Debug)]
pub struct TokenWithdrawModuleEvent {
    pub from_address: Option<String>,
}

/// The deposits and withdrawals seen for one legacy asset, in order.
#[derive(Debug)]
pub struct TokenV1AggregatedEvents {
    pub withdraw_module_events: Vec<TokenWithdrawModuleEvent>,
    pub deposit_module_events: Vec<TokenDepositModuleEvent>,
}

/// Identity of a legacy token: its asset and its property version.
#[derive(Debug)]
pub struct TokenId {
    pub token_data_id: String,
    pub property_version: Decimal,
}

/// A legacy token record: identity, amount and properties as JSON text.
#[derive(Debug)]
pub struct Token {
    pub id: TokenId,
    pub amount: Decimal,
    pub token_properties: String,
}

/// What decoding one raw state change gave.
#[derive(Debug)]
pub enum Decoded {
    LegacyTokenRecord(Token),
    LegacyTokenIdentity(TokenId),
    ObjectCoreRecord(ObjectCore),
    NotApplicable,
    /// The type tag named a known shape and the payload did not have it.
    Malformed,
}

pub type ObjectAggregatedDataMapping = AHashMap<String, ObjectAggregatedData>;

pub type TokenV2Burned = AHashMap<String, Burn>;

pub type TableHandleToOwner = AHashMap<String, TableMetadataForToken>;

pub type TokenV1AggregatedEventsMapping = AHashMap<String, TokenV1AggregatedEvents>;

pub type PriorNFTOwnership = AHashMap<String, NFTOwnershipV2>;

/// The entries of an object-metadata map, keyed by the text of the asset id.
pub uninterp spec fn object_entries(m: ObjectAggregatedDataMapping) -> Map<
    Seq<char>,
    ObjectAggregatedData,
>;

/// The entries of a burn map, keyed by the text of the asset id.
pub uninterp spec fn burn_entries(m: TokenV2Burned) -> Map<Seq<char>, Burn>;

/// The entries of a handle index, keyed by the text of the handle.
pub uninterp spec fn handle_entries(m: TableHandleToOwner) -> Map<Seq<char>, TableMetadataForToken>;

/// The entries of a legacy-events map, keyed by the text of the asset id.
pub uninterp spec fn v1_event_entries(m: TokenV1AggregatedEventsMapping) -> Map<
    Seq<char>,
    TokenV1AggregatedEvents,
>;

/// The entries of an ownership cache, keyed by the text of the asset id.
pub uninterp spec fn prior_entries(m: PriorNFTOwnership) -> Map<Seq<char>, NFTOwnershipV2>;

/// The value under `key`, if the map has one.
pub open spec fn entry<V>(m: Map<Seq<char>, V>, key: Seq<char>) -> Option<V> {
    if m.contains_key(key) {
        Some(m[key])
    } else {
        None
    }
}

/// `AHashMap::get`: a reference to the value stored under `key`, or `None`
/// where the map holds no such key.
#[verifier::external_body]
pub(crate) fn object_get<'a>(m: &'a ObjectAggregatedDataMapping, key: &String) -> (r: Option<
    &'a ObjectAggregatedData,
>)
    ensures
        object_entries(*m).contains_key(key@) ==> r == Some(&object_entries(*m)[key@]),
        !object_entries(*m).contains_key(key@) ==> r.is_none(),
{
    m.get(key)
}

/// `AHashMap::get`: a reference to the value stored under `key`, or `None`
/// where the map holds no such key.
#[verifier::external_body]
pub(crate) fn burn_get<'a>(m: &'a TokenV2Burned, key: &String) -> (r: Option<&'a Burn>)
    ensures
        burn_entries(*m).contains_key(key@) ==> r == Some(&burn_entries(*m)[key@]),
        !burn_entries(*m).contains_key(key@) ==> r.is_none(),
{
    m.get(key)
}

/// `AHashMap::get`: a reference to the value stored under `key`, or `None`
/// where the map holds no such key.
#[verifier::external_body]
pub(crate) fn handle_get<'a>(m: &'a TableHandleToOwner, key: &String) -> (r: Option<
    &'a TableMetadataForToken,
>)
    ensures
        handle_entries(*m).contains_key(key@) ==> r == Some(&handle_entries(*m)[key@]),
        !handle_entries(*m).contains_key(key@) ==> r.is_none(),
{
    m.get(key)
}

/// `AHashMap::get`: a reference to the value stored under `key`, or `None`
/// where the map holds no such key.
#[verifier::external_body]
pub(crate) fn v1_events_get<'a>(m: &'a TokenV1AggregatedEventsMapping, key: &String) -> (r: Option<
    &'a TokenV1AggregatedEvents,
>)
    ensures
        v1_event_entries(*m).contains_key(key@) ==> r == Some(&v1_event_entries(*m)[key@]),
        !v1_event_entries(*m).contains_key(key@) ==> r.is_none(),
{
    m.get(key)
}

/// `AHashMap::get`: a reference to the value stored under `key`, or `None`
/// where the map holds no such key.
#[verifier::external_body]
pub(crate) fn prior_get<'a>(m: &'a PriorNFTOwnership, key: &String) -> (r: Option<
    &'a NFTOwnershipV2,
>)
    ensures
        prior_entries(*m).contains_key(key@) ==> r == Some(&prior_entries(*m)[key@]),
        !prior_entries(*m).contains_key(key@) ==> r.is_none(),
{
    m.get(key)
}

/// A transfer with its event index and the texts of its two addresses.
pub struct TransferView {
    pub event_index: i64,
    pub from: Seq<char>,
    pub to: Seq<char>,
}

/// What the ownership rules read of an object's aggregated data.
pub struct ObjectContextView {
    pub owner: Seq<char>,
    pub allow_ungated_transfer: bool,
    pub untransferable: bool,
    pub transfer_events: Seq<TransferView>,
}

pub open spec fn transfer_view(e: (i64, TransferEvent)) -> TransferView {
    TransferView { event_index: e.0, from: e.1.from@, to: e.1.to@ }
}

impl View for ObjectAggregatedData {
    type V = ObjectContextView;

    open spec fn view(&self) -> ObjectContextView {
        ObjectContextView {
            owner: self.object_core.owner@,
            allow_ungated_transfer: self.object_core.allow_ungated_transfer,
            untransferable: self.untransferable,
            transfer_events: Seq::new(
                self.transfer_events@.len(),
                |i: int| transfer_view(self.transfer_events@[i]),
            ),
        }
    }
}

/// The owner that a deposit names, if it names one.
pub open spec fn deposit_owner(e: TokenDepositModuleEvent) -> Option<Seq<char>> {
    opt_text(e.to_address)
}

/// The owner that a withdrawal names, if it names one.
pub open spec fn withdraw_owner(e: TokenWithdrawModuleEvent) -> Option<Seq<char>> {
    opt_text(e.from_address)
}

} // verus!

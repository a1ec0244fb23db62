use vstd::prelude::*;
use std::cmp::Ordering;
use crate::decimal::Decimal;
use crate::identity::{IdentityOrder, identity_lt, identity_ordering, same_identity};
use crate::model::{
    CurrentTokenOwnershipV2, CurrentTokenOwnershipV2View, DEFAULT_NONE, Timestamp,
    TokenOwnershipV2, TokenOwnershipV2View, TokenStandard, clone_opt, opt_text, same_values,
};

verus! {

/// The canonical text of the JSON value that `text` spells, with the keys of
/// every object in order; `None` where `text` is no JSON or the value has no
/// canonical text.
pub uninterp spec fn canonical_form(text: Seq<char>) -> Option<Seq<char>>;

/// `canonical_json::to_string` on the value that `serde_json::from_str`
/// reads from `text`. Both are functions of the text alone; the contract
/// names the outcome and says nothing of its shape. `None` stands for the
/// error of either call.
#[verifier::external_body]
fn canonical_json_text(text: &str) -> (r: Option<String>)
    ensures
        opt_text(r) == canonical_form(text@),
{
    match serde_json::from_str::<serde_json::Value>(text) {
        Ok(value) => canonical_json::to_string(&value).ok(),
        Err(_) => None,
    }
}

/// The properties column of a current-ownership row: the canonical text,
/// or the placeholder where there is none.
pub open spec fn text_or_placeholder(canonical: Option<Seq<char>>) -> Seq<char> {
    match canonical {
        Some(text) => text,
        None => DEFAULT_NONE@,
    }
}

/// The canonical text, or the placeholder where canonicalization failed or
/// there was nothing to canonicalize.
pub fn properties_or_placeholder(canonical: Option<String>) -> (r: String)
    ensures
        r@ == text_or_placeholder(opt_text(canonical)),
{
    match canonical {
        Some(text) => text,
        None => DEFAULT_NONE.to_string(),
    }
}

/// The properties column for the properties of a record, given as JSON
/// text: their canonical form, or the placeholder where the record has no
/// properties or they have no canonical form.
pub open spec fn canonical_properties(properties: Option<Seq<char>>) -> Seq<char> {
    match properties {
        Some(text) => text_or_placeholder(canonical_form(text)),
        None => DEFAULT_NONE@,
    }
}

/// The properties of a record in canonical form, for the columnar sink.
pub fn canonicalize_properties(properties: &Option<String>) -> (r: String)
    ensures
        r@ == canonical_properties(opt_text(*properties)),
{
    match properties {
        Some(text) => properties_or_placeholder(canonical_json_text(text.as_str())),
        None => properties_or_placeholder(None),
    }
}

/// The properties column of an event: the canonical form of the properties,
/// or the placeholder where they have none; nothing where the event has no
/// properties.
pub open spec fn canonical_event_properties(properties: Option<Seq<char>>) -> Option<Seq<char>> {
    match properties {
        Some(text) => Some(text_or_placeholder(canonical_form(text))),
        None => None,
    }
}

/// The properties of an event in canonical form, for the columnar sink.
pub fn canonicalize_event_properties(properties: &Option<String>) -> (r: Option<String>)
    ensures
        opt_text(r) == canonical_event_properties(opt_text(*properties)),
{
    match properties {
        Some(text) => Some(properties_or_placeholder(canonical_json_text(text.as_str()))),
        None => None,
    }
}

/// An ownership event in columnar form.
#[derive(Debug)]
pub struct ParquetTokenOwnershipV2 {
    pub txn_version: i64,
    pub write_set_change_index: i64,
    pub token_data_id: String,
    pub property_version_v1: String,
    pub owner_address: Option<String>,
    pub storage_id: String,
    pub amount: String,
    pub table_type_v1: Option<String>,
    pub token_properties_mutated_v1: Option<String>,
    pub is_soulbound_v2: Option<bool>,
    pub token_standard: String,
    pub block_timestamp: Timestamp,
    pub non_transferrable_by_owner: Option<bool>,
}

/// What a `ParquetTokenOwnershipV2` holds, with its strings as texts.
pub struct ParquetTokenOwnershipV2View {
    pub txn_version: i64,
    pub write_set_change_index: i64,
    pub token_data_id: Seq<char>,
    pub property_version_v1: Seq<char>,
    pub owner_address: Option<Seq<char>>,
    pub storage_id: Seq<char>,
    pub amount: Seq<char>,
    pub table_type_v1: Option<Seq<char>>,
    pub token_properties_mutated_v1: Option<Seq<char>>,
    pub is_soulbound_v2: Option<bool>,
    pub token_standard: Seq<char>,
    pub block_timestamp: Timestamp,
    pub non_transferrable_by_owner: Option<bool>,
}

impl View for ParquetTokenOwnershipV2 {
    type V = ParquetTokenOwnershipV2View;

    open spec fn view(&self) -> ParquetTokenOwnershipV2View {
        ParquetTokenOwnershipV2View {
            txn_version: self.txn_version,
            write_set_change_index: self.write_set_change_index,
            token_data_id: self.token_data_id@,
            property_version_v1: self.property_version_v1@,
            owner_address: opt_text(self.owner_address),
            storage_id: self.storage_id@,
            amount: self.amount@,
            table_type_v1: opt_text(self.table_type_v1),
            token_properties_mutated_v1: opt_text(self.token_properties_mutated_v1),
            is_soulbound_v2: self.is_soulbound_v2,
            token_standard: self.token_standard@,
            block_timestamp: self.block_timestamp,
            non_transferrable_by_owner: self.non_transferrable_by_owner,
        }
    }
}

/// The columnar form of an event: property version and amount as decimal
/// text, the standard by its name, the properties in canonical form, and
/// every other field unchanged.
pub open spec fn columnar_event(raw: TokenOwnershipV2View) -> ParquetTokenOwnershipV2View {
    ParquetTokenOwnershipV2View {
        txn_version: raw.transaction_version,
        write_set_change_index: raw.write_set_change_index,
        token_data_id: raw.token_data_id,
        property_version_v1: raw.property_version_v1.text(),
        owner_address: raw.owner_address,
        storage_id: raw.storage_id,
        amount: raw.amount.text(),
        table_type_v1: raw.table_type_v1,
        token_properties_mutated_v1: canonical_event_properties(raw.token_properties_mutated_v1),
        is_soulbound_v2: raw.is_soulbound_v2,
        token_standard: raw.token_standard.text(),
        block_timestamp: raw.transaction_timestamp,
        non_transferrable_by_owner: raw.non_transferrable_by_owner,
    }
}

impl ParquetTokenOwnershipV2 {
    /// The table that these rows go to.
    pub const TABLE_NAME: &'static str = "token_ownerships_v2";

    /// The version by which the sink tells batches apart.
    pub fn version(&self) -> (r: i64)
        ensures
            r == self.txn_version,
    {
        self.txn_version
    }

    /// The columnar form of an event.
    pub fn from(raw_item: TokenOwnershipV2) -> (r: ParquetTokenOwnershipV2)
        ensures
            r@ == columnar_event(raw_item@),
    {
        let properties = canonicalize_event_properties(&raw_item.token_properties_mutated_v1);
        ParquetTokenOwnershipV2 {
            txn_version: raw_item.transaction_version,
            write_set_change_index: raw_item.write_set_change_index,
            token_data_id: raw_item.token_data_id,
            property_version_v1: raw_item.property_version_v1.to_text(),
            owner_address: raw_item.owner_address,
            storage_id: raw_item.storage_id,
            amount: raw_item.amount.to_text(),
            table_type_v1: raw_item.table_type_v1,
            token_properties_mutated_v1: properties,
            is_soulbound_v2: raw_item.is_soulbound_v2,
            token_standard: raw_item.token_standard.to_string(),
            block_timestamp: raw_item.transaction_timestamp,
            non_transferrable_by_owner: raw_item.non_transferrable_by_owner,
        }
    }
}

/// A current-ownership record in columnar form.
#[derive(Debug)]
pub struct ParquetCurrentTokenOwnershipV2 {
    pub token_data_id: String,
    pub property_version_v1: String,
    pub owner_address: String,
    pub storage_id: String,
    pub amount: String,
    pub table_type_v1: Option<String>,
    pub token_properties_mutated_v1: Option<String>,
    pub is_soulbound_v2: Option<bool>,
    pub token_standard: String,
    pub is_fungible_v2: Option<bool>,
    pub last_transaction_version: i64,
    pub last_transaction_timestamp: Timestamp,
    pub non_transferrable_by_owner: Option<bool>,
}

/// What a `ParquetCurrentTokenOwnershipV2` holds, with its strings as texts.
pub struct ParquetCurrentTokenOwnershipV2View {
    pub token_data_id: Seq<char>,
    pub property_version_v1: Seq<char>,
    pub owner_address: Seq<char>,
    pub storage_id: Seq<char>,
    pub amount: Seq<char>,
    pub table_type_v1: Option<Seq<char>>,
    pub token_properties_mutated_v1: Option<Seq<char>>,
    pub is_soulbound_v2: Option<bool>,
    pub token_standard: Seq<char>,
    pub is_fungible_v2: Option<bool>,
    pub last_transaction_version: i64,
    pub last_transaction_timestamp: Timestamp,
    pub non_transferrable_by_owner: Option<bool>,
}

impl View for ParquetCurrentTokenOwnershipV2 {
    type V = ParquetCurrentTokenOwnershipV2View;

    open spec fn view(&self) -> ParquetCurrentTokenOwnershipV2View {
        ParquetCurrentTokenOwnershipV2View {
            token_data_id: self.token_data_id@,
            property_version_v1: self.property_version_v1@,
            owner_address: self.owner_address@,
            storage_id: self.storage_id@,
            amount: self.amount@,
            table_type_v1: opt_text(self.table_type_v1),
            token_properties_mutated_v1: opt_text(self.token_properties_mutated_v1),
            is_soulbound_v2: self.is_soulbound_v2,
            token_standard: self.token_standard@,
            is_fungible_v2: self.is_fungible_v2,
            last_transaction_version: self.last_transaction_version,
            last_transaction_timestamp: self.last_transaction_timestamp,
            non_transferrable_by_owner: self.non_transferrable_by_owner,
        }
    }
}

/// The columnar form of a current-ownership record: property version and
/// amount as decimal text, the standard by its name, the properties in
/// canonical form or the placeholder, and every other field unchanged.
pub open spec fn columnar_current(raw: CurrentTokenOwnershipV2View) -> ParquetCurrentTokenOwnershipV2View {
    ParquetCurrentTokenOwnershipV2View {
        token_data_id: raw.token_data_id,
        property_version_v1: raw.property_version_v1.text(),
        owner_address: raw.owner_address,
        storage_id: raw.storage_id,
        amount: raw.amount.text(),
        table_type_v1: raw.table_type_v1,
        token_properties_mutated_v1: Some(canonical_properties(raw.token_properties_mutated_v1)),
        is_soulbound_v2: raw.is_soulbound_v2,
        token_standard: raw.token_standard.text(),
        is_fungible_v2: raw.is_fungible_v2,
        last_transaction_version: raw.last_transaction_version,
        last_transaction_timestamp: raw.last_transaction_timestamp,
        non_transferrable_by_owner: raw.non_transferrable_by_owner,
    }
}

impl ParquetCurrentTokenOwnershipV2 {
    /// The table that these rows go to.
    pub const TABLE_NAME: &'static str = "current_token_ownerships_v2";

    /// The version by which the sink tells batches apart.
    pub fn version(&self) -> (r: i64)
        ensures
            r == self.last_transaction_version,
    {
        self.last_transaction_version
    }

    /// The columnar form of a current-ownership record.
    pub fn from(raw_item: CurrentTokenOwnershipV2) -> (r: ParquetCurrentTokenOwnershipV2)
        ensures
            r@ == columnar_current(raw_item@),
    {
        let properties = canonicalize_properties(&raw_item.token_properties_mutated_v1);
        ParquetCurrentTokenOwnershipV2 {
            token_data_id: raw_item.token_data_id,
            property_version_v1: raw_item.property_version_v1.to_text(),
            owner_address: raw_item.owner_address,
            storage_id: raw_item.storage_id,
            amount: raw_item.amount.to_text(),
            table_type_v1: raw_item.table_type_v1,
            token_properties_mutated_v1: Some(properties),
            is_soulbound_v2: raw_item.is_soulbound_v2,
            token_standard: raw_item.token_standard.to_string(),
            is_fungible_v2: raw_item.is_fungible_v2,
            last_transaction_version: raw_item.last_transaction_version,
            last_transaction_timestamp: raw_item.last_transaction_timestamp,
            non_transferrable_by_owner: raw_item.non_transferrable_by_owner,
        }
    }
}

/// A current-ownership record in row form: every value as it is.
#[derive(Debug)]
pub struct PostgresCurrentTokenOwnershipV2 {
    pub token_data_id: String,
    pub property_version_v1: Decimal,
    pub owner_address: String,
    pub storage_id: String,
    pub amount: Decimal,
    pub table_type_v1: Option<String>,
    pub token_properties_mutated_v1: Option<String>,
    pub is_soulbound_v2: Option<bool>,
    pub token_standard: TokenStandard,
    pub is_fungible_v2: Option<bool>,
    pub last_transaction_version: i64,
    pub last_transaction_timestamp: Timestamp,
    pub non_transferrable_by_owner: Option<bool>,
}

impl View for PostgresCurrentTokenOwnershipV2 {
    type V = CurrentTokenOwnershipV2View;

    open spec fn view(&self) -> CurrentTokenOwnershipV2View {
        CurrentTokenOwnershipV2View {
            token_data_id: self.token_data_id@,
            property_version_v1: self.property_version_v1,
            owner_address: self.owner_address@,
            storage_id: self.storage_id@,
            amount: self.amount,
            table_type_v1: opt_text(self.table_type_v1),
            token_properties_mutated_v1: opt_text(self.token_properties_mutated_v1),
            is_soulbound_v2: self.is_soulbound_v2,
            token_standard: self.token_standard,
            is_fungible_v2: self.is_fungible_v2,
            last_transaction_version: self.last_transaction_version,
            last_transaction_timestamp: self.last_transaction_timestamp,
            non_transferrable_by_owner: self.non_transferrable_by_owner,
        }
    }
}

impl From<CurrentTokenOwnershipV2> for PostgresCurrentTokenOwnershipV2 {
    fn from(raw_item: CurrentTokenOwnershipV2) -> (r: Self) {
        PostgresCurrentTokenOwnershipV2 {
            token_data_id: raw_item.token_data_id,
            property_version_v1: raw_item.property_version_v1,
            owner_address: raw_item.owner_address,
            storage_id: raw_item.storage_id,
            amount: raw_item.amount,
            table_type_v1: raw_item.table_type_v1,
            token_properties_mutated_v1: raw_item.token_properties_mutated_v1,
            is_soulbound_v2: raw_item.is_soulbound_v2,
            token_standard: raw_item.token_standard,
            is_fungible_v2: raw_item.is_fungible_v2,
            last_transaction_version: raw_item.last_transaction_version,
            last_transaction_timestamp: raw_item.last_transaction_timestamp,
            non_transferrable_by_owner: raw_item.non_transferrable_by_owner,
        }
    }
}

impl vstd::std_specs::convert::FromSpecImpl<CurrentTokenOwnershipV2> for PostgresCurrentTokenOwnershipV2 {
    open spec fn obeys_from_spec() -> bool {
        true
    }

    open spec fn from_spec(raw_item: CurrentTokenOwnershipV2) -> Self {
        PostgresCurrentTokenOwnershipV2 {
            token_data_id: raw_item.token_data_id,
            property_version_v1: raw_item.property_version_v1,
            owner_address: raw_item.owner_address,
            storage_id: raw_item.storage_id,
            amount: raw_item.amount,
            table_type_v1: raw_item.table_type_v1,
            token_properties_mutated_v1: raw_item.token_properties_mutated_v1,
            is_soulbound_v2: raw_item.is_soulbound_v2,
            token_standard: raw_item.token_standard,
            is_fungible_v2: raw_item.is_fungible_v2,
            last_transaction_version: raw_item.last_transaction_version,
            last_transaction_timestamp: raw_item.last_transaction_timestamp,
            non_transferrable_by_owner: raw_item.non_transferrable_by_owner,
        }
    }
}

/// The row form of a record holds what the record holds.
pub proof fn lemma_row_form_keeps_record(raw_item: CurrentTokenOwnershipV2)
    ensures
        <PostgresCurrentTokenOwnershipV2 as vstd::std_specs::convert::FromSpec<
            CurrentTokenOwnershipV2,
        >>::from_spec(raw_item)@ == raw_item@,
{
}

impl PostgresCurrentTokenOwnershipV2 {
    /// The record that this row holds.
    pub fn to_current(&self) -> (r: CurrentTokenOwnershipV2)
        ensures
            r@ == self@,
    {
        CurrentTokenOwnershipV2 {
            token_data_id: self.token_data_id.clone(),
            property_version_v1: self.property_version_v1,
            owner_address: self.owner_address.clone(),
            storage_id: self.storage_id.clone(),
            amount: self.amount,
            table_type_v1: clone_opt(&self.table_type_v1),
            token_properties_mutated_v1: clone_opt(&self.token_properties_mutated_v1),
            is_soulbound_v2: self.is_soulbound_v2,
            token_standard: self.token_standard,
            is_fungible_v2: self.is_fungible_v2,
            last_transaction_version: self.last_transaction_version,
            last_transaction_timestamp: self.last_transaction_timestamp,
            non_transferrable_by_owner: self.non_transferrable_by_owner,
        }
    }

    /// Compares the identities of two rows, as the records they hold compare.
    pub fn identity_order(&self, other: &PostgresCurrentTokenOwnershipV2) -> (r: IdentityOrder)
        ensures
            r == IdentityOrder::Before <==> identity_lt(self@, other@),
            r == IdentityOrder::Same <==> same_identity(self@, other@),
            r == IdentityOrder::After <==> identity_lt(other@, self@),
    {
        self.to_current().identity_order(&other.to_current())
    }
}

impl PartialEq for PostgresCurrentTokenOwnershipV2 {
    fn eq(&self, other: &PostgresCurrentTokenOwnershipV2) -> (r: bool) {
        self.to_current().same_record(&other.to_current())
    }
}

impl vstd::std_specs::cmp::PartialEqSpecImpl for PostgresCurrentTokenOwnershipV2 {
    open spec fn obeys_eq_spec() -> bool {
        true
    }

    open spec fn eq_spec(&self, other: &PostgresCurrentTokenOwnershipV2) -> bool {
        same_values(self@, other@)
    }
}

impl PartialOrd for PostgresCurrentTokenOwnershipV2 {
    /// Rows are ordered by their identities alone.
    fn partial_cmp(&self, other: &PostgresCurrentTokenOwnershipV2) -> (r: Option<Ordering>) {
        self.to_current().partial_cmp(&other.to_current())
    }
}

impl vstd::std_specs::cmp::PartialOrdSpecImpl for PostgresCurrentTokenOwnershipV2 {
    open spec fn obeys_partial_cmp_spec() -> bool {
        true
    }

    open spec fn partial_cmp_spec(&self, other: &PostgresCurrentTokenOwnershipV2) -> Option<
        Ordering,
    > {
        identity_ordering(self@, other@)
    }
}

} // verus!

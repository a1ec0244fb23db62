use vstd::prelude::*;
use crate::decimal::{Decimal, lemma_compare_three, lemma_same_number_same_scale};

verus! {

/// Owner written into a burn record when no earlier owner can be found.
pub const DEFAULT_OWNER_ADDRESS: &'static str = "unknown";

/// Text written in place of properties that have no canonical form.
pub const DEFAULT_NONE: &'static str = "NULL";

/// Table type of the legacy token store.
pub const V1_TOKEN_STORE_TABLE_TYPE: &'static str = "0x3::token::TokenStore";

/// A point in time: seconds since the Unix epoch and the nanoseconds within
/// that second. The library carries it through and never reads it.
#[derive(Clone, Copy, Debug, PartialEq, Eq, Structural)]
pub struct Timestamp {
    pub seconds: i64,
    pub nanos: u32,
}

/// The two asset standards.
#[derive(Clone, Copy, Debug, PartialEq, Eq, Structural)]
pub enum TokenStandard {
    V1,
    V2,
}

impl TokenStandard {
    /// The name under which the standard is written to the sinks.
    pub open spec fn text(self) -> Seq<char> {
        match self {
            TokenStandard::V1 => "v1"@,
            TokenStandard::V2 => "v2"@,
        }
    }

    pub fn to_string(&self) -> (r: String)
        ensures
            r@ == self.text(),
    {
        match self {
            TokenStandard::V1 => "v1".to_string(),
            TokenStandard::V2 => "v2".to_string(),
        }
    }

    /// The standard that goes by `name`, if there is one.
    pub fn from_name(name: &str) -> (r: Option<TokenStandard>)
        ensures
            name@ == TokenStandard::V1.text() ==> r == Some(TokenStandard::V1),
            name@ == TokenStandard::V2.text() ==> r == Some(TokenStandard::V2),
            name@ != TokenStandard::V1.text() && name@ != TokenStandard::V2.text() ==> r.is_none(),
    {
        proof {
            lemma_standard_names_differ();
        }
        let given = name.to_string();
        if given == TokenStandard::V1.to_string() {
            Some(TokenStandard::V1)
        } else if given == TokenStandard::V2.to_string() {
            Some(TokenStandard::V2)
        } else {
            None
        }
    }
}

/// The two standards go by different names.
pub proof fn lemma_standard_names_differ()
    ensures
        TokenStandard::V1.text() != TokenStandard::V2.text(),
{
    reveal_strlit("v1");
    reveal_strlit("v2");
    assert("v1"@[1] == '1');
    assert("v2"@[1] == '2');
}

/// The text of an optional string.
pub open spec fn opt_text(o: Option<String>) -> Option<Seq<char>> {
    match o {
        Some(s) => Some(s@),
        None => None,
    }
}

/// A copy of an optional string.
pub fn clone_opt(o: &Option<String>) -> (r: Option<String>)
    ensures
        opt_text(r) == opt_text(*o),
{
    match o {
        Some(s) => Some(s.clone()),
        None => None,
    }
}

/// Whether two optional strings hold the same text.
pub fn opt_text_eq(a: &Option<String>, b: &Option<String>) -> (r: bool)
    ensures
        r == (opt_text(*a) == opt_text(*b)),
{
    match a {
        Some(x) => match b {
            Some(y) => *x == *y,
            None => false,
        },
        None => b.is_none(),
    }
}

/// One observed change of ownership. Written once, never changed.
#[derive(Debug)]
pub struct TokenOwnershipV2 {
    pub transaction_version: i64,
    pub write_set_change_index: i64,
    pub token_data_id: String,
    pub property_version_v1: Decimal,
    pub owner_address: Option<String>,
    pub storage_id: String,
    pub amount: Decimal,
    pub table_type_v1: Option<String>,
    pub token_properties_mutated_v1: Option<String>,
    pub is_soulbound_v2: Option<bool>,
    pub token_standard: TokenStandard,
    pub is_fungible_v2: Option<bool>,
    pub transaction_timestamp: Timestamp,
    pub non_transferrable_by_owner: Option<bool>,
}

/// What a `TokenOwnershipV2` holds, with its strings as texts.
pub struct TokenOwnershipV2View {
    pub transaction_version: i64,
    pub write_set_change_index: i64,
    pub token_data_id: Seq<char>,
    pub property_version_v1: Decimal,
    pub owner_address: Option<Seq<char>>,
    pub storage_id: Seq<char>,
    pub amount: Decimal,
    pub table_type_v1: Option<Seq<char>>,
    pub token_properties_mutated_v1: Option<Seq<char>>,
    pub is_soulbound_v2: Option<bool>,
    pub token_standard: TokenStandard,
    pub is_fungible_v2: Option<bool>,
    pub transaction_timestamp: Timestamp,
    pub non_transferrable_by_owner: Option<bool>,
}

impl View for TokenOwnershipV2 {
    type V = TokenOwnershipV2View;

    open spec fn view(&self) -> TokenOwnershipV2View {
        TokenOwnershipV2View {
            transaction_version: self.transaction_version,
            write_set_change_index: self.write_set_change_index,
            token_data_id: self.token_data_id@,
            property_version_v1: self.property_version_v1,
            owner_address: opt_text(self.owner_address),
            storage_id: self.storage_id@,
            amount: self.amount,
            table_type_v1: opt_text(self.table_type_v1),
            token_properties_mutated_v1: opt_text(self.token_properties_mutated_v1),
            is_soulbound_v2: self.is_soulbound_v2,
            token_standard: self.token_standard,
            is_fungible_v2: self.is_fungible_v2,
            transaction_timestamp: self.transaction_timestamp,
            non_transferrable_by_owner: self.non_transferrable_by_owner,
        }
    }
}

impl Clone for TokenOwnershipV2 {
    fn clone(&self) -> (r: Self)
        ensures
            r@ == self@,
    {
        TokenOwnershipV2 {
            transaction_version: self.transaction_version,
            write_set_change_index: self.write_set_change_index,
            token_data_id: self.token_data_id.clone(),
            property_version_v1: self.property_version_v1,
            owner_address: clone_opt(&self.owner_address),
            storage_id: self.storage_id.clone(),
            amount: self.amount,
            table_type_v1: clone_opt(&self.table_type_v1),
            token_properties_mutated_v1: clone_opt(&self.token_properties_mutated_v1),
            is_soulbound_v2: self.is_soulbound_v2,
            token_standard: self.token_standard,
            is_fungible_v2: self.is_fungible_v2,
            transaction_timestamp: self.transaction_timestamp,
            non_transferrable_by_owner: self.non_transferrable_by_owner,
        }
    }
}

/// The current holding of one owner in one asset. An amount of zero says that
/// the owner no longer holds the asset.
#[derive(Debug)]
pub struct CurrentTokenOwnershipV2 {
    pub token_data_id: String,
    pub property_version_v1: Decimal,
    pub owner_address: String,
    pub storage_id: String,
    pub amount: Decimal,
    pub table_type_v1: Option<String>,
    pub token_properties_mutated_v1: Option<String>,
    pub is_soulbound_v2: Option<bool>,
    pub token_standard: TokenStandard,
    pub is_fungible_v2: Option<bool>,
    pub last_transaction_version: i64,
    pub last_transaction_timestamp: Timestamp,
    pub non_transferrable_by_owner: Option<bool>,
}

/// What a `CurrentTokenOwnershipV2` holds, with its strings as texts.
pub struct CurrentTokenOwnershipV2View {
    pub token_data_id: Seq<char>,
    pub property_version_v1: Decimal,
    pub owner_address: Seq<char>,
    pub storage_id: Seq<char>,
    pub amount: Decimal,
    pub table_type_v1: Option<Seq<char>>,
    pub token_properties_mutated_v1: Option<Seq<char>>,
    pub is_soulbound_v2: Option<bool>,
    pub token_standard: TokenStandard,
    pub is_fungible_v2: Option<bool>,
    pub last_transaction_version: i64,
    pub last_transaction_timestamp: Timestamp,
    pub non_transferrable_by_owner: Option<bool>,
}

impl View for CurrentTokenOwnershipV2 {
    type V = CurrentTokenOwnershipV2View;

    open spec fn view(&self) -> CurrentTokenOwnershipV2View {
        CurrentTokenOwnershipV2View {
            token_data_id: self.token_data_id@,
            property_version_v1: self.property_version_v1,
            owner_address: self.owner_address@,
            storage_id: self.storage_id@,
            amount: self.amount,
            table_type_v1: opt_text(self.table_type_v1),
            token_properties_mutated_v1: opt_text(self.token_properties_mutated_v1),
            is_soulbound_v2: self.is_soulbound_v2,
            token_standard: self.token_standard,
            is_fungible_v2: self.is_fungible_v2,
            last_transaction_version: self.last_transaction_version,
            last_transaction_timestamp: self.last_transaction_timestamp,
            non_transferrable_by_owner: self.non_transferrable_by_owner,
        }
    }
}

impl Clone for CurrentTokenOwnershipV2 {
    fn clone(&self) -> (r: Self)
        ensures
            r@ == self@,
    {
        CurrentTokenOwnershipV2 {
            token_data_id: self.token_data_id.clone(),
            property_version_v1: self.property_version_v1,
            owner_address: self.owner_address.clone(),
            storage_id: self.storage_id.clone(),
            amount: self.amount,
            table_type_v1: clone_opt(&self.table_type_v1),
            token_properties_mutated_v1: clone_opt(&self.token_properties_mutated_v1),
            is_soulbound_v2: self.is_soulbound_v2,
            token_standard: self.token_standard,
            is_fungible_v2: self.is_fungible_v2,
            last_transaction_version: self.last_transaction_version,
            last_transaction_timestamp: self.last_transaction_timestamp,
            non_transferrable_by_owner: self.non_transferrable_by_owner,
        }
    }
}

/// The two records hold the same values: the same texts and flags, and
/// decimals that are the same numbers, however they are written.
#[verifier::opaque]
pub open spec fn same_values(a: CurrentTokenOwnershipV2View, b: CurrentTokenOwnershipV2View) -> bool {
    &&& a.token_data_id == b.token_data_id
    &&& a.property_version_v1.num_eq(b.property_version_v1)
    &&& a.owner_address == b.owner_address
    &&& a.storage_id == b.storage_id
    &&& a.amount.num_eq(b.amount)
    &&& a.table_type_v1 == b.table_type_v1
    &&& a.token_properties_mutated_v1 == b.token_properties_mutated_v1
    &&& a.is_soulbound_v2 == b.is_soulbound_v2
    &&& a.token_standard == b.token_standard
    &&& a.is_fungible_v2 == b.is_fungible_v2
    &&& a.last_transaction_version == b.last_transaction_version
    &&& a.last_transaction_timestamp == b.last_transaction_timestamp
    &&& a.non_transferrable_by_owner == b.non_transferrable_by_owner
}

/// Holding the same values is an equivalence of records.
pub proof fn lemma_same_values_equivalence(
    a: CurrentTokenOwnershipV2View,
    b: CurrentTokenOwnershipV2View,
    c: CurrentTokenOwnershipV2View,
)
    ensures
        same_values(a, a),
        same_values(a, b) == same_values(b, a),
        same_values(a, b) && same_values(b, c) ==> same_values(a, c),
{
    reveal(same_values);
    lemma_compare_three(a.property_version_v1, b.property_version_v1, c.property_version_v1);
    lemma_compare_three(a.amount, b.amount, c.amount);
    lemma_compare_three(a.property_version_v1, a.property_version_v1, a.property_version_v1);
    lemma_compare_three(a.amount, a.amount, a.amount);
}

/// Two records that hold the same values and write their decimals with the
/// same scales are the same record.
pub proof fn lemma_same_values_same_writing(
    a: CurrentTokenOwnershipV2View,
    b: CurrentTokenOwnershipV2View,
)
    requires
        same_values(a, b),
        a.property_version_v1.scale == b.property_version_v1.scale,
        a.amount.scale == b.amount.scale,
    ensures
        a == b,
{
    reveal(same_values);
    lemma_same_number_same_scale(a.property_version_v1, b.property_version_v1);
    lemma_same_number_same_scale(a.amount, b.amount);
}

impl CurrentTokenOwnershipV2 {
    /// Whether the two records hold the same values.
    pub fn same_record(&self, other: &CurrentTokenOwnershipV2) -> (r: bool)
        ensures
            r == same_values(self@, other@),
    {
        proof {
            reveal(same_values);
        }
        self.token_data_id == other.token_data_id
            && self.property_version_v1.same_number(&other.property_version_v1)
            && self.owner_address == other.owner_address
            && self.storage_id == other.storage_id
            && self.amount.same_number(&other.amount)
            && opt_text_eq(&self.table_type_v1, &other.table_type_v1)
            && opt_text_eq(&self.token_properties_mutated_v1, &other.token_properties_mutated_v1)
            && self.is_soulbound_v2 == other.is_soulbound_v2
            && self.token_standard == other.token_standard
            && self.is_fungible_v2 == other.is_fungible_v2
            && self.last_transaction_version == other.last_transaction_version
            && self.last_transaction_timestamp == other.last_transaction_timestamp
            && self.non_transferrable_by_owner == other.non_transferrable_by_owner
    }
}

impl PartialEq for CurrentTokenOwnershipV2 {
    fn eq(&self, other: &CurrentTokenOwnershipV2) -> (r: bool) {
        self.same_record(other)
    }
}

impl vstd::std_specs::cmp::PartialEqSpecImpl for CurrentTokenOwnershipV2 {
    open spec fn obeys_eq_spec() -> bool {
        true
    }

    open spec fn eq_spec(&self, other: &CurrentTokenOwnershipV2) -> bool {
        same_values(self@, other@)
    }
}

/// A current-ownership record proposed by one observed change, with the
/// change index of the event it was derived beside.
#[derive(Debug)]
pub struct OwnershipCandidate {
    pub write_set_change_index: i64,
    pub current: CurrentTokenOwnershipV2,
}

/// What an `OwnershipCandidate` holds.
pub struct OwnershipCandidateView {
    pub write_set_change_index: i64,
    pub current: CurrentTokenOwnershipV2View,
}

impl View for OwnershipCandidate {
    type V = OwnershipCandidateView;

    open spec fn view(&self) -> OwnershipCandidateView {
        OwnershipCandidateView {
            write_set_change_index: self.write_set_change_index,
            current: self.current@,
        }
    }
}

impl Clone for OwnershipCandidate {
    fn clone(&self) -> (r: Self)
        ensures
            r@ == self@,
    {
        OwnershipCandidate {
            write_set_change_index: self.write_set_change_index,
            current: self.current.clone(),
        }
    }
}

/// The candidate that stands beside an event: the same values, for the
/// event's owner.
pub open spec fn candidate_of(e: TokenOwnershipV2View) -> OwnershipCandidateView {
    OwnershipCandidateView {
        write_set_change_index: e.write_set_change_index,
        current: CurrentTokenOwnershipV2View {
            token_data_id: e.token_data_id,
            property_version_v1: e.property_version_v1,
            owner_address: match e.owner_address {
                Some(owner) => owner,
                None => Seq::empty(),
            },
            storage_id: e.storage_id,
            amount: e.amount,
            table_type_v1: e.table_type_v1,
            token_properties_mutated_v1: e.token_properties_mutated_v1,
            is_soulbound_v2: e.is_soulbound_v2,
            token_standard: e.token_standard,
            is_fungible_v2: e.is_fungible_v2,
            last_transaction_version: e.transaction_version,
            last_transaction_timestamp: e.transaction_timestamp,
            non_transferrable_by_owner: e.non_transferrable_by_owner,
        },
    }
}

impl TokenOwnershipV2 {
    /// The candidate that stands beside this event; none for an event that
    /// names no owner.
    pub fn candidate(&self) -> (r: Option<OwnershipCandidate>)
        ensures
            r.is_some() <==> self@.owner_address.is_some(),
            r.is_some() ==> r.unwrap()@ == candidate_of(self@),
    {
        let owner = match &self.owner_address {
            Some(owner) => owner.clone(),
            None => {
                return None;
            },
        };
        Some(
            OwnershipCandidate {
                write_set_change_index: self.write_set_change_index,
                current: CurrentTokenOwnershipV2 {
                    token_data_id: self.token_data_id.clone(),
                    property_version_v1: self.property_version_v1,
                    owner_address: owner,
                    storage_id: self.storage_id.clone(),
                    amount: self.amount,
                    table_type_v1: clone_opt(&self.table_type_v1),
                    token_properties_mutated_v1: clone_opt(&self.token_properties_mutated_v1),
                    is_soulbound_v2: self.is_soulbound_v2,
                    token_standard: self.token_standard,
                    is_fungible_v2: self.is_fungible_v2,
                    last_transaction_version: self.transaction_version,
                    last_transaction_timestamp: self.transaction_timestamp,
                    non_transferrable_by_owner: self.non_transferrable_by_owner,
                },
            },
        )
    }
}

/// The last known owner of an asset, kept for the length of one batch.
#[derive(Debug)]
pub struct NFTOwnershipV2 {
    pub token_data_id: String,
    pub owner_address: String,
    pub is_soulbound: Option<bool>,
}

/// What an `NFTOwnershipV2` holds, with its strings as texts.
pub struct NFTOwnershipV2View {
    pub token_data_id: Seq<char>,
    pub owner_address: Seq<char>,
    pub is_soulbound: Option<bool>,
}

impl View for NFTOwnershipV2 {
    type V = NFTOwnershipV2View;

    open spec fn view(&self) -> NFTOwnershipV2View {
        NFTOwnershipV2View {
            token_data_id: self.token_data_id@,
            owner_address: self.owner_address@,
            is_soulbound: self.is_soulbound,
        }
    }
}

impl Clone for NFTOwnershipV2 {
    fn clone(&self) -> (r: Self)
        ensures
            r@ == self@,
    {
        NFTOwnershipV2 {
            token_data_id: self.token_data_id.clone(),
            owner_address: self.owner_address.clone(),
            is_soulbound: self.is_soulbound,
        }
    }
}

} // verus!

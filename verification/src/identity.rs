use vstd::prelude::*;
use std::cmp::Ordering;
use crate::decimal::lemma_compare_three;
use crate::model::{CurrentTokenOwnershipV2, CurrentTokenOwnershipV2View};
use crate::text::{
    lemma_text_lt_asymmetric, lemma_text_lt_irreflexive, lemma_text_lt_total,
    lemma_text_lt_transitive, string_lt, text_lt,
};

verus! {

/// Two records speak of the same holding: the same asset, the same property
/// version as a number, the same owner and the same storage.
#[verifier::opaque]
pub open spec fn same_identity(a: CurrentTokenOwnershipV2View, b: CurrentTokenOwnershipV2View) -> bool {
    &&& a.token_data_id == b.token_data_id
    &&& a.property_version_v1.num_eq(b.property_version_v1)
    &&& a.owner_address == b.owner_address
    &&& a.storage_id == b.storage_id
}

/// The order of identities: by asset, then property version, then owner,
/// then storage.
#[verifier::opaque]
pub open spec fn identity_lt(a: CurrentTokenOwnershipV2View, b: CurrentTokenOwnershipV2View) -> bool {
    if a.token_data_id != b.token_data_id {
        text_lt(a.token_data_id, b.token_data_id)
    } else if !a.property_version_v1.num_eq(b.property_version_v1) {
        a.property_version_v1.num_lt(b.property_version_v1)
    } else if a.owner_address != b.owner_address {
        text_lt(a.owner_address, b.owner_address)
    } else {
        text_lt(a.storage_id, b.storage_id)
    }
}

/// Of two identities exactly one holds: the first is smaller, they are the
/// same, or the second is smaller.
pub proof fn lemma_identity_trichotomy(a: CurrentTokenOwnershipV2View, b: CurrentTokenOwnershipV2View)
    ensures
        identity_lt(a, b) || same_identity(a, b) || identity_lt(b, a),
        !(identity_lt(a, b) && same_identity(a, b)),
        !(identity_lt(b, a) && same_identity(a, b)),
        !(identity_lt(a, b) && identity_lt(b, a)),
        same_identity(a, b) == same_identity(b, a),
{
    reveal(same_identity);
    reveal(identity_lt);
    lemma_compare_three(a.property_version_v1, b.property_version_v1, a.property_version_v1);
    lemma_text_lt_total(a.token_data_id, b.token_data_id);
    lemma_text_lt_total(a.owner_address, b.owner_address);
    lemma_text_lt_total(a.storage_id, b.storage_id);
    lemma_text_lt_irreflexive(a.token_data_id);
    lemma_text_lt_irreflexive(a.owner_address);
    lemma_text_lt_irreflexive(a.storage_id);
    if text_lt(a.token_data_id, b.token_data_id) {
        lemma_text_lt_asymmetric(a.token_data_id, b.token_data_id);
    }
    if text_lt(a.owner_address, b.owner_address) {
        lemma_text_lt_asymmetric(a.owner_address, b.owner_address);
    }
    if text_lt(a.storage_id, b.storage_id) {
        lemma_text_lt_asymmetric(a.storage_id, b.storage_id);
    }
}

/// The order of identities is transitive, and it does not tell apart two
/// records of the same identity.
pub proof fn lemma_identity_order(
    a: CurrentTokenOwnershipV2View,
    b: CurrentTokenOwnershipV2View,
    c: CurrentTokenOwnershipV2View,
)
    ensures
        identity_lt(a, b) && identity_lt(b, c) ==> identity_lt(a, c),
        same_identity(a, b) && identity_lt(b, c) ==> identity_lt(a, c),
        identity_lt(a, b) && same_identity(b, c) ==> identity_lt(a, c),
        same_identity(a, b) && same_identity(b, c) ==> same_identity(a, c),
{
    reveal(same_identity);
    reveal(identity_lt);
    lemma_compare_three(a.property_version_v1, b.property_version_v1, c.property_version_v1);
    if text_lt(a.token_data_id, b.token_data_id) && text_lt(b.token_data_id, c.token_data_id) {
        lemma_text_lt_transitive(a.token_data_id, b.token_data_id, c.token_data_id);
        lemma_text_lt_irreflexive(a.token_data_id);
    }
    if text_lt(a.owner_address, b.owner_address) && text_lt(b.owner_address, c.owner_address) {
        lemma_text_lt_transitive(a.owner_address, b.owner_address, c.owner_address);
        lemma_text_lt_irreflexive(a.owner_address);
    }
    if text_lt(a.storage_id, b.storage_id) && text_lt(b.storage_id, c.storage_id) {
        lemma_text_lt_transitive(a.storage_id, b.storage_id, c.storage_id);
        lemma_text_lt_irreflexive(a.storage_id);
    }
    lemma_text_lt_irreflexive(b.token_data_id);
    lemma_text_lt_irreflexive(b.owner_address);
    lemma_text_lt_irreflexive(b.storage_id);
}

/// How the identity of one record stands to that of another.
#[derive(Clone, Copy, Debug, PartialEq, Eq, Structural)]
pub enum IdentityOrder {
    Before,
    Same,
    After,
}

impl CurrentTokenOwnershipV2 {
    /// Compares the identities of two records.
    pub fn identity_order(&self, other: &CurrentTokenOwnershipV2) -> (r: IdentityOrder)
        ensures
            r == IdentityOrder::Before <==> identity_lt(self@, other@),
            r == IdentityOrder::Same <==> same_identity(self@, other@),
            r == IdentityOrder::After <==> identity_lt(other@, self@),
    {
        proof {
            reveal(same_identity);
            reveal(identity_lt);
            lemma_identity_trichotomy(self@, other@);
        }
        if self.token_data_id != other.token_data_id {
            if string_lt(&self.token_data_id, &other.token_data_id) {
                IdentityOrder::Before
            } else {
                IdentityOrder::After
            }
        } else if !self.property_version_v1.same_number(&other.property_version_v1) {
            if self.property_version_v1.lt(&other.property_version_v1) {
                IdentityOrder::Before
            } else {
                IdentityOrder::After
            }
        } else if self.owner_address != other.owner_address {
            if string_lt(&self.owner_address, &other.owner_address) {
                IdentityOrder::Before
            } else {
                IdentityOrder::After
            }
        } else if self.storage_id != other.storage_id {
            if string_lt(&self.storage_id, &other.storage_id) {
                IdentityOrder::Before
            } else {
                IdentityOrder::After
            }
        } else {
            IdentityOrder::Same
        }
    }
}

/// How the first identity stands to the second, in the terms of `<`.
pub open spec fn identity_ordering(
    a: CurrentTokenOwnershipV2View,
    b: CurrentTokenOwnershipV2View,
) -> Option<Ordering> {
    if identity_lt(a, b) {
        Some(Ordering::Less)
    } else if same_identity(a, b) {
        Some(Ordering::Equal)
    } else {
        Some(Ordering::Greater)
    }
}

impl PartialOrd for CurrentTokenOwnershipV2 {
    /// Records are ordered by their identities alone.
    fn partial_cmp(&self, other: &CurrentTokenOwnershipV2) -> (r: Option<Ordering>) {
        proof {
            lemma_identity_trichotomy(self@, other@);
        }
        match self.identity_order(other) {
            IdentityOrder::Before => Some(Ordering::Less),
            IdentityOrder::Same => Some(Ordering::Equal),
            IdentityOrder::After => Some(Ordering::Greater),
        }
    }
}

impl vstd::std_specs::cmp::PartialOrdSpecImpl for CurrentTokenOwnershipV2 {
    open spec fn obeys_partial_cmp_spec() -> bool {
        true
    }

    open spec fn partial_cmp_spec(&self, other: &CurrentTokenOwnershipV2) -> Option<Ordering> {
        identity_ordering(self@, other@)
    }
}

} // verus!

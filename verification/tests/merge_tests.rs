use ahash::AHashMap;
use token_ownership::context::{
    ObjectAggregatedData, ObjectAggregatedDataMapping, ObjectCore, TokenDataV2, TransferEvent,
};
use token_ownership::decimal::Decimal;
use token_ownership::identity::IdentityOrder;
use token_ownership::merge::{merge_current_ownerships, MergeError};
use token_ownership::model::{
    CurrentTokenOwnershipV2, OwnershipCandidate, Timestamp, TokenOwnershipV2, TokenStandard,
};

fn record(id: &str, version: i128, owner: &str, amount: i128, txn: i64) -> CurrentTokenOwnershipV2 {
    CurrentTokenOwnershipV2 {
        token_data_id: id.to_string(),
        property_version_v1: Decimal::new(version, 0),
        owner_address: owner.to_string(),
        storage_id: id.to_string(),
        amount: Decimal::new(amount, 0),
        table_type_v1: None,
        token_properties_mutated_v1: None,
        is_soulbound_v2: Some(false),
        token_standard: TokenStandard::V2,
        is_fungible_v2: None,
        last_transaction_version: txn,
        last_transaction_timestamp: Timestamp { seconds: txn, nanos: 0 },
        non_transferrable_by_owner: Some(false),
    }
}

fn candidate(
    id: &str,
    owner: &str,
    amount: i128,
    txn: i64,
    change_index: i64,
) -> OwnershipCandidate {
    OwnershipCandidate { write_set_change_index: change_index, current: record(id, 0, owner, amount, txn) }
}

fn summary(records: &[CurrentTokenOwnershipV2]) -> Vec<(String, String, i128, i64)> {
    records
        .iter()
        .map(|r| {
            (
                r.token_data_id.clone(),
                r.owner_address.clone(),
                r.amount.unscaled,
                r.last_transaction_version,
            )
        })
        .collect()
}

#[test]
fn merge_of_nothing_is_nothing() {
    assert!(merge_current_ownerships(&vec![]).unwrap().is_empty());
}

#[test]
fn merge_keeps_highest_version_for_each_identity() {
    let candidates = vec![
        candidate("0xb", "0x1", 1, 5, 1),
        candidate("0xa", "0x2", 1, 7, 1),
        candidate("0xb", "0x1", 0, 9, 1),
        candidate("0xa", "0x1", 0, 7, -3),
        candidate("0xb", "0x1", 1, 8, 4),
    ];
    let merged = merge_current_ownerships(&candidates).unwrap();
    assert_eq!(
        summary(&merged),
        vec![
            ("0xa".to_string(), "0x1".to_string(), 0, 7),
            ("0xa".to_string(), "0x2".to_string(), 1, 7),
            ("0xb".to_string(), "0x1".to_string(), 0, 9),
        ]
    );
}

#[test]
fn merge_breaks_ties_by_magnitude_of_change_index() {
    let candidates = vec![
        candidate("0xa", "0x1", 1, 7, 2),
        candidate("0xa", "0x1", 0, 7, -5),
        candidate("0xa", "0x1", 3, 7, 4),
    ];
    let merged = merge_current_ownerships(&candidates).unwrap();
    assert_eq!(summary(&merged), vec![("0xa".to_string(), "0x1".to_string(), 0, 7)]);
    let candidates = vec![
        candidate("0xa", "0x1", 1, 7, 9),
        candidate("0xa", "0x1", 0, 7, -5),
    ];
    let merged = merge_current_ownerships(&candidates).unwrap();
    assert_eq!(summary(&merged), vec![("0xa".to_string(), "0x1".to_string(), 1, 7)]);
    let candidates = vec![
        candidate("0xa", "0x1", 1, 7, 9),
        candidate("0xa", "0x1", 0, 7, i64::MIN),
    ];
    let merged = merge_current_ownerships(&candidates).unwrap();
    assert_eq!(summary(&merged), vec![("0xa".to_string(), "0x1".to_string(), 0, 7)]);
}

#[test]
fn merge_does_not_depend_on_arrival_order() {
    let base = vec![
        candidate("0xb", "0x1", 1, 5, 1),
        candidate("0xa", "0x2", 1, 7, 1),
        candidate("0xb", "0x1", 0, 9, 1),
        candidate("0xa", "0x1", 0, 7, -3),
    ];
    let expected = summary(&merge_current_ownerships(&base).unwrap());
    let orders: Vec<[usize; 4]> = vec![
        [3, 2, 1, 0],
        [1, 0, 3, 2],
        [2, 0, 1, 3],
        [0, 3, 2, 1],
        [1, 2, 3, 0],
    ];
    for order in orders {
        let permuted: Vec<OwnershipCandidate> = order.iter().map(|&i| base[i].clone()).collect();
        let merged = merge_current_ownerships(&permuted).unwrap();
        assert_eq!(summary(&merged), expected);
    }
}

#[test]
fn merging_twice_gives_the_same_records() {
    let candidates = vec![
        candidate("0xb", "0x1", 1, 5, 1),
        candidate("0xa", "0x2", 1, 7, 1),
        candidate("0xb", "0x1", 0, 9, 1),
    ];
    let first = merge_current_ownerships(&candidates).unwrap();
    let second = merge_current_ownerships(&candidates).unwrap();
    assert_eq!(first.len(), second.len());
    for (a, b) in first.iter().zip(second.iter()) {
        assert!(a.same_record(b));
    }
}

#[test]
fn merge_reports_candidates_that_tie_and_differ() {
    let candidates = vec![
        candidate("0xa", "0x1", 1, 7, 2),
        candidate("0xb", "0x1", 1, 7, 2),
        candidate("0xa", "0x1", 0, 7, -2),
    ];
    assert_eq!(
        merge_current_ownerships(&candidates).unwrap_err(),
        MergeError::InconsistentCandidates
    );
    // the same tie below the winner of the identity does no harm
    let candidates = vec![
        candidate("0xa", "0x1", 1, 7, 2),
        candidate("0xa", "0x1", 0, 7, -2),
        candidate("0xa", "0x1", 5, 8, 1),
    ];
    let merged = merge_current_ownerships(&candidates).unwrap();
    assert_eq!(summary(&merged), vec![("0xa".to_string(), "0x1".to_string(), 5, 8)]);
    // and candidates that tie and agree are one candidate
    let candidates = vec![candidate("0xa", "0x1", 1, 7, 2), candidate("0xa", "0x1", 1, 7, -2)];
    let merged = merge_current_ownerships(&candidates).unwrap();
    assert_eq!(summary(&merged), vec![("0xa".to_string(), "0x1".to_string(), 1, 7)]);
}

#[test]
fn merge_treats_equal_numbers_of_different_scale_as_one_identity() {
    let mut a = candidate("0xa", "0x1", 1, 7, 2);
    a.current.property_version_v1 = Decimal::new(10, 1);
    let mut b = candidate("0xa", "0x1", 0, 8, 2);
    b.current.property_version_v1 = Decimal::new(1, 0);
    let mut c = candidate("0xa", "0x1", 4, 6, 2);
    c.current.property_version_v1 = Decimal::new(2, 0);
    let merged = merge_current_ownerships(&vec![a, c, b]).unwrap();
    assert_eq!(
        summary(&merged),
        vec![
            ("0xa".to_string(), "0x1".to_string(), 0, 8),
            ("0xa".to_string(), "0x1".to_string(), 4, 6),
        ]
    );
    assert_eq!(merged[0].property_version_v1, Decimal::new(1, 0));
}

#[test]
fn merged_amounts_are_not_negative() {
    let candidates = vec![
        candidate("0xb", "0x1", 1, 5, 1),
        candidate("0xa", "0x2", 0, 7, 1),
        candidate("0xb", "0x1", 0, 9, 1),
    ];
    for r in merge_current_ownerships(&candidates).unwrap() {
        assert!(r.amount.unscaled >= 0);
    }
}

#[test]
fn identities_are_ordered_by_asset_version_owner_storage() {
    let a = record("0xa", 0, "0x2", 1, 1);
    let b = record("0xb", 0, "0x1", 1, 1);
    assert_eq!(a.identity_order(&b), IdentityOrder::Before);
    assert_eq!(b.identity_order(&a), IdentityOrder::After);
    let c = record("0xa", 1, "0x1", 1, 1);
    assert_eq!(a.identity_order(&c), IdentityOrder::Before);
    let d = record("0xa", 0, "0x3", 1, 1);
    assert_eq!(a.identity_order(&d), IdentityOrder::Before);
    let mut e = record("0xa", 0, "0x2", 9, 9);
    assert_eq!(a.identity_order(&e), IdentityOrder::Same);
    e.storage_id = "0xz".to_string();
    assert_eq!(a.identity_order(&e), IdentityOrder::Before);
    assert_eq!(e.identity_order(&a), IdentityOrder::After);
    // a proper prefix comes first
    let f = record("0xa0", 0, "0x0", 1, 1);
    assert_eq!(a.identity_order(&f), IdentityOrder::Before);
    // the operators follow the identities
    assert!(a < b);
    assert!(b > a);
    assert!(a <= d);
    assert!(!(a < a.clone()));
    assert_eq!(a.partial_cmp(&b), Some(std::cmp::Ordering::Less));
    assert_eq!(b.partial_cmp(&a), Some(std::cmp::Ordering::Greater));
    let mut g = record("0xa", 0, "0x2", 9, 9);
    assert_eq!(a.partial_cmp(&g), Some(std::cmp::Ordering::Equal));
    assert!(a != g);
    assert!(a == a.clone());
    g.property_version_v1 = Decimal::new(0, 3);
    assert_eq!(a.partial_cmp(&g), Some(std::cmp::Ordering::Equal));
}

#[test]
fn later_writer_is_decided_by_version_then_magnitude() {
    let low = candidate("0xa", "0x1", 1, 7, 2);
    let high = candidate("0xa", "0x1", 1, 8, 0);
    assert!(high.is_later_than(&low));
    assert!(!low.is_later_than(&high));
    let negative = candidate("0xa", "0x1", 1, 7, -3);
    assert!(negative.is_later_than(&low));
    assert!(!low.is_later_than(&negative));
    let mirror = candidate("0xa", "0x1", 1, 7, -2);
    assert!(!mirror.is_later_than(&low));
    assert!(!low.is_later_than(&mirror));
}

#[test]
fn candidates_that_differ_only_in_how_a_decimal_is_written_agree() {
    let plain = candidate("0xa", "0x1", 1, 7, 2);
    let mut padded = candidate("0xa", "0x1", 1, 7, -2);
    padded.current.amount = Decimal::new(10, 1);
    let mut more_padded = candidate("0xa", "0x1", 1, 7, 2);
    more_padded.current.amount = Decimal::new(100, 2);
    more_padded.current.property_version_v1 = Decimal::new(0, 1);
    let orders: Vec<Vec<OwnershipCandidate>> = vec![
        vec![plain.clone(), padded.clone(), more_padded.clone()],
        vec![more_padded.clone(), padded.clone(), plain.clone()],
        vec![padded.clone(), more_padded.clone(), plain.clone()],
        vec![padded.clone(), plain.clone(), more_padded.clone()],
    ];
    for order in orders {
        let merged = merge_current_ownerships(&order).unwrap();
        assert_eq!(merged.len(), 1);
        assert_eq!(merged[0].amount, Decimal::new(1, 0));
        assert_eq!(merged[0].property_version_v1, Decimal::new(0, 0));
    }
    // without the plainest, the plainer of the two stays
    let merged = merge_current_ownerships(&vec![more_padded.clone(), padded.clone()]).unwrap();
    assert_eq!(merged[0].amount, Decimal::new(10, 1));
    // a later writer is kept however it writes its decimals
    let mut later = candidate("0xa", "0x1", 1, 8, 1);
    later.current.amount = Decimal::new(1000, 3);
    let merged = merge_current_ownerships(&vec![plain.clone(), later.clone()]).unwrap();
    assert_eq!(merged[0].amount, Decimal::new(1000, 3));
    // a tie in which the values differ is reported, whatever the scales
    let mut half = candidate("0xa", "0x1", 1, 7, 2);
    half.current.amount = Decimal::new(5, 1);
    assert_eq!(
        merge_current_ownerships(&vec![plain.clone(), half.clone()]).unwrap_err(),
        MergeError::InconsistentCandidates
    );
    assert_eq!(
        merge_current_ownerships(&vec![half, plain]).unwrap_err(),
        MergeError::InconsistentCandidates
    );
}

#[test]
fn the_candidate_kept_is_the_later_or_the_plainer() {
    let plain = candidate("0xa", "0x1", 1, 7, 2);
    let mut padded = candidate("0xa", "0x1", 1, 7, 2);
    padded.current.amount = Decimal::new(10, 1);
    assert!(plain.takes_place_of(&padded));
    assert!(!padded.takes_place_of(&plain));
    assert!(!plain.takes_place_of(&plain.clone()));
    let mut later = candidate("0xa", "0x1", 1, 7, 3);
    later.current.amount = Decimal::new(100, 2);
    assert!(later.takes_place_of(&plain));
    assert!(!plain.takes_place_of(&later));
    let mut version_padded = candidate("0xa", "0x1", 1, 7, 2);
    version_padded.current.property_version_v1 = Decimal::new(0, 2);
    assert!(padded.takes_place_of(&version_padded));
    assert!(!version_padded.takes_place_of(&padded));
}

#[test]
fn order_of_transfers_does_not_change_the_merged_records() {
    let token_data = TokenDataV2 {
        transaction_version: 12,
        write_set_change_index: 3,
        token_data_id: "0xa".to_string(),
        transaction_timestamp: Timestamp { seconds: 12, nanos: 0 },
    };
    let transfers = vec![(5, "0x1", "0x2"), (6, "0x2", "0x2"), (7, "0x2", "0x3"), (9, "0x3", "0x1")];
    let orders: Vec<[usize; 4]> = vec![[0, 1, 2, 3], [3, 2, 1, 0], [2, 0, 3, 1], [1, 3, 0, 2]];
    let mut merged_all: Vec<Vec<(String, i128, i64)>> = vec![];
    for order in orders {
        let mut objects: ObjectAggregatedDataMapping = AHashMap::new();
        objects.insert(
            "0xa".to_string(),
            ObjectAggregatedData {
                object_core: ObjectCore { owner: "0x1".to_string(), allow_ungated_transfer: true },
                untransferable: false,
                transfer_events: order
                    .iter()
                    .map(|&i| {
                        let (index, from, to) = transfers[i];
                        (index, TransferEvent { from: from.to_string(), to: to.to_string() })
                    })
                    .collect(),
            },
        );
        let (events, candidates) =
            TokenOwnershipV2::get_nft_v2_from_token_data(&token_data, &objects).unwrap();
        assert_eq!(events.len(), 4);
        assert_eq!(events[0].owner_address, Some("0x1".to_string()));
        let merged = merge_current_ownerships(&candidates).unwrap();
        merged_all.push(
            merged
                .iter()
                .map(|r| (r.owner_address.clone(), r.amount.unscaled, r.last_transaction_version))
                .collect(),
        );
    }
    // the owner gave the asset away and has it back; the latest writer decides
    assert_eq!(
        merged_all[0],
        vec![("0x1".to_string(), 0, 12), ("0x2".to_string(), 0, 12), ("0x3".to_string(), 0, 12)]
    );
    for merged in &merged_all {
        assert_eq!(merged, &merged_all[0]);
    }
}

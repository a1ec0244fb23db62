use ahash::AHashMap;
use token_ownership::address::standardize_address;
use token_ownership::context::{
    Decoded, ObjectAggregatedData, ObjectAggregatedDataMapping, ObjectCore, TableHandleToOwner,
    TableMetadataForToken, Token, TokenDataV2, TokenDepositModuleEvent, TokenId,
    TokenV1AggregatedEvents, TokenV1AggregatedEventsMapping, TokenWithdrawModuleEvent,
    TransferEvent,
};
use token_ownership::decimal::Decimal;
use token_ownership::deriver::{
    owner_from_first_withdraw, owner_from_index, owner_from_last_deposit, OwnershipError,
};
use token_ownership::export::{ParquetCurrentTokenOwnershipV2, PostgresCurrentTokenOwnershipV2};
use token_ownership::model::{Timestamp, TokenOwnershipV2, TokenStandard};

fn ts() -> Timestamp {
    Timestamp { seconds: 1_700_000_000, nanos: 5 }
}

fn token_data(id: &str, version: i64, index: i64) -> TokenDataV2 {
    TokenDataV2 {
        transaction_version: version,
        write_set_change_index: index,
        token_data_id: id.to_string(),
        transaction_timestamp: ts(),
    }
}

fn object(
    owner: &str,
    allow_ungated_transfer: bool,
    untransferable: bool,
    transfers: Vec<(i64, &str, &str)>,
) -> ObjectAggregatedData {
    ObjectAggregatedData {
        object_core: ObjectCore { owner: owner.to_string(), allow_ungated_transfer },
        untransferable,
        transfer_events: transfers
            .into_iter()
            .map(|(i, from, to)| (i, TransferEvent { from: from.to_string(), to: to.to_string() }))
            .collect(),
    }
}

fn legacy_token(id: &str, version: i128, amount: i128) -> Token {
    Token {
        id: TokenId { token_data_id: id.to_string(), property_version: Decimal::new(version, 0) },
        amount: Decimal::new(amount, 0),
        token_properties: "{\"level\":3}".to_string(),
    }
}

#[test]
fn mint_of_gated_untransferable_asset_is_soulbound() {
    let mut objects: ObjectAggregatedDataMapping = AHashMap::new();
    objects.insert("0xa".to_string(), object("0xrecipient", false, true, vec![]));
    let (events, candidates) =
        TokenOwnershipV2::get_nft_v2_from_token_data(&token_data("0xa", 10, 3), &objects).unwrap();
    assert_eq!(events.len(), 1);
    assert_eq!(candidates.len(), 1);
    let event = &events[0];
    assert_eq!(event.transaction_version, 10);
    assert_eq!(event.write_set_change_index, 3);
    assert_eq!(event.token_data_id, "0xa");
    assert_eq!(event.storage_id, "0xa");
    assert_eq!(event.property_version_v1, Decimal::new(0, 0));
    assert_eq!(event.owner_address, Some("0xrecipient".to_string()));
    assert_eq!(event.amount, Decimal::new(1, 0));
    assert_eq!(event.table_type_v1, None);
    assert_eq!(event.token_properties_mutated_v1, None);
    assert_eq!(event.is_soulbound_v2, Some(true));
    assert_eq!(event.non_transferrable_by_owner, Some(true));
    assert_eq!(event.is_fungible_v2, None);
    assert_eq!(event.token_standard, TokenStandard::V2);
    assert_eq!(event.transaction_timestamp, ts());
    let current = candidates[0].current.clone();
    assert_eq!(candidates[0].write_set_change_index, 3);
    assert_eq!(current.owner_address, "0xrecipient");
    assert_eq!(current.is_soulbound_v2, Some(true));
    assert_eq!(current.non_transferrable_by_owner, Some(true));
    assert_eq!(current.amount, Decimal::new(1, 0));
    assert_eq!(current.last_transaction_version, 10);
    assert_eq!(current.last_transaction_timestamp, ts());
    let row = PostgresCurrentTokenOwnershipV2::from(current.clone());
    assert_eq!(row.amount, Decimal::new(1, 0));
    assert_eq!(row.owner_address, "0xrecipient");
    let columnar = ParquetCurrentTokenOwnershipV2::from(current);
    assert_eq!(columnar.amount, "1");
    assert_eq!(columnar.owner_address, "0xrecipient");
    assert_eq!(columnar.is_soulbound_v2, Some(true));
    assert_eq!(columnar.non_transferrable_by_owner, Some(true));
}

#[test]
fn soulbound_follows_marker_or_gate() {
    let cases = vec![
        (true, false, Some(false), Some(false)),
        (true, true, Some(true), Some(false)),
        (false, false, Some(true), Some(true)),
        (false, true, Some(true), Some(true)),
    ];
    for (allow, marker, soulbound, non_transferrable) in cases {
        let mut objects: ObjectAggregatedDataMapping = AHashMap::new();
        objects.insert("0xa".to_string(), object("0xo", allow, marker, vec![]));
        let (events, _) =
            TokenOwnershipV2::get_nft_v2_from_token_data(&token_data("0xa", 1, 1), &objects)
                .unwrap();
        assert_eq!(events[0].is_soulbound_v2, soulbound);
        assert_eq!(events[0].non_transferrable_by_owner, non_transferrable);
    }
}

#[test]
fn missing_object_core_is_an_error() {
    let objects: ObjectAggregatedDataMapping = AHashMap::new();
    let r = TokenOwnershipV2::get_nft_v2_from_token_data(&token_data("0xa", 1, 1), &objects);
    assert_eq!(r.unwrap_err(), OwnershipError::MissingObjectCore);
}

#[test]
fn object_data_of_another_asset_does_not_count() {
    let mut objects: ObjectAggregatedDataMapping = AHashMap::new();
    objects.insert("0xb".to_string(), object("0xo", true, false, vec![]));
    let r = TokenOwnershipV2::get_nft_v2_from_token_data(&token_data("0xa", 1, 1), &objects);
    assert_eq!(r.unwrap_err(), OwnershipError::MissingObjectCore);
}

#[test]
fn transfers_give_zero_amount_events_for_previous_owners() {
    let mut objects: ObjectAggregatedDataMapping = AHashMap::new();
    objects.insert(
        "0xa".to_string(),
        object("0xc", true, true, vec![(4, "0xa1", "0xb1"), (7, "0xb1", "0xc")]),
    );
    let (events, candidates) =
        TokenOwnershipV2::get_nft_v2_from_token_data(&token_data("0xa", 20, 2), &objects).unwrap();
    assert_eq!(events.len(), 3);
    assert_eq!(candidates.len(), 3);
    assert_eq!(events[0].owner_address, Some("0xc".to_string()));
    assert_eq!(events[0].amount, Decimal::new(1, 0));
    assert_eq!(events[0].write_set_change_index, 2);
    assert_eq!(events[1].owner_address, Some("0xa1".to_string()));
    assert_eq!(events[1].amount, Decimal::new(0, 0));
    assert_eq!(events[1].write_set_change_index, -4);
    assert_eq!(events[2].owner_address, Some("0xb1".to_string()));
    assert_eq!(events[2].write_set_change_index, -7);
    assert_eq!(events[2].transaction_version, 20);
    // the sender's record carries the soulbound flag in both places
    assert_eq!(events[0].non_transferrable_by_owner, Some(false));
    assert_eq!(events[1].is_soulbound_v2, Some(true));
    assert_eq!(events[1].non_transferrable_by_owner, Some(true));
    for i in 0..3 {
        assert_eq!(candidates[i].write_set_change_index, events[i].write_set_change_index);
        assert_eq!(Some(candidates[i].current.owner_address.clone()), events[i].owner_address);
        assert_eq!(candidates[i].current.amount, events[i].amount);
        assert_eq!(candidates[i].current.last_transaction_version, 20);
        assert!(candidates[i].current.amount.unscaled >= 0);
    }
}

#[test]
fn self_transfer_gives_no_event() {
    let mut objects: ObjectAggregatedDataMapping = AHashMap::new();
    objects.insert(
        "0xa".to_string(),
        object("0xo", true, false, vec![(1, "0xo", "0xo"), (2, "0xp", "0xo"), (3, "0xo", "0xo")]),
    );
    let (events, candidates) =
        TokenOwnershipV2::get_nft_v2_from_token_data(&token_data("0xa", 5, 9), &objects).unwrap();
    assert_eq!(events.len(), 2);
    assert_eq!(candidates.len(), 2);
    assert_eq!(events[1].owner_address, Some("0xp".to_string()));
    assert_eq!(events[1].write_set_change_index, -2);

    let mut only_self: ObjectAggregatedDataMapping = AHashMap::new();
    only_self.insert("0xa".to_string(), object("0xo", true, false, vec![(1, "0xo", "0xo")]));
    let (events, _) =
        TokenOwnershipV2::get_nft_v2_from_token_data(&token_data("0xa", 5, 9), &only_self).unwrap();
    assert_eq!(events.len(), 1);
}

#[test]
fn change_indices_of_transfers_never_meet_a_positive_index() {
    let mut objects: ObjectAggregatedDataMapping = AHashMap::new();
    objects.insert(
        "0xa".to_string(),
        object("0xo", true, false, vec![(0, "0x1", "0x2"), (1, "0x2", "0x3"), (5, "0x3", "0xo")]),
    );
    let (events, _) =
        TokenOwnershipV2::get_nft_v2_from_token_data(&token_data("0xa", 5, 1), &objects).unwrap();
    assert_eq!(events[0].write_set_change_index, 1);
    for e in &events[1..] {
        assert!(e.write_set_change_index <= 0);
        assert_ne!(e.write_set_change_index, events[0].write_set_change_index);
    }
}

#[test]
fn legacy_write_resolves_owner_from_deposit_when_handle_is_unknown() {
    let index: TableHandleToOwner = AHashMap::new();
    let mut events: TokenV1AggregatedEventsMapping = AHashMap::new();
    events.insert(
        "T".to_string(),
        TokenV1AggregatedEvents {
            withdraw_module_events: vec![],
            deposit_module_events: vec![TokenDepositModuleEvent { to_address: Some("X".to_string()) }],
        },
    );
    let decoded = Decoded::LegacyTokenRecord(legacy_token("T", 2, 7));
    let (event, candidate) = TokenOwnershipV2::get_v1_from_write_table_item(
        &decoded,
        &"H".to_string(),
        11,
        4,
        ts(),
        &index,
        &events,
    )
    .unwrap()
    .unwrap();
    assert_eq!(event.owner_address, Some("X".to_string()));
    assert_eq!(event.storage_id, format!("0x{}H", "0".repeat(63)));
    assert_eq!(event.token_data_id, "T");
    assert_eq!(event.property_version_v1, Decimal::new(2, 0));
    assert_eq!(event.amount, Decimal::new(7, 0));
    assert_eq!(event.table_type_v1, Some("0x3::token::TokenStore".to_string()));
    assert_eq!(event.token_properties_mutated_v1, Some("{\"level\":3}".to_string()));
    assert_eq!(event.token_standard, TokenStandard::V1);
    assert_eq!(event.is_soulbound_v2, None);
    assert_eq!(event.is_fungible_v2, None);
    assert_eq!(event.non_transferrable_by_owner, None);
    assert_eq!(event.transaction_version, 11);
    assert_eq!(event.write_set_change_index, 4);
    let candidate = candidate.unwrap();
    assert_eq!(candidate.write_set_change_index, 4);
    assert_eq!(candidate.current.owner_address, "X");
    assert_eq!(candidate.current.amount, Decimal::new(7, 0));
    assert_eq!(candidate.current.last_transaction_version, 11);
}

#[test]
fn legacy_write_prefers_the_handle_index() {
    let mut index: TableHandleToOwner = AHashMap::new();
    index.insert(
        standardize_address("H"),
        TableMetadataForToken {
            owner_address: "OWNER".to_string(),
            table_type: "0x3::token::TokenStore".to_string(),
        },
    );
    let mut events: TokenV1AggregatedEventsMapping = AHashMap::new();
    events.insert(
        "T".to_string(),
        TokenV1AggregatedEvents {
            withdraw_module_events: vec![],
            deposit_module_events: vec![TokenDepositModuleEvent { to_address: Some("X".to_string()) }],
        },
    );
    let decoded = Decoded::LegacyTokenRecord(legacy_token("T", 0, 1));
    let (event, _) = TokenOwnershipV2::get_v1_from_write_table_item(
        &decoded,
        &"H".to_string(),
        1,
        1,
        ts(),
        &index,
        &events,
    )
    .unwrap()
    .unwrap();
    assert_eq!(event.owner_address, Some("OWNER".to_string()));
}

#[test]
fn legacy_write_ignores_index_entry_of_another_table_type() {
    let mut index: TableHandleToOwner = AHashMap::new();
    index.insert(
        standardize_address("H"),
        TableMetadataForToken {
            owner_address: "OWNER".to_string(),
            table_type: "0x3::token_transfers::PendingClaims".to_string(),
        },
    );
    let mut events: TokenV1AggregatedEventsMapping = AHashMap::new();
    events.insert(
        "T".to_string(),
        TokenV1AggregatedEvents {
            withdraw_module_events: vec![],
            deposit_module_events: vec![
                TokenDepositModuleEvent { to_address: Some("FIRST".to_string()) },
                TokenDepositModuleEvent { to_address: Some("LAST".to_string()) },
            ],
        },
    );
    let decoded = Decoded::LegacyTokenRecord(legacy_token("T", 0, 1));
    let (event, _) = TokenOwnershipV2::get_v1_from_write_table_item(
        &decoded,
        &"H".to_string(),
        1,
        1,
        ts(),
        &index,
        &events,
    )
    .unwrap()
    .unwrap();
    assert_eq!(event.owner_address, Some("LAST".to_string()));
    assert_eq!(owner_from_index(&index, &standardize_address("H")), None);
    assert_eq!(owner_from_index(&index, &"H".to_string()), None);
    assert_eq!(owner_from_last_deposit(&events, &"T".to_string()), Some("LAST".to_string()));
    assert_eq!(owner_from_last_deposit(&events, &"U".to_string()), None);
}

#[test]
fn legacy_write_without_owner_is_dropped() {
    let index: TableHandleToOwner = AHashMap::new();
    let mut events: TokenV1AggregatedEventsMapping = AHashMap::new();
    let decoded = Decoded::LegacyTokenRecord(legacy_token("T", 0, 1));
    let r = TokenOwnershipV2::get_v1_from_write_table_item(
        &decoded,
        &"H".to_string(),
        1,
        1,
        ts(),
        &index,
        &events,
    );
    assert!(r.unwrap().is_none());
    // a deposit that names nobody resolves nothing either
    events.insert(
        "T".to_string(),
        TokenV1AggregatedEvents {
            withdraw_module_events: vec![],
            deposit_module_events: vec![
                TokenDepositModuleEvent { to_address: Some("X".to_string()) },
                TokenDepositModuleEvent { to_address: None },
            ],
        },
    );
    let r = TokenOwnershipV2::get_v1_from_write_table_item(
        &decoded,
        &"H".to_string(),
        1,
        1,
        ts(),
        &index,
        &events,
    );
    assert!(r.unwrap().is_none());
}

#[test]
fn legacy_write_raises_negative_amount_to_zero() {
    let mut index: TableHandleToOwner = AHashMap::new();
    index.insert(
        standardize_address("H"),
        TableMetadataForToken {
            owner_address: "OWNER".to_string(),
            table_type: "0x3::token::TokenStore".to_string(),
        },
    );
    let events: TokenV1AggregatedEventsMapping = AHashMap::new();
    let decoded = Decoded::LegacyTokenRecord(legacy_token("T", 0, -5));
    let (event, candidate) = TokenOwnershipV2::get_v1_from_write_table_item(
        &decoded,
        &"H".to_string(),
        1,
        1,
        ts(),
        &index,
        &events,
    )
    .unwrap()
    .unwrap();
    assert_eq!(event.amount, Decimal::new(0, 0));
    assert_eq!(candidate.unwrap().current.amount, Decimal::new(0, 0));
}

#[test]
fn legacy_write_of_other_shapes() {
    let index: TableHandleToOwner = AHashMap::new();
    let events: TokenV1AggregatedEventsMapping = AHashMap::new();
    let handle = "H".to_string();
    let r = TokenOwnershipV2::get_v1_from_write_table_item(
        &Decoded::Malformed,
        &handle,
        1,
        1,
        ts(),
        &index,
        &events,
    );
    assert_eq!(r.unwrap_err(), OwnershipError::DecodeFailure);
    let r = TokenOwnershipV2::get_v1_from_write_table_item(
        &Decoded::NotApplicable,
        &handle,
        1,
        1,
        ts(),
        &index,
        &events,
    );
    assert!(r.unwrap().is_none());
    let identity = Decoded::LegacyTokenIdentity(TokenId {
        token_data_id: "T".to_string(),
        property_version: Decimal::new(0, 0),
    });
    let r = TokenOwnershipV2::get_v1_from_write_table_item(
        &identity,
        &handle,
        1,
        1,
        ts(),
        &index,
        &events,
    );
    assert!(r.unwrap().is_none());
}

#[test]
fn legacy_delete_resolves_owner_from_earliest_withdraw() {
    let index: TableHandleToOwner = AHashMap::new();
    let mut events: TokenV1AggregatedEventsMapping = AHashMap::new();
    events.insert(
        "T".to_string(),
        TokenV1AggregatedEvents {
            withdraw_module_events: vec![
                TokenWithdrawModuleEvent { from_address: Some("EARLY".to_string()) },
                TokenWithdrawModuleEvent { from_address: Some("LATE".to_string()) },
            ],
            deposit_module_events: vec![TokenDepositModuleEvent { to_address: Some("X".to_string()) }],
        },
    );
    let identity = Decoded::LegacyTokenIdentity(TokenId {
        token_data_id: "T".to_string(),
        property_version: Decimal::new(3, 0),
    });
    let (event, candidate) = TokenOwnershipV2::get_v1_from_delete_table_item(
        &identity,
        &"H".to_string(),
        8,
        6,
        ts(),
        &index,
        &events,
    )
    .unwrap()
    .unwrap();
    assert_eq!(event.owner_address, Some("EARLY".to_string()));
    assert_eq!(event.amount, Decimal::new(0, 0));
    assert_eq!(event.token_properties_mutated_v1, None);
    assert_eq!(event.property_version_v1, Decimal::new(3, 0));
    assert_eq!(event.table_type_v1, Some("0x3::token::TokenStore".to_string()));
    assert_eq!(event.token_standard, TokenStandard::V1);
    assert_eq!(event.storage_id, format!("0x{}H", "0".repeat(63)));
    let candidate = candidate.unwrap();
    assert_eq!(candidate.current.owner_address, "EARLY");
    assert_eq!(candidate.current.amount, Decimal::new(0, 0));
    assert_eq!(candidate.write_set_change_index, 6);
    assert_eq!(owner_from_first_withdraw(&events, &"T".to_string()), Some("EARLY".to_string()));
}

#[test]
fn legacy_delete_of_other_shapes() {
    let mut index: TableHandleToOwner = AHashMap::new();
    index.insert(
        standardize_address("H"),
        TableMetadataForToken {
            owner_address: "OWNER".to_string(),
            table_type: "0x3::token::TokenStore".to_string(),
        },
    );
    let events: TokenV1AggregatedEventsMapping = AHashMap::new();
    let handle = "H".to_string();
    let r = TokenOwnershipV2::get_v1_from_delete_table_item(
        &Decoded::Malformed,
        &handle,
        1,
        1,
        ts(),
        &index,
        &events,
    );
    assert_eq!(r.unwrap_err(), OwnershipError::DecodeFailure);
    let record = Decoded::LegacyTokenRecord(legacy_token("T", 0, 1));
    let r =
        TokenOwnershipV2::get_v1_from_delete_table_item(&record, &handle, 1, 1, ts(), &index, &events);
    assert!(r.unwrap().is_none());
    let identity = Decoded::LegacyTokenIdentity(TokenId {
        token_data_id: "T".to_string(),
        property_version: Decimal::new(0, 0),
    });
    let (event, _) = TokenOwnershipV2::get_v1_from_delete_table_item(
        &identity,
        &handle,
        1,
        1,
        ts(),
        &index,
        &events,
    )
    .unwrap()
    .unwrap();
    assert_eq!(event.owner_address, Some("OWNER".to_string()));
    let other_handle = "G".to_string();
    let r = TokenOwnershipV2::get_v1_from_delete_table_item(
        &identity,
        &other_handle,
        1,
        1,
        ts(),
        &index,
        &events,
    );
    assert!(r.unwrap().is_none());
}

#[test]
fn event_index_that_cannot_be_negated_is_an_error() {
    let mut objects: ObjectAggregatedDataMapping = AHashMap::new();
    objects.insert("0xa".to_string(), object("0xo", true, false, vec![(i64::MIN, "0x1", "0xo")]));
    let r = TokenOwnershipV2::get_nft_v2_from_token_data(&token_data("0xa", 1, 1), &objects);
    assert_eq!(r.unwrap_err(), OwnershipError::EventIndexOutOfRange);
    // a transfer to oneself is left out before its index is read
    let mut objects: ObjectAggregatedDataMapping = AHashMap::new();
    objects.insert(
        "0xa".to_string(),
        object("0xo", true, false, vec![(i64::MIN, "0xo", "0xo"), (i64::MAX, "0x1", "0xo")]),
    );
    let (events, _) =
        TokenOwnershipV2::get_nft_v2_from_token_data(&token_data("0xa", 1, 1), &objects).unwrap();
    assert_eq!(events.len(), 2);
    assert_eq!(events[1].write_set_change_index, -i64::MAX);
}

#[test]
fn deriving_twice_gives_the_same_events() {
    let mut objects: ObjectAggregatedDataMapping = AHashMap::new();
    objects.insert(
        "0xa".to_string(),
        object("0xc", false, false, vec![(4, "0xa1", "0xb1"), (7, "0xb1", "0xc")]),
    );
    let (first, first_candidates) =
        TokenOwnershipV2::get_nft_v2_from_token_data(&token_data("0xa", 20, 2), &objects).unwrap();
    let (second, second_candidates) =
        TokenOwnershipV2::get_nft_v2_from_token_data(&token_data("0xa", 20, 2), &objects).unwrap();
    assert_eq!(first.len(), second.len());
    for (a, b) in first.iter().zip(second.iter()) {
        assert_eq!(a.write_set_change_index, b.write_set_change_index);
        assert_eq!(a.owner_address, b.owner_address);
        assert_eq!(a.amount, b.amount);
        assert_eq!(a.is_soulbound_v2, b.is_soulbound_v2);
    }
    for (a, b) in first_candidates.iter().zip(second_candidates.iter()) {
        assert_eq!(a.write_set_change_index, b.write_set_change_index);
        assert!(a.current.same_record(&b.current));
    }
}

#[test]
fn candidate_stands_beside_its_event() {
    let mut objects: ObjectAggregatedDataMapping = AHashMap::new();
    objects.insert("0xa".to_string(), object("0xo", true, false, vec![]));
    let (events, candidates) =
        TokenOwnershipV2::get_nft_v2_from_token_data(&token_data("0xa", 6, 2), &objects).unwrap();
    let again = events[0].candidate().unwrap();
    assert_eq!(again.write_set_change_index, 2);
    assert!(again.current.same_record(&candidates[0].current));
    let mut copy = events[0].clone();
    assert_eq!(copy.owner_address, events[0].owner_address);
    assert_eq!(copy.transaction_version, 6);
    copy.owner_address = None;
    assert!(copy.candidate().is_none());
}

#[test]
fn addresses_are_brought_to_standard_form() {
    assert_eq!(standardize_address("0x1"), format!("0x{}1", "0".repeat(63)));
    assert_eq!(standardize_address("1"), format!("0x{}1", "0".repeat(63)));
    assert_eq!(standardize_address(""), format!("0x{}", "0".repeat(64)));
    assert_eq!(standardize_address("0x"), format!("0x{}", "0".repeat(64)));
    assert_eq!(standardize_address("0"), format!("0x{}", "0".repeat(64)));
    assert_eq!(standardize_address("x1"), format!("0x{}x1", "0".repeat(62)));
    assert_eq!(standardize_address("0x0x1"), format!("0x{}0x1", "0".repeat(61)));
    let full = format!("0x{}", "ab".repeat(32));
    assert_eq!(standardize_address(&full), full);
    assert_eq!(standardize_address(&"ab".repeat(32)), full);
    let long = "f".repeat(70);
    assert_eq!(standardize_address(&long), format!("0x{}", long));
    assert_eq!(standardize_address(&format!("0x{}", long)), format!("0x{}", long));
    let once = standardize_address("0xdead");
    assert_eq!(standardize_address(&once), once);
    assert_eq!(once.len(), 66);
    // the padding counts characters, not bytes
    assert_eq!(standardize_address("\u{e9}"), format!("0x{}\u{e9}", "0".repeat(63)));
}

#[test]
fn legacy_handle_is_looked_up_in_standard_form() {
    let mut index: TableHandleToOwner = AHashMap::new();
    index.insert(
        standardize_address("0xfeed"),
        TableMetadataForToken {
            owner_address: "OWNER".to_string(),
            table_type: "0x3::token::TokenStore".to_string(),
        },
    );
    let events: TokenV1AggregatedEventsMapping = AHashMap::new();
    let decoded = Decoded::LegacyTokenRecord(legacy_token("T", 0, 1));
    for handle in ["feed", "0xfeed", "0x00feed"] {
        let (event, candidate) = TokenOwnershipV2::get_v1_from_write_table_item(
            &decoded,
            &handle.to_string(),
            1,
            1,
            ts(),
            &index,
            &events,
        )
        .unwrap()
        .unwrap();
        assert_eq!(event.owner_address, Some("OWNER".to_string()));
        assert_eq!(event.storage_id, format!("0x{}feed", "0".repeat(60)));
        assert_eq!(candidate.unwrap().current.storage_id, format!("0x{}feed", "0".repeat(60)));
    }
}

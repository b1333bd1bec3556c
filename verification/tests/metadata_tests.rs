use stellarspend::metadata::{Metadata, MetadataContract, MetadataError, StoreMetadataMsg,
    MAX_METADATA_SIZE};

#[test]
fn test_store_valid_metadata() {
    let mut contract = MetadataContract::default();
    let mut data = Vec::new();
    data.push(("type".to_string(), "payment".to_string()));
    data.push(("amount".to_string(), "100".to_string()));

    let msg = StoreMetadataMsg {
        tx_id: "tx123".to_string(),
        metadata: Metadata { data },
    };

    assert!(contract.store_metadata(msg.clone()).is_ok());

    let retrieved = contract.get_metadata("tx123".to_string());
    assert_eq!(retrieved.unwrap(), msg.metadata);
}

#[test]
fn test_metadata_size_limit() {
    let mut contract = MetadataContract::default();

    let mut data = Vec::new();
    data.push(("big".to_string(), "x".repeat(MAX_METADATA_SIZE + 1)));

    let msg = StoreMetadataMsg {
        tx_id: "tx_big".to_string(),
        metadata: Metadata { data },
    };

    let result = contract.store_metadata(msg);
    assert!(result.is_err());
}

#[test]
fn test_invalid_metadata_format() {
    let mut contract = MetadataContract::default();

    let mut data = Vec::new();
    data.push(("".to_string(), "value".to_string())); // invalid key

    let msg = StoreMetadataMsg {
        tx_id: "tx_invalid".to_string(),
        metadata: Metadata { data },
    };

    assert!(contract.store_metadata(msg).is_err());
}

#[test]
fn test_metadata_error_codes() {
    let mut contract = MetadataContract::default();
    let oversized = StoreMetadataMsg {
        tx_id: "a".to_string(),
        metadata: Metadata { data: vec![("k".to_string(), "y".repeat(2000))] },
    };
    assert_eq!(contract.store_metadata(oversized), Err(MetadataError::MetadataTooLarge));
    let empty_value = StoreMetadataMsg {
        tx_id: "b".to_string(),
        metadata: Metadata { data: vec![("k".to_string(), String::new())] },
    };
    assert_eq!(contract.store_metadata(empty_value), Err(MetadataError::EmptyKeyOrValue));
    assert!(contract.get_metadata("a".to_string()).is_none());
    assert!(contract.get_metadata("b".to_string()).is_none());
}

#[test]
fn test_metadata_replaced_per_tx_id() {
    let mut contract = MetadataContract::default();
    let first = StoreMetadataMsg {
        tx_id: "tx1".to_string(),
        metadata: Metadata { data: vec![("v".to_string(), "1".to_string())] },
    };
    let second = StoreMetadataMsg {
        tx_id: "tx1".to_string(),
        metadata: Metadata { data: vec![("v".to_string(), "2".to_string())] },
    };
    contract.store_metadata(first).unwrap();
    contract.store_metadata(second.clone()).unwrap();
    assert_eq!(contract.get_metadata("tx1".to_string()).unwrap(), second.metadata);
}

#[test]
fn test_metadata_size_accounts_for_json_form() {
    // 1,016 bytes of value text fit only because the JSON wrapping stays
    // within the budget: {"k":"<value>"} adds eight bytes, totalling 1,024.
    let mut contract = MetadataContract::default();
    let fits = StoreMetadataMsg {
        tx_id: "t1".to_string(),
        metadata: Metadata { data: vec![("k".to_string(), "z".repeat(1016))] },
    };
    assert!(contract.store_metadata(fits).is_ok());
    // One more byte of value text pushes the document to 1,025 bytes.
    let over = StoreMetadataMsg {
        tx_id: "t2".to_string(),
        metadata: Metadata { data: vec![("k".to_string(), "z".repeat(1017))] },
    };
    assert_eq!(contract.store_metadata(over), Err(MetadataError::MetadataTooLarge));
}

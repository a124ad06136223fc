use tenderly_client::simulation::{BundleSimulationRequest, SimulationRequest};

#[test]
fn test_simulation_request_builder() {
    let request = SimulationRequest::new("0x1234", "0x5678", "0xabcd")
        .network_id("137")
        .value_wei(1_000_000_000_000_000_000u128)
        .gas(100_000)
        .block_number(12_345_678)
        .save(true);

    assert_eq!(request.network_id, "137");
    assert_eq!(request.from, "0x1234");
    assert_eq!(request.to, "0x5678");
    assert_eq!(request.input, "0xabcd");
    assert_eq!(request.value, Some("0xde0b6b3a7640000".to_string()));
    assert_eq!(request.gas, Some(100_000));
    assert_eq!(request.block_number, Some(12_345_678));
    assert!(request.save);
}

#[test]
fn test_simulation_request_state_overrides() {
    let request = SimulationRequest::new("0x1234", "0x5678", "0xabcd")
        .override_balance("0xaaaa", "1000000000000000000")
        .override_storage("0xbbbb", "0x0", "0x1")
        .override_code("0xcccc", "0x6080");

    let overrides = request.state_objects.unwrap();
    assert!(overrides.contains_key("0xaaaa"));
    assert!(overrides.contains_key("0xbbbb"));
    assert!(overrides.contains_key("0xcccc"));
}

#[test]
fn test_new_request_has_no_optional_fields() {
    let request = SimulationRequest::new("0x1", "0x2", "0x");
    assert_eq!(request.network_id, "");
    assert!(request.value.is_none());
    assert!(request.gas.is_none());
    assert!(request.gas_price.is_none());
    assert!(request.block_number.is_none());
    assert!(!request.save);
    assert!(request.state_objects.is_none());
}

#[test]
fn test_storage_overrides_accumulate_distinct_slots() {
    let request = SimulationRequest::new("0x1", "0x2", "0x")
        .override_storage("0xbbbb", "0x0", "0x1")
        .override_storage("0xbbbb", "0x5", "0x6");

    let overrides = request.state_objects.unwrap();
    let account = overrides.get("0xbbbb").unwrap();
    assert_eq!(account.storage_value("0x0"), Some(&"0x1".to_string()));
    assert_eq!(account.storage_value("0x5"), Some(&"0x6".to_string()));
    assert_eq!(account.storage_value("0x7"), None);
}

#[test]
fn test_storage_override_same_slot_last_write_wins() {
    let request = SimulationRequest::new("0x1", "0x2", "0x")
        .override_storage("0xbbbb", "0x0", "0x1")
        .override_storage("0xbbbb", "0x0", "0x2");

    let overrides = request.state_objects.unwrap();
    let account = overrides.get("0xbbbb").unwrap();
    assert_eq!(account.storage_value("0x0"), Some(&"0x2".to_string()));
}

#[test]
fn test_overrides_for_one_address_share_one_entry() {
    let request = SimulationRequest::new("0x1", "0x2", "0x")
        .override_balance("0xaaaa", "1000")
        .override_storage("0xaaaa", "0x0", "0x1")
        .override_code("0xaaaa", "0x6080");

    let overrides = request.state_objects.unwrap();
    assert_eq!(overrides.entries.len(), 1);
    let account = overrides.get("0xaaaa").unwrap();
    assert_eq!(account.balance, Some("1000".to_string()));
    assert_eq!(account.code, Some("0x6080".to_string()));
    assert_eq!(account.storage_value("0x0"), Some(&"0x1".to_string()));
}

#[test]
fn test_address_keys_are_case_sensitive() {
    let request = SimulationRequest::new("0x1", "0x2", "0x")
        .override_balance("0xAAAA", "1")
        .override_balance("0xaaaa", "2");

    let overrides = request.state_objects.unwrap();
    assert_eq!(overrides.entries.len(), 2);
    assert!(overrides.contains_key("0xAAAA"));
    assert!(overrides.contains_key("0xaaaa"));
}

#[test]
fn test_bundle_preserves_input_order() {
    let tx1 = SimulationRequest::new("0x1", "0x2", "0xaa");
    let tx2 = SimulationRequest::new("0x3", "0x4", "0xbb");
    let bundle = BundleSimulationRequest::new(vec![tx1, tx2]);

    assert_eq!(bundle.simulations.len(), 2);
    assert_eq!(bundle.simulations[0].from, "0x1");
    assert_eq!(bundle.simulations[1].from, "0x3");

    let tx3 = SimulationRequest::new("0x5", "0x6", "0xcc");
    let bundle = bundle.add(tx3);
    assert_eq!(bundle.simulations.len(), 3);
    assert_eq!(bundle.simulations[2].from, "0x5");
}

#[test]
fn test_bundle_shared_context() {
    let bundle = BundleSimulationRequest::new(vec![])
        .network_id("1")
        .block_number(42);
    assert_eq!(bundle.network_id, "1");
    assert_eq!(bundle.block_number, Some(42));
}

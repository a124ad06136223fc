use tenderly_client::vnets::{
    AccessListItem, ChainConfig, CreateVNetRequest, DeleteVNetsRequest, ForkConfigResponse,
    ForkVNetRequest, ListVNetTransactionsQuery, ListVNetsQuery, RpcEndpoint,
    SendVNetTransactionRequest, UpdateVNetRequest, VNetRpcs, VNetSimulationRequest,
    VirtualNetworkConfigResponse,
};

fn endpoint(name: &str, url: &str) -> RpcEndpoint {
    RpcEndpoint {
        name: name.to_string(),
        url: url.to_string(),
    }
}

#[test]
fn test_rpcs_public_picks_first_match_in_list_order() {
    let rpcs = VNetRpcs {
        endpoints: vec![endpoint("Admin RPC", "u1"), endpoint("Public RPC", "u2")],
    };
    assert_eq!(rpcs.public(), Some("u2"));
    assert_eq!(rpcs.admin(), Some("u1"));
}

#[test]
fn test_rpcs_match_is_case_insensitive() {
    let rpcs = VNetRpcs {
        endpoints: vec![endpoint("PUBLIC endpoint", "u1"), endpoint("my ADMIN", "u2")],
    };
    assert_eq!(rpcs.public(), Some("u1"));
    assert_eq!(rpcs.admin(), Some("u2"));
}

#[test]
fn test_rpcs_absent_role_is_none() {
    let rpcs = VNetRpcs {
        endpoints: vec![endpoint("Admin RPC", "u1")],
    };
    assert_eq!(rpcs.public(), None);

    let empty = VNetRpcs { endpoints: vec![] };
    assert_eq!(empty.public(), None);
    assert_eq!(empty.admin(), None);
}

#[test]
fn test_rpcs_first_of_many_matches_wins() {
    let rpcs = VNetRpcs {
        endpoints: vec![
            endpoint("public one", "u1"),
            endpoint("public two", "u2"),
        ],
    };
    assert_eq!(rpcs.public(), Some("u1"));
}

#[test]
fn test_chain_id_reads_nested_config_only() {
    let nested = VirtualNetworkConfigResponse {
        chain_config: Some(ChainConfig { chain_id: 5 }),
        base_fee_per_gas: None,
        accounts: None,
    };
    assert_eq!(nested.chain_id(), Some(5));

    let absent = VirtualNetworkConfigResponse {
        chain_config: None,
        base_fee_per_gas: Some(7),
        accounts: None,
    };
    assert_eq!(absent.chain_id(), None);
}

#[test]
fn test_create_vnet_defaults_chain_id_to_network_id() {
    let request = CreateVNetRequest::new("my-net", "My Net", 1);
    assert_eq!(request.slug, "my-net");
    assert_eq!(request.display_name, "My Net");
    assert_eq!(request.fork_config.network_id, 1);
    assert_eq!(request.fork_config.block_number, None);
    assert_eq!(request.virtual_network_config.chain_id, 1);
    assert_eq!(request.virtual_network_config.base_fee_per_gas, None);
    assert!(request.sync_state_config.is_none());
    assert!(request.explorer_page_config.is_none());
}

#[test]
fn test_create_vnet_chain_id_and_network_id_are_independent() {
    let request = CreateVNetRequest::new("my-net", "My Net", 1).chain_id(999);
    assert_eq!(request.fork_config.network_id, 1);
    assert_eq!(request.virtual_network_config.chain_id, 999);

    let request = CreateVNetRequest::new("my-net", "My Net", 1).block_number(42);
    assert_eq!(request.fork_config.block_number, Some(42));
    assert_eq!(request.virtual_network_config.chain_id, 1);
}

#[test]
fn test_create_vnet_optional_configs() {
    let request = CreateVNetRequest::new("s", "d", 1)
        .base_fee_per_gas(7)
        .sync_state(true)
        .explorer_page(true, "src");
    assert_eq!(request.virtual_network_config.base_fee_per_gas, Some(7));
    assert!(request.sync_state_config.unwrap().enabled);
    let page = request.explorer_page_config.unwrap();
    assert!(page.enabled);
    assert_eq!(page.verification_visibility, "src");
}

#[test]
fn test_delete_single_matches_multiple() {
    let single = DeleteVNetsRequest::single("abc");
    let multiple = DeleteVNetsRequest::multiple(vec!["abc".to_string()]);
    assert_eq!(single.ids, multiple.ids);
}

#[test]
fn test_fork_request_builder() {
    let request = ForkVNetRequest::new("vnet-1", "fork-slug", "Fork Name");
    assert_eq!(request.source_vnet_id, "vnet-1");
    assert_eq!(request.slug, "fork-slug");
    assert_eq!(request.display_name, "Fork Name");
    assert_eq!(request.block_number, None);

    let request = request.block_number(77);
    assert_eq!(request.block_number, Some(77));
}

#[test]
fn test_fork_config_response_block_number_parsing() {
    let response = ForkConfigResponse {
        network_id: 1,
        block_number: Some("0x170abab".to_string()),
    };
    assert_eq!(response.block_number_value(), Some(0x170abab));

    let latest = ForkConfigResponse {
        network_id: 1,
        block_number: None,
    };
    assert_eq!(latest.block_number_value(), None);

    let malformed = ForkConfigResponse {
        network_id: 1,
        block_number: Some("170abab".to_string()),
    };
    assert_eq!(malformed.block_number_value(), None);
}

#[test]
fn test_list_vnets_query_builder() {
    let query = ListVNetsQuery::new();
    assert!(query.slug.is_none() && query.page.is_none() && query.per_page.is_none());

    let query = ListVNetsQuery::new().slug("my").page(2).per_page(50);
    assert_eq!(query.slug, Some("my".to_string()));
    assert_eq!(query.page, Some(2));
    assert_eq!(query.per_page, Some(50));
}

#[test]
fn test_list_vnet_transactions_query_builder() {
    let query = ListVNetTransactionsQuery::new()
        .address("0xabc")
        .status(true)
        .page(1)
        .per_page(10);
    assert_eq!(query.address, Some("0xabc".to_string()));
    assert_eq!(query.status, Some(true));
    assert_eq!(query.page, Some(1));
    assert_eq!(query.per_page, Some(10));
}

#[test]
fn test_vnet_simulation_request_builder() {
    let request = VNetSimulationRequest::new("0x1", "0x2", "0xdata")
        .value("1000")
        .gas(21000)
        .nonce(3);
    assert_eq!(request.from, "0x1");
    assert_eq!(request.to, "0x2");
    assert_eq!(request.input, "0xdata");
    assert_eq!(request.value, Some("1000".to_string()));
    assert_eq!(request.gas, Some(21000));
    assert_eq!(request.nonce, Some(3));
    assert_eq!(request.transaction_type, None);
}

#[test]
fn test_vnet_simulation_eip1559_fees_set_type_two() {
    let request = VNetSimulationRequest::new("0x1", "0x2", "0x").max_fee_per_gas("100");
    assert_eq!(request.max_fee_per_gas, Some("100".to_string()));
    assert_eq!(request.transaction_type, Some(2));

    let request = VNetSimulationRequest::new("0x1", "0x2", "0x").max_priority_fee_per_gas("5");
    assert_eq!(request.max_priority_fee_per_gas, Some("5".to_string()));
    assert_eq!(request.transaction_type, Some(2));

    let request = VNetSimulationRequest::new("0x1", "0x2", "0x").transaction_type(1);
    assert_eq!(request.transaction_type, Some(1));
}

#[test]
fn test_update_vnet_request_builder() {
    let request = UpdateVNetRequest::new();
    assert!(request.display_name.is_none() && request.slug.is_none());

    let request = UpdateVNetRequest::new()
        .display_name("New Name")
        .slug("new-slug")
        .sync_state(false)
        .explorer_page(false, "bytecode");
    assert_eq!(request.display_name, Some("New Name".to_string()));
    assert_eq!(request.slug, Some("new-slug".to_string()));
    assert!(!request.sync_state_config.unwrap().enabled);
    let page = request.explorer_page_config.unwrap();
    assert!(!page.enabled);
    assert_eq!(page.verification_visibility, "bytecode");
}

#[test]
fn test_send_transaction_call_and_transfer() {
    let call = SendVNetTransactionRequest::new("0x1", "0x2", "0xdata");
    assert_eq!(call.input, Some("0xdata".to_string()));
    assert_eq!(call.value, None);

    let transfer = SendVNetTransactionRequest::transfer("0x1", "0x2", "1000");
    assert_eq!(transfer.input, None);
    assert_eq!(transfer.value, Some("1000".to_string()));

    let with_fees = SendVNetTransactionRequest::new("0x1", "0x2", "0x")
        .value("7")
        .gas(21000)
        .gas_price("100")
        .max_fee_per_gas("200")
        .max_priority_fee_per_gas("2");
    assert_eq!(with_fees.value, Some("7".to_string()));
    assert_eq!(with_fees.gas, Some(21000));
    assert_eq!(with_fees.gas_price, Some("100".to_string()));
    assert_eq!(with_fees.max_fee_per_gas, Some("200".to_string()));
    assert_eq!(with_fees.max_priority_fee_per_gas, Some("2".to_string()));
}

#[test]
fn test_send_transaction_access_list() {
    let item = AccessListItem {
        address: "0xdead".to_string(),
        storage_keys: vec!["0x0".to_string(), "0x1".to_string()],
    };
    let request = SendVNetTransactionRequest::new("0x1", "0x2", "0x").access_list(vec![item]);
    let list = request.access_list.unwrap();
    assert_eq!(list.len(), 1);
    assert_eq!(list[0].address, "0xdead");
    assert_eq!(list[0].storage_keys, vec!["0x0".to_string(), "0x1".to_string()]);
}

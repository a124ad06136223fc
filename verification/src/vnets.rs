//! Virtual TestNet (VNet) model: request builders, response shapes that
//! unwrap the server's nested configuration, and RPC endpoint classification.
//!
//! A VNet request flattens its chain id, while the response nests it one
//! level deeper; the response side therefore has its own types and an
//! explicit accessor instead of reusing the request shape.

use vstd::prelude::*;
use crate::codec::{hex_val_of, parse_hex_u64, valid_hex_str};
use crate::text::{contains_fold, contains_token};

verus! {

/// An opaque structured value from the wire, carried through untouched.
#[verifier::external_type_specification]
#[verifier::external_body]
pub struct ExValue(serde_json::Value);

/// Fork configuration of a create request: which network to fork, and at
/// which block (`None` means the latest block at creation time).
#[derive(Debug, Clone)]
pub struct ForkConfig {
    pub network_id: u64,
    pub block_number: Option<u64>,
}

/// Fork configuration as responses carry it: the block number comes back as
/// an optional hex string, never an integer; absence means the VNet was
/// created at the then-latest block, not block zero.
#[derive(Debug, Clone)]
pub struct ForkConfigResponse {
    pub network_id: u64,
    pub block_number: Option<String>,
}

impl ForkConfigResponse {
    /// The forked block number as an integer, when the response carried a
    /// well-formed hex string that fits in `u64`.
    pub fn block_number_value(&self) -> (r: Option<u64>)
        ensures
            match self.block_number {
                Some(b) => {
                    &&& (r is Some <==> valid_hex_str(b@) && hex_val_of(b@.skip(2)) <= u64::MAX)
                    &&& (r matches Some(v) ==> v as nat == hex_val_of(b@.skip(2)))
                },
                None => r is None,
            },
    {
        match &self.block_number {
            Some(b) => parse_hex_u64(b.as_str()),
            None => None,
        }
    }
}

/// Virtual network configuration of a create request: the chain id is flat
/// here, unlike in the response.
#[derive(Debug, Clone)]
pub struct VirtualNetworkConfig {
    pub chain_id: u64,
    pub base_fee_per_gas: Option<u64>,
}

/// Chain configuration nested inside a virtual-network response.
#[derive(Debug, Clone)]
pub struct ChainConfig {
    pub chain_id: u64,
}

/// State sync configuration: whether the VNet keeps syncing state from its
/// parent network.
#[derive(Debug, Clone)]
pub struct SyncStateConfig {
    pub enabled: bool,
}

/// Explorer page configuration of a VNet.
#[derive(Debug, Clone)]
pub struct ExplorerPageConfig {
    pub enabled: bool,
    pub verification_visibility: String,
}

/// Virtual network configuration as responses carry it: the chain id sits one
/// level deeper than in the request, under `chain_config`.
#[derive(Debug, Clone)]
pub struct VirtualNetworkConfigResponse {
    pub chain_config: Option<ChainConfig>,
    pub base_fee_per_gas: Option<u64>,
    /// Pre-funded accounts, passed through as opaque structured values.
    pub accounts: Option<Vec<serde_json::Value>>,
}

impl VirtualNetworkConfigResponse {
    /// The effective chain id, read from the nested chain configuration;
    /// nothing when that sub-object is absent — never a default and never the
    /// request-level flat field.
    pub fn chain_id(&self) -> (r: Option<u64>)
        ensures
            r == (match self.chain_config {
                Some(c) => Some(c.chain_id),
                None => None::<u64>,
            }),
    {
        match &self.chain_config {
            Some(c) => Some(c.chain_id),
            None => None,
        }
    }
}

/// Request to create a new VNet forked from a real network.
#[derive(Debug, Clone)]
pub struct CreateVNetRequest {
    pub slug: String,
    pub display_name: String,
    pub fork_config: ForkConfig,
    pub virtual_network_config: VirtualNetworkConfig,
    pub sync_state_config: Option<SyncStateConfig>,
    pub explorer_page_config: Option<ExplorerPageConfig>,
}

impl CreateVNetRequest {
    /// A minimal request: the VNet forks `network_id` at its latest block and
    /// presents the same chain id, until either is overridden.
    pub fn new(slug: &str, display_name: &str, network_id: u64) -> (r: Self)
        ensures
            r.slug@ == slug@,
            r.display_name@ == display_name@,
            r.fork_config.network_id == network_id,
            r.fork_config.block_number is None,
            r.virtual_network_config.chain_id == network_id,
            r.virtual_network_config.base_fee_per_gas is None,
            r.sync_state_config is None,
            r.explorer_page_config is None,
    {
        CreateVNetRequest {
            slug: slug.to_owned(),
            display_name: display_name.to_owned(),
            fork_config: ForkConfig { network_id, block_number: None },
            virtual_network_config: VirtualNetworkConfig {
                chain_id: network_id,
                base_fee_per_gas: None,
            },
            sync_state_config: None,
            explorer_page_config: None,
        }
    }

    /// Forks from a specific block; only the fork configuration changes.
    pub fn block_number(self, block: u64) -> (r: Self)
        ensures
            r == (CreateVNetRequest {
                fork_config: ForkConfig { block_number: Some(block), ..self.fork_config },
                ..self
            }),
    {
        CreateVNetRequest {
            fork_config: ForkConfig { block_number: Some(block), ..self.fork_config },
            ..self
        }
    }

    /// Overrides the chain id; only the virtual network configuration
    /// changes, the forked network id stays as it is.
    pub fn chain_id(self, chain_id: u64) -> (r: Self)
        ensures
            r == (CreateVNetRequest {
                virtual_network_config: VirtualNetworkConfig {
                    chain_id,
                    ..self.virtual_network_config
                },
                ..self
            }),
    {
        CreateVNetRequest {
            virtual_network_config: VirtualNetworkConfig {
                chain_id,
                ..self.virtual_network_config
            },
            ..self
        }
    }

    /// Sets the base fee per gas of the virtual network.
    pub fn base_fee_per_gas(self, fee: u64) -> (r: Self)
        ensures
            r == (CreateVNetRequest {
                virtual_network_config: VirtualNetworkConfig {
                    base_fee_per_gas: Some(fee),
                    ..self.virtual_network_config
                },
                ..self
            }),
    {
        CreateVNetRequest {
            virtual_network_config: VirtualNetworkConfig {
                base_fee_per_gas: Some(fee),
                ..self.virtual_network_config
            },
            ..self
        }
    }

    /// Enables or disables state sync from the parent network.
    pub fn sync_state(self, enabled: bool) -> (r: Self)
        ensures
            r == (CreateVNetRequest {
                sync_state_config: Some(SyncStateConfig { enabled }),
                ..self
            }),
    {
        CreateVNetRequest { sync_state_config: Some(SyncStateConfig { enabled }), ..self }
    }

    /// Configures the explorer page.
    pub fn explorer_page(self, enabled: bool, verification_visibility: &str) -> (r: Self)
        ensures
            r.explorer_page_config matches Some(c) && c.enabled == enabled
                && c.verification_visibility@ == verification_visibility@,
            r.slug == self.slug,
            r.display_name == self.display_name,
            r.fork_config == self.fork_config,
            r.virtual_network_config == self.virtual_network_config,
            r.sync_state_config == self.sync_state_config,
    {
        CreateVNetRequest {
            explorer_page_config: Some(
                ExplorerPageConfig {
                    enabled,
                    verification_visibility: verification_visibility.to_owned(),
                },
            ),
            ..self
        }
    }
}

/// One RPC endpoint of a VNet, as the service names it.
#[derive(Debug, Clone)]
pub struct RpcEndpoint {
    pub name: String,
    pub url: String,
}

/// An endpoint name that announces the public RPC: it contains `public`,
/// compared case-insensitively.
pub open spec fn is_public_rpc(name: Seq<char>) -> bool {
    contains_token(name, "public"@)
}

/// An endpoint name that announces the admin RPC: it contains `admin`,
/// compared case-insensitively.
pub open spec fn is_admin_rpc(name: Seq<char>) -> bool {
    contains_token(name, "admin"@)
}

/// The RPC endpoints of a VNet, in the unordered list the service returned.
#[derive(Debug, Clone)]
pub struct VNetRpcs {
    pub endpoints: Vec<RpcEndpoint>,
}

impl VNetRpcs {
    /// The URL of the first endpoint whose name contains `public`
    /// case-insensitively; nothing when no endpoint matches.
    pub fn public(&self) -> (r: Option<&str>)
        ensures
            match r {
                Some(u) => exists|i: int|
                    0 <= i < self.endpoints@.len() && is_public_rpc(
                        (#[trigger] self.endpoints@[i]).name@,
                    ) && u@ == self.endpoints@[i].url@ && (forall|j: int|
                        0 <= j < i ==> !is_public_rpc((#[trigger] self.endpoints@[j]).name@)),
                None => forall|i: int|
                    0 <= i < self.endpoints@.len() ==> !is_public_rpc(
                        (#[trigger] self.endpoints@[i]).name@,
                    ),
            },
    {
        let n = self.endpoints.len();
        for i in 0..n
            invariant
                n == self.endpoints@.len(),
                forall|j: int|
                    0 <= j < i ==> !is_public_rpc((#[trigger] self.endpoints@[j]).name@),
        {
            if contains_fold(self.endpoints[i].name.as_str(), "public") {
                return Some(self.endpoints[i].url.as_str());
            }
        }
        None
    }

    /// The URL of the first endpoint whose name contains `admin`
    /// case-insensitively; nothing when no endpoint matches.
    pub fn admin(&self) -> (r: Option<&str>)
        ensures
            match r {
                Some(u) => exists|i: int|
                    0 <= i < self.endpoints@.len() && is_admin_rpc(
                        (#[trigger] self.endpoints@[i]).name@,
                    ) && u@ == self.endpoints@[i].url@ && (forall|j: int|
                        0 <= j < i ==> !is_admin_rpc((#[trigger] self.endpoints@[j]).name@)),
                None => forall|i: int|
                    0 <= i < self.endpoints@.len() ==> !is_admin_rpc(
                        (#[trigger] self.endpoints@[i]).name@,
                    ),
            },
    {
        let n = self.endpoints.len();
        for i in 0..n
            invariant
                n == self.endpoints@.len(),
                forall|j: int| 0 <= j < i ==> !is_admin_rpc((#[trigger] self.endpoints@[j]).name@),
        {
            if contains_fold(self.endpoints[i].name.as_str(), "admin") {
                return Some(self.endpoints[i].url.as_str());
            }
        }
        None
    }
}

impl Default for VNetRpcs {
    fn default() -> (r: Self)
        ensures
            r.endpoints@.len() == 0,
    {
        VNetRpcs { endpoints: Vec::new() }
    }
}

/// A VNet as responses describe it.
#[derive(Debug, Clone)]
pub struct VNet {
    pub id: String,
    pub slug: String,
    pub display_name: String,
    pub fork_config: ForkConfigResponse,
    pub virtual_network_config: VirtualNetworkConfigResponse,
    pub rpcs: Option<VNetRpcs>,
    pub created_at: Option<String>,
    pub status: Option<String>,
}

/// Response to creating a VNet: the created VNet itself.
#[derive(Debug, Clone)]
pub struct CreateVNetResponse {
    pub vnet: VNet,
}

/// Query for listing VNets; unset fields are not sent.
#[derive(Debug, Clone)]
pub struct ListVNetsQuery {
    pub slug: Option<String>,
    pub page: Option<u32>,
    pub per_page: Option<u32>,
}

impl ListVNetsQuery {
    /// An empty query: no filter, default pagination.
    pub fn new() -> (r: Self)
        ensures
            r.slug is None,
            r.page is None,
            r.per_page is None,
    {
        ListVNetsQuery { slug: None, page: None, per_page: None }
    }

    /// Filters by slug (partial match, applied by the service).
    pub fn slug(self, slug: &str) -> (r: Self)
        ensures
            r.slug matches Some(s) && s@ == slug@,
            r.page == self.page,
            r.per_page == self.per_page,
    {
        ListVNetsQuery { slug: Some(slug.to_owned()), ..self }
    }

    /// Sets the page number.
    pub fn page(self, page: u32) -> (r: Self)
        ensures
            r == (ListVNetsQuery { page: Some(page), ..self }),
    {
        ListVNetsQuery { page: Some(page), ..self }
    }

    /// Sets the number of results per page.
    pub fn per_page(self, per_page: u32) -> (r: Self)
        ensures
            r == (ListVNetsQuery { per_page: Some(per_page), ..self }),
    {
        ListVNetsQuery { per_page: Some(per_page), ..self }
    }
}

impl Default for ListVNetsQuery {
    fn default() -> (r: Self)
        ensures
            r.slug is None,
            r.page is None,
            r.per_page is None,
    {
        ListVNetsQuery::new()
    }
}

/// Request to delete VNets; one id or many, always the same list shape.
#[derive(Debug, Clone)]
pub struct DeleteVNetsRequest {
    pub ids: Vec<String>,
}

impl DeleteVNetsRequest {
    /// Deletes one VNet: the same shape as `multiple` with a one-element
    /// list.
    pub fn single(id: &str) -> (r: Self)
        ensures
            r.ids@.len() == 1,
            r.ids@[0]@ == id@,
    {
        let mut ids: Vec<String> = Vec::new();
        ids.push(id.to_owned());
        DeleteVNetsRequest { ids }
    }

    /// Deletes the listed VNets.
    pub fn multiple(ids: Vec<String>) -> (r: Self)
        ensures
            r.ids == ids,
    {
        DeleteVNetsRequest { ids }
    }
}

/// Request to fork an existing VNet into a new one; the source VNet is not
/// changed.
#[derive(Debug, Clone)]
pub struct ForkVNetRequest {
    pub source_vnet_id: String,
    pub slug: String,
    pub display_name: String,
    /// Block on the source VNet's timeline; unset means its latest block.
    pub block_number: Option<u64>,
}

impl ForkVNetRequest {
    /// A fork of `source_vnet_id` at its latest block.
    pub fn new(source_vnet_id: &str, slug: &str, display_name: &str) -> (r: Self)
        ensures
            r.source_vnet_id@ == source_vnet_id@,
            r.slug@ == slug@,
            r.display_name@ == display_name@,
            r.block_number is None,
    {
        ForkVNetRequest {
            source_vnet_id: source_vnet_id.to_owned(),
            slug: slug.to_owned(),
            display_name: display_name.to_owned(),
            block_number: None,
        }
    }

    /// Forks from a specific block of the source VNet.
    pub fn block_number(self, block: u64) -> (r: Self)
        ensures
            r == (ForkVNetRequest { block_number: Some(block), ..self }),
    {
        ForkVNetRequest { block_number: Some(block), ..self }
    }
}

/// A transaction on a VNet; only the hash is always present, the service may
/// return partial data depending on confirmation state.
#[derive(Debug, Clone)]
pub struct VNetTransaction {
    pub hash: String,
    pub block_number: Option<u64>,
    pub from: Option<String>,
    pub to: Option<String>,
    pub value: Option<String>,
    pub gas_used: Option<u64>,
    pub status: Option<bool>,
    pub timestamp: Option<String>,
}

/// Response to listing VNet transactions.
#[derive(Debug, Clone)]
pub struct ListVNetTransactionsResponse {
    pub transactions: Vec<VNetTransaction>,
}

/// Query for listing VNet transactions; unset fields are not sent.
#[derive(Debug, Clone)]
pub struct ListVNetTransactionsQuery {
    pub address: Option<String>,
    pub status: Option<bool>,
    pub page: Option<u32>,
    pub per_page: Option<u32>,
}

impl ListVNetTransactionsQuery {
    /// An empty query: no filter, default pagination.
    pub fn new() -> (r: Self)
        ensures
            r.address is None,
            r.status is None,
            r.page is None,
            r.per_page is None,
    {
        ListVNetTransactionsQuery { address: None, status: None, page: None, per_page: None }
    }

    /// Filters by sender or recipient address.
    pub fn address(self, address: &str) -> (r: Self)
        ensures
            r.address matches Some(a) && a@ == address@,
            r.status == self.status,
            r.page == self.page,
            r.per_page == self.per_page,
    {
        ListVNetTransactionsQuery { address: Some(address.to_owned()), ..self }
    }

    /// Filters by transaction status.
    pub fn status(self, status: bool) -> (r: Self)
        ensures
            r == (ListVNetTransactionsQuery { status: Some(status), ..self }),
    {
        ListVNetTransactionsQuery { status: Some(status), ..self }
    }

    /// Sets the page number.
    pub fn page(self, page: u32) -> (r: Self)
        ensures
            r == (ListVNetTransactionsQuery { page: Some(page), ..self }),
    {
        ListVNetTransactionsQuery { page: Some(page), ..self }
    }

    /// Sets the number of results per page.
    pub fn per_page(self, per_page: u32) -> (r: Self)
        ensures
            r == (ListVNetTransactionsQuery { per_page: Some(per_page), ..self }),
    {
        ListVNetTransactionsQuery { per_page: Some(per_page), ..self }
    }
}

impl Default for ListVNetTransactionsQuery {
    fn default() -> (r: Self)
        ensures
            r.address is None,
            r.status is None,
            r.page is None,
            r.per_page is None,
    {
        ListVNetTransactionsQuery::new()
    }
}

/// Request to simulate a transaction on a VNet, with EIP-1559 or legacy fee
/// fields.
#[derive(Debug, Clone)]
pub struct VNetSimulationRequest {
    pub from: String,
    pub to: String,
    pub input: String,
    pub value: Option<String>,
    pub gas: Option<u64>,
    pub gas_price: Option<String>,
    pub max_fee_per_gas: Option<String>,
    pub max_priority_fee_per_gas: Option<String>,
    /// Transaction type: 0 legacy, 1 access list, 2 EIP-1559.
    pub transaction_type: Option<u8>,
    pub nonce: Option<u64>,
}

impl VNetSimulationRequest {
    /// A fresh request with only sender, recipient and calldata.
    pub fn new(from: &str, to: &str, input: &str) -> (r: Self)
        ensures
            r.from@ == from@,
            r.to@ == to@,
            r.input@ == input@,
            r.value is None,
            r.gas is None,
            r.gas_price is None,
            r.max_fee_per_gas is None,
            r.max_priority_fee_per_gas is None,
            r.transaction_type is None,
            r.nonce is None,
    {
        VNetSimulationRequest {
            from: from.to_owned(),
            to: to.to_owned(),
            input: input.to_owned(),
            value: None,
            gas: None,
            gas_price: None,
            max_fee_per_gas: None,
            max_priority_fee_per_gas: None,
            transaction_type: None,
            nonce: None,
        }
    }

    /// Sets the value in wei.
    pub fn value(self, wei: &str) -> (r: Self)
        ensures
            r.value matches Some(v) && v@ == wei@,
            r == (VNetSimulationRequest { value: r.value, ..self }),
    {
        VNetSimulationRequest { value: Some(wei.to_owned()), ..self }
    }

    /// Sets the gas limit.
    pub fn gas(self, gas: u64) -> (r: Self)
        ensures
            r == (VNetSimulationRequest { gas: Some(gas), ..self }),
    {
        VNetSimulationRequest { gas: Some(gas), ..self }
    }

    /// Sets the max fee per gas and thereby marks the transaction EIP-1559
    /// (type 2).
    pub fn max_fee_per_gas(self, fee: &str) -> (r: Self)
        ensures
            r.max_fee_per_gas matches Some(f) && f@ == fee@,
            r.transaction_type == Some(2u8),
            r == (VNetSimulationRequest {
                max_fee_per_gas: r.max_fee_per_gas,
                transaction_type: Some(2u8),
                ..self
            }),
    {
        VNetSimulationRequest {
            max_fee_per_gas: Some(fee.to_owned()),
            transaction_type: Some(2),
            ..self
        }
    }

    /// Sets the max priority fee per gas and thereby marks the transaction
    /// EIP-1559 (type 2).
    pub fn max_priority_fee_per_gas(self, fee: &str) -> (r: Self)
        ensures
            r.max_priority_fee_per_gas matches Some(f) && f@ == fee@,
            r.transaction_type == Some(2u8),
            r == (VNetSimulationRequest {
                max_priority_fee_per_gas: r.max_priority_fee_per_gas,
                transaction_type: Some(2u8),
                ..self
            }),
    {
        VNetSimulationRequest {
            max_priority_fee_per_gas: Some(fee.to_owned()),
            transaction_type: Some(2),
            ..self
        }
    }

    /// Sets the transaction type explicitly.
    pub fn transaction_type(self, tx_type: u8) -> (r: Self)
        ensures
            r == (VNetSimulationRequest { transaction_type: Some(tx_type), ..self }),
    {
        VNetSimulationRequest { transaction_type: Some(tx_type), ..self }
    }

    /// Sets the nonce.
    pub fn nonce(self, nonce: u64) -> (r: Self)
        ensures
            r == (VNetSimulationRequest { nonce: Some(nonce), ..self }),
    {
        VNetSimulationRequest { nonce: Some(nonce), ..self }
    }
}

/// Request to update a VNet; every field is optional, unset fields stay as
/// they are.
#[derive(Debug, Clone)]
pub struct UpdateVNetRequest {
    pub display_name: Option<String>,
    pub slug: Option<String>,
    pub sync_state_config: Option<SyncStateConfig>,
    pub explorer_page_config: Option<ExplorerPageConfig>,
}

impl UpdateVNetRequest {
    /// An update that changes nothing yet.
    pub fn new() -> (r: Self)
        ensures
            r.display_name is None,
            r.slug is None,
            r.sync_state_config is None,
            r.explorer_page_config is None,
    {
        UpdateVNetRequest {
            display_name: None,
            slug: None,
            sync_state_config: None,
            explorer_page_config: None,
        }
    }

    /// Sets a new display name.
    pub fn display_name(self, name: &str) -> (r: Self)
        ensures
            r.display_name matches Some(n) && n@ == name@,
            r.slug == self.slug,
            r.sync_state_config == self.sync_state_config,
            r.explorer_page_config == self.explorer_page_config,
    {
        UpdateVNetRequest { display_name: Some(name.to_owned()), ..self }
    }

    /// Sets a new slug.
    pub fn slug(self, slug: &str) -> (r: Self)
        ensures
            r.slug matches Some(s) && s@ == slug@,
            r.display_name == self.display_name,
            r.sync_state_config == self.sync_state_config,
            r.explorer_page_config == self.explorer_page_config,
    {
        UpdateVNetRequest { slug: Some(slug.to_owned()), ..self }
    }

    /// Enables or disables state sync.
    pub fn sync_state(self, enabled: bool) -> (r: Self)
        ensures
            r == (UpdateVNetRequest {
                sync_state_config: Some(SyncStateConfig { enabled }),
                ..self
            }),
    {
        UpdateVNetRequest { sync_state_config: Some(SyncStateConfig { enabled }), ..self }
    }

    /// Configures the explorer page.
    pub fn explorer_page(self, enabled: bool, verification_visibility: &str) -> (r: Self)
        ensures
            r.explorer_page_config matches Some(c) && c.enabled == enabled
                && c.verification_visibility@ == verification_visibility@,
            r.display_name == self.display_name,
            r.slug == self.slug,
            r.sync_state_config == self.sync_state_config,
    {
        UpdateVNetRequest {
            explorer_page_config: Some(
                ExplorerPageConfig {
                    enabled,
                    verification_visibility: verification_visibility.to_owned(),
                },
            ),
            ..self
        }
    }
}

impl Default for UpdateVNetRequest {
    fn default() -> (r: Self)
        ensures
            r.display_name is None,
            r.slug is None,
            r.sync_state_config is None,
            r.explorer_page_config is None,
    {
        UpdateVNetRequest::new()
    }
}

/// One item of an EIP-2930 access list: an address and the storage keys the
/// transaction will touch there.
#[derive(Debug, Clone)]
pub struct AccessListItem {
    pub address: String,
    pub storage_keys: Vec<String>,
}

/// Request to send (not merely simulate) a transaction on a VNet; either a
/// calldata-bearing call or a plain value transfer.
#[derive(Debug, Clone)]
pub struct SendVNetTransactionRequest {
    pub from: String,
    /// May be empty for contract creation.
    pub to: String,
    pub input: Option<String>,
    pub value: Option<String>,
    pub gas: Option<u64>,
    pub gas_price: Option<String>,
    pub max_fee_per_gas: Option<String>,
    pub max_priority_fee_per_gas: Option<String>,
    pub access_list: Option<Vec<AccessListItem>>,
}

impl SendVNetTransactionRequest {
    /// A calldata-bearing call.
    pub fn new(from: &str, to: &str, input: &str) -> (r: Self)
        ensures
            r.from@ == from@,
            r.to@ == to@,
            r.input matches Some(i) && i@ == input@,
            r.value is None,
            r.gas is None,
            r.gas_price is None,
            r.max_fee_per_gas is None,
            r.max_priority_fee_per_gas is None,
            r.access_list is None,
    {
        SendVNetTransactionRequest {
            from: from.to_owned(),
            to: to.to_owned(),
            input: Some(input.to_owned()),
            value: None,
            gas: None,
            gas_price: None,
            max_fee_per_gas: None,
            max_priority_fee_per_gas: None,
            access_list: None,
        }
    }

    /// A plain value transfer: no calldata, just a wei amount.
    pub fn transfer(from: &str, to: &str, value: &str) -> (r: Self)
        ensures
            r.from@ == from@,
            r.to@ == to@,
            r.input is None,
            r.value matches Some(v) && v@ == value@,
            r.gas is None,
            r.gas_price is None,
            r.max_fee_per_gas is None,
            r.max_priority_fee_per_gas is None,
            r.access_list is None,
    {
        SendVNetTransactionRequest {
            from: from.to_owned(),
            to: to.to_owned(),
            input: None,
            value: Some(value.to_owned()),
            gas: None,
            gas_price: None,
            max_fee_per_gas: None,
            max_priority_fee_per_gas: None,
            access_list: None,
        }
    }

    /// Sets the value in wei.
    pub fn value(self, wei: &str) -> (r: Self)
        ensures
            r.value matches Some(v) && v@ == wei@,
            r == (SendVNetTransactionRequest { value: r.value, ..self }),
    {
        SendVNetTransactionRequest { value: Some(wei.to_owned()), ..self }
    }

    /// Sets the gas limit.
    pub fn gas(self, gas: u64) -> (r: Self)
        ensures
            r == (SendVNetTransactionRequest { gas: Some(gas), ..self }),
    {
        SendVNetTransactionRequest { gas: Some(gas), ..self }
    }

    /// Sets the gas price for legacy transactions.
    pub fn gas_price(self, price: &str) -> (r: Self)
        ensures
            r.gas_price matches Some(p) && p@ == price@,
            r == (SendVNetTransactionRequest { gas_price: r.gas_price, ..self }),
    {
        SendVNetTransactionRequest { gas_price: Some(price.to_owned()), ..self }
    }

    /// Sets the max fee per gas (EIP-1559).
    pub fn max_fee_per_gas(self, fee: &str) -> (r: Self)
        ensures
            r.max_fee_per_gas matches Some(f) && f@ == fee@,
            r == (SendVNetTransactionRequest { max_fee_per_gas: r.max_fee_per_gas, ..self }),
    {
        SendVNetTransactionRequest { max_fee_per_gas: Some(fee.to_owned()), ..self }
    }

    /// Sets the max priority fee per gas (EIP-1559).
    pub fn max_priority_fee_per_gas(self, fee: &str) -> (r: Self)
        ensures
            r.max_priority_fee_per_gas matches Some(f) && f@ == fee@,
            r == (SendVNetTransactionRequest {
                max_priority_fee_per_gas: r.max_priority_fee_per_gas,
                ..self
            }),
    {
        SendVNetTransactionRequest { max_priority_fee_per_gas: Some(fee.to_owned()), ..self }
    }

    /// Sets the EIP-2930 access list.
    pub fn access_list(self, list: Vec<AccessListItem>) -> (r: Self)
        ensures
            r == (SendVNetTransactionRequest { access_list: Some(list), ..self }),
    {
        SendVNetTransactionRequest { access_list: Some(list), ..self }
    }
}

} // verus!

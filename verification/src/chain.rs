//! Per-chain parameter table.

use crate::address::{address_from_hex, Address};
use crate::da::DAGasOracleType;
use crate::ratio::Ratio;
use crate::registry::ContractRegistry;
use std::sync::Arc;
use vstd::prelude::*;

verus! {

/// Strategy used to estimate priority fees on a chain.
#[derive(Clone, Copy, Debug, PartialEq, Eq, Structural)]
pub enum PriorityFeeOracleType {
    /// Ask the node provider for its suggested priority fee.
    Provider,
    /// Derive the fee from recent block gas usage.
    UsageBased,
}

impl Default for PriorityFeeOracleType {
    fn default() -> (kind: Self)
        ensures
            kind == PriorityFeeOracleType::Provider,
    {
        PriorityFeeOracleType::Provider
    }
}

/// Capability of a signature aggregator contract.
pub trait SignatureAggregator: Send + Sync {
    /// The address of the aggregator contract.
    fn address(&self) -> Address;
}

/// Capability of a submission proxy contract.
pub trait SubmissionProxy: Send + Sync {
    /// The address of the proxy contract.
    fn address(&self) -> Address;
}

/// Why a parameter table cannot be used.
#[derive(Clone, Copy, Debug, PartialEq, Eq, Structural)]
pub enum ConfigError {
    /// Data availability is priced but no oracle type is selected.
    MissingDaOracleType,
    /// Data availability is priced but the oracle contract address is zero.
    MissingDaOracleAddress,
    /// The Flashbots channel is enabled without a relay URL.
    MissingFlashbotsRelayUrl,
    /// The lower priority fee bound lies above the upper one.
    InvertedPriorityFeeBounds,
    /// The reorg history holds no block.
    EmptyChainHistory,
}

/// The constants, limits and feature switches of one chain.
#[derive(Clone)]
pub struct ChainSpec {
    /// Name for display, e.g. "Ethereum"; no logic depends on it.
    pub name: String,
    /// Chain id.
    pub id: u64,
    /// Entry point address for v0.6.
    pub entry_point_address_v0_6: Address,
    /// Entry point address for v0.7.
    pub entry_point_address_v0_7: Address,
    /// Address of the multicall3 contract.
    pub multicall3_address: Address,
    /// Overhead to account for the deposit storage and transfer during gas estimation.
    pub deposit_transfer_overhead: u64,
    /// The maximum size of a transaction in bytes.
    pub max_transaction_size_bytes: usize,
    /// The block gas limit.
    pub block_gas_limit: u64,
    /// Intrinsic gas cost of a transaction.
    pub transaction_intrinsic_gas: u64,
    /// Gas cost per user operation for v0.6.
    pub per_user_op_v0_6_gas: u64,
    /// Gas cost per user operation for v0.7.
    pub per_user_op_v0_7_gas: u64,
    /// Deploy overhead per user operation, for costs the entry point does not meter.
    pub per_user_op_deploy_overhead_gas: u64,
    /// Gas cost of one user operation word in a bundle transaction.
    pub per_user_op_word_gas: u64,
    /// Gas cost of a zero byte of calldata.
    pub calldata_zero_byte_gas: u64,
    /// Gas cost of a non-zero byte of calldata.
    pub calldata_non_zero_byte_gas: u64,
    /// Gas cost of a zero byte of calldata under floor pricing.
    pub calldata_floor_zero_byte_gas: u64,
    /// Gas cost of a non-zero byte of calldata under floor pricing.
    pub calldata_floor_non_zero_byte_gas: u64,
    /// True if data availability is priced in pre-verification gas.
    pub da_pre_verification_gas: bool,
    /// Pricing scheme of the gas oracle contract; must be set if data availability is priced.
    pub da_gas_oracle_type: DAGasOracleType,
    /// Address of the gas oracle contract.
    pub da_gas_oracle_contract_address: Address,
    /// True if data availability gas counts towards the gas limit.
    pub include_da_gas_in_gas_limit: bool,
    /// True if EIP-1559 is enabled, and thus priority fees are used.
    pub eip1559_enabled: bool,
    /// True if EIP-7702 is enabled.
    pub eip7702_enabled: bool,
    /// Strategy for estimating priority fees.
    pub priority_fee_oracle_type: PriorityFeeOracleType,
    /// Minimum max priority fee per gas for the network.
    pub min_max_priority_fee_per_gas: u64,
    /// Maximum max priority fee per gas for the network.
    pub max_max_priority_fee_per_gas: u64,
    /// Usage ratio of the chain from which it counts as congested.
    pub congestion_trigger_usage_ratio_threshold: Ratio,
    /// The longest time to wait before sending a bundle when no new block arrives.
    pub bundle_max_send_interval_millis: u64,
    /// True if the Flashbots channel is enabled on this chain.
    pub flashbots_enabled: bool,
    /// URL of the Flashbots relay; must be set if Flashbots is enabled.
    pub flashbots_relay_url: Option<String>,
    /// True if the bloXroute channel is enabled on this chain.
    pub bloxroute_enabled: bool,
    /// Number of blocks of history kept to handle reorgs.
    pub chain_history_size: u64,
    /// Registry of signature aggregators.
    pub signature_aggregators: Arc<ContractRegistry<Arc<dyn SignatureAggregator>>>,
    /// Registry of submission proxies.
    pub submission_proxies: Arc<ContractRegistry<Arc<dyn SubmissionProxy>>>,
}

/// Bytes of the canonical v0.6 entry point address.
pub open spec fn entry_point_v0_6_bytes() -> Seq<u8> {
    seq![
        0x5Fu8, 0xF1u8, 0x37u8, 0xD4u8, 0xB0u8, 0xFDu8, 0xCDu8, 0x49u8, 0xDCu8, 0xA3u8,
        0x0Cu8, 0x7Cu8, 0xF5u8, 0x7Eu8, 0x57u8, 0x8Au8, 0x02u8, 0x6Du8, 0x27u8, 0x89u8,
    ]
}

/// Bytes of the canonical v0.7 entry point address.
pub open spec fn entry_point_v0_7_bytes() -> Seq<u8> {
    seq![
        0x00u8, 0x00u8, 0x00u8, 0x00u8, 0x71u8, 0x72u8, 0x7Du8, 0xE2u8, 0x2Eu8, 0x5Eu8,
        0x9Du8, 0x8Bu8, 0xAFu8, 0x0Eu8, 0xDAu8, 0xC6u8, 0xF3u8, 0x7Du8, 0xA0u8, 0x32u8,
    ]
}

/// Bytes of the canonical multicall3 address.
pub open spec fn multicall3_bytes() -> Seq<u8> {
    seq![
        0xCAu8, 0x11u8, 0xBDu8, 0xE0u8, 0x59u8, 0x77u8, 0xB3u8, 0x63u8, 0x11u8, 0x67u8,
        0x02u8, 0x88u8, 0x62u8, 0xBEu8, 0x2Au8, 0x17u8, 0x39u8, 0x76u8, 0xCAu8, 0x11u8,
    ]
}

fn known_address(text: &str) -> (address: Address)
    requires
        address_from_hex(text@) is Some,
    ensures
        Some(address@) == address_from_hex(text@),
{
    Address::from_hex(text).unwrap()
}

fn entry_point_v0_6() -> (address: Address)
    ensures
        address@ == entry_point_v0_6_bytes(),
{
    proof {
        reveal_strlit("0x5FF137D4b0FDCD49DcA30c7CF57E578a026d2789");
    }
    let address = known_address("0x5FF137D4b0FDCD49DcA30c7CF57E578a026d2789");
    address
}

fn entry_point_v0_7() -> (address: Address)
    ensures
        address@ == entry_point_v0_7_bytes(),
{
    proof {
        reveal_strlit("0x0000000071727De22E5E9d8BAf0edAc6f37da032");
    }
    let address = known_address("0x0000000071727De22E5E9d8BAf0edAc6f37da032");
    address
}

fn multicall3() -> (address: Address)
    ensures
        address@ == multicall3_bytes(),
{
    proof {
        reveal_strlit("0xcA11bde05977b3631167028862bE2a173976CA11");
    }
    let address = known_address("0xcA11bde05977b3631167028862bE2a173976CA11");
    address
}

impl ChainSpec {
    /// Whether every parameter has its default value.
    pub open spec fn has_default_values(&self) -> bool {
        &&& self.name@ == "Unknown"@
        &&& self.id == 0
        &&& self.entry_point_address_v0_6@ == entry_point_v0_6_bytes()
        &&& self.entry_point_address_v0_7@ == entry_point_v0_7_bytes()
        &&& self.multicall3_address@ == multicall3_bytes()
        &&& self.deposit_transfer_overhead == 30_000
        &&& self.max_transaction_size_bytes == 131_072
        &&& self.block_gas_limit == 30_000_000
        &&& self.transaction_intrinsic_gas == 21_000
        &&& self.per_user_op_v0_6_gas == 18_300
        &&& self.per_user_op_v0_7_gas == 19_500
        &&& self.per_user_op_deploy_overhead_gas == 0
        &&& self.per_user_op_word_gas == 4
        &&& self.calldata_zero_byte_gas == 4
        &&& self.calldata_non_zero_byte_gas == 16
        &&& self.calldata_floor_zero_byte_gas == 0
        &&& self.calldata_floor_non_zero_byte_gas == 0
        &&& !self.da_pre_verification_gas
        &&& self.da_gas_oracle_type == DAGasOracleType::Unset
        &&& self.da_gas_oracle_contract_address@ == Seq::new(20, |i: int| 0u8)
        &&& !self.include_da_gas_in_gas_limit
        &&& self.eip1559_enabled
        &&& !self.eip7702_enabled
        &&& self.priority_fee_oracle_type == PriorityFeeOracleType::Provider
        &&& self.min_max_priority_fee_per_gas == 0
        &&& self.max_max_priority_fee_per_gas == u64::MAX
        &&& self.congestion_trigger_usage_ratio_threshold.parts_per_million == 750_000
        &&& self.bundle_max_send_interval_millis == 1000
        &&& !self.flashbots_enabled
        &&& self.flashbots_relay_url is None
        &&& !self.bloxroute_enabled
        &&& self.chain_history_size == 64
        &&& self.signature_aggregators@ == Map::<Seq<u8>, Arc<dyn SignatureAggregator>>::empty()
        &&& self.submission_proxies@ == Map::<Seq<u8>, Arc<dyn SubmissionProxy>>::empty()
    }

    /// The deposit transfer overhead.
    pub fn deposit_transfer_overhead(&self) -> (gas: u128)
        ensures
            gas == self.deposit_transfer_overhead,
    {
        self.deposit_transfer_overhead as u128
    }

    /// The transaction intrinsic gas.
    pub fn transaction_intrinsic_gas(&self) -> (gas: u128)
        ensures
            gas == self.transaction_intrinsic_gas,
    {
        self.transaction_intrinsic_gas as u128
    }

    /// The minimum max priority fee per gas.
    pub fn min_max_priority_fee_per_gas(&self) -> (fee: u128)
        ensures
            fee == self.min_max_priority_fee_per_gas,
    {
        self.min_max_priority_fee_per_gas as u128
    }

    /// The maximum max priority fee per gas.
    pub fn max_max_priority_fee_per_gas(&self) -> (fee: u128)
        ensures
            fee == self.max_max_priority_fee_per_gas,
    {
        self.max_max_priority_fee_per_gas as u128
    }

    /// The gas per user operation word.
    pub fn per_user_op_word_gas(&self) -> (gas: u128)
        ensures
            gas == self.per_user_op_word_gas,
    {
        self.per_user_op_word_gas as u128
    }

    /// The gas per v0.6 user operation.
    pub fn per_user_op_v0_6_gas(&self) -> (gas: u128)
        ensures
            gas == self.per_user_op_v0_6_gas,
    {
        self.per_user_op_v0_6_gas as u128
    }

    /// The gas per v0.7 user operation.
    pub fn per_user_op_v0_7_gas(&self) -> (gas: u128)
        ensures
            gas == self.per_user_op_v0_7_gas,
    {
        self.per_user_op_v0_7_gas as u128
    }

    /// The gas per zero byte of calldata.
    pub fn calldata_zero_byte_gas(&self) -> (gas: u128)
        ensures
            gas == self.calldata_zero_byte_gas,
    {
        self.calldata_zero_byte_gas as u128
    }

    /// The gas per non-zero byte of calldata.
    pub fn calldata_non_zero_byte_gas(&self) -> (gas: u128)
        ensures
            gas == self.calldata_non_zero_byte_gas,
    {
        self.calldata_non_zero_byte_gas as u128
    }

    /// The floor gas per zero byte of calldata.
    pub fn calldata_floor_zero_byte_gas(&self) -> (gas: u128)
        ensures
            gas == self.calldata_floor_zero_byte_gas,
    {
        self.calldata_floor_zero_byte_gas as u128
    }

    /// The floor gas per non-zero byte of calldata.
    pub fn calldata_floor_non_zero_byte_gas(&self) -> (gas: u128)
        ensures
            gas == self.calldata_floor_non_zero_byte_gas,
    {
        self.calldata_floor_non_zero_byte_gas as u128
    }

    /// The deploy overhead gas per user operation.
    pub fn per_user_op_deploy_overhead_gas(&self) -> (gas: u128)
        ensures
            gas == self.per_user_op_deploy_overhead_gas,
    {
        self.per_user_op_deploy_overhead_gas as u128
    }

    /// The block gas limit times `mult`, rounded down.
    pub fn block_gas_limit_mult(&self, mult: Ratio) -> (gas: u128)
        ensures
            gas == mult.of(self.block_gas_limit as int),
    {
        mult.apply(self.block_gas_limit)
    }

    /// Replaces the registry of signature aggregators.
    pub fn set_signature_aggregators(
        &mut self,
        signature_aggregators: Arc<ContractRegistry<Arc<dyn SignatureAggregator>>>,
    )
        ensures
            *final(self) == (ChainSpec { signature_aggregators, ..*old(self) }),
    {
        self.signature_aggregators = signature_aggregators;
    }

    /// The signature aggregator registered at an address, if any.
    pub fn get_signature_aggregator(&self, address: &Address) -> (aggregator: Option<
        &Arc<dyn SignatureAggregator>,
    >)
        ensures
            match aggregator {
                Some(found) => self.signature_aggregators@.contains_key(address@) && *found
                    == self.signature_aggregators@[address@],
                None => !self.signature_aggregators@.contains_key(address@),
            },
    {
        self.signature_aggregators.get(address)
    }

    /// Replaces the registry of submission proxies.
    pub fn set_submission_proxies(
        &mut self,
        submission_proxies: Arc<ContractRegistry<Arc<dyn SubmissionProxy>>>,
    )
        ensures
            *final(self) == (ChainSpec { submission_proxies, ..*old(self) }),
    {
        self.submission_proxies = submission_proxies;
    }

    /// The submission proxy registered at an address, if any.
    pub fn get_submission_proxy(&self, address: &Address) -> (proxy: Option<
        &Arc<dyn SubmissionProxy>,
    >)
        ensures
            match proxy {
                Some(found) => self.submission_proxies@.contains_key(address@) && *found
                    == self.submission_proxies@[address@],
                None => !self.submission_proxies@.contains_key(address@),
            },
    {
        self.submission_proxies.get(address)
    }

    /// The addresses of all registered submission proxies, each once.
    pub fn known_proxy_addresses(&self) -> (addresses: Vec<Address>)
        ensures
            addresses@.len() == self.submission_proxies@.dom().len(),
            forall|key: Seq<u8>|
                self.submission_proxies@.contains_key(key) <==> exists|i: int|
                    0 <= i < addresses@.len() && (#[trigger] addresses@[i])@ == key,
            forall|i: int, j: int|
                0 <= i < addresses@.len() && 0 <= j < addresses@.len() && i != j
                    ==> addresses@[i]@ != addresses@[j]@,
    {
        self.submission_proxies.addresses()
    }

    /// Whether operations sent to `entry_point` may carry EIP-7702 authorizations.
    pub fn supports_eip7702(&self, entry_point: Address) -> (supported: bool)
        ensures
            supported == (self.eip7702_enabled || entry_point@
                == self.entry_point_address_v0_7@),
    {
        self.eip7702_enabled || entry_point == self.entry_point_address_v0_7
    }

    /// Whether the table can be used: the first defect found, in the order of the variants
    /// of [`ConfigError`], or none.
    pub open spec fn defect(&self) -> Option<ConfigError> {
        if self.da_pre_verification_gas && self.da_gas_oracle_type == DAGasOracleType::Unset {
            Some(ConfigError::MissingDaOracleType)
        } else if self.da_pre_verification_gas && self.da_gas_oracle_contract_address@
            == Seq::new(20, |i: int| 0u8) {
            Some(ConfigError::MissingDaOracleAddress)
        } else if self.flashbots_enabled && self.flashbots_relay_url is None {
            Some(ConfigError::MissingFlashbotsRelayUrl)
        } else if self.min_max_priority_fee_per_gas > self.max_max_priority_fee_per_gas {
            Some(ConfigError::InvertedPriorityFeeBounds)
        } else if self.chain_history_size == 0 {
            Some(ConfigError::EmptyChainHistory)
        } else {
            None
        }
    }

    /// Checks the table once, before it is shared.
    pub fn validate(&self) -> (checked: Result<(), ConfigError>)
        ensures
            match checked {
                Ok(_) => self.defect() is None,
                Err(error) => self.defect() == Some(error),
            },
    {
        if self.da_pre_verification_gas && self.da_gas_oracle_type == DAGasOracleType::Unset {
            Err(ConfigError::MissingDaOracleType)
        } else if self.da_pre_verification_gas && self.da_gas_oracle_contract_address.is_zero() {
            Err(ConfigError::MissingDaOracleAddress)
        } else if self.flashbots_enabled && self.flashbots_relay_url.is_none() {
            Err(ConfigError::MissingFlashbotsRelayUrl)
        } else if self.min_max_priority_fee_per_gas > self.max_max_priority_fee_per_gas {
            Err(ConfigError::InvertedPriorityFeeBounds)
        } else if self.chain_history_size == 0 {
            Err(ConfigError::EmptyChainHistory)
        } else {
            Ok(())
        }
    }
}

impl Default for ChainSpec {
    fn default() -> (spec: Self)
        ensures
            spec.has_default_values(),
    {
        ChainSpec {
            name: "Unknown".to_owned(),
            id: 0,
            block_gas_limit: 30_000_000,
            entry_point_address_v0_6: entry_point_v0_6(),
            entry_point_address_v0_7: entry_point_v0_7(),
            multicall3_address: multicall3(),
            deposit_transfer_overhead: 30_000,
            transaction_intrinsic_gas: 21_000,
            per_user_op_v0_6_gas: 18_300,
            per_user_op_v0_7_gas: 19_500,
            per_user_op_deploy_overhead_gas: 0,
            per_user_op_word_gas: 4,
            calldata_zero_byte_gas: 4,
            calldata_non_zero_byte_gas: 16,
            calldata_floor_zero_byte_gas: 0,
            calldata_floor_non_zero_byte_gas: 0,
            eip1559_enabled: true,
            eip7702_enabled: false,
            da_pre_verification_gas: false,
            da_gas_oracle_type: DAGasOracleType::Unset,
            da_gas_oracle_contract_address: Address::zero(),
            include_da_gas_in_gas_limit: false,
            priority_fee_oracle_type: PriorityFeeOracleType::Provider,
            min_max_priority_fee_per_gas: 0,
            max_max_priority_fee_per_gas: u64::MAX,
            congestion_trigger_usage_ratio_threshold: Ratio::from_parts_per_million(750_000),
            max_transaction_size_bytes: 131072,
            bundle_max_send_interval_millis: 1000,
            flashbots_enabled: false,
            flashbots_relay_url: None,
            bloxroute_enabled: false,
            chain_history_size: 64,
            signature_aggregators: Arc::new(ContractRegistry::new()),
            submission_proxies: Arc::new(ContractRegistry::new()),
        }
    }
}

/// Fallible conversion of a value with the help of the chain's parameters.
pub trait TryFromWithSpec<T>: Sized {
    /// What a failed conversion reports.
    type Error;

    /// Converts `value` with the help of the chain's parameters.
    fn try_from_with_spec(value: T, chain_spec: &ChainSpec) -> Result<Self, Self::Error>;
}

/// Fallible conversion into a value with the help of the chain's parameters.
pub trait TryIntoWithSpec<T>: Sized {
    /// What a failed conversion reports.
    type Error;

    /// Converts `self` with the help of the chain's parameters.
    fn try_into_with_spec(self, chain_spec: &ChainSpec) -> Result<T, Self::Error>;
}

impl<T, U> TryIntoWithSpec<U> for T where U: TryFromWithSpec<T> {
    type Error = U::Error;

    /// Whatever `U::try_from_with_spec` makes of `self`.
    fn try_into_with_spec(self, chain_spec: &ChainSpec) -> (converted: Result<U, U::Error>)
        ensures
            call_ensures(U::try_from_with_spec, (self, chain_spec), converted),
    {
        U::try_from_with_spec(self, chain_spec)
    }
}

/// Conversion of a value with the help of the chain's parameters.
pub trait FromWithSpec<T>: Sized {
    /// Converts `value` with the help of the chain's parameters.
    fn from_with_spec(value: T, chain_spec: &ChainSpec) -> Self;
}

/// Conversion into a value with the help of the chain's parameters.
pub trait IntoWithSpec<T>: Sized {
    /// Converts `self` with the help of the chain's parameters.
    fn into_with_spec(self, chain_spec: &ChainSpec) -> T;
}

impl<T, U> IntoWithSpec<U> for T where U: FromWithSpec<T> {
    /// Whatever `U::from_with_spec` makes of `self`.
    fn into_with_spec(self, chain_spec: &ChainSpec) -> (converted: U)
        ensures
            call_ensures(U::from_with_spec, (self, chain_spec), converted),
    {
        U::from_with_spec(self, chain_spec)
    }
}

} // verus!

//! Data-availability gas pricing.

use crate::address::Address;
use crate::chain::ChainSpec;
use vstd::prelude::*;

verus! {

/// The pricing scheme of the on-chain oracle that prices calldata data availability.
#[derive(Clone, Copy, Debug, PartialEq, Eq, Structural)]
pub enum DAGasOracleType {
    /// No oracle: the chain does not price data availability separately.
    Unset,
    /// The Arbitrum Nitro node interface.
    ArbitrumNitro,
    /// The Optimism Bedrock gas price oracle.
    OptimismBedrock,
    /// The Bedrock formula evaluated locally from cached oracle state.
    LocalBedrock,
    /// The Nitro formula evaluated locally from cached oracle state.
    CachedNitro,
}

impl Default for DAGasOracleType {
    fn default() -> (kind: Self)
        ensures
            kind == DAGasOracleType::Unset,
    {
        DAGasOracleType::Unset
    }
}

/// Why no data-availability charge can be given.
#[derive(Clone, Copy, Debug, PartialEq, Eq, Structural)]
pub enum DaError {
    /// The on-chain oracle could not be read. Retryable.
    OracleUnavailable,
}

/// The data-availability charge of an operation for the oracle's answer: nothing on a chain
/// that does not price data availability, else the oracle's price; a missing answer is an
/// error only where the price is needed.
pub open spec fn da_charged(chain_spec: &ChainSpec, answer: Option<u128>) -> Result<
    u128,
    DaError,
> {
    if !chain_spec.da_pre_verification_gas {
        Ok(0u128)
    } else {
        match answer {
            Some(gas) => Ok(gas),
            None => Err(DaError::OracleUnavailable),
        }
    }
}

/// Whom to ask for the price of calldata.
#[derive(Clone, Copy, Debug)]
pub struct OracleQuery {
    /// Address of the oracle contract.
    pub oracle_address: Address,
    /// Pricing scheme of the oracle.
    pub oracle_type: DAGasOracleType,
}

/// The oracle to ask on this chain: none where data availability is not priced.
pub fn oracle_query(chain_spec: &ChainSpec) -> (query: Option<OracleQuery>)
    ensures
        query is Some <==> chain_spec.da_pre_verification_gas,
        query matches Some(q) ==> q.oracle_address == chain_spec.da_gas_oracle_contract_address
            && q.oracle_type == chain_spec.da_gas_oracle_type,
{
    if chain_spec.da_pre_verification_gas {
        Some(
            OracleQuery {
                oracle_address: chain_spec.da_gas_oracle_contract_address,
                oracle_type: chain_spec.da_gas_oracle_type,
            },
        )
    } else {
        None
    }
}

/// Turns the oracle's answer for one operation into its data-availability charge.
pub fn da_charge(chain_spec: &ChainSpec, answer: Option<u128>) -> (charge: Result<u128, DaError>)
    ensures
        charge == da_charged(chain_spec, answer),
{
    if !chain_spec.da_pre_verification_gas {
        Ok(0)
    } else {
        match answer {
            Some(gas) => Ok(gas),
            None => Err(DaError::OracleUnavailable),
        }
    }
}

} // verus!

//! Gas cost model: from the shape of an operation to the gas it is charged.

use crate::chain::{ChainSpec, FromWithSpec, IntoWithSpec};
use vstd::prelude::*;

verus! {

/// Version of the entry point contract that an operation targets.
#[derive(Clone, Copy, Debug, PartialEq, Eq, Structural)]
pub enum EntryPointVersion {
    /// Entry point v0.6.
    V0_6,
    /// Entry point v0.7.
    V0_7,
}

/// What the gas of an operation depends on.
#[derive(Clone, Debug)]
pub struct OperationShape {
    /// The calldata bytes of the operation.
    pub calldata: Vec<u8>,
    /// Length in bytes of the operation as encoded in a bundle transaction.
    pub encoded_len: usize,
    /// True if the operation deploys its sender.
    pub deploys: bool,
    /// True if executing the operation touches the deposit balance.
    pub touches_deposit: bool,
    /// The entry point version the operation targets.
    pub entry_point_version: EntryPointVersion,
}

/// Gas charged to one operation, by category.
#[derive(Clone, Copy, Debug, PartialEq, Eq, Structural)]
pub struct GasBreakdown {
    /// Intrinsic gas of the transaction that carries the operation.
    pub intrinsic: u128,
    /// Fixed overhead per operation, by entry point version.
    pub per_operation: u128,
    /// Overhead of the deployment step, zero without one.
    pub deploy_overhead: u128,
    /// Calldata gas under standard pricing.
    pub calldata: u128,
    /// Calldata gas under floor pricing.
    pub calldata_floor: u128,
    /// Calldata gas that is charged: the larger of the two.
    pub charged_calldata: u128,
    /// Gas for the words the operation occupies in the bundle.
    pub words: u128,
    /// Data-availability charge.
    pub da: u128,
    /// Deposit transfer overhead, zero if the deposit is not touched.
    pub deposit_transfer: u128,
}

/// Number of zero bytes in `data`.
pub open spec fn zero_bytes(data: Seq<u8>) -> nat
    decreases data.len(),
{
    if data.len() == 0 {
        0
    } else {
        zero_bytes(data.drop_last()) + if data.last() == 0u8 {
            1nat
        } else {
            0nat
        }
    }
}

/// Gas of `data` when a zero byte costs `zero_cost` and any other byte `non_zero_cost`.
pub open spec fn calldata_cost(data: Seq<u8>, zero_cost: int, non_zero_cost: int) -> int {
    zero_bytes(data) * zero_cost + (data.len() - zero_bytes(data)) * non_zero_cost
}

/// Calldata gas under standard pricing.
pub open spec fn standard_calldata_gas(chain_spec: &ChainSpec, data: Seq<u8>) -> int {
    calldata_cost(
        data,
        chain_spec.calldata_zero_byte_gas as int,
        chain_spec.calldata_non_zero_byte_gas as int,
    )
}

/// Calldata gas under floor pricing.
pub open spec fn floor_calldata_gas(chain_spec: &ChainSpec, data: Seq<u8>) -> int {
    calldata_cost(
        data,
        chain_spec.calldata_floor_zero_byte_gas as int,
        chain_spec.calldata_floor_non_zero_byte_gas as int,
    )
}

/// The larger of two quantities.
pub open spec fn larger(a: int, b: int) -> int {
    if a >= b {
        a
    } else {
        b
    }
}

/// Calldata gas that is charged: the larger of standard and floor pricing.
pub open spec fn charged_calldata_gas(chain_spec: &ChainSpec, data: Seq<u8>) -> int {
    larger(standard_calldata_gas(chain_spec, data), floor_calldata_gas(chain_spec, data))
}

/// Number of 32-byte words that `encoded_len` bytes occupy, a started word counting whole.
pub open spec fn word_count(encoded_len: int) -> int {
    (encoded_len + 31) / 32
}

/// Fixed overhead of one operation for its entry point version.
pub open spec fn per_operation_gas(chain_spec: &ChainSpec, version: EntryPointVersion) -> int {
    match version {
        EntryPointVersion::V0_6 => chain_spec.per_user_op_v0_6_gas as int,
        EntryPointVersion::V0_7 => chain_spec.per_user_op_v0_7_gas as int,
    }
}

/// The gas of an operation of the given shape on the given chain, with `da_gas` as its
/// data-availability charge.
pub open spec fn gas_breakdown(shape: OperationShape, chain_spec: &ChainSpec, da_gas: u128)
    -> GasBreakdown {
    GasBreakdown {
        intrinsic: chain_spec.transaction_intrinsic_gas as u128,
        per_operation: per_operation_gas(chain_spec, shape.entry_point_version) as u128,
        deploy_overhead: if shape.deploys {
            chain_spec.per_user_op_deploy_overhead_gas as u128
        } else {
            0u128
        },
        calldata: standard_calldata_gas(chain_spec, shape.calldata@) as u128,
        calldata_floor: floor_calldata_gas(chain_spec, shape.calldata@) as u128,
        charged_calldata: charged_calldata_gas(chain_spec, shape.calldata@) as u128,
        words: (word_count(shape.encoded_len as int) * chain_spec.per_user_op_word_gas) as u128,
        da: da_gas,
        deposit_transfer: if shape.touches_deposit {
            chain_spec.deposit_transfer_overhead as u128
        } else {
            0u128
        },
    }
}

/// A count of zero bytes never exceeds the length.
pub proof fn lemma_zero_bytes_bounded(data: Seq<u8>)
    ensures
        zero_bytes(data) <= data.len(),
    decreases data.len(),
{
    if data.len() > 0 {
        lemma_zero_bytes_bounded(data.drop_last());
    }
}

/// A calldata cost with 64-bit unit costs over at most 2^64 - 1 bytes fits in 128 bits.
pub proof fn lemma_calldata_cost_fits(data: Seq<u8>, zero_cost: u64, non_zero_cost: u64)
    requires
        data.len() <= u64::MAX,
    ensures
        0 <= calldata_cost(data, zero_cost as int, non_zero_cost as int) <= u128::MAX,
{
    lemma_zero_bytes_bounded(data);
    let z = zero_bytes(data) as int;
    let n = data.len() as int;
    let a = zero_cost as int;
    let b = non_zero_cost as int;
    assert(0 <= z * a + (n - z) * b <= 0xFFFF_FFFF_FFFF_FFFF * 0xFFFF_FFFF_FFFF_FFFF)
        by (nonlinear_arith)
        requires
            0 <= z <= n <= 0xFFFF_FFFF_FFFF_FFFF,
            0 <= a <= 0xFFFF_FFFF_FFFF_FFFF,
            0 <= b <= 0xFFFF_FFFF_FFFF_FFFF,
    ;
}

/// Counts the zero bytes of `data`.
pub fn count_zero_bytes(data: &[u8]) -> (count: usize)
    ensures
        count == zero_bytes(data@),
{
    let mut count: usize = 0;
    let mut i: usize = 0;
    while i < data.len()
        invariant
            i <= data@.len(),
            count == zero_bytes(data@.take(i as int)),
            count <= i,
        decreases data@.len() - i,
    {
        assert(data@.take(i + 1).drop_last() =~= data@.take(i as int));
        if data[i] == 0 {
            count += 1;
        }
        i += 1;
    }
    assert(data@.take(i as int) =~= data@);
    count
}

/// Prices `data` at `zero_cost` per zero byte and `non_zero_cost` per other byte.
pub fn price_calldata(data: &[u8], zero_cost: u64, non_zero_cost: u64) -> (gas: u128)
    ensures
        gas == calldata_cost(data@, zero_cost as int, non_zero_cost as int),
{
    let zeros = count_zero_bytes(data);
    proof {
        lemma_zero_bytes_bounded(data@);
    }
    let others = data.len() - zeros;
    proof {
        lemma_calldata_cost_fits(data@, zero_cost, non_zero_cost);
        let z = zeros as int;
        let o = others as int;
        let a = zero_cost as int;
        let b = non_zero_cost as int;
        assert(0 <= z * a <= z * a + o * b && 0 <= o * b) by (nonlinear_arith)
            requires
                0 <= z,
                0 <= o,
                0 <= a,
                0 <= b,
        ;
    }
    (zeros as u128) * (zero_cost as u128) + (others as u128) * (non_zero_cost as u128)
}

/// Counts the 32-byte words that `encoded_len` bytes occupy.
pub fn count_words(encoded_len: usize) -> (words: usize)
    ensures
        words == word_count(encoded_len as int),
{
    if encoded_len % 32 == 0 {
        encoded_len / 32
    } else {
        encoded_len / 32 + 1
    }
}

impl OperationShape {
    /// Whether two shapes agree in every attribute.
    pub open spec fn agrees_with(&self, other: &OperationShape) -> bool {
        &&& self.calldata@ == other.calldata@
        &&& self.encoded_len == other.encoded_len
        &&& self.deploys == other.deploys
        &&& self.touches_deposit == other.touches_deposit
        &&& self.entry_point_version == other.entry_point_version
    }

    /// Decides whether two shapes agree in every attribute.
    pub fn same_as(&self, other: &OperationShape) -> (same: bool)
        ensures
            same == self.agrees_with(other),
    {
        if self.encoded_len != other.encoded_len || self.deploys != other.deploys
            || self.touches_deposit != other.touches_deposit || self.entry_point_version
            != other.entry_point_version || self.calldata.len() != other.calldata.len() {
            return false;
        }
        let mut i: usize = 0;
        while i < self.calldata.len()
            invariant
                i <= self.calldata@.len(),
                self.calldata@.len() == other.calldata@.len(),
                forall|j: int| 0 <= j < i ==> self.calldata@[j] == other.calldata@[j],
            decreases self.calldata@.len() - i,
        {
            if self.calldata[i] != other.calldata[i] {
                return false;
            }
            i += 1;
        }
        assert(self.calldata@ =~= other.calldata@);
        true
    }
}

impl GasBreakdown {
    /// Computes the gas of an operation of the given shape, with `da_gas` as its
    /// data-availability charge. The result depends on nothing but the arguments.
    pub fn compute(shape: &OperationShape, chain_spec: &ChainSpec, da_gas: u128) -> (gas:
        GasBreakdown)
        ensures
            gas == gas_breakdown(*shape, chain_spec, da_gas),
            gas.charged_calldata == larger(gas.calldata as int, gas.calldata_floor as int),
            gas.calldata == standard_calldata_gas(chain_spec, shape.calldata@),
            gas.calldata_floor == floor_calldata_gas(chain_spec, shape.calldata@),
            gas.words == word_count(shape.encoded_len as int) * chain_spec.per_user_op_word_gas,
    {
        let calldata = price_calldata(
            shape.calldata.as_slice(),
            chain_spec.calldata_zero_byte_gas,
            chain_spec.calldata_non_zero_byte_gas,
        );
        let calldata_floor = price_calldata(
            shape.calldata.as_slice(),
            chain_spec.calldata_floor_zero_byte_gas,
            chain_spec.calldata_floor_non_zero_byte_gas,
        );
        let words = count_words(shape.encoded_len);
        assert(0 <= words * chain_spec.per_user_op_word_gas <= u128::MAX) by (nonlinear_arith)
            requires
                0 <= words <= u64::MAX,
                0 <= chain_spec.per_user_op_word_gas <= u64::MAX,
        ;
        GasBreakdown {
            intrinsic: chain_spec.transaction_intrinsic_gas(),
            per_operation: match shape.entry_point_version {
                EntryPointVersion::V0_6 => chain_spec.per_user_op_v0_6_gas(),
                EntryPointVersion::V0_7 => chain_spec.per_user_op_v0_7_gas(),
            },
            deploy_overhead: if shape.deploys {
                chain_spec.per_user_op_deploy_overhead_gas()
            } else {
                0
            },
            calldata,
            calldata_floor,
            charged_calldata: if calldata >= calldata_floor {
                calldata
            } else {
                calldata_floor
            },
            words: (words as u128) * chain_spec.per_user_op_word_gas(),
            da: da_gas,
            deposit_transfer: if shape.touches_deposit {
                chain_spec.deposit_transfer_overhead()
            } else {
                0
            },
        }
    }

    /// What the operation adds to the gas of a bundle that holds it: every category but the
    /// intrinsic gas, which a bundle pays once. The data-availability charge counts only if
    /// `include_da` is set.
    pub open spec fn marginal(&self, include_da: bool) -> int {
        self.per_operation + self.deploy_overhead + self.charged_calldata + self.words
            + self.deposit_transfer + if include_da {
            self.da as int
        } else {
            0
        }
    }

    /// The whole charge of the operation sent alone, the data-availability charge included.
    pub open spec fn total(&self) -> int {
        self.intrinsic + self.marginal(true)
    }

    /// The gas that counts towards the gas limit when the operation is sent alone.
    pub open spec fn limit_total(&self, include_da: bool) -> int {
        self.intrinsic + self.marginal(include_da)
    }

    /// Computes [`Self::marginal`], or `None` if it exceeds 128 bits.
    pub fn checked_marginal(&self, include_da: bool) -> (sum: Option<u128>)
        ensures
            match sum {
                Some(gas) => gas == self.marginal(include_da),
                None => self.marginal(include_da) > u128::MAX,
            },
    {
        let da: u128 = if include_da {
            self.da
        } else {
            0
        };
        let sum = self.per_operation.checked_add(self.deploy_overhead)?;
        let sum = sum.checked_add(self.charged_calldata)?;
        let sum = sum.checked_add(self.words)?;
        let sum = sum.checked_add(self.deposit_transfer)?;
        sum.checked_add(da)
    }

    /// Computes [`Self::total`], or `None` if it exceeds 128 bits.
    pub fn checked_total(&self) -> (sum: Option<u128>)
        ensures
            match sum {
                Some(gas) => gas == self.total(),
                None => self.total() > u128::MAX,
            },
    {
        let marginal = self.checked_marginal(true)?;
        self.intrinsic.checked_add(marginal)
    }

    /// Computes [`Self::limit_total`], or `None` if it exceeds 128 bits.
    pub fn checked_limit_total(&self, include_da: bool) -> (sum: Option<u128>)
        ensures
            match sum {
                Some(gas) => gas == self.limit_total(include_da),
                None => self.limit_total(include_da) > u128::MAX,
            },
    {
        let marginal = self.checked_marginal(include_da)?;
        self.intrinsic.checked_add(marginal)
    }
}

impl<'a> FromWithSpec<&'a OperationShape> for GasBreakdown {
    /// The gas of an operation before any data-availability charge.
    fn from_with_spec(value: &'a OperationShape, chain_spec: &ChainSpec) -> (converted:
        GasBreakdown)
        ensures
            converted == gas_breakdown(*value, chain_spec, 0),
    {
        GasBreakdown::compute(value, chain_spec, 0)
    }
}

/// Converting a shape into its gas through [`crate::chain::IntoWithSpec`] gives the gas
/// before any data-availability charge.
pub fn gas_of_shape(shape: &OperationShape, chain_spec: &ChainSpec) -> (gas: GasBreakdown)
    ensures
        gas == gas_breakdown(*shape, chain_spec, 0),
{
    shape.into_with_spec(chain_spec)
}

/// The calldata gas charged is the larger of the standard and the floor price, whatever the
/// unit costs; with floor costs of zero it is the standard price.
pub proof fn lemma_charged_calldata_is_maximum(chain_spec: &ChainSpec, data: Seq<u8>)
    ensures
        charged_calldata_gas(chain_spec, data) >= standard_calldata_gas(chain_spec, data),
        charged_calldata_gas(chain_spec, data) >= floor_calldata_gas(chain_spec, data),
        charged_calldata_gas(chain_spec, data) == standard_calldata_gas(chain_spec, data)
            || charged_calldata_gas(chain_spec, data) == floor_calldata_gas(chain_spec, data),
        chain_spec.calldata_floor_zero_byte_gas == 0 && chain_spec.calldata_floor_non_zero_byte_gas
            == 0 ==> charged_calldata_gas(chain_spec, data) == standard_calldata_gas(
            chain_spec,
            data,
        ),
{
    lemma_zero_bytes_bounded(data);
    let z = zero_bytes(data) as int;
    let o = data.len() - z;
    let a = chain_spec.calldata_zero_byte_gas as int;
    let b = chain_spec.calldata_non_zero_byte_gas as int;
    assert(z * a + o * b >= 0) by (nonlinear_arith)
        requires
            z >= 0,
            o >= 0,
            a >= 0,
            b >= 0,
    ;
}

/// Gas is a function of shape and parameters: two shapes that agree in every attribute,
/// priced under parameters that agree in every gas constant, get the same breakdown.
pub proof fn lemma_gas_is_deterministic(
    first: OperationShape,
    second: OperationShape,
    first_spec: &ChainSpec,
    second_spec: &ChainSpec,
    da_gas: u128,
)
    requires
        first.agrees_with(&second),
        first_spec.transaction_intrinsic_gas == second_spec.transaction_intrinsic_gas,
        first_spec.per_user_op_v0_6_gas == second_spec.per_user_op_v0_6_gas,
        first_spec.per_user_op_v0_7_gas == second_spec.per_user_op_v0_7_gas,
        first_spec.per_user_op_deploy_overhead_gas == second_spec.per_user_op_deploy_overhead_gas,
        first_spec.per_user_op_word_gas == second_spec.per_user_op_word_gas,
        first_spec.calldata_zero_byte_gas == second_spec.calldata_zero_byte_gas,
        first_spec.calldata_non_zero_byte_gas == second_spec.calldata_non_zero_byte_gas,
        first_spec.calldata_floor_zero_byte_gas == second_spec.calldata_floor_zero_byte_gas,
        first_spec.calldata_floor_non_zero_byte_gas
            == second_spec.calldata_floor_non_zero_byte_gas,
        first_spec.deposit_transfer_overhead == second_spec.deposit_transfer_overhead,
    ensures
        gas_breakdown(first, first_spec, da_gas) == gas_breakdown(second, second_spec, da_gas),
{
}

} // verus!

use bundle_engine::chain::ChainSpec;
use bundle_engine::gas::{count_words, count_zero_bytes, gas_of_shape, price_calldata, EntryPointVersion, GasBreakdown, OperationShape};

fn calldata(zeros: usize, others: usize) -> Vec<u8> {
    let mut data = vec![0u8; zeros];
    data.extend(std::iter::repeat(0x5a).take(others));
    data
}

fn shape_of(data: Vec<u8>) -> OperationShape {
    OperationShape {
        calldata: data,
        encoded_len: 0,
        deploys: false,
        touches_deposit: false,
        entry_point_version: EntryPointVersion::V0_7,
    }
}

#[test]
fn calldata_of_100_zero_and_50_other_bytes_costs_1200() {
    let spec = ChainSpec {
        block_gas_limit: 30_000_000,
        calldata_zero_byte_gas: 4,
        calldata_non_zero_byte_gas: 16,
        calldata_floor_zero_byte_gas: 0,
        calldata_floor_non_zero_byte_gas: 0,
        ..ChainSpec::default()
    };
    let gas = GasBreakdown::compute(&shape_of(calldata(100, 50)), &spec, 0);
    assert_eq!(gas.calldata, 1200);
    assert_eq!(gas.calldata_floor, 0);
    assert_eq!(gas.charged_calldata, 1200);
}

#[test]
fn charged_calldata_is_the_larger_price() {
    let floor_wins = ChainSpec {
        calldata_floor_zero_byte_gas: 10,
        calldata_floor_non_zero_byte_gas: 40,
        ..ChainSpec::default()
    };
    let gas = GasBreakdown::compute(&shape_of(calldata(3, 2)), &floor_wins, 0);
    assert_eq!(gas.calldata, 3 * 4 + 2 * 16);
    assert_eq!(gas.calldata_floor, 3 * 10 + 2 * 40);
    assert_eq!(gas.charged_calldata, 110);
    let mixed = ChainSpec {
        calldata_floor_zero_byte_gas: 10,
        calldata_floor_non_zero_byte_gas: 10,
        ..ChainSpec::default()
    };
    let mostly_zero = GasBreakdown::compute(&shape_of(calldata(9, 1)), &mixed, 0);
    assert_eq!((mostly_zero.calldata, mostly_zero.calldata_floor), (52, 100));
    assert_eq!(mostly_zero.charged_calldata, 100);
    let mostly_other = GasBreakdown::compute(&shape_of(calldata(1, 9)), &mixed, 0);
    assert_eq!((mostly_other.calldata, mostly_other.calldata_floor), (148, 100));
    assert_eq!(mostly_other.charged_calldata, 148);
    let equal = ChainSpec {
        calldata_floor_zero_byte_gas: 4,
        calldata_floor_non_zero_byte_gas: 16,
        ..ChainSpec::default()
    };
    let same = GasBreakdown::compute(&shape_of(calldata(5, 5)), &equal, 0);
    assert_eq!(same.charged_calldata, same.calldata);
    assert_eq!(same.charged_calldata, same.calldata_floor);
    let empty = GasBreakdown::compute(&shape_of(Vec::new()), &floor_wins, 0);
    assert_eq!((empty.calldata, empty.calldata_floor, empty.charged_calldata), (0, 0, 0));
}

#[test]
fn equal_shapes_get_equal_gas() {
    let spec = ChainSpec { per_user_op_deploy_overhead_gas: 700, ..ChainSpec::default() };
    let again = ChainSpec { name: "Other".to_string(), id: 9, ..spec.clone() };
    let first = OperationShape {
        calldata: calldata(17, 300),
        encoded_len: 1000,
        deploys: true,
        touches_deposit: true,
        entry_point_version: EntryPointVersion::V0_6,
    };
    let second = first.clone();
    let gas = GasBreakdown::compute(&first, &spec, 55);
    assert_eq!(gas, GasBreakdown::compute(&first, &spec, 55));
    assert_eq!(gas, GasBreakdown::compute(&second, &again, 55));
    assert_eq!(
        gas,
        GasBreakdown {
            intrinsic: 21_000,
            per_operation: 18_300,
            deploy_overhead: 700,
            calldata: 17 * 4 + 300 * 16,
            calldata_floor: 0,
            charged_calldata: 17 * 4 + 300 * 16,
            words: 32 * 4,
            da: 55,
            deposit_transfer: 30_000,
        }
    );
}

#[test]
fn categories_follow_the_shape() {
    let spec = ChainSpec { per_user_op_deploy_overhead_gas: 700, ..ChainSpec::default() };
    let plain = GasBreakdown::compute(&shape_of(Vec::new()), &spec, 0);
    assert_eq!(plain.intrinsic, 21_000);
    assert_eq!(plain.per_operation, 19_500);
    assert_eq!(plain.deploy_overhead, 0);
    assert_eq!(plain.deposit_transfer, 0);
    assert_eq!(plain.words, 0);
    let v0_6 = OperationShape { entry_point_version: EntryPointVersion::V0_6, ..shape_of(Vec::new()) };
    assert_eq!(GasBreakdown::compute(&v0_6, &spec, 0).per_operation, 18_300);
    let deploying = OperationShape { deploys: true, ..shape_of(Vec::new()) };
    assert_eq!(GasBreakdown::compute(&deploying, &spec, 0).deploy_overhead, 700);
    let depositing = OperationShape { touches_deposit: true, ..shape_of(Vec::new()) };
    assert_eq!(GasBreakdown::compute(&depositing, &spec, 0).deposit_transfer, 30_000);
    assert_eq!(gas_of_shape(&depositing, &spec), GasBreakdown::compute(&depositing, &spec, 0));
}

#[test]
fn a_started_word_counts_whole() {
    assert_eq!(count_words(0), 0);
    assert_eq!(count_words(1), 1);
    assert_eq!(count_words(32), 1);
    assert_eq!(count_words(33), 2);
    assert_eq!(count_words(64), 2);
    assert_eq!(count_words(usize::MAX), usize::MAX / 32 + 1);
    let spec = ChainSpec::default();
    let shape = OperationShape { encoded_len: 65, ..shape_of(Vec::new()) };
    assert_eq!(GasBreakdown::compute(&shape, &spec, 0).words, 3 * 4);
}

#[test]
fn zero_bytes_are_counted() {
    assert_eq!(count_zero_bytes(&[]), 0);
    assert_eq!(count_zero_bytes(&[0]), 1);
    assert_eq!(count_zero_bytes(&[1]), 0);
    assert_eq!(count_zero_bytes(&[0, 255, 0, 0, 7]), 3);
    assert_eq!(price_calldata(&[0, 255, 0, 0, 7], 4, 16), 3 * 4 + 2 * 16);
    assert_eq!(price_calldata(&[0, 255], u64::MAX, u64::MAX), 2 * (u64::MAX as u128));
    assert_eq!(price_calldata(&[0, 255], 0, 0), 0);
}

#[test]
fn totals_add_the_categories() {
    let spec = ChainSpec::default();
    let shape = OperationShape {
        calldata: calldata(100, 50),
        encoded_len: 64,
        deploys: false,
        touches_deposit: true,
        entry_point_version: EntryPointVersion::V0_7,
    };
    let gas = GasBreakdown::compute(&shape, &spec, 1_000);
    let marginal_without_da = 19_500 + 1200 + 8 + 30_000;
    assert_eq!(gas.checked_marginal(false), Some(marginal_without_da));
    assert_eq!(gas.checked_marginal(true), Some(marginal_without_da + 1_000));
    assert_eq!(gas.checked_total(), Some(21_000 + marginal_without_da + 1_000));
    assert_eq!(gas.checked_limit_total(false), Some(21_000 + marginal_without_da));
    assert_eq!(gas.checked_limit_total(true), Some(21_000 + marginal_without_da + 1_000));
}

#[test]
fn totals_beyond_128_bits_are_none() {
    let spec = ChainSpec::default();
    let gas = GasBreakdown::compute(&shape_of(Vec::new()), &spec, u128::MAX);
    assert_eq!(gas.checked_marginal(true), None);
    assert_eq!(gas.checked_total(), None);
    assert_eq!(gas.checked_limit_total(true), None);
    assert_eq!(gas.checked_marginal(false), Some(19_500));
    assert_eq!(gas.checked_limit_total(false), Some(40_500));
    let edge = GasBreakdown::compute(&shape_of(Vec::new()), &spec, u128::MAX - 19_500);
    assert_eq!(edge.checked_marginal(true), Some(u128::MAX));
    assert_eq!(edge.checked_total(), None);
}

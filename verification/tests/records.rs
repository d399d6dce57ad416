use gastap::height::{previous_height, OffsetOutOfRange};
use gastap::metadata::{ConversionError, MetadataRecord, SchemaVersion, V0Metadata, V1Metadata};

fn v1(seed: u64) -> V1Metadata {
    V1Metadata {
        new_scaled_exec_price: seed,
        l2_block_height: 7,
        new_scaled_da_gas_price: seed + 1,
        gas_price_factor: 100,
        total_da_rewards: u128::MAX,
        latest_known_total_da_cost: 3,
        last_profit: i128::MIN,
        second_to_last_profit: -4,
        latest_da_cost_per_byte: 5,
        unrecorded_block_bytes: 6,
    }
}

fn v0(seed: u64) -> V0Metadata {
    V0Metadata {
        new_exec_price: seed,
        _min_exec_gas_price: 1,
        _exec_gas_price_change_percent: 2,
        l2_block_height: 9,
        _l2_block_fullness_threshold_percent: 50,
    }
}

#[test]
fn as_v1_returns_the_payload_of_a_v1_record() {
    let payload = v1(42);
    let record = MetadataRecord::V1(payload);
    assert_eq!(record.as_v1(), Ok(payload));
    assert_eq!(record.as_v1().unwrap().total_da_rewards, u128::MAX);
    assert_eq!(record.as_v1().unwrap().last_profit, i128::MIN);
    assert_eq!(record.as_v1().unwrap().gas_price_factor, 100);
}

#[test]
fn as_v1_turns_down_a_v0_record() {
    let record = MetadataRecord::V0(v0(42));
    assert_eq!(
        record.as_v1(),
        Err(ConversionError::SchemaMismatch { found: SchemaVersion::V0 })
    );
}

#[test]
fn as_v1_tells_payloads_apart() {
    assert_ne!(MetadataRecord::V1(v1(1)).as_v1(), Ok(v1(2)));
}

#[test]
fn version_names_the_schema() {
    assert_eq!(MetadataRecord::V0(v0(1)).version(), SchemaVersion::V0);
    assert_eq!(MetadataRecord::V1(v1(1)).version(), SchemaVersion::V1);
}

#[test]
fn records_print_as_tagged_payloads() {
    let text = format!("{:?}", MetadataRecord::V1(v1(3)));
    assert!(text.starts_with("V1(V1Metadata { new_scaled_exec_price: 3, l2_block_height: 7,"));
    assert!(text.contains("gas_price_factor: 100"));
    let text = format!("{:?}", MetadataRecord::V0(v0(3)));
    assert!(text.starts_with("V0(V0Metadata { new_exec_price: 3, _min_exec_gas_price: 1,"));
}

#[test]
fn previous_height_goes_back_exactly() {
    assert_eq!(previous_height(100, 10), Ok(90));
    assert_eq!(previous_height(100, 0), Ok(100));
    assert_eq!(previous_height(100, 100), Ok(0));
    assert_eq!(previous_height(5, 5), Ok(0));
    assert_eq!(previous_height(0, 0), Ok(0));
    assert_eq!(previous_height(u32::MAX, 1), Ok(u32::MAX - 1));
}

#[test]
fn previous_height_never_wraps() {
    assert_eq!(
        previous_height(100, 150),
        Err(OffsetOutOfRange { anchor: 100, number_of_blocks: 150 })
    );
    assert_eq!(
        previous_height(100, 101),
        Err(OffsetOutOfRange { anchor: 100, number_of_blocks: 101 })
    );
    assert_eq!(
        previous_height(0, 1),
        Err(OffsetOutOfRange { anchor: 0, number_of_blocks: 1 })
    );
    assert_eq!(
        previous_height(5, u32::MAX),
        Err(OffsetOutOfRange { anchor: 5, number_of_blocks: u32::MAX })
    );
}

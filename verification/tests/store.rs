use gastap::metadata::{MetadataRecord, V0Metadata, V1Metadata};
use gastap::store::{MetadataStore, WriteError};

fn v1(seed: u64) -> MetadataRecord {
    MetadataRecord::V1(V1Metadata {
        new_scaled_exec_price: seed,
        l2_block_height: 0,
        new_scaled_da_gas_price: 0,
        gas_price_factor: 1,
        total_da_rewards: 0,
        latest_known_total_da_cost: 0,
        last_profit: 0,
        second_to_last_profit: 0,
        latest_da_cost_per_byte: 0,
        unrecorded_block_bytes: 0,
    })
}

fn v0(seed: u64) -> MetadataRecord {
    MetadataRecord::V0(V0Metadata {
        new_exec_price: seed,
        _min_exec_gas_price: 0,
        _exec_gas_price_change_percent: 0,
        l2_block_height: 0,
        _l2_block_fullness_threshold_percent: 0,
    })
}

#[test]
fn a_new_store_holds_nothing() {
    let store = MetadataStore::new();
    assert_eq!(store.latest_height(), None);
    assert_eq!(store.get_recorded_height(), None);
    assert_eq!(store.get_metadata(0), None);
    assert_eq!(store.get_metadata(u32::MAX), None);
}

#[test]
fn get_metadata_finds_exactly_what_was_written() {
    let mut store = MetadataStore::new();
    assert_eq!(store.set_metadata(10, v1(10)), Ok(()));
    assert_eq!(store.set_metadata(12, v0(12)), Ok(()));
    assert_eq!(store.set_metadata(0, v1(0)), Ok(()));
    assert_eq!(store.get_metadata(10), Some(v1(10)));
    assert_eq!(store.get_metadata(12), Some(v0(12)));
    assert_eq!(store.get_metadata(0), Some(v1(0)));
}

#[test]
fn get_metadata_never_takes_a_neighbour() {
    let mut store = MetadataStore::new();
    assert_eq!(store.set_metadata(10, v1(10)), Ok(()));
    assert_eq!(store.set_metadata(12, v1(12)), Ok(()));
    assert_eq!(store.get_metadata(9), None);
    assert_eq!(store.get_metadata(11), None);
    assert_eq!(store.get_metadata(13), None);
}

#[test]
fn latest_height_follows_rising_writes() {
    let mut store = MetadataStore::new();
    assert_eq!(store.set_metadata(3, v1(3)), Ok(()));
    assert_eq!(store.latest_height(), Some(3));
    assert_eq!(store.set_metadata(4, v1(4)), Ok(()));
    assert_eq!(store.latest_height(), Some(4));
    assert_eq!(store.set_metadata(u32::MAX, v1(5)), Ok(()));
    assert_eq!(store.latest_height(), Some(u32::MAX));
}

#[test]
fn latest_height_stays_for_a_lower_write() {
    let mut store = MetadataStore::new();
    assert_eq!(store.set_metadata(8, v1(8)), Ok(()));
    assert_eq!(store.set_metadata(2, v1(2)), Ok(()));
    assert_eq!(store.latest_height(), Some(8));
    assert_eq!(store.get_metadata(2), Some(v1(2)));
}

#[test]
fn latest_height_zero_is_a_height() {
    let mut store = MetadataStore::new();
    assert_eq!(store.set_metadata(0, v1(0)), Ok(()));
    assert_eq!(store.latest_height(), Some(0));
}

#[test]
fn a_written_record_is_never_replaced() {
    let mut store = MetadataStore::new();
    assert_eq!(store.set_metadata(6, v1(1)), Ok(()));
    assert_eq!(
        store.set_metadata(6, v1(2)),
        Err(WriteError::AlreadyWritten { height: 6 })
    );
    assert_eq!(
        store.set_metadata(6, v0(3)),
        Err(WriteError::AlreadyWritten { height: 6 })
    );
    assert_eq!(store.get_metadata(6), Some(v1(1)));
    assert_eq!(store.latest_height(), Some(6));
}

#[test]
fn recorded_height_is_unmoved_by_writes() {
    let mut store = MetadataStore::new();
    let mut height: u32 = 0;
    while height < 50 {
        assert_eq!(store.set_metadata(height, v1(u64::from(height))), Ok(()));
        assert_eq!(store.get_recorded_height(), None);
        height += 1;
    }
    store.set_recorded_height(1234);
    while height < 100 {
        assert_eq!(store.set_metadata(height, v1(u64::from(height))), Ok(()));
        assert_eq!(store.get_recorded_height(), Some(1234));
        height += 1;
    }
    assert_eq!(store.set_metadata(7, v0(0)), Err(WriteError::AlreadyWritten { height: 7 }));
    assert_eq!(store.get_recorded_height(), Some(1234));
}

#[test]
fn the_table_is_unmoved_by_the_recorded_height() {
    let mut store = MetadataStore::new();
    store.set_recorded_height(9);
    assert_eq!(store.latest_height(), None);
    assert_eq!(store.get_metadata(9), None);
    assert_eq!(store.set_metadata(4, v1(4)), Ok(()));
    store.set_recorded_height(100);
    assert_eq!(store.latest_height(), Some(4));
    assert_eq!(store.get_metadata(4), Some(v1(4)));
    assert_eq!(store.get_metadata(100), None);
    store.set_recorded_height(1);
    assert_eq!(store.get_recorded_height(), Some(1));
    assert_eq!(store.latest_height(), Some(4));
}

#[test]
fn a_clone_holds_the_same() {
    let mut store = MetadataStore::new();
    assert_eq!(store.set_metadata(4, v1(4)), Ok(()));
    store.set_recorded_height(2);
    let copy = store.clone();
    assert_eq!(store.set_metadata(5, v1(5)), Ok(()));
    assert_eq!(copy.latest_height(), Some(4));
    assert_eq!(copy.get_metadata(4), Some(v1(4)));
    assert_eq!(copy.get_metadata(5), None);
    assert_eq!(copy.get_recorded_height(), Some(2));
}
